//! The topology of the exported mesh: the flattened index buffer that every
//! frame's geometry shares, and the names of the per-frame geometries.
use vstd::prelude::*;
use crate::decimal::{decimal, push_decimal};

verus! {

/// Three vertex indices, local to the material that draws the triangle.
#[derive(Clone, Copy, Debug, PartialEq, Eq)]
pub struct Triangle(pub u32, pub u32, pub u32);

/// A run of triangles in one level of detail: `len` triangles from `offset`.
#[derive(Clone, Copy, Debug, PartialEq, Eq)]
pub struct TriangleSlice {
    pub offset: u32,
    pub len: u32,
}

/// A material of the model. `triangles` holds one slice per level of detail;
/// `vertex_offset` is added to every index of the triangles it draws.
#[derive(Debug)]
pub struct Material {
    pub name: String,
    pub texture: u32,
    pub triangles: Vec<TriangleSlice>,
    pub vertex_offset: u32,
    pub vertex_count: u32,
    pub texture_name: String,
}

/// Corner `j` (0, 1 or 2) of a triangle.
pub open spec fn corner(t: Triangle, j: int) -> u32 {
    if j == 0 {
        t.0
    } else if j == 1 {
        t.1
    } else {
        t.2
    }
}

/// Whether the material draws triangle `t` of the highest level of detail.
pub open spec fn draws(m: Material, t: int) -> bool {
    let s = m.triangles@[0];
    s.offset <= t < s.offset + s.len
}

/// What a caller must guarantee of a material: it has a slice for the highest
/// level of detail, that slice lies inside `tris`, and every index it produces
/// fits in a `u32`.
pub open spec fn material_fits(m: Material, tris: Seq<Triangle>) -> bool {
    &&& m.triangles@.len() >= 1
    &&& m.triangles@[0].offset + m.triangles@[0].len <= tris.len()
    &&& forall|t: int, j: int|
        draws(m, t) && 0 <= j < 3 ==> m.vertex_offset + #[trigger] corner(tris[t], j) <= u32::MAX
}

/// Entry `p` of the flattened index buffer: corner `p % 3` of triangle `p / 3`,
/// offset by the vertex offset of the last material that draws that triangle,
/// or 0 where no material draws it.
pub open spec fn flat_index(tris: Seq<Triangle>, mats: Seq<Material>, p: int) -> int
    decreases mats.len(),
{
    if mats.len() == 0 {
        0
    } else if draws(mats.last(), p / 3) {
        mats.last().vertex_offset + corner(tris[p / 3], p % 3)
    } else {
        flat_index(tris, mats.drop_last(), p)
    }
}

/// The flattened index buffer as a sequence.
pub open spec fn flat_indices(tris: Seq<Triangle>, mats: Seq<Material>) -> Seq<int> {
    Seq::new(3 * tris.len(), |p: int| flat_index(tris, mats, p))
}

/// Builds the flattened index buffer from the triangles of the highest level
/// of detail and the materials that draw them: three entries per triangle, at
/// the triangle's own position.
pub fn flatten_indices(triangles: &Vec<Triangle>, materials: &Vec<Material>) -> (r: Vec<u32>)
    requires
        3 * triangles@.len() <= usize::MAX,
        forall|m: int| 0 <= m < materials@.len() ==> material_fits(#[trigger] materials@[m], triangles@),
    ensures
        r@.len() == 3 * triangles@.len(),
        forall|p: int| 0 <= p < r@.len() ==> r@[p] == flat_index(triangles@, materials@, p),
{
    let n = triangles.len();
    let mut r: Vec<u32> = Vec::new();
    while r.len() < 3 * n
        invariant
            3 * n <= usize::MAX,
            n == triangles@.len(),
            r@.len() <= 3 * n,
            forall|p: int| 0 <= p < r@.len() ==> r@[p] == 0,
        decreases 3 * n - r@.len(),
    {
        r.push(0);
    }
    proof {
        assert forall|p: int| 0 <= p < r@.len() implies r@[p] == flat_index(
            triangles@,
            materials@.take(0),
            p,
        ) by {}
    }
    let mut mi: usize = 0;
    while mi < materials.len()
        invariant
            3 * n <= usize::MAX,
            n == triangles@.len(),
            mi <= materials@.len(),
            r@.len() == 3 * n,
            forall|m: int| 0 <= m < materials@.len() ==> material_fits(#[trigger] materials@[m], triangles@),
            forall|p: int| 0 <= p < r@.len() ==> r@[p] == flat_index(triangles@, materials@.take(mi as int), p),
        decreases materials@.len() - mi,
    {
        let m = &materials[mi];
        assert(material_fits(materials@[mi as int], triangles@));
        let slice = m.triangles[0];
        let vo = m.vertex_offset;
        let start = slice.offset as usize;
        let end = slice.offset as usize + slice.len as usize;
        let mut t: usize = start;
        while t < end
            invariant
                3 * n <= usize::MAX,
                n == triangles@.len(),
                mi < materials@.len(),
                *m == materials@[mi as int],
                material_fits(*m, triangles@),
                slice == m.triangles@[0],
                vo == m.vertex_offset,
                start == slice.offset,
                end == slice.offset + slice.len,
                end <= n,
                start <= t <= end,
                r@.len() == 3 * n,
                forall|p: int|
                    0 <= p < r@.len() ==> r@[p] == (if start <= p / 3 < t {
                        vo + corner(triangles@[p / 3], p % 3)
                    } else {
                        flat_index(triangles@, materials@.take(mi as int), p)
                    }),
            decreases end - t,
        {
            let tri = triangles[t];
            assert(draws(*m, t as int));
            assert(vo + corner(triangles@[t as int], 0) <= u32::MAX);
            assert(vo + corner(triangles@[t as int], 1) <= u32::MAX);
            assert(vo + corner(triangles@[t as int], 2) <= u32::MAX);
            r.set(3 * t, vo + tri.0);
            r.set(3 * t + 1, vo + tri.1);
            r.set(3 * t + 2, vo + tri.2);
            t += 1;
        }
        proof {
            let next = materials@.take(mi + 1);
            assert(next.last() == *m);
            assert(next.drop_last() =~= materials@.take(mi as int));
            assert forall|p: int| 0 <= p < r@.len() implies r@[p] == flat_index(
                triangles@,
                next,
                p,
            ) by {
                assert(draws(*m, p / 3) == (start <= p / 3 < end));
            }
        }
        mi += 1;
    }
    assert(materials@.take(materials@.len() as int) =~= materials@);
    r
}

} // verus!

verus! {

/// The name of the geometry of frame `index`: the base name for the first
/// frame, `<base>_frame<index>` for the others.
pub open spec fn frame_name(base: Seq<char>, index: nat) -> Seq<char> {
    if index == 0 {
        base
    } else {
        base + "_frame"@ + decimal(index)
    }
}

/// Appends the name of the geometry of frame `index` to `out`.
pub fn push_frame_name(out: &mut String, base: &str, index: usize)
    ensures
        final(out)@ == old(out)@ + frame_name(base@, index as nat),
{
    out.append(base);
    if index > 0 {
        out.append("_frame");
        push_decimal(out, index as u64);
    }
    assert(out@ =~= old(out)@ + frame_name(base@, index as nat));
}

} // verus!

verus! {

/// The geometry of one frame, without its vertex attributes: its name and the
/// index buffer of its triangles.
#[derive(Debug)]
pub struct FrameMesh {
    pub name: String,
    pub polygons: Vec<u32>,
}

/// One record per frame, in frame order, each named after its frame and each
/// holding the same flattened index buffer: frames vary in vertex attributes
/// only, never in topology.
pub fn frame_meshes(
    base: &str,
    triangles: &Vec<Triangle>,
    materials: &Vec<Material>,
    frame_count: usize,
) -> (r: Vec<FrameMesh>)
    requires
        3 * triangles@.len() <= usize::MAX,
        forall|m: int| 0 <= m < materials@.len() ==> material_fits(#[trigger] materials@[m], triangles@),
    ensures
        r@.len() == frame_count,
        forall|i: int| 0 <= i < frame_count ==> (#[trigger] r@[i]).name@ == frame_name(base@, i as nat),
        forall|i: int| 0 <= i < frame_count ==> (#[trigger] r@[i]).polygons@.len() == 3 * triangles@.len(),
        forall|i: int, p: int|
            0 <= i < frame_count && 0 <= p < 3 * triangles@.len() ==> #[trigger] r@[i].polygons@[p]
                == flat_index(triangles@, materials@, p),
        forall|i: int, j: int|
            0 <= i < frame_count && 0 <= j < frame_count ==> (#[trigger] r@[i]).polygons@ == (#[trigger] r@[j]).polygons@,
{
    let polygons = flatten_indices(triangles, materials);
    let mut r: Vec<FrameMesh> = Vec::new();
    let mut i: usize = 0;
    while i < frame_count
        invariant
            i <= frame_count,
            r@.len() == i,
            forall|k: int| 0 <= k < i ==> (#[trigger] r@[k]).name@ == frame_name(base@, k as nat),
            forall|k: int| 0 <= k < i ==> (#[trigger] r@[k]).polygons@ == polygons@,
        decreases frame_count - i,
    {
        let mut name = String::new();
        push_frame_name(&mut name, base, i);
        assert(name@ =~= frame_name(base@, i as nat));
        let copy = polygons.clone();
        assert(copy@ =~= polygons@);
        r.push(FrameMesh { name, polygons: copy });
        i += 1;
    }
    r
}

/// The three entries that a vertex index gets in the `<p>` list: one each for
/// position, normal and texture coordinate, which share the index.
pub open spec fn index_entry(i: u32) -> Seq<char> {
    decimal(i as nat) + " "@ + decimal(i as nat) + " "@ + decimal(i as nat) + " "@
}

/// The content of the `<p>` list.
pub open spec fn index_entries(polygons: Seq<u32>) -> Seq<char> {
    Seq::new(polygons.len(), |k: int| index_entry(polygons[k])).flatten()
}

/// The part of a geometry before its `<p>` list.
pub open spec fn triangles_head(name: Seq<char>, triangle_count: nat) -> Seq<char> {
    "        <vertices id=\""@ + name + "-mesh-vertices\"><input semantic=\"POSITION\" source=\"#"@ + name
        + "-mesh-positions\"/></vertices>\n"@
        + "        <triangles count=\""@ + decimal(triangle_count) + "\">\n"@
        + "          <input semantic=\"VERTEX\" source=\"#"@ + name + "-mesh-vertices\" offset=\"0\"/>\n"@
        + "          <input semantic=\"NORMAL\" source=\"#"@ + name + "-mesh-normals\" offset=\"1\"/>\n"@
        + "          <input semantic=\"TEXCOORD\" source=\"#"@ + name + "-mesh-map\" offset=\"2\" set=\"0\"/>\n"@
        + "          <p>"@
}

/// The part of a geometry after its `<p>` list.
pub open spec fn triangles_tail() -> Seq<char> {
    "          </p>\n"@ + "        </triangles>\n"@ + "      </mesh>\n"@ + "    </geometry>"@
}

/// The end of a geometry element: the vertex binding, the triangle list and
/// the closing tags.
pub open spec fn triangles_spec(name: Seq<char>, polygons: Seq<u32>) -> Seq<char> {
    triangles_head(name, polygons.len() / 3) + index_entries(polygons) + triangles_tail()
}

pub(crate) proof fn lemma_flatten_step(s: Seq<Seq<char>>)
    requires
        s.len() > 0,
    ensures
        s.flatten() == s.drop_last().flatten() + s.last(),
{
    s.lemma_flatten_and_flatten_alt_are_equivalent();
    s.drop_last().lemma_flatten_and_flatten_alt_are_equivalent();
}

fn push_triangles_head(out: &mut String, name: &str, triangle_count: u64)
    ensures
        final(out)@ == old(out)@ + triangles_head(name@, triangle_count as nat),
{
    out.append("        <vertices id=\"");
    out.append(name);
    out.append("-mesh-vertices\"><input semantic=\"POSITION\" source=\"#");
    out.append(name);
    out.append("-mesh-positions\"/></vertices>\n");
    out.append("        <triangles count=\"");
    push_decimal(out, triangle_count);
    out.append("\">\n");
    out.append("          <input semantic=\"VERTEX\" source=\"#");
    out.append(name);
    out.append("-mesh-vertices\" offset=\"0\"/>\n");
    out.append("          <input semantic=\"NORMAL\" source=\"#");
    out.append(name);
    out.append("-mesh-normals\" offset=\"1\"/>\n");
    out.append("          <input semantic=\"TEXCOORD\" source=\"#");
    out.append(name);
    out.append("-mesh-map\" offset=\"2\" set=\"0\"/>\n");
    out.append("          <p>");
    assert(out@ =~= old(out)@ + triangles_head(name@, triangle_count as nat));
}

/// Appends the `<p>` list of an index buffer to `out`.
pub fn push_index_entries(out: &mut String, polygons: &Vec<u32>)
    ensures
        final(out)@ == old(out)@ + index_entries(polygons@),
{
    let mut k: usize = 0;
    assert(Seq::new(0, |j: int| index_entry(polygons@[j])).flatten() =~= Seq::<char>::empty());
    assert(out@ =~= old(out)@ + Seq::new(0, |j: int| index_entry(polygons@[j])).flatten());
    while k < polygons.len()
        invariant
            k <= polygons@.len(),
            out@ == old(out)@ + Seq::new(k as nat, |j: int| index_entry(polygons@[j])).flatten(),
        decreases polygons@.len() - k,
    {
        let ghost prev = out@;
        let i = polygons[k];
        push_decimal(out, i as u64);
        out.append(" ");
        push_decimal(out, i as u64);
        out.append(" ");
        push_decimal(out, i as u64);
        out.append(" ");
        proof {
            let s = Seq::new((k + 1) as nat, |j: int| index_entry(polygons@[j]));
            lemma_flatten_step(s);
            assert(s.drop_last() =~= Seq::new(k as nat, |j: int| index_entry(polygons@[j])));
            assert(out@ =~= prev + index_entry(i));
        }
        k += 1;
    }
    assert(Seq::new(polygons@.len(), |j: int| index_entry(polygons@[j])) =~= Seq::new(
        k as nat,
        |j: int| index_entry(polygons@[j]),
    ));
}

/// Appends the end of the geometry element of `name` to `out`: the vertex
/// binding, the triangle list over `polygons` (one triangle per three indices,
/// each index used for position, normal and texture coordinate alike) and the
/// closing tags.
pub fn push_triangles(out: &mut String, name: &str, polygons: &Vec<u32>)
    ensures
        final(out)@ == old(out)@ + triangles_spec(name@, polygons@),
{
    push_triangles_head(out, name, (polygons.len() / 3) as u64);
    push_index_entries(out, polygons);
    out.append("          </p>\n");
    out.append("        </triangles>\n");
    out.append("      </mesh>\n");
    out.append("    </geometry>");
    assert(out@ =~= old(out)@ + triangles_spec(name@, polygons@));
}

} // verus!
