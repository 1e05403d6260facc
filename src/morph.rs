//! The morph-target controller that animates the frames of a model.
use vstd::prelude::*;
use crate::decimal::{decimal, push_decimal};
use crate::mesh::{frame_name, lemma_flatten_step, push_frame_name};

verus! {

/// The line of the target list that names the geometry of frame `k`.
pub open spec fn target_line(name: Seq<char>, k: nat) -> Seq<char> {
    "            "@ + frame_name(name, k) + "-mesh\n"@
}

/// The target list: one line for each frame from 1 to `m`.
pub open spec fn target_lines(name: Seq<char>, m: nat) -> Seq<char> {
    Seq::new(m, |k: int| target_line(name, (k + 1) as nat)).flatten()
}

/// The weight list: `m` zero weights.
pub open spec fn weight_entries(m: nat) -> Seq<char> {
    Seq::new(m, |k: int| "0 "@).flatten()
}

/// The opening of the controller, up to the target list.
pub open spec fn morph_head(name: Seq<char>, count: Seq<char>) -> Seq<char> {
    "    <controller id=\""@ + name + "-morph\" name=\""@ + name + "-morph\">\n"@
        + "      <morph source=\"#"@ + name + "-mesh\" method=\"NORMALIZED\">\n"@
        + "        <source id=\""@ + name + "-targets\">\n"@
        + "          <IDREF_array id=\""@ + name + "-targets-array\" count=\""@ + count + "\">\n"@
}

/// Between the target list and the weight list.
pub open spec fn morph_middle(name: Seq<char>, count: Seq<char>) -> Seq<char> {
    "          </IDREF_array>\n"@
        + "<technique_common><accessor source=\"#"@ + name + "-targets-array\" count=\""@ + count
        + "\" stride=\"1\"><param name=\"IDREF\" type=\"IDREF\"/></accessor></technique_common>\n"@
        + "        </source>\n"@
        + "        <source id=\""@ + name + "-weights\">\n"@
        + "          <float_array id=\""@ + name + "-weights-array\" count=\""@ + count + "\">"@
}

/// The end of the controller, after the weight list.
pub open spec fn morph_tail(name: Seq<char>, count: Seq<char>) -> Seq<char> {
    "</float_array>\n"@
        + "<technique_common><accessor source=\"#"@ + name + "-weights-array\" count=\""@ + count
        + "\" stride=\"1\"><param name=\"MORPH_WEIGHT\" type=\"float\"/></accessor></technique_common>\n"@
        + "        </source>\n"@
        + "        <targets>\n"@
        + "          <input semantic=\"MORPH_TARGET\" source=\"#"@ + name + "-targets\"/>\n"@
        + "          <input semantic=\"MORPH_WEIGHT\" source=\"#"@ + name + "-weights\"/>\n"@
        + "        </targets>\n"@
        + "      </morph>\n"@
        + "    </controller>\n"@
}

/// The controller of a model named `name` with `n` frames: nothing for a
/// single frame; otherwise a morph with the frames after the first as targets,
/// all weighted zero.
pub open spec fn controller_spec(name: Seq<char>, n: nat) -> Seq<char> {
    if n <= 1 {
        Seq::empty()
    } else {
        let count = decimal((n - 1) as nat);
        morph_head(name, count) + target_lines(name, (n - 1) as nat) + morph_middle(name, count)
            + weight_entries((n - 1) as nat) + morph_tail(name, count)
    }
}

/// The controllers library: the controller between its opening and closing tags.
pub open spec fn controllers_library_spec(name: Seq<char>, n: nat) -> Seq<char> {
    "  <library_controllers>\n"@ + controller_spec(name, n) + "  </library_controllers>\n"@
}

fn push_morph_head(out: &mut String, name: &str, count: u64)
    ensures
        final(out)@ == old(out)@ + morph_head(name@, decimal(count as nat)),
{
    out.append("    <controller id=\"");
    out.append(name);
    out.append("-morph\" name=\"");
    out.append(name);
    out.append("-morph\">\n");
    out.append("      <morph source=\"#");
    out.append(name);
    out.append("-mesh\" method=\"NORMALIZED\">\n");
    out.append("        <source id=\"");
    out.append(name);
    out.append("-targets\">\n");
    out.append("          <IDREF_array id=\"");
    out.append(name);
    out.append("-targets-array\" count=\"");
    push_decimal(out, count);
    out.append("\">\n");
    assert(out@ =~= old(out)@ + morph_head(name@, decimal(count as nat)));
}

fn push_morph_middle(out: &mut String, name: &str, count: u64)
    ensures
        final(out)@ == old(out)@ + morph_middle(name@, decimal(count as nat)),
{
    out.append("          </IDREF_array>\n");
    out.append("<technique_common><accessor source=\"#");
    out.append(name);
    out.append("-targets-array\" count=\"");
    push_decimal(out, count);
    out.append("\" stride=\"1\"><param name=\"IDREF\" type=\"IDREF\"/></accessor></technique_common>\n");
    out.append("        </source>\n");
    out.append("        <source id=\"");
    out.append(name);
    out.append("-weights\">\n");
    out.append("          <float_array id=\"");
    out.append(name);
    out.append("-weights-array\" count=\"");
    push_decimal(out, count);
    out.append("\">");
    assert(out@ =~= old(out)@ + morph_middle(name@, decimal(count as nat)));
}

fn push_morph_tail(out: &mut String, name: &str, count: u64)
    ensures
        final(out)@ == old(out)@ + morph_tail(name@, decimal(count as nat)),
{
    out.append("</float_array>\n");
    out.append("<technique_common><accessor source=\"#");
    out.append(name);
    out.append("-weights-array\" count=\"");
    push_decimal(out, count);
    out.append("\" stride=\"1\"><param name=\"MORPH_WEIGHT\" type=\"float\"/></accessor></technique_common>\n");
    out.append("        </source>\n");
    out.append("        <targets>\n");
    out.append("          <input semantic=\"MORPH_TARGET\" source=\"#");
    out.append(name);
    out.append("-targets\"/>\n");
    out.append("          <input semantic=\"MORPH_WEIGHT\" source=\"#");
    out.append(name);
    out.append("-weights\"/>\n");
    out.append("        </targets>\n");
    out.append("      </morph>\n");
    out.append("    </controller>\n");
    assert(out@ =~= old(out)@ + morph_tail(name@, decimal(count as nat)));
}

fn push_target_lines(out: &mut String, name: &str, frame_count: usize)
    requires
        frame_count >= 1,
    ensures
        final(out)@ == old(out)@ + target_lines(name@, (frame_count - 1) as nat),
{
    let mut k: usize = 1;
    assert(Seq::new(0, |j: int| target_line(name@, (j + 1) as nat)).flatten() =~= Seq::<char>::empty());
    assert(out@ =~= old(out)@ + target_lines(name@, 0));
    while k < frame_count
        invariant
            1 <= k <= frame_count,
            out@ == old(out)@ + target_lines(name@, (k - 1) as nat),
        decreases frame_count - k,
    {
        let ghost prev = out@;
        out.append("            ");
        push_frame_name(out, name, k);
        out.append("-mesh\n");
        proof {
            let s = Seq::new(k as nat, |j: int| target_line(name@, (j + 1) as nat));
            lemma_flatten_step(s);
            assert(s.drop_last() =~= Seq::new((k - 1) as nat, |j: int| target_line(name@, (j + 1) as nat)));
            assert(out@ =~= prev + target_line(name@, k as nat));
        }
        k += 1;
    }
}

fn push_weight_entries(out: &mut String, frame_count: usize)
    requires
        frame_count >= 1,
    ensures
        final(out)@ == old(out)@ + weight_entries((frame_count - 1) as nat),
{
    let mut w: usize = 1;
    assert(Seq::new(0, |j: int| "0 "@).flatten() =~= Seq::<char>::empty());
    assert(out@ =~= old(out)@ + weight_entries(0));
    while w < frame_count
        invariant
            1 <= w <= frame_count,
            out@ == old(out)@ + weight_entries((w - 1) as nat),
        decreases frame_count - w,
    {
        let ghost prev = out@;
        out.append("0 ");
        proof {
            let s = Seq::new(w as nat, |j: int| "0 "@);
            lemma_flatten_step(s);
            assert(s.drop_last() =~= Seq::new((w - 1) as nat, |j: int| "0 "@));
            assert(out@ =~= prev + "0 "@);
        }
        w += 1;
    }
}

/// Appends the morph controller of a model named `name` with `frame_count`
/// frames to `out`.
pub fn push_controller(out: &mut String, name: &str, frame_count: usize)
    ensures
        final(out)@ == old(out)@ + controller_spec(name@, frame_count as nat),
{
    if frame_count <= 1 {
        assert(out@ =~= old(out)@ + controller_spec(name@, frame_count as nat));
        return;
    }
    let count = (frame_count - 1) as u64;
    push_morph_head(out, name, count);
    push_target_lines(out, name, frame_count);
    push_morph_middle(out, name, count);
    push_weight_entries(out, frame_count);
    push_morph_tail(out, name, count);
    assert(out@ =~= old(out)@ + controller_spec(name@, frame_count as nat));
}

/// The controllers library of a model named `name` with `frame_count` frames.
pub fn controllers_library_text(name: &str, frame_count: usize) -> (r: String)
    ensures
        r@ == controllers_library_spec(name@, frame_count as nat),
{
    let mut out = String::from_str("  <library_controllers>\n");
    push_controller(&mut out, name, frame_count);
    out.append("  </library_controllers>\n");
    assert(out@ =~= controllers_library_spec(name@, frame_count as nat));
    out
}

} // verus!

verus! {

/// The identifiers of the morph targets of a model named `name`: those of the
/// geometries of frames 1 to `m`.
pub open spec fn target_ids(name: Seq<char>, m: nat) -> Seq<Seq<char>> {
    Seq::new(m, |k: int| name + "_frame"@ + decimal((k + 1) as nat) + "-mesh"@)
}

/// A model with a single frame gets an empty controllers library.
pub proof fn lemma_single_frame_has_no_controller(name: Seq<char>)
    ensures
        controllers_library_spec(name, 1) == "  <library_controllers>\n"@ + "  </library_controllers>\n"@,
{
    assert(controllers_library_spec(name, 1) =~= "  <library_controllers>\n"@ + "  </library_controllers>\n"@);
}

/// With `n > 1` frames the controller lists exactly `n - 1` target
/// identifiers, the one of frame `k` being `<name>_frame<k>-mesh`, one per
/// line, and exactly `n - 1` weights, all `0`.
pub proof fn lemma_morph_targets_and_weights(name: Seq<char>, n: nat)
    requires
        n > 1,
    ensures
        controller_spec(name, n) == morph_head(name, decimal((n - 1) as nat)) + target_lines(
            name,
            (n - 1) as nat,
        ) + morph_middle(name, decimal((n - 1) as nat)) + weight_entries((n - 1) as nat) + morph_tail(
            name,
            decimal((n - 1) as nat),
        ),
        target_ids(name, (n - 1) as nat).len() == n - 1,
        target_lines(name, (n - 1) as nat) == Seq::new(
            (n - 1) as nat,
            |k: int| "            "@ + target_ids(name, (n - 1) as nat)[k] + "\n"@,
        ).flatten(),
        weight_entries((n - 1) as nat).len() == 2 * (n - 1),
        forall|k: int|
            0 <= k < n - 1 ==> #[trigger] weight_entries((n - 1) as nat)[2 * k] == '0' && weight_entries(
                (n - 1) as nat,
            )[2 * k + 1] == ' ',
{
    let m = (n - 1) as nat;
    let ids = target_ids(name, m);
    reveal_strlit("-mesh\n");
    reveal_strlit("-mesh");
    reveal_strlit("\n");
    assert forall|k: int| 0 <= k < m implies #[trigger] target_line(name, (k + 1) as nat) == "            "@
        + ids[k] + "\n"@ by {
        assert("-mesh\n"@ =~= "-mesh"@ + "\n"@);
        assert(target_line(name, (k + 1) as nat) =~= "            "@ + ids[k] + "\n"@);
    }
    assert(Seq::new(m, |k: int| target_line(name, (k + 1) as nat)) =~= Seq::new(
        m,
        |k: int| "            "@ + ids[k] + "\n"@,
    ));
    lemma_weight_entries(m);
}

proof fn lemma_weight_entries(m: nat)
    ensures
        weight_entries(m).len() == 2 * m,
        forall|k: int| 0 <= k < m ==> #[trigger] weight_entries(m)[2 * k] == '0' && weight_entries(m)[2 * k + 1] == ' ',
    decreases m,
{
    reveal_strlit("0 ");
    if m == 0 {
        assert(Seq::new(0, |j: int| "0 "@).flatten() =~= Seq::<char>::empty());
    } else {
        lemma_weight_entries((m - 1) as nat);
        let s = Seq::new(m, |j: int| "0 "@);
        lemma_flatten_step(s);
        assert(s.drop_last() =~= Seq::new((m - 1) as nat, |j: int| "0 "@));
        assert(weight_entries(m) == weight_entries((m - 1) as nat) + "0 "@);
        assert forall|k: int| 0 <= k < m implies #[trigger] weight_entries(m)[2 * k] == '0' && weight_entries(m)[2 * k + 1]
            == ' ' by {
            if k < m - 1 {
                assert(weight_entries((m - 1) as nat)[2 * k] == '0');
            }
        }
    }
}

} // verus!
