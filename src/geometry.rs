//! The framing of a geometry element and of its three data sources; the
//! values inside a source are written by the caller.
use vstd::prelude::*;
use crate::decimal::{decimal, push_decimal};

verus! {

/// The three vertex attributes of a geometry.
#[derive(Clone, Copy, Debug, PartialEq, Eq)]
pub enum Channel {
    Positions,
    Normals,
    TexCoords,
}

/// The identifier suffix of a channel's source.
pub open spec fn channel_id(c: Channel) -> Seq<char> {
    match c {
        Channel::Positions => "mesh-positions"@,
        Channel::Normals => "mesh-normals"@,
        Channel::TexCoords => "mesh-map"@,
    }
}

/// The number of values per vertex in a channel.
pub open spec fn channel_stride(c: Channel) -> nat {
    match c {
        Channel::TexCoords => 2,
        _ => 3,
    }
}

/// The accessor parameters of a channel: X, Y, Z for positions and normals,
/// S, T for texture coordinates.
pub open spec fn channel_params(c: Channel) -> Seq<char> {
    match c {
        Channel::TexCoords => "<param name=\"S\" type=\"float\"/><param name=\"T\" type=\"float\"/>"@,
        _ => "<param name=\"X\" type=\"float\"/><param name=\"Y\" type=\"float\"/><param name=\"Z\" type=\"float\"/>"@,
    }
}

impl Channel {
    /// The number of values per vertex in this channel.
    pub fn stride(&self) -> (r: usize)
        ensures
            r == channel_stride(*self),
    {
        match self {
            Channel::TexCoords => 2,
            _ => 3,
        }
    }

    fn id(&self) -> (r: &'static str)
        ensures
            r@ == channel_id(*self),
    {
        match self {
            Channel::Positions => "mesh-positions",
            Channel::Normals => "mesh-normals",
            Channel::TexCoords => "mesh-map",
        }
    }

    fn params(&self) -> (r: &'static str)
        ensures
            r@ == channel_params(*self),
    {
        match self {
            Channel::TexCoords => "<param name=\"S\" type=\"float\"/><param name=\"T\" type=\"float\"/>",
            _ => "<param name=\"X\" type=\"float\"/><param name=\"Y\" type=\"float\"/><param name=\"Z\" type=\"float\"/>",
        }
    }
}

/// The opening of the geometry element of `name`.
pub open spec fn geometry_open_spec(name: Seq<char>) -> Seq<char> {
    "    <geometry id=\""@ + name + "-mesh\" name=\""@ + name + "\">\n"@ + "      <mesh>\n"@
}

/// Appends the opening of the geometry element of `name` to `out`.
pub fn push_geometry_open(out: &mut String, name: &str)
    ensures
        final(out)@ == old(out)@ + geometry_open_spec(name@),
{
    out.append("    <geometry id=\"");
    out.append(name);
    out.append("-mesh\" name=\"");
    out.append(name);
    out.append("\">\n");
    out.append("      <mesh>\n");
    assert(out@ =~= old(out)@ + geometry_open_spec(name@));
}

/// The opening of a source holding `value_count` values, up to the values.
pub open spec fn source_open_spec(name: Seq<char>, c: Channel, value_count: nat) -> Seq<char> {
    "        <source id=\""@ + name + "-"@ + channel_id(c) + "\">\n"@ + "          <float_array id=\""@ + name
        + "-"@ + channel_id(c) + "-array\" count=\""@ + decimal(value_count) + "\">\n"@
}

/// Appends the opening of the source of channel `c` of geometry `name`.
pub fn push_source_open(out: &mut String, name: &str, c: Channel, value_count: usize)
    ensures
        final(out)@ == old(out)@ + source_open_spec(name@, c, value_count as nat),
{
    let id = c.id();
    out.append("        <source id=\"");
    out.append(name);
    out.append("-");
    out.append(id);
    out.append("\">\n");
    out.append("          <float_array id=\"");
    out.append(name);
    out.append("-");
    out.append(id);
    out.append("-array\" count=\"");
    push_decimal(out, value_count as u64);
    out.append("\">\n");
    assert(out@ =~= old(out)@ + source_open_spec(name@, c, value_count as nat));
}

/// The end of a source, after the values: its accessor over `vertex_count`
/// vertices, with the channel's stride and parameters.
pub open spec fn source_close_spec(name: Seq<char>, c: Channel, vertex_count: nat) -> Seq<char> {
    "          </float_array>\n"@ + "<technique_common><accessor source=\"#"@ + name + "-"@ + channel_id(c)
        + "-array\" count=\""@ + decimal(vertex_count) + "\" stride=\""@ + decimal(channel_stride(c)) + "\">\n"@
        + channel_params(c) + "\n"@ + "</accessor></technique_common>\n"@ + "        </source>\n"@
}

/// Appends the end of the source of channel `c` of geometry `name`.
pub fn push_source_close(out: &mut String, name: &str, c: Channel, vertex_count: usize)
    ensures
        final(out)@ == old(out)@ + source_close_spec(name@, c, vertex_count as nat),
{
    let id = c.id();
    out.append("          </float_array>\n");
    out.append("<technique_common><accessor source=\"#");
    out.append(name);
    out.append("-");
    out.append(id);
    out.append("-array\" count=\"");
    push_decimal(out, vertex_count as u64);
    out.append("\" stride=\"");
    push_decimal(out, c.stride() as u64);
    out.append("\">\n");
    out.append(c.params());
    out.append("\n");
    out.append("</accessor></technique_common>\n");
    out.append("        </source>\n");
    assert(out@ =~= old(out)@ + source_close_spec(name@, c, vertex_count as nat));
}

} // verus!
