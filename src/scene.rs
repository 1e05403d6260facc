//! The lights library and the visual scene of the document.
use vstd::prelude::*;
use crate::light::{choice_spec, decode_spec, has_light_prefix, LightChoice};

verus! {

/// The color of the default light, white.
pub open spec fn default_color() -> Seq<char> {
    "1.0 1.0 1.0"@
}

/// The color that the light of a tag point is written with: the decoded one,
/// rendered as `encoded`, for a light decoded from its name, and the default
/// white otherwise, malformed names included.
pub open spec fn color_of(choice: LightChoice, encoded: Seq<char>) -> Seq<char> {
    match choice {
        LightChoice::Encoded(_) => encoded,
        _ => default_color(),
    }
}

/// The light element of the tag point `name`: a point light of the given
/// color with a linear attenuation of 0.3.
pub open spec fn light_spec(name: Seq<char>, color: Seq<char>) -> Seq<char> {
    "    <light id=\""@ + name + "-light\"><technique_common>\n\n"@ + "    <point><color>"@ + color
        + "</color><linear_attenuation>0.3</linear_attenuation></point>\n"@
        + "    </technique_common></light>\n"@
}

/// Appends the light element of the tag point `name` to `out`. `encoded` is
/// the rendering of the decoded color, used only where `choice` holds one.
pub fn push_light(out: &mut String, name: &str, choice: &LightChoice, encoded: &str)
    ensures
        final(out)@ == old(out)@ + light_spec(name@, color_of(*choice, encoded@)),
{
    out.append("    <light id=\"");
    out.append(name);
    out.append("-light\"><technique_common>\n\n");
    out.append("    <point><color>");
    match choice {
        LightChoice::Encoded(_) => out.append(encoded),
        _ => out.append("1.0 1.0 1.0"),
    }
    out.append("</color><linear_attenuation>0.3</linear_attenuation></point>\n");
    out.append("    </technique_common></light>\n");
    assert(out@ =~= old(out)@ + light_spec(name@, color_of(*choice, encoded@)));
}

/// A tag point whose name claims a light but does not decode gets the default
/// white light.
pub proof fn lemma_malformed_light_uses_default(name: Seq<char>, encoded: Seq<char>)
    requires
        has_light_prefix(name),
        decode_spec(name) is Err,
    ensures
        color_of(choice_spec(name), encoded) == default_color(),
        choice_spec(name) == LightChoice::Malformed(decode_spec(name)->Err_0),
{
}

/// A tag point whose name does not start with `light_` gets the default white
/// light, whatever follows in its name: it is never decoded.
pub proof fn lemma_plain_tag_uses_default(name: Seq<char>, encoded: Seq<char>)
    requires
        !has_light_prefix(name),
    ensures
        choice_spec(name) == LightChoice::Plain,
        color_of(choice_spec(name), encoded) == default_color(),
{
}

/// The opening of the visual scene: the root node, with identity transform,
/// instancing the geometry of the first frame of `name`.
pub open spec fn root_open_spec(name: Seq<char>) -> Seq<char> {
    "  <library_visual_scenes><visual_scene id=\"Scene\" name=\"Scene\">\n"@ + "<node id=\""@ + name
        + "\" name=\""@ + name
        + "\" type=\"NODE\"><matrix sid=\"transform\">1 0 0 0 0 1 0 0 0 0 1 0 0 0 0 1</matrix><instance_geometry url=\"#"@
        + name + "-mesh\"/>\n"@
}

/// Appends the opening of the visual scene to `out`.
pub fn push_root_open(out: &mut String, name: &str)
    ensures
        final(out)@ == old(out)@ + root_open_spec(name@),
{
    out.append("  <library_visual_scenes><visual_scene id=\"Scene\" name=\"Scene\">\n");
    out.append("<node id=\"");
    out.append(name);
    out.append("\" name=\"");
    out.append(name);
    out.append("\" type=\"NODE\"><matrix sid=\"transform\">1 0 0 0 0 1 0 0 0 0 1 0 0 0 0 1</matrix><instance_geometry url=\"#");
    out.append(name);
    out.append("-mesh\"/>\n");
    assert(out@ =~= old(out)@ + root_open_spec(name@));
}

/// The child node of a tag point: moved to `translate` and instancing the
/// tag point's light.
pub open spec fn tag_node_spec(name: Seq<char>, translate: Seq<char>) -> Seq<char> {
    "    <node name=\""@ + name + "\">\n\n"@ + "    <translate>"@ + translate + "</translate>\n"@
        + "    <instance_light url=\"#"@ + name + "-light\" />\n\n"@ + "</node>"@
}

/// Appends the child node of the tag point `name` to `out`.
pub fn push_tag_node(out: &mut String, name: &str, translate: &str)
    ensures
        final(out)@ == old(out)@ + tag_node_spec(name@, translate@),
{
    out.append("    <node name=\"");
    out.append(name);
    out.append("\">\n\n");
    out.append("    <translate>");
    out.append(translate);
    out.append("</translate>\n");
    out.append("    <instance_light url=\"#");
    out.append(name);
    out.append("-light\" />\n\n");
    out.append("</node>");
    assert(out@ =~= old(out)@ + tag_node_spec(name@, translate@));
}

/// The end of the document, from the close of the root node.
pub open spec fn document_tail() -> Seq<char> {
    "</node>"@ + "  </visual_scene></library_visual_scenes>\n"@
        + "  <scene><instance_visual_scene url=\"#Scene\"/></scene>\n"@ + "</COLLADA>"@
}

/// Appends the end of the document to `out`.
pub fn push_document_tail(out: &mut String)
    ensures
        final(out)@ == old(out)@ + document_tail(),
{
    out.append("</node>");
    out.append("  </visual_scene></library_visual_scenes>\n");
    out.append("  <scene><instance_visual_scene url=\"#Scene\"/></scene>\n");
    out.append("</COLLADA>");
    assert(out@ =~= old(out)@ + document_tail());
}

} // verus!
