use cemconv_collada::decimal::decimal_text;
use cemconv_collada::light::{decode, light_for_tag, split_fields, parse_field, DecodeError, Light, LightChoice};
use cemconv_collada::mesh::{flatten_indices, frame_meshes, push_frame_name, push_index_entries, push_triangles, Material, Triangle, TriangleSlice};
use cemconv_collada::morph::{controllers_library_text, push_controller};
use cemconv_collada::geometry::{push_geometry_open, push_source_close, push_source_open, Channel};
use cemconv_collada::scene::{push_document_tail, push_light, push_root_open, push_tag_node};

fn material(offset: u32, len: u32, vertex_offset: u32) -> Material {
    Material {
        name: String::from("m"),
        texture: 0,
        triangles: vec![TriangleSlice { offset, len }],
        vertex_offset,
        vertex_count: 3,
        texture_name: String::from("t"),
    }
}

#[test]
fn decimal_renders_digits() {
    assert_eq!(decimal_text(0), "0");
    assert_eq!(decimal_text(7), "7");
    assert_eq!(decimal_text(10), "10");
    assert_eq!(decimal_text(4294967295), "4294967295");
    assert_eq!(decimal_text(u64::MAX), "18446744073709551615");
}

#[test]
fn single_triangle_indices_are_offset() {
    let tris = vec![Triangle(0, 1, 2)];
    let mats = vec![material(0, 1, 5)];
    assert_eq!(flatten_indices(&tris, &mats), vec![5, 6, 7]);
}

#[test]
fn no_materials_gives_zeroed_buffer() {
    let tris = vec![Triangle(0, 1, 2), Triangle(2, 1, 0)];
    let mats: Vec<Material> = Vec::new();
    assert_eq!(flatten_indices(&tris, &mats), vec![0, 0, 0, 0, 0, 0]);
}

#[test]
fn materials_fill_their_own_ranges() {
    let tris = vec![Triangle(0, 1, 2), Triangle(1, 2, 3), Triangle(0, 2, 1), Triangle(3, 3, 3)];
    // The second material draws triangles 2 and 3, the first 0 and 1.
    let mats = vec![material(2, 2, 10), material(0, 2, 0)];
    assert_eq!(flatten_indices(&tris, &mats), vec![0, 1, 2, 1, 2, 3, 10, 12, 11, 13, 13, 13]);
}

#[test]
fn uncovered_triangles_stay_zero() {
    let tris = vec![Triangle(1, 1, 1), Triangle(2, 2, 2), Triangle(3, 3, 3)];
    let mats = vec![material(1, 1, 4)];
    assert_eq!(flatten_indices(&tris, &mats), vec![0, 0, 0, 6, 6, 6, 0, 0, 0]);
}

#[test]
fn single_triangle_geometry_text() {
    let tris = vec![Triangle(0, 1, 2)];
    let mats = vec![material(0, 1, 5)];
    let meshes = frame_meshes("Scene_Root", &tris, &mats, 1);
    assert_eq!(meshes.len(), 1);
    let mut out = String::new();
    push_triangles(&mut out, &meshes[0].name, &meshes[0].polygons);
    assert!(out.contains("<triangles count=\"1\">"));
    assert!(out.contains("<p>5 5 5 6 6 6 7 7 7           </p>"));
    assert_eq!(out.matches("<p>").count(), 1);
    assert!(out.starts_with("        <vertices id=\"Scene_Root-mesh-vertices\">"));
    assert!(out.contains("<input semantic=\"TEXCOORD\" source=\"#Scene_Root-mesh-map\" offset=\"2\" set=\"0\"/>"));
    assert!(out.ends_with("    </geometry>"));
}

#[test]
fn index_entries_repeat_each_index() {
    let mut out = String::from("<p>");
    push_index_entries(&mut out, &vec![3, 12]);
    assert_eq!(out, "<p>3 3 3 12 12 12 ");
}

#[test]
fn frames_share_the_index_buffer() {
    let tris = vec![Triangle(0, 1, 2), Triangle(2, 3, 0)];
    let mats = vec![material(0, 2, 1)];
    let meshes = frame_meshes("Scene_Root", &tris, &mats, 3);
    assert_eq!(meshes.len(), 3);
    assert_eq!(meshes[0].name, "Scene_Root");
    assert_eq!(meshes[1].name, "Scene_Root_frame1");
    assert_eq!(meshes[2].name, "Scene_Root_frame2");
    assert_eq!(meshes[0].polygons, vec![1, 2, 3, 3, 4, 1]);
    assert_eq!(meshes[1].polygons, meshes[0].polygons);
    assert_eq!(meshes[2].polygons, meshes[0].polygons);
    let mut a = String::new();
    let mut b = String::new();
    push_index_entries(&mut a, &meshes[0].polygons);
    push_index_entries(&mut b, &meshes[2].polygons);
    assert_eq!(a, b);
}

#[test]
fn frame_names() {
    let mut out = String::new();
    push_frame_name(&mut out, "Base", 0);
    assert_eq!(out, "Base");
    let mut out = String::new();
    push_frame_name(&mut out, "Base", 12);
    assert_eq!(out, "Base_frame12");
}

#[test]
fn single_frame_has_empty_controllers() {
    assert_eq!(controllers_library_text("Scene_Root", 1), "  <library_controllers>\n  </library_controllers>\n");
    let mut out = String::from("x");
    push_controller(&mut out, "Scene_Root", 1);
    assert_eq!(out, "x");
}

#[test]
fn morph_lists_later_frames() {
    let text = controllers_library_text("Scene_Root", 3);
    assert!(text.contains("<controller id=\"Scene_Root-morph\" name=\"Scene_Root-morph\">"));
    assert!(text.contains("<morph source=\"#Scene_Root-mesh\" method=\"NORMALIZED\">"));
    assert!(text.contains("<IDREF_array id=\"Scene_Root-targets-array\" count=\"2\">\n            Scene_Root_frame1-mesh\n            Scene_Root_frame2-mesh\n          </IDREF_array>\n"));
    assert!(!text.contains("Scene_Root_frame0"));
    assert!(!text.contains("Scene_Root_frame3"));
    assert!(text.contains("<float_array id=\"Scene_Root-weights-array\" count=\"2\">0 0 </float_array>"));
    assert!(text.starts_with("  <library_controllers>\n    <controller"));
    assert!(text.ends_with("    </controller>\n  </library_controllers>\n"));
}

#[test]
fn morph_with_two_frames() {
    let text = controllers_library_text("M", 2);
    assert!(text.contains("count=\"1\">\n            M_frame1-mesh\n          </IDREF_array>"));
    assert!(text.contains("count=\"1\">0 </float_array>"));
    assert_eq!(text.matches("_frame").count(), 1);
}

#[test]
fn decode_red_light() {
    let light = decode("light_255_0_0_1_2_3").unwrap();
    assert_eq!(light, Light { color: (255, 0, 0), unk: (1, 2, 3) });
    let color = (light.color.0 as f32 / 255.0, light.color.1 as f32 / 255.0, light.color.2 as f32 / 255.0);
    assert_eq!(color, (1.0, 0.0, 0.0));
}

#[test]
fn decode_bad_light_falls_back() {
    assert_eq!(decode("light_bad"), Err(DecodeError::MissingField));
    assert_eq!(light_for_tag("light_bad"), LightChoice::Malformed(DecodeError::MissingField));
    assert_eq!(DecodeError::MissingField.message(), "Invalid light definition");
}

#[test]
fn plain_tag_gets_default_light() {
    assert_eq!(light_for_tag("anchor_muzzle"), LightChoice::Plain);
    assert_eq!(light_for_tag("lamp_1_2_3_4_5_6"), LightChoice::Plain);
    assert_eq!(light_for_tag(""), LightChoice::Plain);
    assert_eq!(light_for_tag("light"), LightChoice::Plain);
}

#[test]
fn encoded_tag_gets_its_light() {
    assert_eq!(
        light_for_tag("light_10_20_30_4_5_6"),
        LightChoice::Encoded(Light { color: (10, 20, 30), unk: (4, 5, 6) })
    );
}

#[test]
fn decode_number_errors() {
    assert_eq!(decode("light_1_2_x_4_5_6"), Err(DecodeError::BadNumber));
    assert_eq!(decode("light_1_2__4_5_6"), Err(DecodeError::BadNumber));
    assert_eq!(decode("light_1_2_-3_4_5_6"), Err(DecodeError::BadNumber));
    assert_eq!(decode("light_4294967296_0_0_0_0_0"), Err(DecodeError::BadNumber));
    assert_eq!(DecodeError::BadNumber.message(), "failed to parse number");
}

#[test]
fn decode_edge_cases() {
    assert_eq!(decode("light_4294967295_0_0_0_0_0"), Ok(Light { color: (4294967295, 0, 0), unk: (0, 0, 0) }));
    assert_eq!(decode("light_+7_0_0_0_0_0"), Ok(Light { color: (7, 0, 0), unk: (0, 0, 0) }));
    assert_eq!(decode("light_1_2_3_4_5_6_extra"), Ok(Light { color: (1, 2, 3), unk: (4, 5, 6) }));
    assert_eq!(decode("light_1_2_3_4_5"), Err(DecodeError::MissingField));
    assert_eq!(decode("lamp_1_2_3_4_5_6"), Err(DecodeError::WrongTag));
}

#[test]
fn split_and_parse_fields() {
    let f = split_fields("a__bc_");
    assert_eq!(f, vec![vec!['a'], vec![], vec!['b', 'c'], vec![]]);
    assert_eq!(parse_field(&vec!['0', '4', '2']), Some(42));
    assert_eq!(parse_field(&vec!['+']), None);
    assert_eq!(parse_field(&vec![]), None);
}

#[test]
fn light_elements() {
    let mut out = String::new();
    push_light(&mut out, "light_bad", &light_for_tag("light_bad"), "ignored");
    assert_eq!(
        out,
        "    <light id=\"light_bad-light\"><technique_common>\n\n    <point><color>1.0 1.0 1.0</color><linear_attenuation>0.3</linear_attenuation></point>\n    </technique_common></light>\n"
    );
    let mut out = String::new();
    push_light(&mut out, "anchor_muzzle", &light_for_tag("anchor_muzzle"), "0 0 0");
    assert!(out.contains("<color>1.0 1.0 1.0</color>"));
    let mut out = String::new();
    push_light(&mut out, "light_255_0_0_1_2_3", &light_for_tag("light_255_0_0_1_2_3"), "1 0 0");
    assert!(out.contains("<color>1 0 0</color><linear_attenuation>0.3</linear_attenuation>"));
}

#[test]
fn visual_scene_nodes() {
    let mut out = String::new();
    push_root_open(&mut out, "Scene_Root");
    push_tag_node(&mut out, "anchor", "1 2 3");
    push_document_tail(&mut out);
    assert_eq!(
        out,
        "  <library_visual_scenes><visual_scene id=\"Scene\" name=\"Scene\">\n<node id=\"Scene_Root\" name=\"Scene_Root\" type=\"NODE\"><matrix sid=\"transform\">1 0 0 0 0 1 0 0 0 0 1 0 0 0 0 1</matrix><instance_geometry url=\"#Scene_Root-mesh\"/>\n    <node name=\"anchor\">\n\n    <translate>1 2 3</translate>\n    <instance_light url=\"#anchor-light\" />\n\n</node></node>  </visual_scene></library_visual_scenes>\n  <scene><instance_visual_scene url=\"#Scene\"/></scene>\n</COLLADA>"
    );
}

#[test]
fn source_framing() {
    let mut out = String::new();
    push_geometry_open(&mut out, "G");
    assert_eq!(out, "    <geometry id=\"G-mesh\" name=\"G\">\n      <mesh>\n");
    let mut out = String::new();
    push_source_open(&mut out, "G", Channel::TexCoords, 4);
    push_source_close(&mut out, "G", Channel::TexCoords, 2);
    assert_eq!(
        out,
        "        <source id=\"G-mesh-map\">\n          <float_array id=\"G-mesh-map-array\" count=\"4\">\n          </float_array>\n<technique_common><accessor source=\"#G-mesh-map-array\" count=\"2\" stride=\"2\">\n<param name=\"S\" type=\"float\"/><param name=\"T\" type=\"float\"/>\n</accessor></technique_common>\n        </source>\n"
    );
    let mut out = String::new();
    push_source_close(&mut out, "G", Channel::Normals, 10);
    assert!(out.contains("source=\"#G-mesh-normals-array\" count=\"10\" stride=\"3\">\n<param name=\"X\" type=\"float\"/><param name=\"Y\" type=\"float\"/><param name=\"Z\" type=\"float\"/>\n"));
    assert_eq!(Channel::Positions.stride(), 3);
    assert_eq!(Channel::TexCoords.stride(), 2);
}
