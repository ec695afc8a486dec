use sr_formats::decode::{Each, Parse};
use sr_formats::jmxveff::{
    AngleVector1, AxisVector4, BSAnimation, Color, EEBlend, EECommand, EEGlobalData, EEParameter, EEProgram,
    EEResource, EESource, EESourceData, EESourceList, EFController, EFStaticEmit, EFStoredObject, FrameBANPosition,
    FrameBANRotation, FrameDiffuse, FrameScale, FrameTextureSlide, JmxvEff, JmxvEffHeader, RenderShape, RotVector,
    ViewMode,
};
use sr_formats::math::{RowMatrix4, Vector3, Vector4, F32};
use sr_formats::DecodeError;

fn f(value: f32) -> F32 {
    F32 { bits: value.to_bits() }
}

fn v3(x: f32, y: f32, z: f32) -> Vector3 {
    Vector3 { x: f(x), y: f(y), z: f(z) }
}

fn v4(x: f32, y: f32, z: f32, w: f32) -> Vector4 {
    Vector4 { x: f(x), y: f(y), z: f(z), w: f(w) }
}

fn floats(values: &[f32]) -> Vec<u8> {
    values.iter().flat_map(|v| v.to_le_bytes()).collect()
}

fn sized(text: &str) -> Vec<u8> {
    let mut bytes = (text.len() as u32).to_le_bytes().to_vec();
    bytes.extend_from_slice(text.as_bytes());
    bytes
}

fn list(items: &[Vec<u8>]) -> Vec<u8> {
    let mut bytes = (items.len() as u32).to_le_bytes().to_vec();
    for item in items {
        bytes.extend_from_slice(item);
    }
    bytes
}

fn matrix_bytes() -> Vec<u8> {
    floats(&(0..16).map(|n| n as f32).collect::<Vec<f32>>())
}

fn matrix() -> RowMatrix4 {
    RowMatrix4 {
        x: v4(0.0, 1.0, 2.0, 3.0),
        y: v4(4.0, 5.0, 6.0, 7.0),
        z: v4(8.0, 9.0, 10.0, 11.0),
        w: v4(12.0, 13.0, 14.0, 15.0),
    }
}

/// What stands at `data_offset + 4` of a node: no parameters, empty slots,
/// the given scalars and the given children.
fn body(unk0: u32, children: &[Vec<u8>]) -> Vec<u8> {
    let mut b = Vec::new();
    b.extend_from_slice(&7u32.to_le_bytes()); // global_data.unk0
    b.extend_from_slice(&list(&[])); // parameters
    b.extend_from_slice(&list(&[])); // empty_sl0
    b.extend_from_slice(&list(&[])); // emitter_sl
    b.extend_from_slice(&list(&[])); // empty_sl2
    b.push(0); // lifetime_source
    b.extend_from_slice(&list(&[])); // program_sl
    b.push(1); // unkb0
    b.push(2); // unkb1
    b.extend_from_slice(&unk0.to_le_bytes());
    b.extend_from_slice(&4u32.to_le_bytes()); // unk1
    b.extend_from_slice(&5u32.to_le_bytes()); // unk2
    b.push(6); // unkb2
    b.extend_from_slice(&8u32.to_le_bytes()); // unk3
    b.push(9); // unkb3
    b.push(0); // view_mode_source
    b.extend_from_slice(&[0u8; 36]); // resource: two_sided and eight numbers
    b.extend_from_slice(&list(&[])); // resource.meshes
    b.push(0); // render_source
    b.extend_from_slice(&list(&[])); // empty_sl3
    b.extend_from_slice(&list(&[])); // render_sl
    b.extend_from_slice(&list(children));
    b
}

fn node_with_gap(name: &str, controllers: &[Vec<u8>], gap: usize, body: Vec<u8>) -> Vec<u8> {
    let mut head = sized(name);
    head.extend_from_slice(&list(controllers));
    let mut bytes = ((head.len() + gap) as u32).to_le_bytes().to_vec();
    bytes.extend_from_slice(&head);
    bytes.extend_from_slice(&vec![0xCC; gap]);
    bytes.extend_from_slice(&body);
    bytes
}

fn node(name: &str, unk0: u32, children: &[Vec<u8>]) -> Vec<u8> {
    node_with_gap(name, &[], 0, body(unk0, children))
}

fn empty_resource() -> EEResource {
    EEResource {
        two_sided: false,
        src_blend: 0,
        dst_blend: 0,
        src_texture_arg0: 0,
        src_texture_arg1: 0,
        src_texture_op: 0,
        dst_texture_arg0: 0,
        dst_texture_arg1: 0,
        dst_texture_op: 0,
        meshes: vec![],
    }
}

fn expected_node(name: &str, unk0: u32, children: Vec<EFStoredObject>) -> EFStoredObject {
    EFStoredObject {
        name: name.to_string(),
        controllers: vec![],
        global_data: EEGlobalData { unk0: 7, parameters: vec![] },
        empty_sl0: EESourceList(vec![]),
        emitter_sl: EESourceList(vec![]),
        empty_sl2: EESourceList(vec![]),
        lifetime_source: EESource(None),
        program_sl: EESourceList(vec![]),
        unkb0: 1,
        unkb1: 2,
        unk0,
        unk1: 4,
        unk2: 5,
        unkb2: 6,
        unk3: 8,
        unkb3: 9,
        view_mode_source: EESource(None),
        resource: empty_resource(),
        render_source: EESource(None),
        empty_sl3: EESourceList(vec![]),
        render_sl: EESourceList(vec![]),
        children,
    }
}

fn file(version: &str, extra: &[u32], root: Vec<u8>) -> Vec<u8> {
    let mut bytes = b"JMXVEFF ".to_vec();
    bytes.extend_from_slice(version.as_bytes());
    for e in extra {
        bytes.extend_from_slice(&e.to_le_bytes());
    }
    bytes.extend_from_slice(&root);
    bytes
}

#[test]
fn a_file_with_a_bare_root_node() {
    let bytes = file("0010", &[], node("root", 3, &[]));
    let (rest, eff) = JmxvEff::parse(&bytes).unwrap();
    assert!(rest.is_empty());
    assert_eq!(&eff.header.version, b"0010");
    assert_eq!(eff.root.name, "root");
    assert!(eff.root.controllers.is_empty());
    assert!(eff.root.global_data.parameters.is_empty());
    assert!(eff.root.emitter_sl.0.is_empty());
    assert!(eff.root.program_sl.0.is_empty());
    assert!(eff.root.render_sl.0.is_empty());
    assert_eq!(eff.root.lifetime_source, EESource(None));
    assert_eq!(eff.root.view_mode_source, EESource(None));
    assert_eq!(eff.root.render_source, EESource(None));
    assert!(eff.root.children.is_empty());
    assert_eq!(eff.root, expected_node("root", 3, vec![]));
}

#[test]
fn the_versions_differ_in_their_extra_fields() {
    let root = node("r", 3, &[]);
    for version in ["0010", "0011"] {
        let (_, eff) = JmxvEff::parse(&file(version, &[], root.clone())).unwrap();
        assert_eq!(eff.header.version, version.as_bytes());
        assert_eq!(
            (eff.header.v12_unk0, eff.header.v13_unk0, eff.header.v13_unk1, eff.header.v13_unk2),
            (0, 0, 0, 0)
        );
        assert_eq!(eff.root, expected_node("r", 3, vec![]));
    }
    let (_, eff) = JmxvEff::parse(&file("0012", &[11], root.clone())).unwrap();
    assert_eq!(
        eff.header,
        JmxvEffHeader { version: *b"0012", v12_unk0: 11, v13_unk0: 0, v13_unk1: 0, v13_unk2: 0 }
    );
    assert_eq!(eff.root, expected_node("r", 3, vec![]));
    let newest = file("0013", &[11, 12, 13, 14], root.clone());
    let (rest, eff) = JmxvEff::parse(&newest).unwrap();
    assert!(rest.is_empty());
    assert_eq!(
        eff.header,
        JmxvEffHeader { version: *b"0013", v12_unk0: 11, v13_unk0: 12, v13_unk1: 13, v13_unk2: 14 }
    );
    assert_eq!(eff.root, expected_node("r", 3, vec![]));
}

#[test]
fn the_header_alone_is_as_long_as_its_version_says() {
    let tail = [0xEEu8; 20];
    for (version, extra) in [("0010", 0usize), ("0011", 0), ("0012", 1), ("0013", 4)] {
        let mut bytes = b"JMXVEFF ".to_vec();
        bytes.extend_from_slice(version.as_bytes());
        bytes.extend_from_slice(&tail);
        let (rest, header) = JmxvEffHeader::parse(&bytes).unwrap();
        assert_eq!(rest.len(), 20 - 4 * extra);
        assert_eq!(header.version, version.as_bytes());
    }
    assert_eq!(JmxvEffHeader::parse(b"JMXVEFF 0013\x01\x00\x00\x00"), Err(DecodeError::UnexpectedEof));
    assert_eq!(JmxvEffHeader::parse(b"JMXVEFF 0012\x01\x00\x00"), Err(DecodeError::UnexpectedEof));
}

#[test]
fn an_unrecognized_tag_is_a_tag_mismatch() {
    let good = file("0010", &[], node("root", 3, &[]));
    let mut bad = good.clone();
    bad[0] = b'X';
    assert_eq!(JmxvEff::parse(&bad), Err(DecodeError::TagMismatch));
    let mut bad = good.clone();
    bad[7] = b'_';
    assert_eq!(JmxvEff::parse(&bad), Err(DecodeError::TagMismatch));
    assert_eq!(JmxvEff::parse(b""), Err(DecodeError::TagMismatch));
    assert_eq!(JmxvEff::parse(b"JMXVEFF"), Err(DecodeError::TagMismatch));
    assert_eq!(JmxvEff::parse(b"JMXVRES 0109"), Err(DecodeError::TagMismatch));
    // whatever follows the tag
    assert_eq!(JmxvEff::parse(b"XXXXXXXX"), Err(DecodeError::TagMismatch));
    assert_eq!(JmxvEffHeader::parse(b"jmxveff 0010"), Err(DecodeError::TagMismatch));
}

#[test]
fn an_unsupported_version_is_a_tag_mismatch() {
    let root = node("root", 3, &[]);
    for version in ["0009", "0014", "0100", "1000", "abcd", "\0\0\0\0"] {
        assert_eq!(JmxvEff::parse(&file(version, &[], root.clone())), Err(DecodeError::TagMismatch));
    }
    assert_eq!(JmxvEff::parse(b"JMXVEFF 001"), Err(DecodeError::UnexpectedEof));
    assert_eq!(JmxvEff::parse(b"JMXVEFF "), Err(DecodeError::UnexpectedEof));
}

#[test]
fn a_node_is_read_from_its_data_offset() {
    // a gap between the controllers and the body is passed over
    let bytes = node_with_gap("gap", &[], 5, body(3, &[]));
    let (rest, n) = EFStoredObject::parse(&bytes).unwrap();
    assert!(rest.is_empty());
    assert_eq!(n, expected_node("gap", 3, vec![]));
    // a data offset behind the end of the node
    let mut far = bytes.clone();
    far[..4].copy_from_slice(&1000u32.to_le_bytes());
    assert_eq!(EFStoredObject::parse(&far), Err(DecodeError::UnexpectedEof));
    let mut far = bytes.clone();
    far[..4].copy_from_slice(&u32::MAX.to_le_bytes());
    assert_eq!(EFStoredObject::parse(&far), Err(DecodeError::UnexpectedEof));
}

#[test]
fn the_data_offset_may_point_back_into_the_head() {
    // with a data offset of 0 the body starts where the name starts: the same
    // bytes are read once as name and controllers, and once as the body
    let mut bytes = 0u32.to_le_bytes().to_vec();
    let b = body(3, &[]);
    assert_eq!(&b[..4], &7u32.to_le_bytes());
    bytes.extend_from_slice(&b);
    let (rest, n) = EFStoredObject::parse(&bytes).unwrap();
    assert!(rest.is_empty());
    // the name: the seven bytes behind what the body reads as its first field
    assert_eq!(n, expected_node("\0\0\0\0\0\0\0", 3, vec![]));
}

#[test]
fn children_are_nodes() {
    let leaf_a = node("a", 10, &[]);
    let leaf_b = node("b", 11, &[]);
    let inner = node("inner", 12, &[leaf_b.clone()]);
    let root = node("root", 13, &[leaf_a, inner]);
    let mut bytes = file("0011", &[], root);
    bytes.extend_from_slice(&[0xEE, 0xEF]);
    let (rest, eff) = JmxvEff::parse(&bytes).unwrap();
    assert_eq!(rest, &[0xEEu8, 0xEF][..]);
    let expected = expected_node(
        "root",
        13,
        vec![
            expected_node("a", 10, vec![]),
            expected_node("inner", 12, vec![expected_node("b", 11, vec![])]),
        ],
    );
    assert_eq!(eff.root, expected);
    assert_eq!(eff.root.children.len(), 2);
    assert_eq!(eff.root.children[1].children[0].name, "b");
}

#[test]
fn parse_children_reads_that_many_nodes() {
    let mut bytes = node("a", 1, &[]);
    bytes.extend_from_slice(&node("b", 2, &[]));
    bytes.push(0xEE);
    let (rest, nodes) = EFStoredObject::parse_children(&bytes, 2).unwrap();
    assert_eq!(rest, &[0xEEu8][..]);
    assert_eq!(nodes, vec![expected_node("a", 1, vec![]), expected_node("b", 2, vec![])]);
    assert_eq!(EFStoredObject::parse_children(&bytes, 0).unwrap(), (&bytes[..], vec![]));
    assert_eq!(EFStoredObject::parse_children(&bytes, 3), Err(DecodeError::UnexpectedEof));
}

#[test]
fn a_failure_in_a_child_is_the_failure_of_the_file() {
    let leaf = node("leaf", 10, &[]);
    // a child whose controller has a name that selects nothing
    let bad = node_with_gap("bad", &[sized("Bogus")], 0, body(1, &[]));
    let root = node("root", 13, &[leaf.clone(), bad]);
    assert_eq!(
        JmxvEff::parse(&file("0010", &[], root)),
        Err(DecodeError::UnknownVariant("Bogus".to_string()))
    );
    // a tree that is cut off in its last child
    let whole = file("0010", &[], node("root", 13, &[leaf.clone(), leaf.clone()]));
    for cut in 1..40 {
        assert_eq!(JmxvEff::parse(&whole[..whole.len() - cut]), Err(DecodeError::UnexpectedEof));
    }
    // a child count that promises more children than there are
    let mut short = node("root", 13, &[leaf.clone()]);
    let count_at = short.len() - leaf.len() - 4;
    short[count_at..count_at + 4].copy_from_slice(&2u32.to_le_bytes());
    assert_eq!(JmxvEff::parse(&file("0010", &[], short)), Err(DecodeError::UnexpectedEof));
}

#[test]
fn decoding_twice_gives_equal_trees() {
    let leaf = node("leaf", 10, &[]);
    let bytes = file("0013", &[1, 2, 3, 4], node("root", 13, &[leaf.clone(), leaf]));
    let first = JmxvEff::parse(&bytes);
    let copy = bytes.clone();
    let second = JmxvEff::parse(&copy);
    assert!(first.is_ok());
    assert_eq!(first, second);
    let bad = &bytes[..bytes.len() - 1];
    assert_eq!(JmxvEff::parse(bad), JmxvEff::parse(bad));
    assert_eq!(JmxvEff::parse(bad), Err(DecodeError::UnexpectedEof));
}

#[test]
fn force_carries_a_vector() {
    let mut input = floats(&[1.0, -2.0, 0.5]);
    input.push(0xEE);
    let (rest, command) = EECommand::parser_for("Force", &input).unwrap();
    assert_eq!(command, EECommand::Force(v3(1.0, -2.0, 0.5)));
    assert_eq!(rest, &[0xEEu8][..]);
    assert_eq!(EECommand::parser_for("Force", &input[..11]), Err(DecodeError::UnexpectedEof));
}

#[test]
fn a_name_that_selects_nothing_is_an_unknown_variant() {
    let input = floats(&[1.0, 2.0, 3.0]);
    assert_eq!(EECommand::parser_for("Bogus", &input), Err(DecodeError::UnknownVariant("Bogus".to_string())));
    assert_eq!(EECommand::parser_for("", &input), Err(DecodeError::UnknownVariant(String::new())));
    // the comparison is exact and with case
    for name in ["force", "FORCE", "Force ", " Force", "Forc", "Force\0"] {
        assert_eq!(EECommand::parser_for(name, &input), Err(DecodeError::UnknownVariant(name.to_string())));
    }
    assert_eq!(
        EFController::parser_for("Bogus", &input),
        Err(DecodeError::UnknownVariant("Bogus".to_string()))
    );
    assert_eq!(
        EEParameter::parser_for("Bogus", &input),
        Err(DecodeError::UnknownVariant("Bogus".to_string()))
    );
    assert_eq!(ViewMode::from_name("Bogus", &input), Err(DecodeError::UnknownVariant("Bogus".to_string())));
    assert_eq!(RenderShape::from_name("Bogus", &input), Err(DecodeError::UnknownVariant("Bogus".to_string())));
    // a controller's name is no command's name
    assert_eq!(
        EECommand::parser_for("NormalTimeLife", &input),
        Err(DecodeError::UnknownVariant("NormalTimeLife".to_string()))
    );
    // the parameter type is spelled as the files spell it
    assert_eq!(
        EEParameter::parser_for("BlendScaleGraphPointer", &input),
        Err(DecodeError::UnknownVariant("BlendScaleGraphPointer".to_string()))
    );
}

#[test]
fn commands_without_a_payload_read_nothing() {
    let input = [0xEEu8; 3];
    let cases = [
        ("NeverExtinct", EECommand::NeverExtinct),
        ("NormalTimeExtinct", EECommand::NormalTimeExtinct),
        ("NormalTimeLoop", EECommand::NormalTimeLoop),
        ("ProgramUpdate", EECommand::ProgramUpdate),
        ("ViewNone", EECommand::ViewMode(ViewMode::Unlocked)),
        ("ViewBillboard", EECommand::ViewMode(ViewMode::Billboard)),
        ("ViewYBillboard", EECommand::ViewMode(ViewMode::YBillboard)),
        ("ViewVBillboard", EECommand::ViewMode(ViewMode::VBillboard)),
        ("RenderNone", EECommand::RenderShape(RenderShape::Nothing)),
        ("RenderPlate", EECommand::RenderShape(RenderShape::Plate)),
        ("RenderMesh", EECommand::RenderShape(RenderShape::Mesh)),
        ("RenderLinkDPipe", EECommand::RenderShape(RenderShape::LinkDPipe)),
        ("RenderLinkPipe", EECommand::RenderShape(RenderShape::LinkPipe)),
        ("RenderLinkObj", EECommand::RenderShape(RenderShape::LinkObj)),
    ];
    for (name, expected) in cases {
        assert_eq!(EECommand::parser_for(name, &input).unwrap(), (&input[..], expected.clone()));
        assert_eq!(EECommand::parser_for(name, &[]).unwrap(), (&[][..], expected));
    }
}

#[test]
fn commands_with_a_payload() {
    let emit = {
        let mut b = Vec::new();
        for n in [1i32, -2, 3, -4] {
            b.extend_from_slice(&n.to_le_bytes());
        }
        b.extend_from_slice(&2.5f32.to_le_bytes());
        b
    };
    let static_emit = EFStaticEmit { min: 1, max: -2, burst_rate: 3, min_particles: -4, spawn_rate: f(2.5) };
    let angle_bytes = floats(&[1.0, 2.0, 3.0, 4.0, 5.0, 6.0]);
    let angle = AngleVector1(v3(1.0, 2.0, 3.0), v3(4.0, 5.0, 6.0));
    let mut rot_bytes = floats(&[1.0, 2.0, 3.0]);
    rot_bytes.extend_from_slice(&matrix_bytes());
    let rot = RotVector(v3(1.0, 2.0, 3.0), matrix());
    let mut axis_bytes = floats(&[1.0, 2.0, 3.0, 4.0]);
    axis_bytes.extend_from_slice(&matrix_bytes());
    let axis = AxisVector4(v4(1.0, 2.0, 3.0, 4.0), matrix());
    let mut ban_pos_bytes = floats(&[9.0]);
    ban_pos_bytes.extend_from_slice(&list(&[floats(&[1.0, 2.0, 3.0])]));
    let mut ban_rot_bytes = floats(&[9.0]);
    ban_rot_bytes.extend_from_slice(&list(&[matrix_bytes(), matrix_bytes()]));
    let mut slide_bytes = floats(&[1.0, 2.0, 3.0]);
    slide_bytes.extend_from_slice(&list(&[floats(&[1.0, 2.0, 3.0, 4.0])]));
    let diffuse_bytes = list(&[vec![4, 3, 2, 1], vec![0xFF, 0xFF, 0xFF, 0xFF]]);
    let scale_bytes = list(&[floats(&[1.0, 2.0, 3.0])]);
    let cases: Vec<(&str, Vec<u8>, EECommand)> = vec![
        ("StaticEmit", emit.clone(), EECommand::StaticEmit(static_emit)),
        ("Attraction", floats(&[0.25]), EECommand::Attraction(f(0.25))),
        ("ConeForce", angle_bytes.clone(), EECommand::ConeForce(angle.clone())),
        ("Force", floats(&[1.0, 2.0, 3.0]), EECommand::Force(v3(1.0, 2.0, 3.0))),
        (
            "SetBANPos",
            ban_pos_bytes,
            EECommand::SetBANPos(FrameBANPosition(f(9.0), vec![v3(1.0, 2.0, 3.0)])),
        ),
        (
            "SetBANRot",
            ban_rot_bytes,
            EECommand::SetBANRot(FrameBANRotation(f(9.0), vec![matrix(), matrix()])),
        ),
        ("SetConePos", angle_bytes.clone(), EECommand::SetConePos(angle.clone())),
        ("SetConeVel", angle_bytes.clone(), EECommand::SetConeVel(angle.clone())),
        (
            "SetGraphDiffuse",
            diffuse_bytes,
            EECommand::SetGraphDiffuse(FrameDiffuse(vec![Color(0x01020304), Color(0xFFFFFFFF)])),
        ),
        ("SetGraphRandomScale", floats(&[0.5]), EECommand::SetGraphRandomScale(f(0.5))),
        ("SetGraphScale", scale_bytes, EECommand::SetGraphScale(FrameScale(vec![v3(1.0, 2.0, 3.0)]))),
        ("SetPosition", floats(&[1.0, 2.0, 3.0]), EECommand::SetPosition(v3(1.0, 2.0, 3.0))),
        ("SetRotation", rot_bytes.clone(), EECommand::SetRotation(rot.clone())),
        ("SetRotationAxis", axis_bytes.clone(), EECommand::SetRotationAxis(axis.clone())),
        ("SetRotationMat", matrix_bytes(), EECommand::SetRotationMat(matrix())),
        ("SetRVelocity", rot_bytes.clone(), EECommand::SetRVelocity(rot.clone())),
        ("SetRVelocityAxis", axis_bytes.clone(), EECommand::SetRVelocityAxis(axis.clone())),
        ("SetRVelocityMat", matrix_bytes(), EECommand::SetRVelocityMat(matrix())),
        ("SetShapeRot", axis_bytes.clone(), EECommand::SetShapeRot(axis.clone())),
        ("SetShapeRotVel", axis_bytes.clone(), EECommand::SetShapeRotVel(axis.clone())),
        ("SetSpherePos", floats(&[1.0, 2.0, 3.0]), EECommand::SetSpherePos(v3(1.0, 2.0, 3.0))),
        ("SetVelocity", floats(&[1.0, 2.0, 3.0]), EECommand::SetVelocity(v3(1.0, 2.0, 3.0))),
        (
            "TextureSlide",
            slide_bytes,
            EECommand::TextureSlide(FrameTextureSlide(v3(1.0, 2.0, 3.0), vec![v4(1.0, 2.0, 3.0, 4.0)])),
        ),
    ];
    for (name, mut payload, expected) in cases {
        let len = payload.len();
        payload.push(0xEE);
        assert_eq!(EECommand::parser_for(name, &payload).unwrap(), (&[0xEEu8][..], expected), "{}", name);
        assert_eq!(EECommand::parser_for(name, &payload[..len - 1]), Err(DecodeError::UnexpectedEof), "{}", name);
    }
}

fn filled_slot(name: &str, payload: &[u8]) -> Vec<u8> {
    let mut b = vec![1u8];
    b.extend_from_slice(&sized(name));
    b.push(21); // subtype
    b.push(22); // unkb1
    b.extend_from_slice(&floats(&[0.0, 1.0, 0.5])); // start, end, unkf0
    b.extend_from_slice(payload);
    b
}

#[test]
fn a_slot_is_empty_or_filled() {
    // a presence byte of zero: nothing more is read
    assert_eq!(EESourceData::parse(&[0, 0xEE]).unwrap(), (&[0xEEu8][..], None));
    assert_eq!(EESource::parse(&[0, 0xEE]).unwrap(), (&[0xEEu8][..], EESource(None)));
    assert_eq!(EESourceData::parse(&[]), Err(DecodeError::UnexpectedEof));
    // any other presence byte: the five fields stand between the name and the payload
    let mut bytes = filled_slot("Force", &floats(&[1.0, 2.0, 3.0]));
    bytes.push(0xEE);
    let expected = EESourceData {
        command: EECommand::Force(v3(1.0, 2.0, 3.0)),
        subtype: 21,
        unkb1: 22,
        start: f(0.0),
        end: f(1.0),
        unkf0: f(0.5),
    };
    assert_eq!(EESourceData::parse(&bytes).unwrap(), (&[0xEEu8][..], Some(expected.clone())));
    bytes[0] = 0xFF;
    assert_eq!(EESourceData::parse(&bytes).unwrap().1, Some(expected));
    assert_eq!(
        EESourceData::parse(&filled_slot("Bogus", &[])),
        Err(DecodeError::UnknownVariant("Bogus".to_string()))
    );
    assert_eq!(EESourceData::parse(&filled_slot("Force", &[1, 2, 3])), Err(DecodeError::UnexpectedEof));
}

#[test]
fn a_source_list_is_a_counted_sequence_of_slots() {
    let bytes = list(&[vec![0], filled_slot("NeverExtinct", &[]), vec![0]]);
    let (rest, slots) = EESourceList::parse(&bytes).unwrap();
    assert!(rest.is_empty());
    assert_eq!(slots.0.len(), 3);
    assert_eq!(slots.0[0], None);
    assert_eq!(slots.0[1].as_ref().unwrap().command, EECommand::NeverExtinct);
    assert_eq!(slots.0[2], None);
    assert_eq!(EEProgram::parse(&bytes).unwrap().1, EEProgram(slots));
    // a failure in a slot: none of the slots before it is handed out
    let bad = list(&[vec![0], filled_slot("Bogus", &[])]);
    assert_eq!(EESourceList::parse(&bad), Err(DecodeError::UnknownVariant("Bogus".to_string())));
}

#[test]
fn view_modes_and_shapes_by_name() {
    let cases = [
        ("ViewNone", ViewMode::Unlocked),
        ("ViewBillboard", ViewMode::Billboard),
        ("ViewYBillboard", ViewMode::YBillboard),
        ("ViewVBillboard", ViewMode::VBillboard),
    ];
    for (name, expected) in cases {
        let mut bytes = sized(name);
        bytes.push(0xEE);
        assert_eq!(ViewMode::parse(&bytes).unwrap(), (&[0xEEu8][..], expected));
    }
    let cases = [
        ("RenderNone", RenderShape::Nothing),
        ("RenderPlate", RenderShape::Plate),
        ("RenderMesh", RenderShape::Mesh),
        ("RenderLinkDPipe", RenderShape::LinkDPipe),
        ("RenderLinkPipe", RenderShape::LinkPipe),
        ("RenderLinkObj", RenderShape::LinkObj),
    ];
    for (name, expected) in cases {
        let mut bytes = sized(name);
        bytes.push(0xEE);
        assert_eq!(RenderShape::parse(&bytes).unwrap(), (&[0xEEu8][..], expected));
    }
    assert_eq!(ViewMode::parse(&sized("RenderNone")), Err(DecodeError::UnknownVariant("RenderNone".to_string())));
    assert_eq!(RenderShape::parse(&sized("ViewNone")), Err(DecodeError::UnknownVariant("ViewNone".to_string())));
    assert_eq!(ViewMode::parse(&[9, 0, 0, 0, b'V']), Err(DecodeError::UnexpectedEof));
}

fn blend_u8() -> (Vec<u8>, EEBlend<u8>) {
    let mut b = floats(&[0.0, 1.0]);
    let mut one = floats(&[0.25]);
    one.push(200);
    let mut two = floats(&[0.75]);
    two.push(100);
    b.extend_from_slice(&list(&[one, two]));
    (b, EEBlend { begin: f(0.0), end: f(1.0), blends: vec![(f(0.25), 200), (f(0.75), 100)] })
}

fn blend_f32() -> (Vec<u8>, EEBlend<F32>) {
    let mut b = floats(&[0.0, 2.0]);
    b.extend_from_slice(&list(&[floats(&[0.5, 9.0])]));
    (b, EEBlend { begin: f(0.0), end: f(2.0), blends: vec![(f(0.5), f(9.0))] })
}

fn blend_color() -> (Vec<u8>, EEBlend<Color>) {
    let mut b = floats(&[0.0, 3.0]);
    let mut one = floats(&[0.5]);
    one.extend_from_slice(&0xAABBCCDDu32.to_le_bytes());
    b.extend_from_slice(&list(&[one]));
    (b, EEBlend { begin: f(0.0), end: f(3.0), blends: vec![(f(0.5), Color(0xAABBCCDD))] })
}

fn blend_v3() -> (Vec<u8>, EEBlend<Vector3>) {
    let mut b = floats(&[0.0, 4.0]);
    b.extend_from_slice(&list(&[floats(&[0.5, 1.0, 2.0, 3.0])]));
    (b, EEBlend { begin: f(0.0), end: f(4.0), blends: vec![(f(0.5), v3(1.0, 2.0, 3.0))] })
}

fn resource() -> (Vec<u8>, EEResource) {
    let mut b = Vec::new();
    for n in [1u32, 2, 3, 4, 5, 6, 7, 8, 9] {
        b.extend_from_slice(&n.to_le_bytes());
    }
    let mut mesh_a = sized("a.bms");
    mesh_a.extend_from_slice(&list(&[sized("a.ddj"), sized("b.ddj")]));
    let mut mesh_b = sized("b.bms");
    mesh_b.extend_from_slice(&list(&[]));
    b.extend_from_slice(&list(&[mesh_a, mesh_b]));
    let r = EEResource {
        two_sided: true,
        src_blend: 2,
        dst_blend: 3,
        src_texture_arg0: 4,
        src_texture_arg1: 5,
        src_texture_op: 6,
        dst_texture_arg0: 7,
        dst_texture_arg1: 8,
        dst_texture_op: 9,
        meshes: vec![
            ("a.bms".to_string(), vec!["a.ddj".to_string(), "b.ddj".to_string()]),
            ("b.bms".to_string(), vec![]),
        ],
    };
    (b, r)
}

#[test]
fn a_resource_names_its_meshes_and_their_textures() {
    let (mut bytes, expected) = resource();
    bytes.push(0xEE);
    assert_eq!(EEResource::parse(&bytes).unwrap(), (&[0xEEu8][..], expected));
    assert_eq!(EEResource::parse(&bytes[..bytes.len() - 2]), Err(DecodeError::UnexpectedEof));
}

#[test]
fn controllers_by_name() {
    let emit = {
        let mut b = Vec::new();
        for n in [1i32, 2, 3, 4] {
            b.extend_from_slice(&n.to_le_bytes());
        }
        b.extend_from_slice(&2.5f32.to_le_bytes());
        b
    };
    let program = list(&[vec![0], filled_slot("ProgramUpdate", &[])]);
    let program_value = EESourceList::parse(&program).unwrap().1;
    let link: Vec<u8> = [1u32, 2, 3, 4].iter().flat_map(|n| n.to_le_bytes()).collect();
    let ban = list(&[sized("walk.ban"), sized("run.ban")]);
    let (resource_bytes, resource_value) = resource();
    let mut shape = sized("RenderMesh");
    shape.extend_from_slice(&resource_bytes);
    let mut scale = Vec::new();
    for _ in 0..3 {
        scale.extend_from_slice(&blend_f32().0);
    }
    scale.extend_from_slice(&floats(&[7.0, 8.0]));
    let mut diffuse = blend_u8().0;
    diffuse.extend_from_slice(&blend_color().0);
    let cases: Vec<(&str, Vec<u8>, EFController)> = vec![
        ("NormalTimeLife", vec![], EFController::NormalTimeLife),
        ("NormalTimeLoopLife", vec![], EFController::NormalTimeLoopLife),
        (
            "StaticEmit",
            emit,
            EFController::StaticEmit(EFStaticEmit {
                min: 1,
                max: 2,
                burst_rate: 3,
                min_particles: 4,
                spawn_rate: f(2.5),
            }),
        ),
        ("Program", program, EFController::Program(EEProgram(program_value))),
        ("LinkMode", link, EFController::LinkMode { unk0: 1, unk1: 2, unk2: 3, unk3: 4 }),
        ("BAN", ban.clone(), EFController::Ban(BSAnimation::parse(&ban).unwrap().1)),
        ("ViewMode", sized("ViewYBillboard"), EFController::ViewMode(ViewMode::YBillboard)),
        ("Shape", shape, EFController::Shape { shape: RenderShape::Mesh, resource: resource_value }),
        (
            "ScaleGraph",
            scale,
            EFController::ScaleGraph {
                scale_x: blend_f32().1,
                scale_y: blend_f32().1,
                scale_z: blend_f32().1,
                float0: f(7.0),
                float1: f(8.0),
            },
        ),
        (
            "DiffuseGraph",
            diffuse,
            EFController::DiffuseGraph { scale_x: blend_u8().1, scale_y: blend_color().1 },
        ),
    ];
    for (name, payload, expected) in cases {
        let mut bytes = sized(name);
        bytes.extend_from_slice(&payload);
        bytes.push(0xEE);
        assert_eq!(EFController::parse(&bytes).unwrap(), (&[0xEEu8][..], expected.clone()), "{}", name);
        let mut with_payload = payload.clone();
        with_payload.push(0xEE);
        assert_eq!(
            EFController::parser_for(name, &with_payload).unwrap(),
            (&[0xEEu8][..], expected),
            "{}",
            name
        );
        if !payload.is_empty() {
            assert_eq!(
                EFController::parser_for(name, &payload[..payload.len() - 1]),
                Err(DecodeError::UnexpectedEof),
                "{}",
                name
            );
        }
    }
    assert_eq!(EFController::parse(&sized("Ban")), Err(DecodeError::UnknownVariant("Ban".to_string())));
}

#[test]
fn the_names_of_animations() {
    let bytes = list(&[sized("walk.ban"), sized("run.ban")]);
    let (rest, names) = BSAnimation::parse(&bytes).unwrap();
    assert!(rest.is_empty());
    assert_eq!(format!("{:?}", names), "BSAnimation([\"walk.ban\", \"run.ban\"])");
    assert_eq!(BSAnimation::parse(&bytes[..bytes.len() - 1]), Err(DecodeError::UnexpectedEof));
}

#[test]
fn parameters_by_name() {
    let mut rot_bytes = floats(&[1.0, 2.0, 3.0]);
    rot_bytes.extend_from_slice(&matrix_bytes());
    let mut axis_bytes = floats(&[1.0, 2.0, 3.0, 4.0]);
    axis_bytes.extend_from_slice(&matrix_bytes());
    let mut ban_pos_bytes = floats(&[9.0]);
    ban_pos_bytes.extend_from_slice(&list(&[]));
    let mut ban_rot_bytes = floats(&[9.0]);
    ban_rot_bytes.extend_from_slice(&list(&[matrix_bytes()]));
    let mut slide_bytes = floats(&[1.0, 2.0, 3.0]);
    slide_bytes.extend_from_slice(&list(&[]));
    let ban = list(&[sized("x")]);
    let emit: Vec<u8> = [0u8; 20].to_vec();
    let cases: Vec<(&str, Vec<u8>, EEParameter)> = vec![
        ("Float", floats(&[1.5]), EEParameter::Float(f(1.5))),
        ("Vector", floats(&[1.0, 2.0, 3.0]), EEParameter::Vector(v3(1.0, 2.0, 3.0))),
        ("Matrix", matrix_bytes(), EEParameter::Matrix(matrix())),
        ("AxisVector4", axis_bytes, EEParameter::AxisVector4(AxisVector4(v4(1.0, 2.0, 3.0, 4.0), matrix()))),
        ("RotVector", rot_bytes, EEParameter::RotVector(RotVector(v3(1.0, 2.0, 3.0), matrix()))),
        (
            "AngleVector1",
            floats(&[1.0, 2.0, 3.0, 4.0, 5.0, 6.0]),
            EEParameter::AngleVector1(AngleVector1(v3(1.0, 2.0, 3.0), v3(4.0, 5.0, 6.0))),
        ),
        ("FrameScale", list(&[]), EEParameter::FrameScale(FrameScale(vec![]))),
        ("FrameDiffuse", list(&[vec![1, 0, 0, 0]]), EEParameter::FrameDiffuse(FrameDiffuse(vec![Color(1)]))),
        (
            "FrameBANRotation",
            ban_rot_bytes,
            EEParameter::FrameBANRotation(FrameBANRotation(f(9.0), vec![matrix()])),
        ),
        ("FrameBANPosition", ban_pos_bytes, EEParameter::FrameBANPosition(FrameBANPosition(f(9.0), vec![]))),
        (
            "FrameTextureSlide",
            slide_bytes,
            EEParameter::FrameTextureSlide(FrameTextureSlide(v3(1.0, 2.0, 3.0), vec![])),
        ),
        ("BSAnimation", ban.clone(), EEParameter::BSAnimation(BSAnimation::parse(&ban).unwrap().1)),
        ("BlendeScaleGraphPointer", floats(&[2.0]), EEParameter::BlendScaleGraphPointer(f(2.0))),
        (
            "StaticEmit",
            emit,
            EEParameter::StaticEmit(EFStaticEmit {
                min: 0,
                max: 0,
                burst_rate: 0,
                min_particles: 0,
                spawn_rate: f(0.0),
            }),
        ),
        ("BlendDiffuseGraph", blend_color().0, EEParameter::BlendDiffuseGraph(blend_color().1)),
        ("BlendScaleGraph", blend_v3().0, EEParameter::BlendScaleGraph(blend_v3().1)),
    ];
    let mut all = Vec::new();
    let mut expected_all = Vec::new();
    for (name, payload, expected) in cases {
        let mut bytes = sized(name);
        bytes.extend_from_slice(&payload);
        all.push(bytes.clone());
        expected_all.push(expected.clone());
        bytes.push(0xEE);
        assert_eq!(EEParameter::parse(&bytes).unwrap(), (&[0xEEu8][..], expected), "{}", name);
        assert_eq!(
            EEParameter::parse(&bytes[..bytes.len() - 2]),
            Err(DecodeError::UnexpectedEof),
            "{}",
            name
        );
    }
    // a parameter block holds them one behind the other
    let mut block = 5u32.to_le_bytes().to_vec();
    block.extend_from_slice(&list(&all));
    assert_eq!(
        EEGlobalData::parse(&block).unwrap(),
        (&[][..], EEGlobalData { unk0: 5, parameters: expected_all })
    );
}

#[test]
fn a_blend_curve_of_any_sample() {
    let (bytes, expected) = blend_u8();
    assert_eq!(EEBlend::parser(Each::<u8>::new(), &bytes).unwrap(), (&[][..], expected));
    let (bytes, expected) = blend_v3();
    assert_eq!(EEBlend::parser(Each::<Vector3>::new(), &bytes).unwrap(), (&[][..], expected));
    assert_eq!(<EEBlend<Color> as Parse>::parse(&blend_color().0).unwrap(), (&[][..], blend_color().1));
    assert_eq!(<EEBlend<F32> as Parse>::parse(&blend_f32().0).unwrap(), (&[][..], blend_f32().1));
    assert_eq!(
        EEBlend::parser(Each::<Vector3>::new(), &bytes[..bytes.len() - 1]),
        Err(DecodeError::UnexpectedEof)
    );
}

#[test]
fn a_node_with_controllers_and_filled_slots() {
    let controllers = vec![sized("NormalTimeLife"), {
        let mut c = sized("ViewMode");
        c.extend_from_slice(&sized("ViewBillboard"));
        c
    }];
    let mut b = Vec::new();
    b.extend_from_slice(&7u32.to_le_bytes());
    let mut param = sized("Float");
    param.extend_from_slice(&floats(&[1.5]));
    b.extend_from_slice(&list(&[param]));
    b.extend_from_slice(&list(&[]));
    b.extend_from_slice(&list(&[filled_slot("StaticEmit", &[0u8; 20])]));
    b.extend_from_slice(&list(&[]));
    b.extend_from_slice(&filled_slot("NormalTimeLoop", &[]));
    b.extend_from_slice(&list(&[filled_slot("ProgramUpdate", &[])]));
    b.extend_from_slice(&[1, 2]);
    b.extend_from_slice(&[3, 0, 0, 0, 4, 0, 0, 0, 5, 0, 0, 0, 6, 8, 0, 0, 0, 9]);
    b.extend_from_slice(&filled_slot("ViewBillboard", &[]));
    b.extend_from_slice(&resource().0);
    b.extend_from_slice(&filled_slot("RenderPlate", &[]));
    b.extend_from_slice(&list(&[]));
    b.extend_from_slice(&list(&[filled_slot("Force", &floats(&[0.0, -9.8, 0.0])), vec![0]]));
    b.extend_from_slice(&list(&[]));
    let bytes = node_with_gap("spark", &controllers, 3, b);
    let (rest, n) = EFStoredObject::parse(&bytes).unwrap();
    assert!(rest.is_empty());
    assert_eq!(n.name, "spark");
    assert_eq!(
        n.controllers,
        vec![EFController::NormalTimeLife, EFController::ViewMode(ViewMode::Billboard)]
    );
    assert_eq!(n.global_data, EEGlobalData { unk0: 7, parameters: vec![EEParameter::Float(f(1.5))] });
    assert_eq!(n.emitter_sl.0.len(), 1);
    assert_eq!(n.lifetime_source.0.as_ref().unwrap().command, EECommand::NormalTimeLoop);
    assert_eq!(n.program_sl.0[0].as_ref().unwrap().command, EECommand::ProgramUpdate);
    assert_eq!((n.unkb0, n.unkb1, n.unk0, n.unk1, n.unk2, n.unkb2, n.unk3, n.unkb3), (1, 2, 3, 4, 5, 6, 8, 9));
    assert_eq!(n.view_mode_source.0.as_ref().unwrap().command, EECommand::ViewMode(ViewMode::Billboard));
    assert_eq!(n.resource, resource().1);
    assert_eq!(n.render_source.0.as_ref().unwrap().command, EECommand::RenderShape(RenderShape::Plate));
    assert_eq!(n.render_sl.0.len(), 2);
    assert_eq!(n.render_sl.0[0].as_ref().unwrap().command, EECommand::Force(v3(0.0, -9.8, 0.0)));
    assert_eq!(n.render_sl.0[1], None);
    assert!(n.children.is_empty());
    let again = EFStoredObject::parse_fields(&bytes).unwrap();
    assert_eq!(again.1 .1, 0);
    assert_eq!(again.1 .0, n);
}
