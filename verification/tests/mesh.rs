use sr_formats::decode::Decoder;
use sr_formats::jmxvbms::{
    parse_bones, parse_cloth_edges, BoneIndexData, ClothEdge, ClothSimParams, ClothVertex, Face, JmxBMesh,
    JmxBMeshHeader, NavFlags, NavMesh, ObjectLines, Unknown, Vertex, VertexFlags,
};
use sr_formats::math::{Vector2, Vector3, F32};
use sr_formats::DecodeError;

fn f(value: f32) -> F32 {
    F32 { bits: value.to_bits() }
}

fn v3(x: f32, y: f32, z: f32) -> Vector3 {
    Vector3 { x: f(x), y: f(y), z: f(z) }
}

fn floats(values: &[f32]) -> Vec<u8> {
    values.iter().flat_map(|v| v.to_le_bytes()).collect()
}

fn u32s(values: &[u32]) -> Vec<u8> {
    values.iter().flat_map(|v| v.to_le_bytes()).collect()
}

fn u16s(values: &[u16]) -> Vec<u8> {
    values.iter().flat_map(|v| v.to_le_bytes()).collect()
}

fn sized(text: &str) -> Vec<u8> {
    let mut bytes = (text.len() as u32).to_le_bytes().to_vec();
    bytes.extend_from_slice(text.as_bytes());
    bytes
}

fn vertex_bytes(light_map: bool) -> Vec<u8> {
    let mut b = floats(&[1.0, 2.0, 3.0, 0.0, 1.0, 0.0, 0.25, 0.75]);
    if light_map {
        b.extend_from_slice(&floats(&[0.5, 0.5]));
    }
    b.extend_from_slice(&floats(&[9.0]));
    b.extend_from_slice(&(-1i32).to_le_bytes());
    b.extend_from_slice(&7i32.to_le_bytes());
    b
}

fn vertex(light_map: bool) -> Vertex {
    Vertex {
        position: v3(1.0, 2.0, 3.0),
        normal: v3(0.0, 1.0, 0.0),
        uv0: Vector2 { x: f(0.25), y: f(0.75) },
        uv1: if light_map { Some(Vector2 { x: f(0.5), y: f(0.5) }) } else { None },
        float0: f(9.0),
        int0: -1,
        int1: 7,
    }
}

fn nav_mesh_bytes(flags: u32) -> Vec<u8> {
    let mut b = Vec::new();
    // vertices
    b.extend_from_slice(&u32s(&[1]));
    b.extend_from_slice(&floats(&[1.0, 2.0, 3.0]));
    b.push(4);
    // ground
    b.extend_from_slice(&u32s(&[1]));
    b.extend_from_slice(&u16s(&[0, 1, 2, 9]));
    if flags & 2 != 0 {
        b.push(5);
    }
    // outlines and inlines
    for _ in 0..2 {
        b.extend_from_slice(&u32s(&[1]));
        b.extend_from_slice(&u16s(&[1, 2, 3, 0xFFFF]));
        b.push(6);
        if flags & 1 != 0 {
            b.push(7);
        }
    }
    if flags & 4 != 0 {
        b.extend_from_slice(&u32s(&[1]));
        b.extend_from_slice(&sized("door"));
    }
    b.extend_from_slice(&floats(&[0.5, 1.5]));
    b.extend_from_slice(&u32s(&[2, 3]));
    b.extend_from_slice(&u32s(&[2, 2]));
    b.extend_from_slice(&u16s(&[1, 2]));
    b.extend_from_slice(&u32s(&[0]));
    b
}

fn mesh_file(vertex_flags: u32, nav_flags: u32, with_nav: bool, version: &[u8; 4]) -> Vec<u8> {
    let light_map = vertex_flags & 0x400 != 0;
    let mut b = b"JMXVBMS ".to_vec();
    b.extend_from_slice(version);
    b.extend_from_slice(&u32s(&[0; 8]));
    b.extend_from_slice(&u32s(&[1, 2, 3, nav_flags, 4, vertex_flags, 5]));
    b.extend_from_slice(&sized("mesh"));
    b.extend_from_slice(&sized("mat"));
    b.extend_from_slice(&u32s(&[6]));
    let mut at = Vec::new();
    // vertex
    at.push(b.len());
    b.extend_from_slice(&u32s(&[2]));
    b.extend_from_slice(&vertex_bytes(light_map));
    b.extend_from_slice(&vertex_bytes(light_map));
    if light_map {
        b.extend_from_slice(&sized("light.ddj"));
    }
    // skin
    at.push(b.len());
    b.extend_from_slice(&u32s(&[1]));
    b.extend_from_slice(&sized("hip"));
    b.extend_from_slice(&[0, 100, 0, 1, 200, 0]);
    b.extend_from_slice(&[1, 50, 0, 0, 60, 0]);
    // face
    at.push(b.len());
    b.extend_from_slice(&u32s(&[1]));
    b.extend_from_slice(&u16s(&[0, 1, 2]));
    // cloth_vertex
    at.push(b.len());
    b.extend_from_slice(&u32s(&[1]));
    b.extend_from_slice(&floats(&[0.5]));
    b.extend_from_slice(&u32s(&[1]));
    // cloth_edge
    at.push(b.len());
    b.extend_from_slice(&u32s(&[0]));
    // bounding_box
    at.push(b.len());
    b.extend_from_slice(&floats(&[0.0, 0.0, 0.0, 1.0, 1.0, 1.0]));
    // gate
    at.push(b.len());
    b.extend_from_slice(&u32s(&[1]));
    b.extend_from_slice(&sized("gate"));
    b.extend_from_slice(&u32s(&[1]));
    b.extend_from_slice(&floats(&[1.0, 2.0, 3.0]));
    b.extend_from_slice(&u32s(&[1]));
    b.extend_from_slice(&u16s(&[3, 4, 5]));
    // nav_mesh
    if with_nav {
        at.push(b.len());
        b.extend_from_slice(&nav_mesh_bytes(nav_flags));
    } else {
        at.push(0);
    }
    for (n, o) in at.iter().enumerate() {
        b[12 + 4 * n..16 + 4 * n].copy_from_slice(&(*o as u32).to_le_bytes());
    }
    b
}

#[test]
fn a_mesh_is_read_by_sections() {
    let bytes = mesh_file(0, 0, false, b"0110");
    let (rest, mesh) = JmxBMesh::parse(&bytes).unwrap();
    assert!(rest.is_empty());
    assert_eq!((mesh.header.name.as_str(), mesh.header.material.as_str()), ("mesh", "mat"));
    assert_eq!((mesh.header.unk0, mesh.header.unk1, mesh.header.unk3), (1, 2, 3));
    assert_eq!((mesh.header.sub_prim_count, mesh.header.unk4, mesh.header.unk5), (4, 5, 6));
    assert_eq!(mesh.vertices, vec![vertex(false), vertex(false)]);
    assert_eq!(mesh.light_map_path, None);
    assert_eq!(
        mesh.bone_data,
        Some((
            vec!["hip".to_string()],
            vec![
                BoneIndexData { index0: 0, weight0: 100, index1: 1, weight1: 200 },
                BoneIndexData { index0: 1, weight0: 50, index1: 0, weight1: 60 },
            ]
        ))
    );
    assert_eq!(mesh.faces, vec![Face([0, 1, 2])]);
    assert_eq!(mesh.cloth_vertex, vec![ClothVertex { max_distance: f(0.5), is_pinned: true }]);
    assert_eq!(mesh.cloth_edges, None);
    assert_eq!(mesh.bounding_box, [f(0.0), f(0.0), f(0.0), f(1.0), f(1.0), f(1.0)]);
    assert_eq!(mesh.gates.len(), 1);
    assert_eq!(mesh.gates[0].name, "gate");
    assert_eq!(mesh.gates[0].vertices, vec![v3(1.0, 2.0, 3.0)]);
    assert_eq!(mesh.gates[0].faces, vec![Face([3, 4, 5])]);
    assert_eq!(mesh.nav_mesh, None);
}

#[test]
fn both_versions_of_the_mesh_tag_are_read() {
    assert!(JmxBMesh::parse(&mesh_file(0, 0, false, b"0109")).is_ok());
    assert!(JmxBMesh::parse(&mesh_file(0, 0, false, b"0110")).is_ok());
    assert_eq!(JmxBMesh::parse(&mesh_file(0, 0, false, b"0111")), Err(DecodeError::TagMismatch));
    assert_eq!(JmxBMesh::parse(&mesh_file(0, 0, false, b"0108")), Err(DecodeError::TagMismatch));
    assert_eq!(JmxBMeshHeader::parse(b"JMXVBMS 010"), Err(DecodeError::TagMismatch));
    assert_eq!(JmxBMeshHeader::parse(b"JMXVBMS 0110"), Err(DecodeError::UnexpectedEof));
}

#[test]
fn a_mesh_with_a_light_map() {
    let bytes = mesh_file(0x400, 0, false, b"0110");
    let (_, mesh) = JmxBMesh::parse(&bytes).unwrap();
    assert!(mesh.header.vertex_flags.contains(VertexFlags::HAS_LIGHT_MAP));
    assert_eq!(mesh.vertices, vec![vertex(true), vertex(true)]);
    assert_eq!(mesh.light_map_path, Some("light.ddj".to_string()));
}

#[test]
fn a_nav_mesh_offset_of_zero_stands_for_no_nav_mesh() {
    let bytes = mesh_file(0, 0xF, false, b"0110");
    let (_, mesh) = JmxBMesh::parse(&bytes).unwrap();
    assert_eq!(mesh.header.nav_mesh, 0);
    assert_eq!(mesh.nav_mesh, None);
    // nothing is read at position 0: the file's own tag is no nav mesh, and is no error
    assert_eq!(&bytes[..8], b"JMXVBMS ");
}

#[test]
fn a_mesh_with_a_nav_mesh() {
    for flags in 0..16u32 {
        let bytes = mesh_file(0, flags, true, b"0110");
        let (_, mesh) = JmxBMesh::parse(&bytes).unwrap();
        let nav = mesh.nav_mesh.unwrap();
        assert_eq!(nav.vertices, vec![(v3(1.0, 2.0, 3.0), 4)]);
        assert_eq!(nav.ground, vec![(Face([0, 1, 2]), 9, if flags & 2 != 0 { Some(5) } else { None })]);
        let line = ObjectLines {
            vertex_source: 1,
            vertex_destination: 2,
            cell_source: 3,
            cell_destination: 0xFFFF,
            collision_flag: 6,
            unk: if flags & 1 != 0 { Some(7) } else { None },
        };
        assert_eq!(nav.outlines, vec![line]);
        assert_eq!(nav.inlines, vec![line]);
        assert_eq!(nav.event, if flags & 4 != 0 { vec!["door".to_string()] } else { vec![] });
        assert_eq!((nav.unk0, nav.unk1, nav.unk2, nav.unk3), (f(0.5), f(1.5), 2, 3));
        assert_eq!(nav.unk4, vec![vec![1, 2], vec![]]);
    }
}

#[test]
fn mesh_offsets_behind_the_end_are_out_of_bounds() {
    let bytes = mesh_file(0, 0, true, b"0110");
    for n in 0..8 {
        let mut bad = bytes.clone();
        bad[12 + 4 * n..16 + 4 * n].copy_from_slice(&(bytes.len() as u32 + 1).to_le_bytes());
        assert_eq!(JmxBMesh::parse(&bad), Err(DecodeError::OffsetOutOfBounds), "offset {}", n);
    }
    // flags with undeclared bits
    assert_eq!(JmxBMesh::parse(&mesh_file(0, 0x10, false, b"0110")), Err(DecodeError::UnknownBitflags(0x10)));
    assert_eq!(JmxBMesh::parse(&mesh_file(0x2000, 0, false, b"0110")), Err(DecodeError::UnknownBitflags(0x2000)));
    assert_eq!(JmxBMeshHeader::parse(&mesh_file(0x1, 0, false, b"0110")), Err(DecodeError::UnknownBitflags(0x1)));
}

#[test]
fn bones_are_there_where_the_count_is_not_zero() {
    let mut bytes = u32s(&[2]);
    bytes.extend_from_slice(&sized("a"));
    bytes.extend_from_slice(&sized("b"));
    bytes.extend_from_slice(&[1, 2, 0, 3, 4, 0]);
    bytes.push(0xEE);
    let (rest, bones) = parse_bones(1, &bytes).unwrap();
    assert_eq!(rest, &[0xEEu8][..]);
    assert_eq!(
        bones,
        Some((
            vec!["a".to_string(), "b".to_string()],
            vec![BoneIndexData { index0: 1, weight0: 2, index1: 3, weight1: 4 }]
        ))
    );
    assert_eq!(parse_bones(2, &bytes), Err(DecodeError::UnexpectedEof));
    assert_eq!(parse_bones(0, &bytes).unwrap().1, Some((vec!["a".to_string(), "b".to_string()], vec![])));
    // a count of zero: the vertices have no bone data either
    assert_eq!(parse_bones(5, &[0, 0, 0, 0, 0xEE]).unwrap(), (&[0xEEu8][..], None));
}

#[test]
fn cloth_edges_are_there_where_the_count_is_not_zero() {
    let mut bytes = u32s(&[2]);
    bytes.extend_from_slice(&u32s(&[0, 1]));
    bytes.extend_from_slice(&floats(&[0.5]));
    bytes.extend_from_slice(&u32s(&[1, 2]));
    bytes.extend_from_slice(&floats(&[1.5]));
    bytes.extend_from_slice(&u32s(&[8, 9]));
    bytes.extend_from_slice(&u32s(&[1]));
    bytes.extend_from_slice(&floats(&[1.0, 2.0, 3.0, 4.0, 5.0, 6.0, 7.0]));
    bytes.extend_from_slice(&u32s(&[2]));
    let (rest, cloth) = parse_cloth_edges(&bytes).unwrap();
    assert!(rest.is_empty());
    let (edges, numbers, params) = cloth.unwrap();
    assert_eq!(
        edges,
        vec![
            ClothEdge { vertex_index0: 0, vertex_index1: 1, max_distance: f(0.5) },
            ClothEdge { vertex_index0: 1, vertex_index1: 2, max_distance: f(1.5) },
        ]
    );
    assert_eq!(numbers, vec![8, 9]);
    assert_eq!(
        params,
        ClothSimParams {
            unk0: 1,
            unk1: f(1.0),
            unk2: f(2.0),
            unk3: f(3.0),
            unk4: f(4.0),
            unk5: f(5.0),
            unk6: f(6.0),
            unk7: f(7.0),
            unk8: 2,
        }
    );
    assert_eq!(parse_cloth_edges(&bytes[..bytes.len() - 1]), Err(DecodeError::UnexpectedEof));
    assert_eq!(parse_cloth_edges(&[0, 0, 0, 0, 1]).unwrap(), (&[1u8][..], None));
}

#[test]
fn parameterised_decoders_hold_their_parameters() {
    assert_eq!(Vertex::parser(true).light_map, true);
    assert_eq!(Vertex::parser(true).decode(&vertex_bytes(true)).unwrap(), (&[][..], vertex(true)));
    assert_eq!(Vertex::parser(false).decode(&vertex_bytes(false)).unwrap(), (&[][..], vertex(false)));
    assert_eq!(Vertex::parser(true).decode(&vertex_bytes(false)), Err(DecodeError::UnexpectedEof));
    let flags = NavFlags::from_bits(1).unwrap();
    assert_eq!(ObjectLines::parser(flags).nav_flag, flags);
    let (rest, line) = ObjectLines::parser(flags).decode(&[1, 0, 2, 0, 3, 0, 4, 0, 5, 6, 7]).unwrap();
    assert_eq!(rest, &[7u8][..]);
    assert_eq!(line.unk, Some(6));
    let none = NavFlags::from_bits(0).unwrap();
    let (rest, line) = ObjectLines::parser(none).decode(&[1, 0, 2, 0, 3, 0, 4, 0, 5, 6, 7]).unwrap();
    assert_eq!(rest, &[6u8, 7][..]);
    assert_eq!(line.unk, None);
    let nav = NavMesh::parser(none).decode(&nav_mesh_bytes(0)).unwrap().1;
    assert_eq!(nav.unk2, 2);
    assert_eq!(Unknown(f(1.0), 2).1, 2);
}
