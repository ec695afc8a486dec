use sr_formats::enums::{NewInterfaceType, ResourceAnimationType, ResourceType};
use sr_formats::gmwpfort::Gmwpfort;
use sr_formats::jmxvban::{AnimatedBone, JmxAnimation, KeyFrame};
use sr_formats::jmxvbmt::{JmxMat, MaterialFlags};
use sr_formats::jmxvbsk::JmxSkeleton;
use sr_formats::jmxvbsr::{JmxRes, JmxResHeader};
use sr_formats::jmxvcpd::{JmxCompound, JmxCompoundHeader};
use sr_formats::jmxvddj::JmxTexture;
use sr_formats::jmxvdof::JmxDungeon;
use sr_formats::jmxvenvi::{GraphPoint, JmxEnvironment};
use sr_formats::jmxvmapm::JmxMapMesh;
use sr_formats::jmxvmapo::JmxMapObject;
use sr_formats::jmxvmapt::JmxMapTexture;
use sr_formats::jmxvmfo::JmxMapInfo;
use sr_formats::jmxvnvm::JmxNvm;
use sr_formats::math::{Vector2, Vector3, Vector4, F32};
use sr_formats::newinterface::NewInterface;
use sr_formats::DecodeError;

fn f(value: f32) -> F32 {
    F32 { bits: value.to_bits() }
}

fn v2(x: f32, y: f32) -> Vector2 {
    Vector2 { x: f(x), y: f(y) }
}

fn v3(x: f32, y: f32, z: f32) -> Vector3 {
    Vector3 { x: f(x), y: f(y), z: f(z) }
}

fn v4(x: f32, y: f32, z: f32, w: f32) -> Vector4 {
    Vector4 { x: f(x), y: f(y), z: f(z), w: f(w) }
}

struct Bytes(Vec<u8>);

impl Bytes {
    fn new() -> Bytes {
        Bytes(Vec::new())
    }

    fn raw(mut self, bytes: &[u8]) -> Bytes {
        self.0.extend_from_slice(bytes);
        self
    }

    fn u8(mut self, v: u8) -> Bytes {
        self.0.push(v);
        self
    }

    fn u16(self, v: u16) -> Bytes {
        self.raw(&v.to_le_bytes())
    }

    fn u32(self, v: u32) -> Bytes {
        self.raw(&v.to_le_bytes())
    }

    fn u32s(mut self, vs: &[u32]) -> Bytes {
        for v in vs {
            self = self.u32(*v);
        }
        self
    }

    fn f32s(mut self, vs: &[f32]) -> Bytes {
        for v in vs {
            self = self.raw(&v.to_le_bytes());
        }
        self
    }

    fn text(self, s: &str) -> Bytes {
        self.u32(s.len() as u32).raw(s.as_bytes())
    }

    fn fixed(self, s: &str, width: usize) -> Bytes {
        let mut block = vec![0u8; width];
        block[..s.len()].copy_from_slice(s.as_bytes());
        self.raw(&block)
    }

    fn len(&self) -> u32 {
        self.0.len() as u32
    }

    fn set_u32(&mut self, at: usize, v: u32) {
        self.0[at..at + 4].copy_from_slice(&v.to_le_bytes());
    }
}

fn cut_everywhere<T: std::fmt::Debug>(bytes: &[u8], magic: usize, parse: impl Fn(&[u8]) -> Result<T, DecodeError>) {
    for end in 0..bytes.len() {
        let expected = if end < magic { DecodeError::TagMismatch } else { DecodeError::UnexpectedEof };
        assert_eq!(parse(&bytes[..end]).unwrap_err(), expected, "cut at {}", end);
    }
}

#[test]
fn a_skeleton() {
    let bone = |name: &str, parent: &str, children: &[&str]| {
        let mut b = Bytes::new()
            .u8(1)
            .text(name)
            .text(parent)
            .f32s(&[0.0, 0.0, 0.0, 1.0])
            .f32s(&[1.0, 2.0, 3.0])
            .f32s(&[0.0, 0.0, 1.0, 0.0])
            .f32s(&[4.0, 5.0, 6.0])
            .f32s(&[0.0, 1.0, 0.0, 0.0])
            .f32s(&[7.0, 8.0, 9.0])
            .u32(children.len() as u32);
        for c in children {
            b = b.text(c);
        }
        b.0
    };
    let bytes = Bytes::new()
        .raw(b"JMXVBSK 0101")
        .u32(2)
        .raw(&bone("root", "", &["arm", "leg"]))
        .raw(&bone("arm", "root", &[]))
        .u32(11)
        .u32(12)
        .u8(0xEE)
        .0;
    let (rest, skeleton) = JmxSkeleton::parse(&bytes).unwrap();
    assert_eq!(rest, &[0xEEu8][..]);
    assert_eq!((skeleton.unk0, skeleton.unk1), (11, 12));
    assert_eq!(skeleton.bones.len(), 2);
    let root = &skeleton.bones[0];
    assert_eq!(root.unk, 1);
    assert_eq!(root.name, "root");
    assert_eq!(root.parent_name, "");
    assert_eq!(root.rotation_to_parent, v4(0.0, 0.0, 0.0, 1.0));
    assert_eq!(root.translation_to_parent, v3(1.0, 2.0, 3.0));
    assert_eq!(root.rotation_to_origin, v4(0.0, 0.0, 1.0, 0.0));
    assert_eq!(root.translation_to_origin, v3(4.0, 5.0, 6.0));
    assert_eq!(root.rotation_to_unknown, v4(0.0, 1.0, 0.0, 0.0));
    assert_eq!(root.translation_to_unknown, v3(7.0, 8.0, 9.0));
    assert_eq!(root.children, vec!["arm".to_string(), "leg".to_string()]);
    assert_eq!(skeleton.bones[1].parent_name, "root");
    cut_everywhere(&bytes[..bytes.len() - 1], 12, |i| JmxSkeleton::parse(i).map(|r| r.1));
    assert_eq!(JmxSkeleton::parse(b"JMXVBSK 0102"), Err(DecodeError::TagMismatch));
}

#[test]
fn an_animation() {
    let bytes = Bytes::new()
        .raw(b"JMXVBAN 0102")
        .u32(1)
        .u32(2)
        .text("walk")
        .u32(1000)
        .u32(30)
        .u32(1)
        .u32(2)
        .u32s(&[0, 33])
        .u32(1)
        .text("hip")
        .u32(1)
        .f32s(&[0.0, 0.0, 0.0, 1.0, 1.0, 2.0, 3.0])
        .0;
    let (rest, animation) = JmxAnimation::parse(&bytes).unwrap();
    assert!(rest.is_empty());
    assert_eq!(
        animation,
        JmxAnimation {
            unk0: 1,
            unk1: 2,
            name: "walk".to_string(),
            duration: 1000,
            frames_per_second: 30,
            is_continuous: true,
            key_frame_times: vec![0, 33],
            animated_bones: vec![AnimatedBone {
                name: "hip".to_string(),
                keyframes: vec![KeyFrame { rotation: v4(0.0, 0.0, 0.0, 1.0), translation: v3(1.0, 2.0, 3.0) }],
            }],
        }
    );
    // only the version 0102 is read
    let mut older = bytes.clone();
    older[11] = b'1';
    assert_eq!(JmxAnimation::parse(&older), Err(DecodeError::TagMismatch));
    assert_eq!(JmxAnimation::parse(b"JMXVBAN 01"), Err(DecodeError::UnexpectedEof));
    assert_eq!(JmxAnimation::parse(b"JMXVBSK 0102"), Err(DecodeError::TagMismatch));
}

#[test]
fn materials() {
    let material = |name: &str, flags: u32, normal: Option<(&str, u32)>| {
        let mut b = Bytes::new()
            .text(name)
            .f32s(&[1.0, 1.0, 1.0, 1.0])
            .f32s(&[0.5, 0.5, 0.5, 1.0])
            .f32s(&[0.0, 0.0, 0.0, 1.0])
            .f32s(&[0.1, 0.2, 0.3, 0.4])
            .f32s(&[16.0])
            .u32(flags)
            .text("tex\\wood.ddj")
            .f32s(&[2.0])
            .u16(7)
            .u8(1);
        if let Some((path, n)) = normal {
            b = b.text(path).u32(n);
        }
        b.0
    };
    let bytes = Bytes::new()
        .raw(b"JMXVBMT 0102")
        .u32(2)
        .raw(&material("plain", 0x1, None))
        .raw(&material("bumpy", 0x2001, Some(("tex\\wood_n.ddj", 9))))
        .0;
    let (rest, mat) = JmxMat::parse(&bytes).unwrap();
    assert!(rest.is_empty());
    assert_eq!(mat.0.len(), 2);
    assert_eq!(mat.0[0].name, "plain");
    assert_eq!(mat.0[0].diffuse, v4(1.0, 1.0, 1.0, 1.0));
    assert_eq!(mat.0[0].ambient, v4(0.5, 0.5, 0.5, 1.0));
    assert_eq!(mat.0[0].specular, v4(0.0, 0.0, 0.0, 1.0));
    assert_eq!(mat.0[0].emissive, v4(0.1, 0.2, 0.3, 0.4));
    assert_eq!(mat.0[0].specular_power, f(16.0));
    assert_eq!(mat.0[0].material_flags, MaterialFlags { bits: 1 });
    assert_eq!(mat.0[0].diffuse_map, "tex\\wood.ddj");
    assert_eq!(mat.0[0].unk0, f(2.0));
    assert_eq!(mat.0[0].unk1, 7);
    assert!(mat.0[0].absolute_diffuse_map_path);
    assert_eq!(mat.0[0].normal_map, None);
    assert!(mat.0[1].material_flags.contains(MaterialFlags::HAS_NORMAL_MAP));
    assert_eq!(mat.0[1].normal_map, Some(("tex\\wood_n.ddj".to_string(), 9)));
    // a flag that is not declared
    let bad = Bytes::new().raw(b"JMXVBMT 0102").u32(1).raw(&material("x", 0x4000, None)).0;
    assert_eq!(JmxMat::parse(&bad), Err(DecodeError::UnknownBitflags(0x4000)));
    cut_everywhere(&bytes, 12, |i| JmxMat::parse(i).map(|r| r.1));
}

fn resource_file(unk0: u32) -> (Bytes, [usize; 7]) {
    // the header, with the offsets to be filled in
    let mut b = Bytes::new().raw(b"JMXVRES 0109").u32s(&[0; 8]).u32s(&[unk0, 2, 3, 4, 5]).u32(0x20002).text("house");
    let mut at = [0usize; 7];
    // material_offset
    at[0] = b.0.len();
    b = b.u32(1).u32(5).text("a.bmt");
    // mesh_offset
    at[1] = b.0.len();
    b = b.u32(2).text("a.bms");
    if unk0 == 1 {
        b = b.u32(71);
    }
    b = b.text("b.bms");
    if unk0 == 1 {
        b = b.u32(72);
    }
    // skeleton_offset
    at[2] = b.0.len();
    b = b.u32(1).text("a.bsk").u32(3).raw(&[1, 2, 3]);
    // animation_offset
    at[3] = b.0.len();
    b = b.u32(8).u32(9).u32(1).text("a.ban");
    // mesh_group_offset
    at[4] = b.0.len();
    b = b.u32(1).text("group").u32(2).u32s(&[0, 1]);
    // animation_group_offset
    at[5] = b.0.len();
    b = b
        .u32(1)
        .text("anims")
        .u32(1)
        .u32(0x01)
        .u32(4)
        .u32(1)
        .u32s(&[10, 11, 12, 13])
        .u32(2)
        .f32s(&[1.5])
        .f32s(&[0.0, 0.0, 1.0, 1.0]);
    // collision_offset
    at[6] = b.0.len();
    b = b.text("a.bms").f32s(&[0.0, 0.0, 0.0, 1.0, 1.0, 1.0]).f32s(&[0.0; 6]).u32(0);
    // header: material, mesh, skeleton, animation, mesh group, animation group, mod palette, collision
    let offsets = [at[0], at[1], at[2], at[3], at[4], at[5], 0, at[6]];
    for (n, o) in offsets.iter().enumerate() {
        b.set_u32(12 + 4 * n, *o as u32);
    }
    (b, at)
}

#[test]
fn a_resource_is_read_by_sections() {
    let (b, _) = resource_file(1);
    let (rest, res) = JmxRes::parse(&b.0).unwrap();
    assert!(rest.is_empty());
    assert_eq!(res.header.name, "house");
    assert_eq!(res.header.res_type, ResourceType::Building);
    assert_eq!((res.header.unk0, res.header.unk1, res.header.unk4), (1, 2, 5));
    assert_eq!(res.bounding_box.root_mesh, "a.bms");
    assert_eq!(res.bounding_box.bounding_box0, [f(0.0), f(0.0), f(0.0), f(1.0), f(1.0), f(1.0)]);
    assert!(res.bounding_box.extra_bounding_data.is_empty());
    assert_eq!(res.material_sets.len(), 1);
    assert_eq!((res.material_sets[0].id, res.material_sets[0].path.as_str()), (5, "a.bmt"));
    assert_eq!(res.mesh_paths, vec![("a.bms".to_string(), Some(71)), ("b.bms".to_string(), Some(72))]);
    assert_eq!((res.animation.unk0, res.animation.unk1), (8, 9));
    assert_eq!(res.animation.paths, vec!["a.ban".to_string()]);
    assert_eq!(res.skeleton_paths, vec![("a.bsk".to_string(), vec![1, 2, 3])]);
    assert_eq!(res.mesh_groups[0].name, "group");
    assert_eq!(res.mesh_groups[0].file_indices, vec![0, 1]);
    let entry = &res.animation_groups[0].animations[0];
    assert_eq!(entry.typ, ResourceAnimationType::Walk);
    assert_eq!(entry.file_index, 4);
    assert_eq!(entry.events.len(), 1);
    assert_eq!(
        (entry.events[0].key_time, entry.events[0].typ, entry.events[0].unk0, entry.events[0].unk1),
        (10, 11, 12, 13)
    );
    assert_eq!(entry.walk_length, f(1.5));
    assert_eq!(entry.walk_graph, vec![v2(0.0, 0.0), v2(1.0, 1.0)]);
}

#[test]
fn the_meshes_of_a_resource_have_a_number_only_where_the_header_says_so() {
    let (b, _) = resource_file(0);
    let (_, res) = JmxRes::parse(&b.0).unwrap();
    assert_eq!(res.mesh_paths, vec![("a.bms".to_string(), None), ("b.bms".to_string(), None)]);
}

#[test]
fn the_sections_of_a_resource_may_stand_in_any_order() {
    // the same sections, read through offsets that were swapped with their sections
    let (b, at) = resource_file(1);
    let (_, straight) = JmxRes::parse(&b.0).unwrap();
    // append a second copy of the mesh groups and point the header at it
    let mut moved = Bytes(b.0.clone());
    let copy_at = moved.0.len();
    let groups = b.0[at[4]..at[5]].to_vec();
    moved = moved.raw(&[0xEE; 3]).raw(&groups);
    moved.set_u32(12 + 4 * 4, (copy_at + 3) as u32);
    let (_, again) = JmxRes::parse(&moved.0).unwrap();
    assert_eq!(again.mesh_groups, straight.mesh_groups);
    assert_eq!(again.animation_groups, straight.animation_groups);
    assert_eq!(again.bounding_box, straight.bounding_box);
}

#[test]
fn a_section_offset_behind_the_end_is_out_of_bounds() {
    let (b, _) = resource_file(1);
    let len = b.len();
    // every one of the seven offsets that are used
    for n in [0usize, 1, 2, 3, 4, 5, 7] {
        let mut bad = Bytes(b.0.clone());
        bad.set_u32(12 + 4 * n, len + 1);
        assert_eq!(JmxRes::parse(&bad.0), Err(DecodeError::OffsetOutOfBounds), "offset {}", n);
        let mut bad = Bytes(b.0.clone());
        bad.set_u32(12 + 4 * n, u32::MAX);
        assert_eq!(JmxRes::parse(&bad.0), Err(DecodeError::OffsetOutOfBounds), "offset {}", n);
        // an offset at the very end is in bounds: the section is then cut short
        let mut bad = Bytes(b.0.clone());
        bad.set_u32(12 + 4 * n, len);
        assert_eq!(JmxRes::parse(&bad.0), Err(DecodeError::UnexpectedEof), "offset {}", n);
    }
    // the offset of the palette is not used
    let mut fine = Bytes(b.0.clone());
    fine.set_u32(12 + 4 * 6, u32::MAX);
    assert!(JmxRes::parse(&fine.0).is_ok());
}

#[test]
fn a_resource_header() {
    let (b, _) = resource_file(1);
    let (rest, header) = JmxResHeader::parse(&b.0).unwrap();
    assert_eq!(header.name, "house");
    assert_eq!(rest.len(), b.0.len() - (12 + 14 * 4 + 4 + 5));
    assert_eq!(JmxResHeader::parse(b"JMXVRES 0108"), Err(DecodeError::TagMismatch));
    let mut bad = Bytes(b.0.clone());
    bad.set_u32(12 + 13 * 4, 0x20009);
    assert_eq!(JmxResHeader::parse(&bad.0), Err(DecodeError::UnknownDiscriminant(0x20009)));
    assert_eq!(JmxRes::parse(&bad.0), Err(DecodeError::UnknownDiscriminant(0x20009)));
}

#[test]
fn extra_bounding_data_is_64_bytes_or_none() {
    let (mut b, at) = resource_file(1);
    // set the last field of the collision section and append the data
    let last = b.0.len() - 4;
    assert!(last > at[6]);
    b.set_u32(last, 1);
    let b = b.raw(&[7u8; 64]);
    let (_, res) = JmxRes::parse(&b.0).unwrap();
    assert_eq!(res.bounding_box.extra_bounding_data, vec![7u8; 64]);
    assert_eq!(JmxRes::parse(&b.0[..b.0.len() - 1]), Err(DecodeError::UnexpectedEof));
}

#[test]
fn a_compound() {
    let mut b = Bytes::new()
        .raw(b"JMXVCPD 0101")
        .u32s(&[0, 0])
        .u32s(&[1, 2, 3, 4, 5])
        .u32(0x30002)
        .text("camp")
        .u32s(&[6, 7]);
    let list_at = b.len();
    b = b.u32(2).text("a.bsr").text("b.bsr");
    let collision_at = b.len();
    b = b.text("col.bsr");
    b.set_u32(12, collision_at);
    b.set_u32(16, list_at);
    let (rest, compound) = JmxCompound::parse(&b.0).unwrap();
    assert!(rest.is_empty());
    assert_eq!(compound.header.typ, ResourceType::CompoundObject);
    assert_eq!(compound.header.name, "camp");
    assert_eq!((compound.header.unk0, compound.header.unk4, compound.header.unk5, compound.header.unk6), (1, 5, 6, 7));
    assert_eq!(compound.collision_resource_path, "col.bsr");
    assert_eq!(compound.resource_paths, vec!["a.bsr".to_string(), "b.bsr".to_string()]);
    assert_eq!(JmxCompoundHeader::parse(&b.0).unwrap().1, compound.header);
    let mut bad = Bytes(b.0.clone());
    bad.set_u32(16, b.len() + 1);
    assert_eq!(JmxCompound::parse(&bad.0), Err(DecodeError::OffsetOutOfBounds));
    let mut bad = Bytes(b.0.clone());
    bad.set_u32(12, b.len() + 1);
    assert_eq!(JmxCompound::parse(&bad.0), Err(DecodeError::OffsetOutOfBounds));
    assert_eq!(JmxCompound::parse(b"JMXVCPD 0100"), Err(DecodeError::TagMismatch));
}

#[test]
fn a_texture() {
    let bytes = Bytes::new().raw(b"JMXVDDJ 1000").u32(8 + 5).u32(20).raw(b"DDS |rest").0;
    let (rest, texture) = JmxTexture::parse(&bytes).unwrap();
    assert_eq!(texture, JmxTexture { header_len: 20, data: b"DDS |".to_vec() });
    assert_eq!(rest, b"rest");
    let empty = Bytes::new().raw(b"JMXVDDJ 1000").u32(8).u32(20).0;
    assert_eq!(JmxTexture::parse(&empty).unwrap().1, JmxTexture { header_len: 20, data: vec![] });
    cut_everywhere(&bytes[..bytes.len() - 4], 12, |i| JmxTexture::parse(i).map(|r| r.1));
}

#[test]
fn a_texture_smaller_than_its_own_header() {
    for size in 0..8 {
        let bytes = Bytes::new().raw(b"JMXVDDJ 1000").u32(size).u32(20).raw(&[0u8; 64]).0;
        assert_eq!(JmxTexture::parse(&bytes), Err(DecodeError::UnexpectedEof), "size {}", size);
    }
}

#[test]
fn a_dungeon() {
    let entry = |flag: u32| {
        let mut b = Bytes::new().text("torch").text("obj\\torch.bsr").f32s(&[1.0, 2.0, 3.0]).f32s(&[0.0; 3]).f32s(&[1.0; 3]).u32(flag);
        if flag == 4 {
            b = b.u32(99);
        }
        b.u32(5).f32s(&[0.5]).0
    };
    let point = Bytes::new().text("spawn").f32s(&[0.0; 12]).f32s(&[1.0, 2.0, 3.0]).0;
    let room = |a: u8, b_mark: u8| {
        let mut b = Bytes::new()
            .text("room.bms")
            .text("hall")
            .u32(1)
            .f32s(&[1.0, 2.0, 3.0])
            .f32s(&[0.5, 1.0])
            .f32s(&[0.0; 6])
            .u32(2)
            .f32s(&[0.1, 0.2, 0.3, 0.4])
            .u8(a);
        if a == 1 {
            b = b.f32s(&[1.0, 2.0, 3.0, 4.0]);
        }
        b = b.u8(b_mark);
        if b_mark == 2 {
            b = b.f32s(&[1.0, 2.0, 3.0, 4.0, 5.0, 6.0, 7.0]);
        }
        b.text("six")
            .u32(3)
            .u32(4)
            .u32(2)
            .u32s(&[1, 2])
            .u32(0)
            .u32(2)
            .u32(77)
            .raw(&entry(0))
            .raw(&entry(4))
            .u32(1)
            .raw(&point)
            .0
    };
    let mut b = Bytes::new().raw(b"JMXVDOF 0101").u32s(&[0; 9]).text("cave").u32s(&[4, 5]).u16(6);
    let boxes_at = b.len();
    b = b.f32s(&[0.0, 0.0, 0.0, 1.0, 1.0, 1.0]).f32s(&[2.0; 6]);
    let rooms_at = b.len();
    b = b.u32(3).raw(&room(0, 0)).raw(&room(1, 2)).raw(&room(2, 1));
    let links_at = b.len();
    b = b.u32s(&[1, 2, 3]).u32(1).u32(9).u32(2).u32s(&[0, 1]);
    let connections_at = b.len();
    b = b.u32(2).u32(1).u32(5).u32(0);
    let names_at = b.len();
    b = b.u32(1).text("hall").u32(2).text("ground").text("cellar");
    let groups_at = b.len();
    b = b.u32(1).text("torches").u32(1).u32(1).u32(0);
    // room_objects, object_connections, links, object_groups, index_names, unk0, unk1, bounding_boxes, ty
    for (n, v) in [rooms_at, connections_at, links_at, groups_at, names_at, 11, 12, boxes_at, 13].iter().enumerate() {
        b.set_u32(12 + 4 * n, *v);
    }
    let (rest, dungeon) = JmxDungeon::parse(&b.0).unwrap();
    assert!(rest.is_empty());
    assert_eq!(dungeon.header.dungeon_name, "cave");
    assert_eq!((dungeon.header.unk0, dungeon.header.unk1, dungeon.header.ty), (11, 12, 13));
    assert_eq!((dungeon.header.unk4, dungeon.header.unk5, dungeon.header.region_id), (4, 5, 6));
    assert_eq!(dungeon.aabb, [f(0.0), f(0.0), f(0.0), f(1.0), f(1.0), f(1.0)]);
    assert_eq!(dungeon.oobb, [f(2.0); 6]);
    assert_eq!(dungeon.room_objects.len(), 3);
    let room0 = &dungeon.room_objects[0];
    assert_eq!((room0.path.as_str(), room0.name.as_str(), room0.unk0), ("room.bms", "hall", 1));
    assert_eq!(room0.position, v3(1.0, 2.0, 3.0));
    assert_eq!((room0.yaw, room0.is_entrance), (f(0.5), f(1.0)));
    assert_eq!(room0.unk1, 2);
    assert_eq!(
        (room0.fog_color, room0.fog_near_plane, room0.fog_far_plane, room0.fog_intensity),
        (f(0.1), f(0.2), f(0.3), f(0.4))
    );
    assert!(room0.extra_a.is_none() && room0.extra_b.is_none());
    assert_eq!((room0.unk6.as_str(), room0.room_index, room0.floor_index), ("six", 3, 4));
    assert_eq!(room0.connected_objects, vec![1, 2]);
    assert!(room0.indirect_connected_objects.is_empty());
    assert_eq!(room0.unk7, 77);
    assert_eq!(room0.entries.len(), 2);
    assert_eq!((room0.entries[0].flag, room0.entries[0].water_extra, room0.entries[0].id), (0, None, 5));
    assert_eq!((room0.entries[1].flag, room0.entries[1].water_extra, room0.entries[1].id), (4, Some(99), 5));
    assert_eq!(room0.entries[1].unk0, f(0.5));
    assert_eq!(room0.points.len(), 1);
    assert_eq!(room0.points[0].name, "spawn");
    assert_eq!((room0.points[0].unk0, room0.points[0].unk2, room0.points[0].unk1), (f(1.0), f(2.0), f(3.0)));
    let room1 = &dungeon.room_objects[1];
    assert_eq!(room1.extra_a.as_ref().unwrap().unk3, f(4.0));
    assert_eq!(room1.extra_b.as_ref().unwrap().unk6, f(7.0));
    // the marks 2 and 1 the other way round select nothing
    let room2 = &dungeon.room_objects[2];
    assert!(room2.extra_a.is_none() && room2.extra_b.is_none());
    assert_eq!((dungeon.links.unk0, dungeon.links.unk1, dungeon.links.unk2), (1, 2, 3));
    assert_eq!((dungeon.links.links[0].id, dungeon.links.links[0].connections.clone()), (9, vec![0, 1]));
    assert_eq!(dungeon.object_connections, vec![vec![5], vec![]]);
    assert_eq!(dungeon.room_names, vec!["hall".to_string()]);
    assert_eq!(dungeon.floor_names, vec!["ground".to_string(), "cellar".to_string()]);
    assert_eq!(dungeon.object_groups[0].name, "torches");
    assert_eq!((dungeon.object_groups[0].flag, dungeon.object_groups[0].object_indices.clone()), (1, vec![0]));
    for n in [0usize, 1, 2, 3, 4, 7] {
        let mut bad = Bytes(b.0.clone());
        bad.set_u32(12 + 4 * n, b.len() + 1);
        assert_eq!(JmxDungeon::parse(&bad.0), Err(DecodeError::OffsetOutOfBounds), "offset {}", n);
    }
    assert_eq!(JmxDungeon::parse(b"JMXVDOF 0100"), Err(DecodeError::TagMismatch));
}

#[test]
fn an_environment() {
    let mut b = Bytes::new().raw(b"JMXVENVI1003").u32(1).u16(3).u16(9).text("noon").u32(1).u32(2);
    for idx in 0..16 {
        b = b.u32(1);
        if [7, 8, 10, 11, 12, 15].contains(&idx) {
            b = b.f32s(&[idx as f32, 0.5]);
        } else {
            b = b.f32s(&[1.0, 2.0, 3.0, 0.5]);
        }
    }
    b = b
        .u32(1)
        .text("group")
        .u16(1)
        .u16(2)
        .u16(3)
        .u16(4)
        .u16(5)
        .u16(6)
        .u32(1)
        .text("entry")
        .raw(&[1, 0, 2, 0, 3, 0, 4, 0, 5, 0, 6, 0, 7, 0, 8, 0]);
    let (rest, env) = JmxEnvironment::parse(&b.0).unwrap();
    assert!(rest.is_empty());
    assert_eq!(env.unk0, 3);
    assert_eq!(env.environments.len(), 1);
    let e = &env.environments[0];
    assert_eq!((e.id, e.name.as_str(), e.unk0, e.unk1), (9, "noon", 1, 2));
    assert_eq!(e.fncs.len(), 16);
    assert_eq!(e.fncs[0], vec![GraphPoint::Vector { value: v3(1.0, 2.0, 3.0), pos_on_graph: f(0.5) }]);
    assert_eq!(e.fncs[7], vec![GraphPoint::Float { value: f(7.0), pos_on_graph: f(0.5) }]);
    assert_eq!(e.fncs[15], vec![GraphPoint::Float { value: f(15.0), pos_on_graph: f(0.5) }]);
    assert_eq!(e.fncs[14], vec![GraphPoint::Vector { value: v3(1.0, 2.0, 3.0), pos_on_graph: f(0.5) }]);
    let g = &env.environment_groups[0];
    assert_eq!((g.name.as_str(), g.unk0, g.unk5), ("group", 1, 6));
    assert_eq!((g.entries[0].name.as_str(), g.entries[0].unk0, g.entries[0].unk7), ("entry", 1, 8));
    cut_everywhere(&b.0, 12, |i| JmxEnvironment::parse(i).map(|r| r.1));
}

#[test]
fn a_map_mesh() {
    let mut b = Bytes::new().raw(b"JMXVMAPM1000");
    for block in 0..36u32 {
        b = b.fixed("blk", 6);
        for cell in 0..257u32 {
            b = b.u32(block * 1000 + cell).u16(cell as u16).u8(block as u8);
        }
        b = b.u8(1).u8(2).f32s(&[-1.0]).raw(&[block as u8; 256]).f32s(&[0.0, 100.0]).raw(&[9u8; 20]);
    }
    let (rest, mesh) = JmxMapMesh::parse(&b.0).unwrap();
    assert!(rest.is_empty());
    assert_eq!(mesh.blocks.len(), 36);
    let last = &mesh.blocks[35];
    assert_eq!(last.name, "blk");
    assert_eq!(last.cells.len(), 257);
    assert_eq!((last.cells[256].height, last.cells[256].texture, last.cells[256].brightness), (35256, 256, 35));
    assert_eq!((last.density, last.unk0, last.sea_level), (1, 2, f(-1.0)));
    assert_eq!(last.extra_data, vec![35u8; 256]);
    assert_eq!((last.height_min, last.height_max), (f(0.0), f(100.0)));
    assert_eq!(last.unk0_buffer, vec![9u8; 20]);
    assert_eq!(JmxMapMesh::parse(&b.0[..b.0.len() - 1]), Err(DecodeError::UnexpectedEof));
    assert_eq!(JmxMapMesh::parse(b"JMXVMAPM1001"), Err(DecodeError::TagMismatch));
}

#[test]
fn map_objects() {
    let mut b = Bytes::new().raw(b"JMXVMAPO1001");
    for group in 0..144u32 {
        let n = if group == 3 { 2 } else { 0 };
        b = b.u16(n);
        for k in 0..n {
            b = b.u32(k as u32).f32s(&[1.0, 2.0, 3.0]).u16(4).f32s(&[0.5]).u32(6).u16(7).u16(8);
        }
    }
    let (rest, objects) = JmxMapObject::parse(&b.0).unwrap();
    assert!(rest.is_empty());
    assert_eq!(objects.objects.len(), 144);
    assert!(objects.objects[0].entries.is_empty());
    let o = &objects.objects[3].entries[1];
    assert_eq!((o.id, o.position, o.visibility_flag, o.theta), (1, v3(1.0, 2.0, 3.0), 4, f(0.5)));
    assert_eq!((o.unique_id, o.scale, o.region), (6, 7, 8));
    assert_eq!(JmxMapObject::parse(&b.0[..b.0.len() - 1]), Err(DecodeError::UnexpectedEof));
}

#[test]
fn a_map_texture() {
    let b = Bytes::new().raw(b"JMXVMAPT 1001").raw(&[3u8; 9216]).u32(2).u32(40).raw(&[1, 2, 3]);
    let (rest, texture) = JmxMapTexture::parse(&b.0).unwrap();
    assert_eq!(rest, &[3u8][..]);
    assert_eq!(texture.shadow_map_tiles, vec![3u8; 9216]);
    assert_eq!((texture.header_len, texture.data.clone()), (40, vec![1, 2]));
    assert_eq!(JmxMapTexture::parse(b"JMXVMAPT1001"), Err(DecodeError::TagMismatch));
    assert_eq!(JmxMapTexture::parse(b"JMXVMAPT 1001"), Err(DecodeError::UnexpectedEof));
}

#[test]
fn a_map_info() {
    let b = Bytes::new().raw(b"JMXVMFO 1000").raw(&[0xAA; 12]).raw(&[5u8; 8192]).u8(0xEE);
    let (rest, info) = JmxMapInfo::parse(&b.0).unwrap();
    assert_eq!(rest, &[0xEEu8][..]);
    assert_eq!(info.region_data, vec![5u8; 8192]);
    assert_eq!(JmxMapInfo::parse(&b.0[..12 + 12 + 8191]), Err(DecodeError::UnexpectedEof));
    assert_eq!(JmxMapInfo::parse(&b.0[..20]), Err(DecodeError::UnexpectedEof));
}

#[test]
fn a_navigation_file() {
    let mut b = Bytes::new()
        .raw(b"JMXVNVM 1000")
        .u16(1)
        .u32(7)
        .f32s(&[1.0, 2.0, 3.0])
        .u16(0xFFFF)
        .f32s(&[0.5])
        .u16(8)
        .u16(9)
        .u16(0x101)
        .u16(10)
        .u16(1)
        .raw(&[1, 2, 3, 4, 5, 6])
        .u32(1)
        .u32(55)
        .f32s(&[0.0, 0.0, 1.0, 1.0])
        .u8(2)
        .u16(3)
        .u16(4)
        .u32(1)
        .f32s(&[0.0, 0.0, 1.0, 1.0])
        .raw(&[1, 2, 3])
        .u16(4)
        .u16(5)
        .u16(6)
        .u16(7)
        .u32(1)
        .f32s(&[0.0, 0.0, 2.0, 2.0])
        .raw(&[1, 2, 3])
        .u16(4)
        .u16(5);
    for n in 0..(96 * 96) as u16 {
        b = b.u16(n).u16(1).u16(2).u16(3);
    }
    for n in 0..(97 * 97) {
        b = b.f32s(&[n as f32]);
    }
    let (rest, nvm) = JmxNvm::parse(&b.0).unwrap();
    assert!(rest.is_empty());
    let e = &nvm.nav_entries[0];
    assert_eq!((e.id, e.position, e.collision_flag.bits, e.yaw), (7, v3(1.0, 2.0, 3.0), 0xFFFF, f(0.5)));
    assert_eq!((e.unique_id, e.scale, e.event_zone_flag.bits, e.region_id), (8, 9, 0x101, 10));
    assert_eq!(e.mount_points, vec![(1, 2, 3, 4, 5, 6)]);
    assert_eq!(nvm.nav_extra_count, 55);
    assert_eq!(nvm.nav_cells.len(), 1);
    assert_eq!((nvm.nav_cells[0].min, nvm.nav_cells[0].max), (v2(0.0, 0.0), v2(1.0, 1.0)));
    assert_eq!(nvm.nav_cells[0].entries, vec![3, 4]);
    let r = &nvm.nav_region_links[0];
    assert_eq!((r.line_flag, r.line_source, r.line_destination), (1, 2, 3));
    assert_eq!((r.cell_source, r.cell_destination, r.region_source, r.region_destination), (4, 5, 6, 7));
    let c = &nvm.nav_cell_links[0];
    assert_eq!((c.max, c.line_flag, c.cell_source, c.cell_destination), (v2(2.0, 2.0), 1, 4, 5));
    assert_eq!(nvm.texture_map.len(), 9216);
    assert_eq!(nvm.texture_map[9215], (9215, 1, 2, 3));
    assert_eq!(nvm.height_map.len(), 9409);
    assert_eq!(nvm.height_map[9408], f(9408.0));
    assert_eq!(JmxNvm::parse(&b.0[..b.0.len() - 1]), Err(DecodeError::UnexpectedEof));
    // an event zone flag with a bit that is not declared
    let mut bad = b.0.clone();
    bad[12 + 2 + 4 + 12 + 2 + 4 + 2 + 2] = 0x02;
    assert_eq!(JmxNvm::parse(&bad), Err(DecodeError::UnknownBitflags(0x102)));
}

#[test]
fn teleport_targets() {
    let b = Bytes::new()
        .u32(2)
        .text("town")
        .u16(0x6A97)
        .u16(0)
        .f32s(&[1.0, 2.0, 3.0])
        .u32(1)
        .text("cave")
        .u16(0x8001)
        .u16(5)
        .f32s(&[4.0, 5.0, 6.0])
        .u32(2)
        .u8(0xEE);
    let (rest, targets) = Gmwpfort::parse(&b.0).unwrap();
    assert_eq!(rest, &[0xEEu8][..]);
    assert_eq!(targets.len(), 2);
    assert_eq!(
        targets[1],
        Gmwpfort { name: "cave".to_string(), region_id: 0x8001, pad: 5, offset: v3(4.0, 5.0, 6.0), world_id: 2 }
    );
    assert_eq!(targets[0].name, "town");
    assert_eq!(Gmwpfort::parse(&b.0[..b.0.len() - 2]), Err(DecodeError::UnexpectedEof));
    assert_eq!(Gmwpfort::parse(&[0, 0, 0, 0]).unwrap().1, vec![]);
}

fn interface_element(ty: u32, style: u32) -> Vec<u8> {
    Bytes::new()
        .fixed("ok", 64)
        .fixed("img\\ok.ddj", 256)
        .fixed("", 256)
        .fixed("txt", 128)
        .fixed("the ok button", 64)
        .fixed("button", 64)
        .u32(ty)
        .u32s(&[1, 2, 3, 4, 5, 0xFF00FF00, 10, 20, 30, 40])
        .f32s(&[0.0, 0.0, 1.0, 0.0, 0.0, 1.0, 1.0, 1.0])
        .u32s(&[6, 7, 1])
        .u32s(&[103, 104, 105, 106, 107, 108, 109, 110, 111, 112, 113, 114, 115])
        .u32(style)
        .0
}

#[test]
fn interface_elements() {
    let element = interface_element(4, 256);
    assert_eq!(element.len(), 64 + 256 + 256 + 128 + 64 + 64 + 4 * 36);
    let b = Bytes::new().u32(2).raw(&element).raw(&interface_element(20, 0)).u8(0xEE);
    let (rest, elements) = NewInterface::parse(&b.0).unwrap();
    assert_eq!(rest, &[0xEEu8][..]);
    assert_eq!(elements.len(), 2);
    let e = &elements[0];
    assert_eq!((e.name.as_str(), e.image.as_str(), e.background.as_str(), e.text.as_str()), ("ok", "img\\ok.ddj", "", "txt"));
    assert_eq!((e.description.as_str(), e.prototype.as_str()), ("the ok button", "button"));
    assert_eq!(e.ty, NewInterfaceType::CNIFButton);
    assert_eq!((e.id, e.parent_id, e.grand_parent_id, e.unk00, e.unk01, e.color), (1, 2, 3, 4, 5, 0xFF00FF00));
    assert_eq!(
        (e.client_rectangle_x, e.client_rectangle_y, e.client_rectangle_width, e.client_rectangle_height),
        (10, 20, 30, 40)
    );
    assert_eq!((e.uv_top_left_x, e.uv_top_left_y, e.uv_top_right_x, e.uv_top_right_y), (f(0.0), f(0.0), f(1.0), f(0.0)));
    assert_eq!((e.uv_bot_left_x, e.uv_bot_left_y, e.uv_bot_right_x, e.uv_bot_right_y), (f(0.0), f(1.0), f(1.0), f(1.0)));
    assert_eq!((e.unk02, e.content_id, e.is_root), (6, 7, true));
    assert_eq!((e.unk03, e.unk04, e.unk09, e.unk10, e.unk15), (103, 104, 109, 110, 115));
    assert_eq!(e.style.bits, 256);
    assert_eq!(elements[1].ty, NewInterfaceType::CNIFSpinButtonCtrl);
    assert_eq!(NewInterface::parse_single(&element).unwrap(), (&[][..], NewInterface::parse(&b.0).unwrap().1.remove(0)));
    assert_eq!(NewInterface::parse_single(&interface_element(21, 0)), Err(DecodeError::UnknownDiscriminant(21)));
    assert_eq!(NewInterface::parse_single(&interface_element(4, 1)), Err(DecodeError::UnknownBitflags(1)));
    assert_eq!(NewInterface::parse_single(&element[..element.len() - 1]), Err(DecodeError::UnexpectedEof));
}
