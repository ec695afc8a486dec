//! Dungeons (`.dof`).
use vstd::prelude::*;

use crate::decode::{decodes, Each, group_tails, IResult, lemma_empty_is_tail, Parse, Parsed};
use crate::error::DecodeErrorView;
use crate::math::{F32, Vector3};
use crate::parser_ext::combinator::{cond, Counted, spec_cond};
use crate::parser_ext::complete::{end_of, section, spec_section, spec_tag, tag};
use crate::parser_ext::multi::{
    count, CountWidth, parse_objects_u32, spec_count, spec_parse_objects,
};
use crate::parser_ext::number::{
    le_f32, le_u16, le_u32, le_u8, spec_le_f32, spec_le_u16, spec_le_u32, spec_le_u8,
    spec_vector3_f32, spec_vector6_f32, vector3_f32, vector6_f32,
};
use crate::parser_ext::string::{sized_path, sized_string, spec_sized_string};

verus! {

/// The magic tag of a dungeon file: `JMXVDOF 0101`.
pub const MAGIC: [u8; 12] = [
    0x4A, 0x4D, 0x58, 0x56, 0x44, 0x4F, 0x46, 0x20, 0x30, 0x31, 0x30, 0x31,
];

#[derive(Debug, PartialEq, Eq)]
pub struct RoomObjectPoint {
    pub name: String,
    pub position: Vector3,
    pub rotation: Vector3,
    pub size: Vector3,
    pub rotation2: Vector3,
    pub unk0: F32,
    pub unk2: F32,
    pub unk1: F32,
}

/// The mathematical value of a [`RoomObjectPoint`].
pub struct RoomObjectPointView {
    pub name: Seq<char>,
    pub position: Vector3,
    pub rotation: Vector3,
    pub size: Vector3,
    pub rotation2: Vector3,
    pub unk0: F32,
    pub unk2: F32,
    pub unk1: F32,
}

impl DeepView for RoomObjectPoint {
    type V = RoomObjectPointView;

    open spec fn deep_view(&self) -> RoomObjectPointView {
        RoomObjectPointView {
            name: self.name.deep_view(),
            position: self.position,
            rotation: self.rotation,
            size: self.size,
            rotation2: self.rotation2,
            unk0: self.unk0,
            unk2: self.unk2,
            unk1: self.unk1,
        }
    }
}

impl Parse for RoomObjectPoint {
    #[verifier::opaque]
    open spec fn spec_parse(s: Seq<u8>) -> Parsed<RoomObjectPointView> {
        match spec_sized_string(s) { Err(e) => Err(e), Ok((s, name)) =>
        match spec_vector3_f32(s) { Err(e) => Err(e), Ok((s, position)) =>
        match spec_vector3_f32(s) { Err(e) => Err(e), Ok((s, rotation)) =>
        match spec_vector3_f32(s) { Err(e) => Err(e), Ok((s, size)) =>
        match spec_vector3_f32(s) { Err(e) => Err(e), Ok((s, rotation2)) =>
        match spec_le_f32(s) { Err(e) => Err(e), Ok((s, unk0)) =>
        match spec_le_f32(s) { Err(e) => Err(e), Ok((s, unk2)) =>
        match spec_le_f32(s) { Err(e) => Err(e), Ok((s, unk1)) =>
        Ok((s, RoomObjectPointView { name, position, rotation, size, rotation2, unk0, unk2, unk1 }))
        }}}}}}}}
    }

    fn parse<'a>(i: &'a [u8]) -> (r: IResult<'a, RoomObjectPoint>) {
        reveal(<RoomObjectPoint as Parse>::spec_parse);
        let (i, name) = sized_string(i)?;
        let (i, position) = vector3_f32(i)?;
        let (i, rotation) = vector3_f32(i)?;
        let (i, size) = vector3_f32(i)?;
        let (i, rotation2) = vector3_f32(i)?;
        let (i, unk0) = le_f32(i)?;
        let (i, unk2) = le_f32(i)?;
        let (i, unk1) = le_f32(i)?;
        Ok((i, RoomObjectPoint { name, position, rotation, size, rotation2, unk0, unk2, unk1 }))
    }

    proof fn lemma_tail(s: Seq<u8>) {
        reveal(<RoomObjectPoint as Parse>::spec_parse);
        broadcast use group_tails;
    }
}

#[derive(Debug, PartialEq, Eq)]
pub struct RoomObjectEntry {
    pub name: String,
    pub path: String,
    pub position: Vector3,
    pub rotation: Vector3,
    pub scale: Vector3,
    /// 0 for none, 2 for a collision object, 4 for a water object.
    pub flag: u32,
    /// Present where `flag` is 4.
    pub water_extra: Option<u32>,
    pub id: u32,
    pub unk0: F32,
}

/// The mathematical value of a [`RoomObjectEntry`].
pub struct RoomObjectEntryView {
    pub name: Seq<char>,
    pub path: Seq<char>,
    pub position: Vector3,
    pub rotation: Vector3,
    pub scale: Vector3,
    pub flag: u32,
    pub water_extra: Option<u32>,
    pub id: u32,
    pub unk0: F32,
}

impl DeepView for RoomObjectEntry {
    type V = RoomObjectEntryView;

    open spec fn deep_view(&self) -> RoomObjectEntryView {
        RoomObjectEntryView {
            name: self.name.deep_view(),
            path: self.path.deep_view(),
            position: self.position,
            rotation: self.rotation,
            scale: self.scale,
            flag: self.flag,
            water_extra: self.water_extra,
            id: self.id,
            unk0: self.unk0,
        }
    }
}

impl Parse for RoomObjectEntry {
    #[verifier::opaque]
    open spec fn spec_parse(s: Seq<u8>) -> Parsed<RoomObjectEntryView> {
        match spec_sized_string(s) { Err(e) => Err(e), Ok((s, name)) =>
        match spec_sized_string(s) { Err(e) => Err(e), Ok((s, path)) =>
        match spec_vector3_f32(s) { Err(e) => Err(e), Ok((s, position)) =>
        match spec_vector3_f32(s) { Err(e) => Err(e), Ok((s, rotation)) =>
        match spec_vector3_f32(s) { Err(e) => Err(e), Ok((s, scale)) =>
        match spec_le_u32(s) { Err(e) => Err(e), Ok((s, flag)) =>
        match spec_cond(flag == 0x04, &Each::<u32>::it(), s) { Err(e) => Err(e), Ok((s, water_extra)) =>
        match spec_le_u32(s) { Err(e) => Err(e), Ok((s, id)) =>
        match spec_le_f32(s) { Err(e) => Err(e), Ok((s, unk0)) =>
        Ok((s, RoomObjectEntryView {
            name,
            path,
            position,
            rotation,
            scale,
            flag,
            water_extra,
            id,
            unk0,
        }))
        }}}}}}}}}
    }

    fn parse<'a>(i: &'a [u8]) -> (r: IResult<'a, RoomObjectEntry>) {
        reveal(<RoomObjectEntry as Parse>::spec_parse);
        let (i, name) = sized_string(i)?;
        let (i, path) = sized_path(i)?;
        let (i, position) = vector3_f32(i)?;
        let (i, rotation) = vector3_f32(i)?;
        let (i, scale) = vector3_f32(i)?;
        let (i, flag) = le_u32(i)?;
        let (i, water_extra) = cond(flag == 0x04, &Each::<u32>::new(), i)?;
        let (i, id) = le_u32(i)?;
        let (i, unk0) = le_f32(i)?;
        Ok((i, RoomObjectEntry {
            name,
            path,
            position,
            rotation,
            scale,
            flag,
            water_extra,
            id,
            unk0,
        }))
    }

    proof fn lemma_tail(s: Seq<u8>) {
        reveal(<RoomObjectEntry as Parse>::spec_parse);
        broadcast use group_tails;
    }
}

#[derive(Debug, PartialEq, Eq)]
pub struct RoomObjectExtraA {
    pub unk0: F32,
    pub unk1: F32,
    pub unk2: F32,
    pub unk3: F32,
}

impl DeepView for RoomObjectExtraA {
    type V = RoomObjectExtraA;

    open spec fn deep_view(&self) -> RoomObjectExtraA {
        *self
    }
}

impl Parse for RoomObjectExtraA {
    #[verifier::opaque]
    open spec fn spec_parse(s: Seq<u8>) -> Parsed<RoomObjectExtraA> {
        match spec_le_f32(s) { Err(e) => Err(e), Ok((s, unk0)) =>
        match spec_le_f32(s) { Err(e) => Err(e), Ok((s, unk1)) =>
        match spec_le_f32(s) { Err(e) => Err(e), Ok((s, unk2)) =>
        match spec_le_f32(s) { Err(e) => Err(e), Ok((s, unk3)) =>
        Ok((s, RoomObjectExtraA { unk0, unk1, unk2, unk3 }))
        }}}}
    }

    fn parse<'a>(i: &'a [u8]) -> (r: IResult<'a, RoomObjectExtraA>) {
        reveal(<RoomObjectExtraA as Parse>::spec_parse);
        let (i, unk0) = le_f32(i)?;
        let (i, unk1) = le_f32(i)?;
        let (i, unk2) = le_f32(i)?;
        let (i, unk3) = le_f32(i)?;
        Ok((i, RoomObjectExtraA { unk0, unk1, unk2, unk3 }))
    }

    proof fn lemma_tail(s: Seq<u8>) {
        reveal(<RoomObjectExtraA as Parse>::spec_parse);
        broadcast use group_tails;
    }
}

impl RoomObjectExtraA {
    /// On the wire a value of this type is 16 bytes long: it decodes from
    /// every input that holds as many, and from no other.
    pub broadcast proof fn lemma_fixed_size(s: Seq<u8>)
        ensures
            #![trigger <RoomObjectExtraA as Parse>::spec_parse(s)]
            match <RoomObjectExtraA as Parse>::spec_parse(s) {
                Ok((rest, _)) => s.len() >= 16 && rest.len() + 16 == s.len(),
                Err(e) => s.len() < 16 && e == DecodeErrorView::UnexpectedEof,
            },
    {
        reveal(<RoomObjectExtraA as Parse>::spec_parse);
        broadcast use group_tails;
        broadcast use crate::parser_ext::number::group_sizes;
    }
}

#[derive(Debug, PartialEq, Eq)]
pub struct RoomObjectExtraB {
    pub unk0: F32,
    pub unk1: F32,
    pub unk2: F32,
    pub unk3: F32,
    pub unk4: F32,
    pub unk5: F32,
    pub unk6: F32,
}

impl DeepView for RoomObjectExtraB {
    type V = RoomObjectExtraB;

    open spec fn deep_view(&self) -> RoomObjectExtraB {
        *self
    }
}

impl Parse for RoomObjectExtraB {
    #[verifier::opaque]
    open spec fn spec_parse(s: Seq<u8>) -> Parsed<RoomObjectExtraB> {
        match spec_le_f32(s) { Err(e) => Err(e), Ok((s, unk0)) =>
        match spec_le_f32(s) { Err(e) => Err(e), Ok((s, unk1)) =>
        match spec_le_f32(s) { Err(e) => Err(e), Ok((s, unk2)) =>
        match spec_le_f32(s) { Err(e) => Err(e), Ok((s, unk3)) =>
        match spec_le_f32(s) { Err(e) => Err(e), Ok((s, unk4)) =>
        match spec_le_f32(s) { Err(e) => Err(e), Ok((s, unk5)) =>
        match spec_le_f32(s) { Err(e) => Err(e), Ok((s, unk6)) =>
        Ok((s, RoomObjectExtraB { unk0, unk1, unk2, unk3, unk4, unk5, unk6 }))
        }}}}}}}
    }

    fn parse<'a>(i: &'a [u8]) -> (r: IResult<'a, RoomObjectExtraB>) {
        reveal(<RoomObjectExtraB as Parse>::spec_parse);
        let (i, unk0) = le_f32(i)?;
        let (i, unk1) = le_f32(i)?;
        let (i, unk2) = le_f32(i)?;
        let (i, unk3) = le_f32(i)?;
        let (i, unk4) = le_f32(i)?;
        let (i, unk5) = le_f32(i)?;
        let (i, unk6) = le_f32(i)?;
        Ok((i, RoomObjectExtraB { unk0, unk1, unk2, unk3, unk4, unk5, unk6 }))
    }

    proof fn lemma_tail(s: Seq<u8>) {
        reveal(<RoomObjectExtraB as Parse>::spec_parse);
        broadcast use group_tails;
    }
}

impl RoomObjectExtraB {
    /// On the wire a value of this type is 28 bytes long: it decodes from
    /// every input that holds as many, and from no other.
    pub broadcast proof fn lemma_fixed_size(s: Seq<u8>)
        ensures
            #![trigger <RoomObjectExtraB as Parse>::spec_parse(s)]
            match <RoomObjectExtraB as Parse>::spec_parse(s) {
                Ok((rest, _)) => s.len() >= 28 && rest.len() + 28 == s.len(),
                Err(e) => s.len() < 28 && e == DecodeErrorView::UnexpectedEof,
            },
    {
        reveal(<RoomObjectExtraB as Parse>::spec_parse);
        broadcast use group_tails;
        broadcast use crate::parser_ext::number::group_sizes;
    }
}

/// One room of a dungeon.
#[derive(Debug, PartialEq, Eq)]
pub struct RoomObject {
    pub path: String,
    pub name: String,
    pub unk0: u32,
    pub position: Vector3,
    pub yaw: F32,
    pub is_entrance: F32,
    pub aabb: [F32; 6],
    pub unk1: u32,
    pub fog_color: F32,
    pub fog_near_plane: F32,
    pub fog_far_plane: F32,
    pub fog_intensity: F32,
    /// Present where the byte before it is 1.
    pub extra_a: Option<RoomObjectExtraA>,
    /// Present where the byte before it is 2.
    pub extra_b: Option<RoomObjectExtraB>,
    pub unk6: String,
    pub room_index: u32,
    pub floor_index: u32,
    pub connected_objects: Vec<u32>,
    pub indirect_connected_objects: Vec<u32>,
    pub unk7: u32,
    /// As many entries as the count that stands before `unk7`.
    pub entries: Vec<RoomObjectEntry>,
    pub points: Vec<RoomObjectPoint>,
}

/// The mathematical value of a [`RoomObject`].
pub struct RoomObjectView {
    pub path: Seq<char>,
    pub name: Seq<char>,
    pub unk0: u32,
    pub position: Vector3,
    pub yaw: F32,
    pub is_entrance: F32,
    pub aabb: Seq<F32>,
    pub unk1: u32,
    pub fog_color: F32,
    pub fog_near_plane: F32,
    pub fog_far_plane: F32,
    pub fog_intensity: F32,
    pub extra_a: Option<RoomObjectExtraA>,
    pub extra_b: Option<RoomObjectExtraB>,
    pub unk6: Seq<char>,
    pub room_index: u32,
    pub floor_index: u32,
    pub connected_objects: Seq<u32>,
    pub indirect_connected_objects: Seq<u32>,
    pub unk7: u32,
    pub entries: Seq<RoomObjectEntryView>,
    pub points: Seq<RoomObjectPointView>,
}

impl DeepView for RoomObject {
    type V = RoomObjectView;

    open spec fn deep_view(&self) -> RoomObjectView {
        RoomObjectView {
            path: self.path.deep_view(),
            name: self.name.deep_view(),
            unk0: self.unk0,
            position: self.position,
            yaw: self.yaw,
            is_entrance: self.is_entrance,
            aabb: self.aabb.deep_view(),
            unk1: self.unk1,
            fog_color: self.fog_color,
            fog_near_plane: self.fog_near_plane,
            fog_far_plane: self.fog_far_plane,
            fog_intensity: self.fog_intensity,
            extra_a: self.extra_a,
            extra_b: self.extra_b,
            unk6: self.unk6.deep_view(),
            room_index: self.room_index,
            floor_index: self.floor_index,
            connected_objects: self.connected_objects.deep_view(),
            indirect_connected_objects: self.indirect_connected_objects.deep_view(),
            unk7: self.unk7,
            entries: self.entries.deep_view(),
            points: self.points.deep_view(),
        }
    }
}

impl Parse for RoomObject {
    #[verifier::opaque]
    open spec fn spec_parse(s: Seq<u8>) -> Parsed<RoomObjectView> {
        match spec_sized_string(s) { Err(e) => Err(e), Ok((s, path)) =>
        match spec_sized_string(s) { Err(e) => Err(e), Ok((s, name)) =>
        match spec_le_u32(s) { Err(e) => Err(e), Ok((s, unk0)) =>
        match spec_vector3_f32(s) { Err(e) => Err(e), Ok((s, position)) =>
        match spec_le_f32(s) { Err(e) => Err(e), Ok((s, yaw)) =>
        match spec_le_f32(s) { Err(e) => Err(e), Ok((s, is_entrance)) =>
        match spec_vector6_f32(s) { Err(e) => Err(e), Ok((s, aabb)) =>
        match spec_le_u32(s) { Err(e) => Err(e), Ok((s, unk1)) =>
        match spec_le_f32(s) { Err(e) => Err(e), Ok((s, fog_color)) =>
        match spec_le_f32(s) { Err(e) => Err(e), Ok((s, fog_near_plane)) =>
        match spec_le_f32(s) { Err(e) => Err(e), Ok((s, fog_far_plane)) =>
        match spec_le_f32(s) { Err(e) => Err(e), Ok((s, fog_intensity)) =>
        match spec_le_u8(s) { Err(e) => Err(e), Ok((s, extra_a_mark)) =>
        match spec_cond(
            extra_a_mark == 0x01,
            &Each::<RoomObjectExtraA>::it(),
            s,
        ) { Err(e) => Err(e), Ok((s, extra_a)) =>
        match spec_le_u8(s) { Err(e) => Err(e), Ok((s, extra_b_mark)) =>
        match spec_cond(
            extra_b_mark == 0x02,
            &Each::<RoomObjectExtraB>::it(),
            s,
        ) { Err(e) => Err(e), Ok((s, extra_b)) =>
        match spec_sized_string(s) { Err(e) => Err(e), Ok((s, unk6)) =>
        match spec_le_u32(s) { Err(e) => Err(e), Ok((s, room_index)) =>
        match spec_le_u32(s) { Err(e) => Err(e), Ok((s, floor_index)) =>
        match spec_parse_objects(
            CountWidth::U32,
            &Each::<u32>::it(),
            s,
        ) { Err(e) => Err(e), Ok((s, connected_objects)) =>
        match spec_parse_objects(
            CountWidth::U32,
            &Each::<u32>::it(),
            s,
        ) { Err(e) => Err(e), Ok((s, indirect_connected_objects)) =>
        match spec_le_u32(s) { Err(e) => Err(e), Ok((s, entry_count)) =>
        match spec_le_u32(s) { Err(e) => Err(e), Ok((s, unk7)) =>
        match spec_count(
            &Each::<RoomObjectEntry>::it(),
            s,
            entry_count as nat,
        ) { Err(e) => Err(e), Ok((s, entries)) =>
        match spec_parse_objects(
            CountWidth::U32,
            &Each::<RoomObjectPoint>::it(),
            s,
        ) { Err(e) => Err(e), Ok((s, points)) =>
        Ok((s, RoomObjectView {
            path,
            name,
            unk0,
            position,
            yaw,
            is_entrance,
            aabb,
            unk1,
            fog_color,
            fog_near_plane,
            fog_far_plane,
            fog_intensity,
            extra_a,
            extra_b,
            unk6,
            room_index,
            floor_index,
            connected_objects,
            indirect_connected_objects,
            unk7,
            entries,
            points,
        }))
        }}}}}}}}}}}}}}}}}}}}}}}}}
    }

    fn parse<'a>(i: &'a [u8]) -> (r: IResult<'a, RoomObject>) {
        reveal(<RoomObject as Parse>::spec_parse);
        let (i, path) = sized_path(i)?;
        let (i, name) = sized_string(i)?;
        let (i, unk0) = le_u32(i)?;
        let (i, position) = vector3_f32(i)?;
        let (i, yaw) = le_f32(i)?;
        let (i, is_entrance) = le_f32(i)?;
        let (i, aabb) = vector6_f32(i)?;
        let (i, unk1) = le_u32(i)?;
        let (i, fog_color) = le_f32(i)?;
        let (i, fog_near_plane) = le_f32(i)?;
        let (i, fog_far_plane) = le_f32(i)?;
        let (i, fog_intensity) = le_f32(i)?;
        let (i, extra_a_mark) = le_u8(i)?;
        let (i, extra_a) = cond(extra_a_mark == 0x01, &Each::<RoomObjectExtraA>::new(), i)?;
        let (i, extra_b_mark) = le_u8(i)?;
        let (i, extra_b) = cond(extra_b_mark == 0x02, &Each::<RoomObjectExtraB>::new(), i)?;
        let (i, unk6) = sized_string(i)?;
        let (i, room_index) = le_u32(i)?;
        let (i, floor_index) = le_u32(i)?;
        let (i, connected_objects) = parse_objects_u32(&Each::<u32>::new(), i)?;
        let (i, indirect_connected_objects) = parse_objects_u32(&Each::<u32>::new(), i)?;
        let (i, entry_count) = le_u32(i)?;
        let (i, unk7) = le_u32(i)?;
        let (i, entries) = count(&Each::<RoomObjectEntry>::new(), entry_count as usize, i)?;
        let (i, points) = parse_objects_u32(&Each::<RoomObjectPoint>::new(), i)?;
        Ok((i, RoomObject {
            path,
            name,
            unk0,
            position,
            yaw,
            is_entrance,
            aabb,
            unk1,
            fog_color,
            fog_near_plane,
            fog_far_plane,
            fog_intensity,
            extra_a,
            extra_b,
            unk6,
            room_index,
            floor_index,
            connected_objects,
            indirect_connected_objects,
            unk7,
            entries,
            points,
        }))
    }

    proof fn lemma_tail(s: Seq<u8>) {
        reveal(<RoomObject as Parse>::spec_parse);
        broadcast use group_tails;
    }
}

#[derive(Debug, PartialEq, Eq)]
pub struct ObjectGroup {
    pub name: String,
    pub flag: u32,
    pub object_indices: Vec<u32>,
}

/// The mathematical value of a [`ObjectGroup`].
pub struct ObjectGroupView {
    pub name: Seq<char>,
    pub flag: u32,
    pub object_indices: Seq<u32>,
}

impl DeepView for ObjectGroup {
    type V = ObjectGroupView;

    open spec fn deep_view(&self) -> ObjectGroupView {
        ObjectGroupView {
            name: self.name.deep_view(),
            flag: self.flag,
            object_indices: self.object_indices.deep_view(),
        }
    }
}

impl Parse for ObjectGroup {
    #[verifier::opaque]
    open spec fn spec_parse(s: Seq<u8>) -> Parsed<ObjectGroupView> {
        match spec_sized_string(s) { Err(e) => Err(e), Ok((s, name)) =>
        match spec_le_u32(s) { Err(e) => Err(e), Ok((s, flag)) =>
        match spec_parse_objects(
            CountWidth::U32,
            &Each::<u32>::it(),
            s,
        ) { Err(e) => Err(e), Ok((s, object_indices)) =>
        Ok((s, ObjectGroupView { name, flag, object_indices }))
        }}}
    }

    fn parse<'a>(i: &'a [u8]) -> (r: IResult<'a, ObjectGroup>) {
        reveal(<ObjectGroup as Parse>::spec_parse);
        let (i, name) = sized_string(i)?;
        let (i, flag) = le_u32(i)?;
        let (i, object_indices) = parse_objects_u32(&Each::<u32>::new(), i)?;
        Ok((i, ObjectGroup { name, flag, object_indices }))
    }

    proof fn lemma_tail(s: Seq<u8>) {
        reveal(<ObjectGroup as Parse>::spec_parse);
        broadcast use group_tails;
    }
}

#[derive(Debug, PartialEq, Eq)]
pub struct Link {
    pub id: u32,
    pub connections: Vec<u32>,
}

/// The mathematical value of a [`Link`].
pub struct LinkView {
    pub id: u32,
    pub connections: Seq<u32>,
}

impl DeepView for Link {
    type V = LinkView;

    open spec fn deep_view(&self) -> LinkView {
        LinkView {
            id: self.id,
            connections: self.connections.deep_view(),
        }
    }
}

impl Parse for Link {
    #[verifier::opaque]
    open spec fn spec_parse(s: Seq<u8>) -> Parsed<LinkView> {
        match spec_le_u32(s) { Err(e) => Err(e), Ok((s, id)) =>
        match spec_parse_objects(
            CountWidth::U32,
            &Each::<u32>::it(),
            s,
        ) { Err(e) => Err(e), Ok((s, connections)) =>
        Ok((s, LinkView { id, connections }))
        }}
    }

    fn parse<'a>(i: &'a [u8]) -> (r: IResult<'a, Link>) {
        reveal(<Link as Parse>::spec_parse);
        let (i, id) = le_u32(i)?;
        let (i, connections) = parse_objects_u32(&Each::<u32>::new(), i)?;
        Ok((i, Link { id, connections }))
    }

    proof fn lemma_tail(s: Seq<u8>) {
        reveal(<Link as Parse>::spec_parse);
        broadcast use group_tails;
    }
}

#[derive(Debug, PartialEq, Eq)]
pub struct Links {
    pub unk0: u32,
    pub unk1: u32,
    pub unk2: u32,
    pub links: Vec<Link>,
}

/// The mathematical value of a [`Links`].
pub struct LinksView {
    pub unk0: u32,
    pub unk1: u32,
    pub unk2: u32,
    pub links: Seq<LinkView>,
}

impl DeepView for Links {
    type V = LinksView;

    open spec fn deep_view(&self) -> LinksView {
        LinksView {
            unk0: self.unk0,
            unk1: self.unk1,
            unk2: self.unk2,
            links: self.links.deep_view(),
        }
    }
}

impl Parse for Links {
    #[verifier::opaque]
    open spec fn spec_parse(s: Seq<u8>) -> Parsed<LinksView> {
        match spec_le_u32(s) { Err(e) => Err(e), Ok((s, unk0)) =>
        match spec_le_u32(s) { Err(e) => Err(e), Ok((s, unk1)) =>
        match spec_le_u32(s) { Err(e) => Err(e), Ok((s, unk2)) =>
        match spec_parse_objects(CountWidth::U32, &Each::<Link>::it(), s) { Err(e) => Err(e), Ok((s, links)) =>
        Ok((s, LinksView { unk0, unk1, unk2, links }))
        }}}}
    }

    fn parse<'a>(i: &'a [u8]) -> (r: IResult<'a, Links>) {
        reveal(<Links as Parse>::spec_parse);
        let (i, unk0) = le_u32(i)?;
        let (i, unk1) = le_u32(i)?;
        let (i, unk2) = le_u32(i)?;
        let (i, links) = parse_objects_u32(&Each::<Link>::new(), i)?;
        Ok((i, Links { unk0, unk1, unk2, links }))
    }

    proof fn lemma_tail(s: Seq<u8>) {
        reveal(<Links as Parse>::spec_parse);
        broadcast use group_tails;
    }
}

/// The header of a dungeon file. The fields named after sections are their
/// offsets, counted from the start of the file.
#[derive(Debug, PartialEq, Eq)]
pub struct JmxDungeonHeader {
    pub room_objects: u32,
    pub object_connections: u32,
    pub links: u32,
    pub object_groups: u32,
    pub index_names: u32,
    pub unk0: u32,
    pub unk1: u32,
    pub bounding_boxes: u32,
    pub ty: u32,
    pub dungeon_name: String,
    pub unk4: u32,
    pub unk5: u32,
    pub region_id: u16,
}

/// The mathematical value of a [`JmxDungeonHeader`].
pub struct JmxDungeonHeaderView {
    pub room_objects: u32,
    pub object_connections: u32,
    pub links: u32,
    pub object_groups: u32,
    pub index_names: u32,
    pub unk0: u32,
    pub unk1: u32,
    pub bounding_boxes: u32,
    pub ty: u32,
    pub dungeon_name: Seq<char>,
    pub unk4: u32,
    pub unk5: u32,
    pub region_id: u16,
}

impl DeepView for JmxDungeonHeader {
    type V = JmxDungeonHeaderView;

    open spec fn deep_view(&self) -> JmxDungeonHeaderView {
        JmxDungeonHeaderView {
            room_objects: self.room_objects,
            object_connections: self.object_connections,
            links: self.links,
            object_groups: self.object_groups,
            index_names: self.index_names,
            unk0: self.unk0,
            unk1: self.unk1,
            bounding_boxes: self.bounding_boxes,
            ty: self.ty,
            dungeon_name: self.dungeon_name.deep_view(),
            unk4: self.unk4,
            unk5: self.unk5,
            region_id: self.region_id,
        }
    }
}

impl Parse for JmxDungeonHeader {
    #[verifier::opaque]
    open spec fn spec_parse(s: Seq<u8>) -> Parsed<JmxDungeonHeaderView> {
        match spec_tag(s, MAGIC@) { Err(e) => Err(e), Ok((s, _)) =>
        match spec_le_u32(s) { Err(e) => Err(e), Ok((s, room_objects)) =>
        match spec_le_u32(s) { Err(e) => Err(e), Ok((s, object_connections)) =>
        match spec_le_u32(s) { Err(e) => Err(e), Ok((s, links)) =>
        match spec_le_u32(s) { Err(e) => Err(e), Ok((s, object_groups)) =>
        match spec_le_u32(s) { Err(e) => Err(e), Ok((s, index_names)) =>
        match spec_le_u32(s) { Err(e) => Err(e), Ok((s, unk0)) =>
        match spec_le_u32(s) { Err(e) => Err(e), Ok((s, unk1)) =>
        match spec_le_u32(s) { Err(e) => Err(e), Ok((s, bounding_boxes)) =>
        match spec_le_u32(s) { Err(e) => Err(e), Ok((s, ty)) =>
        match spec_sized_string(s) { Err(e) => Err(e), Ok((s, dungeon_name)) =>
        match spec_le_u32(s) { Err(e) => Err(e), Ok((s, unk4)) =>
        match spec_le_u32(s) { Err(e) => Err(e), Ok((s, unk5)) =>
        match spec_le_u16(s) { Err(e) => Err(e), Ok((s, region_id)) =>
        Ok((s, JmxDungeonHeaderView {
            room_objects,
            object_connections,
            links,
            object_groups,
            index_names,
            unk0,
            unk1,
            bounding_boxes,
            ty,
            dungeon_name,
            unk4,
            unk5,
            region_id,
        }))
        }}}}}}}}}}}}}}
    }

    fn parse<'a>(i: &'a [u8]) -> (r: IResult<'a, JmxDungeonHeader>) {
        reveal(<JmxDungeonHeader as Parse>::spec_parse);
        let (i, _) = tag(i, &MAGIC)?;
        let (i, room_objects) = le_u32(i)?;
        let (i, object_connections) = le_u32(i)?;
        let (i, links) = le_u32(i)?;
        let (i, object_groups) = le_u32(i)?;
        let (i, index_names) = le_u32(i)?;
        let (i, unk0) = le_u32(i)?;
        let (i, unk1) = le_u32(i)?;
        let (i, bounding_boxes) = le_u32(i)?;
        let (i, ty) = le_u32(i)?;
        let (i, dungeon_name) = sized_string(i)?;
        let (i, unk4) = le_u32(i)?;
        let (i, unk5) = le_u32(i)?;
        let (i, region_id) = le_u16(i)?;
        Ok((i, JmxDungeonHeader {
            room_objects,
            object_connections,
            links,
            object_groups,
            index_names,
            unk0,
            unk1,
            bounding_boxes,
            ty,
            dungeon_name,
            unk4,
            unk5,
            region_id,
        }))
    }

    proof fn lemma_tail(s: Seq<u8>) {
        reveal(<JmxDungeonHeader as Parse>::spec_parse);
        broadcast use group_tails;
    }
}

impl JmxDungeonHeader {
    /// Reads the magic tag and the header behind it.
    pub fn parse<'a>(i: &'a [u8]) -> (r: IResult<'a, JmxDungeonHeader>)
        ensures
            decodes(r, i@, <JmxDungeonHeader as Parse>::spec_parse(i@)),
    {
        <JmxDungeonHeader as Parse>::parse(i)
    }

    /// An input that does not start with the magic tag is refused with
    /// `TagMismatch`, whatever follows.
    pub proof fn lemma_magic_mismatch(s: Seq<u8>)
        requires
            !MAGIC@.is_prefix_of(s),
        ensures
            <JmxDungeonHeader as Parse>::spec_parse(s) == Err::<(Seq<u8>, JmxDungeonHeaderView), _>(
                DecodeErrorView::TagMismatch,
            ),
    {
        reveal(<JmxDungeonHeader as Parse>::spec_parse);
        reveal(spec_tag);
    }
}

/// A dungeon file (`.dof`): rooms and how they are linked, by sections.
#[derive(Debug, PartialEq, Eq)]
pub struct JmxDungeon {
    pub header: JmxDungeonHeader,
    pub aabb: [F32; 6],
    pub oobb: [F32; 6],
    pub room_objects: Vec<RoomObject>,
    pub links: Links,
    pub object_connections: Vec<Vec<u32>>,
    pub room_names: Vec<String>,
    pub floor_names: Vec<String>,
    pub object_groups: Vec<ObjectGroup>,
}

/// The mathematical value of a [`JmxDungeon`].
pub struct JmxDungeonView {
    pub header: JmxDungeonHeaderView,
    pub aabb: Seq<F32>,
    pub oobb: Seq<F32>,
    pub room_objects: Seq<RoomObjectView>,
    pub links: LinksView,
    pub object_connections: Seq<Seq<u32>>,
    pub room_names: Seq<Seq<char>>,
    pub floor_names: Seq<Seq<char>>,
    pub object_groups: Seq<ObjectGroupView>,
}

impl DeepView for JmxDungeon {
    type V = JmxDungeonView;

    open spec fn deep_view(&self) -> JmxDungeonView {
        JmxDungeonView {
            header: self.header.deep_view(),
            aabb: self.aabb.deep_view(),
            oobb: self.oobb.deep_view(),
            room_objects: self.room_objects.deep_view(),
            links: self.links.deep_view(),
            object_connections: self.object_connections.deep_view(),
            room_names: self.room_names.deep_view(),
            floor_names: self.floor_names.deep_view(),
            object_groups: self.object_groups.deep_view(),
        }
    }
}

impl Parse for JmxDungeon {
    #[verifier::opaque]
    open spec fn spec_parse(s: Seq<u8>) -> Parsed<JmxDungeonView> {
        let buffer = s;
        match JmxDungeonHeader::spec_parse(s) { Err(e) => Err(e), Ok((s, header)) =>
        match spec_section(buffer, header.bounding_boxes as nat) { Err(e) => Err(e), Ok(s) =>
        match spec_vector6_f32(s) { Err(e) => Err(e), Ok((s, aabb)) =>
        match spec_vector6_f32(s) { Err(e) => Err(e), Ok((s, oobb)) =>
        match spec_section(buffer, header.room_objects as nat) { Err(e) => Err(e), Ok(s) =>
        match spec_parse_objects(
            CountWidth::U32,
            &Each::<RoomObject>::it(),
            s,
        ) { Err(e) => Err(e), Ok((s, room_objects)) =>
        match spec_section(buffer, header.links as nat) { Err(e) => Err(e), Ok(s) =>
        match Links::spec_parse(s) { Err(e) => Err(e), Ok((s, links)) =>
        match spec_section(buffer, header.object_connections as nat) { Err(e) => Err(e), Ok(s) =>
        match spec_parse_objects(
            CountWidth::U32,
            &Counted { width: CountWidth::U32, item: Each::<u32>::it() },
            s,
        ) { Err(e) => Err(e), Ok((s, object_connections)) =>
        match spec_section(buffer, header.index_names as nat) { Err(e) => Err(e), Ok(s) =>
        match spec_parse_objects(
            CountWidth::U32,
            &Each::<String>::it(),
            s,
        ) { Err(e) => Err(e), Ok((s, room_names)) =>
        match spec_parse_objects(
            CountWidth::U32,
            &Each::<String>::it(),
            s,
        ) { Err(e) => Err(e), Ok((s, floor_names)) =>
        match spec_section(buffer, header.object_groups as nat) { Err(e) => Err(e), Ok(s) =>
        match spec_parse_objects(
            CountWidth::U32,
            &Each::<ObjectGroup>::it(),
            s,
        ) { Err(e) => Err(e), Ok((s, object_groups)) =>
        Ok((Seq::empty(), JmxDungeonView {
            header,
            aabb,
            oobb,
            room_objects,
            links,
            object_connections,
            room_names,
            floor_names,
            object_groups,
        }))
        }}}}}}}}}}}}}}}
    }

    fn parse<'a>(i: &'a [u8]) -> (r: IResult<'a, JmxDungeon>) {
        reveal(<JmxDungeon as Parse>::spec_parse);
        let buffer = i;
        let (i, header) = JmxDungeonHeader::parse(i)?;
        let i = section(buffer, header.bounding_boxes)?;
        let (i, aabb) = vector6_f32(i)?;
        let (i, oobb) = vector6_f32(i)?;
        let i = section(buffer, header.room_objects)?;
        let (i, room_objects) = parse_objects_u32(&Each::<RoomObject>::new(), i)?;
        let i = section(buffer, header.links)?;
        let (i, links) = Links::parse(i)?;
        let i = section(buffer, header.object_connections)?;
        let (i, object_connections) = parse_objects_u32(
            &Counted { width: CountWidth::U32, item: Each::<u32>::new() },
            i,
        )?;
        let i = section(buffer, header.index_names)?;
        let (i, room_names) = parse_objects_u32(&Each::<String>::new(), i)?;
        let (i, floor_names) = parse_objects_u32(&Each::<String>::new(), i)?;
        let i = section(buffer, header.object_groups)?;
        let (i, object_groups) = parse_objects_u32(&Each::<ObjectGroup>::new(), i)?;
        Ok((end_of(buffer), JmxDungeon {
            header,
            aabb,
            oobb,
            room_objects,
            links,
            object_connections,
            room_names,
            floor_names,
            object_groups,
        }))
    }

    proof fn lemma_tail(s: Seq<u8>) {
        reveal(<JmxDungeon as Parse>::spec_parse);
        broadcast use group_tails;
        lemma_empty_is_tail(s);
    }
}

impl JmxDungeon {
    /// Decodes a dungeon file.
    pub fn parse<'a>(i: &'a [u8]) -> (r: IResult<'a, JmxDungeon>)
        ensures
            decodes(r, i@, <JmxDungeon as Parse>::spec_parse(i@)),
    {
        <JmxDungeon as Parse>::parse(i)
    }

    /// A file that does not start with the magic tag is refused with
    /// `TagMismatch`: no section of it is looked at.
    pub proof fn lemma_magic_mismatch(s: Seq<u8>)
        requires
            !MAGIC@.is_prefix_of(s),
        ensures
            <JmxDungeon as Parse>::spec_parse(s) == Err::<(Seq<u8>, JmxDungeonView), _>(
                DecodeErrorView::TagMismatch,
            ),
    {
        reveal(<JmxDungeon as Parse>::spec_parse);
        JmxDungeonHeader::lemma_magic_mismatch(s);
    }

    /// No section is read from behind the end of the file: where a file
    /// decodes, every offset that was followed lies within it.
    pub proof fn lemma_offsets_in_bounds(s: Seq<u8>)
        requires
            <JmxDungeon as Parse>::spec_parse(s) is Ok,
        ensures
            <JmxDungeon as Parse>::spec_parse(s)->Ok_0.1.header.bounding_boxes <= s.len(),
            <JmxDungeon as Parse>::spec_parse(s)->Ok_0.1.header.room_objects <= s.len(),
            <JmxDungeon as Parse>::spec_parse(s)->Ok_0.1.header.links <= s.len(),
            <JmxDungeon as Parse>::spec_parse(s)->Ok_0.1.header.object_connections <= s.len(),
            <JmxDungeon as Parse>::spec_parse(s)->Ok_0.1.header.index_names <= s.len(),
            <JmxDungeon as Parse>::spec_parse(s)->Ok_0.1.header.object_groups <= s.len(),
    {
        reveal(<JmxDungeon as Parse>::spec_parse);
    }
}

} // verus!
