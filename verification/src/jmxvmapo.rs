//! Map objects: what stands on a region's terrain.
use vstd::prelude::*;

use crate::decode::{decodes, Each, group_tails, IResult, Parse, Parsed};
use crate::error::DecodeErrorView;
use crate::math::{F32, Vector3};
use crate::parser_ext::complete::{spec_tag, tag};
use crate::parser_ext::multi::{
    count, CountWidth, parse_objects_u16, spec_count, spec_parse_objects,
};
use crate::parser_ext::number::{
    le_f32, le_u16, le_u32, spec_le_f32, spec_le_u16, spec_le_u32, spec_vector3_f32, vector3_f32,
};

verus! {

/// The magic tag of a map object file: `JMXVMAPO1001`.
pub const MAGIC: [u8; 12] = [
    0x4A, 0x4D, 0x58, 0x56, 0x4D, 0x41, 0x50, 0x4F, 0x31, 0x30, 0x30, 0x31,
];

#[derive(Debug, PartialEq, Eq)]
pub struct MapObject {
    pub id: u32,
    pub position: Vector3,
    pub visibility_flag: u16,
    pub theta: F32,
    pub unique_id: u32,
    pub scale: u16,
    pub region: u16,
}

impl DeepView for MapObject {
    type V = MapObject;

    open spec fn deep_view(&self) -> MapObject {
        *self
    }
}

impl Parse for MapObject {
    #[verifier::opaque]
    open spec fn spec_parse(s: Seq<u8>) -> Parsed<MapObject> {
        match spec_le_u32(s) { Err(e) => Err(e), Ok((s, id)) =>
        match spec_vector3_f32(s) { Err(e) => Err(e), Ok((s, position)) =>
        match spec_le_u16(s) { Err(e) => Err(e), Ok((s, visibility_flag)) =>
        match spec_le_f32(s) { Err(e) => Err(e), Ok((s, theta)) =>
        match spec_le_u32(s) { Err(e) => Err(e), Ok((s, unique_id)) =>
        match spec_le_u16(s) { Err(e) => Err(e), Ok((s, scale)) =>
        match spec_le_u16(s) { Err(e) => Err(e), Ok((s, region)) =>
        Ok((s, MapObject { id, position, visibility_flag, theta, unique_id, scale, region }))
        }}}}}}}
    }

    fn parse<'a>(i: &'a [u8]) -> (r: IResult<'a, MapObject>) {
        reveal(<MapObject as Parse>::spec_parse);
        let (i, id) = le_u32(i)?;
        let (i, position) = vector3_f32(i)?;
        let (i, visibility_flag) = le_u16(i)?;
        let (i, theta) = le_f32(i)?;
        let (i, unique_id) = le_u32(i)?;
        let (i, scale) = le_u16(i)?;
        let (i, region) = le_u16(i)?;
        Ok((i, MapObject { id, position, visibility_flag, theta, unique_id, scale, region }))
    }

    proof fn lemma_tail(s: Seq<u8>) {
        reveal(<MapObject as Parse>::spec_parse);
        broadcast use group_tails;
    }
}

impl MapObject {
    /// On the wire a value of this type is 30 bytes long: it decodes from
    /// every input that holds as many, and from no other.
    pub broadcast proof fn lemma_fixed_size(s: Seq<u8>)
        ensures
            #![trigger <MapObject as Parse>::spec_parse(s)]
            match <MapObject as Parse>::spec_parse(s) {
                Ok((rest, _)) => s.len() >= 30 && rest.len() + 30 == s.len(),
                Err(e) => s.len() < 30 && e == DecodeErrorView::UnexpectedEof,
            },
    {
        reveal(<MapObject as Parse>::spec_parse);
        broadcast use group_tails;
        broadcast use crate::parser_ext::number::group_sizes;
    }
}

#[derive(Debug, PartialEq, Eq)]
pub struct MapObjectGroup {
    pub entries: Vec<MapObject>,
}

/// The mathematical value of a [`MapObjectGroup`].
pub struct MapObjectGroupView {
    pub entries: Seq<MapObject>,
}

impl DeepView for MapObjectGroup {
    type V = MapObjectGroupView;

    open spec fn deep_view(&self) -> MapObjectGroupView {
        MapObjectGroupView {
            entries: self.entries.deep_view(),
        }
    }
}

impl Parse for MapObjectGroup {
    #[verifier::opaque]
    open spec fn spec_parse(s: Seq<u8>) -> Parsed<MapObjectGroupView> {
        match spec_parse_objects(
            CountWidth::U16,
            &Each::<MapObject>::it(),
            s,
        ) { Err(e) => Err(e), Ok((s, entries)) =>
        Ok((s, MapObjectGroupView { entries }))
        }
    }

    fn parse<'a>(i: &'a [u8]) -> (r: IResult<'a, MapObjectGroup>) {
        reveal(<MapObjectGroup as Parse>::spec_parse);
        let (i, entries) = parse_objects_u16(&Each::<MapObject>::new(), i)?;
        Ok((i, MapObjectGroup { entries }))
    }

    proof fn lemma_tail(s: Seq<u8>) {
        reveal(<MapObjectGroup as Parse>::spec_parse);
        broadcast use group_tails;
    }
}

/// A map object file: what stands on the terrain of one region.
#[derive(Debug, PartialEq, Eq)]
pub struct JmxMapObject {
    /// One group for each of the 144 blocks.
    pub objects: Vec<MapObjectGroup>,
}

/// The mathematical value of a [`JmxMapObject`].
pub struct JmxMapObjectView {
    pub objects: Seq<MapObjectGroupView>,
}

impl DeepView for JmxMapObject {
    type V = JmxMapObjectView;

    open spec fn deep_view(&self) -> JmxMapObjectView {
        JmxMapObjectView {
            objects: self.objects.deep_view(),
        }
    }
}

impl Parse for JmxMapObject {
    #[verifier::opaque]
    open spec fn spec_parse(s: Seq<u8>) -> Parsed<JmxMapObjectView> {
        match spec_tag(s, MAGIC@) { Err(e) => Err(e), Ok((s, _)) =>
        match spec_count(&Each::<MapObjectGroup>::it(), s, 144) { Err(e) => Err(e), Ok((s, objects)) =>
        Ok((s, JmxMapObjectView { objects }))
        }}
    }

    fn parse<'a>(i: &'a [u8]) -> (r: IResult<'a, JmxMapObject>) {
        reveal(<JmxMapObject as Parse>::spec_parse);
        let (i, _) = tag(i, &MAGIC)?;
        let (i, objects) = count(&Each::<MapObjectGroup>::new(), 144, i)?;
        Ok((i, JmxMapObject { objects }))
    }

    proof fn lemma_tail(s: Seq<u8>) {
        reveal(<JmxMapObject as Parse>::spec_parse);
        broadcast use group_tails;
    }
}

impl JmxMapObject {
    /// Decodes a map object file.
    pub fn parse<'a>(i: &'a [u8]) -> (r: IResult<'a, JmxMapObject>)
        ensures
            decodes(r, i@, <JmxMapObject as Parse>::spec_parse(i@)),
    {
        <JmxMapObject as Parse>::parse(i)
    }

    /// An input that does not start with the magic tag is refused with
    /// `TagMismatch`, whatever follows.
    pub proof fn lemma_magic_mismatch(s: Seq<u8>)
        requires
            !MAGIC@.is_prefix_of(s),
        ensures
            <JmxMapObject as Parse>::spec_parse(s) == Err::<(Seq<u8>, JmxMapObjectView), _>(
                DecodeErrorView::TagMismatch,
            ),
    {
        reveal(<JmxMapObject as Parse>::spec_parse);
        reveal(spec_tag);
    }
}

} // verus!
