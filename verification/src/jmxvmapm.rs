//! Map meshes: the terrain of a region, block by block.
use vstd::prelude::*;

use crate::decode::{decodes, Each, group_tails, IResult, Parse, Parsed};
use crate::error::DecodeErrorView;
use crate::math::F32;
use crate::parser_ext::complete::{spec_tag, tag};
use crate::parser_ext::multi::{count, spec_count};
use crate::parser_ext::number::{
    le_f32, le_u16, le_u32, le_u8, spec_le_f32, spec_le_u16, spec_le_u32, spec_le_u8,
};
use crate::parser_ext::string::{fixed_string, spec_fixed_string};

verus! {

/// The magic tag of a map mesh file: `JMXVMAPM1000`.
pub const MAGIC: [u8; 12] = [
    0x4A, 0x4D, 0x58, 0x56, 0x4D, 0x41, 0x50, 0x4D, 0x31, 0x30, 0x30, 0x30,
];

#[derive(Debug, PartialEq, Eq)]
pub struct MapMeshCell {
    pub height: u32,
    pub texture: u16,
    pub brightness: u8,
}

impl DeepView for MapMeshCell {
    type V = MapMeshCell;

    open spec fn deep_view(&self) -> MapMeshCell {
        *self
    }
}

impl Parse for MapMeshCell {
    #[verifier::opaque]
    open spec fn spec_parse(s: Seq<u8>) -> Parsed<MapMeshCell> {
        match spec_le_u32(s) { Err(e) => Err(e), Ok((s, height)) =>
        match spec_le_u16(s) { Err(e) => Err(e), Ok((s, texture)) =>
        match spec_le_u8(s) { Err(e) => Err(e), Ok((s, brightness)) =>
        Ok((s, MapMeshCell { height, texture, brightness }))
        }}}
    }

    fn parse<'a>(i: &'a [u8]) -> (r: IResult<'a, MapMeshCell>) {
        reveal(<MapMeshCell as Parse>::spec_parse);
        let (i, height) = le_u32(i)?;
        let (i, texture) = le_u16(i)?;
        let (i, brightness) = le_u8(i)?;
        Ok((i, MapMeshCell { height, texture, brightness }))
    }

    proof fn lemma_tail(s: Seq<u8>) {
        reveal(<MapMeshCell as Parse>::spec_parse);
        broadcast use group_tails;
    }
}

impl MapMeshCell {
    /// On the wire a value of this type is 7 bytes long: it decodes from
    /// every input that holds as many, and from no other.
    pub broadcast proof fn lemma_fixed_size(s: Seq<u8>)
        ensures
            #![trigger <MapMeshCell as Parse>::spec_parse(s)]
            match <MapMeshCell as Parse>::spec_parse(s) {
                Ok((rest, _)) => s.len() >= 7 && rest.len() + 7 == s.len(),
                Err(e) => s.len() < 7 && e == DecodeErrorView::UnexpectedEof,
            },
    {
        reveal(<MapMeshCell as Parse>::spec_parse);
        broadcast use group_tails;
        broadcast use crate::parser_ext::number::group_sizes;
    }
}

/// One block of a region's terrain.
#[derive(Debug, PartialEq, Eq)]
pub struct MapBlock {
    pub name: String,
    /// 257 cells.
    pub cells: Vec<MapMeshCell>,
    pub density: u8,
    pub unk0: u8,
    pub sea_level: F32,
    pub extra_data: Vec<u8>,
    pub height_min: F32,
    pub height_max: F32,
    pub unk0_buffer: Vec<u8>,
}

/// The mathematical value of a [`MapBlock`].
pub struct MapBlockView {
    pub name: Seq<char>,
    pub cells: Seq<MapMeshCell>,
    pub density: u8,
    pub unk0: u8,
    pub sea_level: F32,
    pub extra_data: Seq<u8>,
    pub height_min: F32,
    pub height_max: F32,
    pub unk0_buffer: Seq<u8>,
}

impl DeepView for MapBlock {
    type V = MapBlockView;

    open spec fn deep_view(&self) -> MapBlockView {
        MapBlockView {
            name: self.name.deep_view(),
            cells: self.cells.deep_view(),
            density: self.density,
            unk0: self.unk0,
            sea_level: self.sea_level,
            extra_data: self.extra_data.deep_view(),
            height_min: self.height_min,
            height_max: self.height_max,
            unk0_buffer: self.unk0_buffer.deep_view(),
        }
    }
}

impl Parse for MapBlock {
    #[verifier::opaque]
    open spec fn spec_parse(s: Seq<u8>) -> Parsed<MapBlockView> {
        match spec_fixed_string(s, 6) { Err(e) => Err(e), Ok((s, name)) =>
        match spec_count(&Each::<MapMeshCell>::it(), s, 16 * 16 + 1) { Err(e) => Err(e), Ok((s, cells)) =>
        match spec_le_u8(s) { Err(e) => Err(e), Ok((s, density)) =>
        match spec_le_u8(s) { Err(e) => Err(e), Ok((s, unk0)) =>
        match spec_le_f32(s) { Err(e) => Err(e), Ok((s, sea_level)) =>
        match spec_count(&Each::<u8>::it(), s, 256) { Err(e) => Err(e), Ok((s, extra_data)) =>
        match spec_le_f32(s) { Err(e) => Err(e), Ok((s, height_min)) =>
        match spec_le_f32(s) { Err(e) => Err(e), Ok((s, height_max)) =>
        match spec_count(&Each::<u8>::it(), s, 20) { Err(e) => Err(e), Ok((s, unk0_buffer)) =>
        Ok((s, MapBlockView {
            name,
            cells,
            density,
            unk0,
            sea_level,
            extra_data,
            height_min,
            height_max,
            unk0_buffer,
        }))
        }}}}}}}}}
    }

    fn parse<'a>(i: &'a [u8]) -> (r: IResult<'a, MapBlock>) {
        reveal(<MapBlock as Parse>::spec_parse);
        let (i, name) = fixed_string::<6>(i)?;
        let (i, cells) = count(&Each::<MapMeshCell>::new(), 16 * 16 + 1, i)?;
        let (i, density) = le_u8(i)?;
        let (i, unk0) = le_u8(i)?;
        let (i, sea_level) = le_f32(i)?;
        let (i, extra_data) = count(&Each::<u8>::new(), 256, i)?;
        let (i, height_min) = le_f32(i)?;
        let (i, height_max) = le_f32(i)?;
        let (i, unk0_buffer) = count(&Each::<u8>::new(), 20, i)?;
        Ok((i, MapBlock {
            name,
            cells,
            density,
            unk0,
            sea_level,
            extra_data,
            height_min,
            height_max,
            unk0_buffer,
        }))
    }

    proof fn lemma_tail(s: Seq<u8>) {
        reveal(<MapBlock as Parse>::spec_parse);
        broadcast use group_tails;
    }
}

/// A map mesh file: the terrain of one region.
#[derive(Debug, PartialEq, Eq)]
pub struct JmxMapMesh {
    /// Six by six blocks.
    pub blocks: Vec<MapBlock>,
}

/// The mathematical value of a [`JmxMapMesh`].
pub struct JmxMapMeshView {
    pub blocks: Seq<MapBlockView>,
}

impl DeepView for JmxMapMesh {
    type V = JmxMapMeshView;

    open spec fn deep_view(&self) -> JmxMapMeshView {
        JmxMapMeshView {
            blocks: self.blocks.deep_view(),
        }
    }
}

impl Parse for JmxMapMesh {
    #[verifier::opaque]
    open spec fn spec_parse(s: Seq<u8>) -> Parsed<JmxMapMeshView> {
        match spec_tag(s, MAGIC@) { Err(e) => Err(e), Ok((s, _)) =>
        match spec_count(&Each::<MapBlock>::it(), s, 6 * 6) { Err(e) => Err(e), Ok((s, blocks)) =>
        Ok((s, JmxMapMeshView { blocks }))
        }}
    }

    fn parse<'a>(i: &'a [u8]) -> (r: IResult<'a, JmxMapMesh>) {
        reveal(<JmxMapMesh as Parse>::spec_parse);
        let (i, _) = tag(i, &MAGIC)?;
        let (i, blocks) = count(&Each::<MapBlock>::new(), 6 * 6, i)?;
        Ok((i, JmxMapMesh { blocks }))
    }

    proof fn lemma_tail(s: Seq<u8>) {
        reveal(<JmxMapMesh as Parse>::spec_parse);
        broadcast use group_tails;
    }
}

impl JmxMapMesh {
    /// Decodes a map mesh file.
    pub fn parse<'a>(i: &'a [u8]) -> (r: IResult<'a, JmxMapMesh>)
        ensures
            decodes(r, i@, <JmxMapMesh as Parse>::spec_parse(i@)),
    {
        <JmxMapMesh as Parse>::parse(i)
    }

    /// An input that does not start with the magic tag is refused with
    /// `TagMismatch`, whatever follows.
    pub proof fn lemma_magic_mismatch(s: Seq<u8>)
        requires
            !MAGIC@.is_prefix_of(s),
        ensures
            <JmxMapMesh as Parse>::spec_parse(s) == Err::<(Seq<u8>, JmxMapMeshView), _>(
                DecodeErrorView::TagMismatch,
            ),
    {
        reveal(<JmxMapMesh as Parse>::spec_parse);
        reveal(spec_tag);
    }
}

} // verus!
