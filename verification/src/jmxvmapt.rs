//! Map textures.
use vstd::prelude::*;

use crate::decode::{decodes, Each, group_tails, IResult, Parse, Parsed};
use crate::error::DecodeErrorView;
use crate::parser_ext::complete::{spec_tag, tag};
use crate::parser_ext::multi::{count, spec_count};
use crate::parser_ext::number::{le_u32, spec_le_u32};

verus! {

/// The magic tag of a map texture file: `JMXVMAPT 1001`.
pub const MAGIC: [u8; 13] = [
    0x4A, 0x4D, 0x58, 0x56, 0x4D, 0x41, 0x50, 0x54, 0x20, 0x31, 0x30, 0x30, 0x31,
];

/// A map texture file: the shadow map of one region.
#[derive(Debug, PartialEq, Eq)]
pub struct JmxMapTexture {
    /// 96 by 96 tiles.
    pub shadow_map_tiles: Vec<u8>,
    pub header_len: u32,
    /// As many bytes as the count that stands before `header_len`.
    pub data: Vec<u8>,
}

/// The mathematical value of a [`JmxMapTexture`].
pub struct JmxMapTextureView {
    pub shadow_map_tiles: Seq<u8>,
    pub header_len: u32,
    pub data: Seq<u8>,
}

impl DeepView for JmxMapTexture {
    type V = JmxMapTextureView;

    open spec fn deep_view(&self) -> JmxMapTextureView {
        JmxMapTextureView {
            shadow_map_tiles: self.shadow_map_tiles.deep_view(),
            header_len: self.header_len,
            data: self.data.deep_view(),
        }
    }
}

impl Parse for JmxMapTexture {
    #[verifier::opaque]
    open spec fn spec_parse(s: Seq<u8>) -> Parsed<JmxMapTextureView> {
        match spec_tag(s, MAGIC@) { Err(e) => Err(e), Ok((s, _)) =>
        match spec_count(&Each::<u8>::it(), s, 9216) { Err(e) => Err(e), Ok((s, shadow_map_tiles)) =>
        match spec_le_u32(s) { Err(e) => Err(e), Ok((s, data_len)) =>
        match spec_le_u32(s) { Err(e) => Err(e), Ok((s, header_len)) =>
        match spec_count(&Each::<u8>::it(), s, data_len as nat) { Err(e) => Err(e), Ok((s, data)) =>
        Ok((s, JmxMapTextureView { shadow_map_tiles, header_len, data }))
        }}}}}
    }

    fn parse<'a>(i: &'a [u8]) -> (r: IResult<'a, JmxMapTexture>) {
        reveal(<JmxMapTexture as Parse>::spec_parse);
        let (i, _) = tag(i, &MAGIC)?;
        let (i, shadow_map_tiles) = count(&Each::<u8>::new(), 9216, i)?;
        let (i, data_len) = le_u32(i)?;
        let (i, header_len) = le_u32(i)?;
        let (i, data) = count(&Each::<u8>::new(), data_len as usize, i)?;
        Ok((i, JmxMapTexture { shadow_map_tiles, header_len, data }))
    }

    proof fn lemma_tail(s: Seq<u8>) {
        reveal(<JmxMapTexture as Parse>::spec_parse);
        broadcast use group_tails;
    }
}

impl JmxMapTexture {
    /// Decodes a map texture file.
    pub fn parse<'a>(i: &'a [u8]) -> (r: IResult<'a, JmxMapTexture>)
        ensures
            decodes(r, i@, <JmxMapTexture as Parse>::spec_parse(i@)),
    {
        <JmxMapTexture as Parse>::parse(i)
    }

    /// An input that does not start with the magic tag is refused with
    /// `TagMismatch`, whatever follows.
    pub proof fn lemma_magic_mismatch(s: Seq<u8>)
        requires
            !MAGIC@.is_prefix_of(s),
        ensures
            <JmxMapTexture as Parse>::spec_parse(s) == Err::<(Seq<u8>, JmxMapTextureView), _>(
                DecodeErrorView::TagMismatch,
            ),
    {
        reveal(<JmxMapTexture as Parse>::spec_parse);
        reveal(spec_tag);
    }
}

} // verus!
