//! Textures (`.ddj`).
use vstd::prelude::*;

use crate::decode::{decodes, Each, group_tails, IResult, Parse, Parsed};
use crate::error::{DecodeError, DecodeErrorView};
use crate::parser_ext::complete::{spec_tag, tag};
use crate::parser_ext::multi::{count, spec_count};
use crate::parser_ext::number::{le_u32, spec_le_u32};

verus! {

/// The magic tag of a texture file: `JMXVDDJ 1000`.
pub const MAGIC: [u8; 12] = [
    0x4A, 0x4D, 0x58, 0x56, 0x44, 0x44, 0x4A, 0x20, 0x31, 0x30, 0x30, 0x30,
];

/// A texture file (`.ddj`): the tag, and the texture behind it as it is.
#[derive(Debug, PartialEq, Eq)]
pub struct JmxTexture {
    pub header_len: u32,
    pub data: Vec<u8>,
}

/// The mathematical value of a [`JmxTexture`].
pub struct JmxTextureView {
    pub header_len: u32,
    pub data: Seq<u8>,
}

impl DeepView for JmxTexture {
    type V = JmxTextureView;

    open spec fn deep_view(&self) -> JmxTextureView {
        JmxTextureView { header_len: self.header_len, data: self.data.deep_view() }
    }
}

impl Parse for JmxTexture {
    /// The tag, the texture's size, the header's length, and the data. The
    /// size counts itself and the header's length, eight bytes, with the
    /// data. A size below eight leaves no room for those two fields: no
    /// input is long enough for it.
    #[verifier::opaque]
    open spec fn spec_parse(s: Seq<u8>) -> Parsed<JmxTextureView> {
        match spec_tag(s, MAGIC@) { Err(e) => Err(e), Ok((s, _)) =>
        match spec_le_u32(s) { Err(e) => Err(e), Ok((s, texture_size)) =>
        match spec_le_u32(s) { Err(e) => Err(e), Ok((s, header_len)) =>
        if texture_size < 8 {
            Err(DecodeErrorView::UnexpectedEof)
        } else {
            match spec_count(&Each::<u8>::it(), s, (texture_size - 8) as nat) { Err(e) => Err(e), Ok((s, data)) =>
            Ok((s, JmxTextureView { header_len, data }))
            }
        }
        }}}
    }

    fn parse<'a>(i: &'a [u8]) -> (r: IResult<'a, JmxTexture>) {
        reveal(<JmxTexture as Parse>::spec_parse);
        let (i, _) = tag(i, &MAGIC)?;
        let (i, texture_size) = le_u32(i)?;
        let (i, header_len) = le_u32(i)?;
        if texture_size < 8 {
            return Err(DecodeError::UnexpectedEof);
        }
        let (i, data) = count(&Each::<u8>::new(), (texture_size - 8) as usize, i)?;
        Ok((i, JmxTexture { header_len, data }))
    }

    proof fn lemma_tail(s: Seq<u8>) {
        reveal(<JmxTexture as Parse>::spec_parse);
        broadcast use group_tails;
    }
}

impl JmxTexture {
    /// Decodes a texture file.
    pub fn parse<'a>(i: &'a [u8]) -> (r: IResult<'a, JmxTexture>)
        ensures
            decodes(r, i@, <JmxTexture as Parse>::spec_parse(i@)),
    {
        <JmxTexture as Parse>::parse(i)
    }

    /// An input that does not start with the magic tag is refused with
    /// `TagMismatch`, whatever follows.
    pub proof fn lemma_magic_mismatch(s: Seq<u8>)
        requires
            !MAGIC@.is_prefix_of(s),
        ensures
            <JmxTexture as Parse>::spec_parse(s) == Err::<(Seq<u8>, JmxTextureView), _>(
                DecodeErrorView::TagMismatch,
            ),
    {
        reveal(<JmxTexture as Parse>::spec_parse);
        reveal(spec_tag);
    }
}

} // verus!
