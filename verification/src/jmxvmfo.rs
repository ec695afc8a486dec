//! Map info.
use vstd::prelude::*;

use crate::decode::{decodes, Each, group_tails, IResult, Parse, Parsed};
use crate::error::DecodeErrorView;
use crate::parser_ext::complete::{spec_tag, spec_take, tag, take};
use crate::parser_ext::multi::{count, spec_count};

verus! {

/// The magic tag of a map info file: `JMXVMFO 1000`.
pub const MAGIC: [u8; 12] = [
    0x4A, 0x4D, 0x58, 0x56, 0x4D, 0x46, 0x4F, 0x20, 0x31, 0x30, 0x30, 0x30,
];

/// A map info file: which regions of the world exist.
#[derive(Debug, PartialEq, Eq)]
pub struct JmxMapInfo {
    /// One bit for each of the 256 by 256 regions.
    pub region_data: Vec<u8>,
}

/// The mathematical value of a [`JmxMapInfo`].
pub struct JmxMapInfoView {
    pub region_data: Seq<u8>,
}

impl DeepView for JmxMapInfo {
    type V = JmxMapInfoView;

    open spec fn deep_view(&self) -> JmxMapInfoView {
        JmxMapInfoView {
            region_data: self.region_data.deep_view(),
        }
    }
}

impl Parse for JmxMapInfo {
    /// The tag, twelve bytes that are passed over, and the bits.
    #[verifier::opaque]
    open spec fn spec_parse(s: Seq<u8>) -> Parsed<JmxMapInfoView> {
        match spec_tag(s, MAGIC@) { Err(e) => Err(e), Ok((s, _)) =>
        match spec_take(s, 12) { Err(e) => Err(e), Ok((s, skipped)) =>
        match spec_count(&Each::<u8>::it(), s, 256 * 256 / 8) { Err(e) => Err(e), Ok((s, region_data)) =>
        Ok((s, JmxMapInfoView { region_data }))
        }}}
    }

    fn parse<'a>(i: &'a [u8]) -> (r: IResult<'a, JmxMapInfo>) {
        reveal(<JmxMapInfo as Parse>::spec_parse);
        let (i, _) = tag(i, &MAGIC)?;
        let (i, skipped) = take(i, 12)?;
        let (i, region_data) = count(&Each::<u8>::new(), 256 * 256 / 8, i)?;
        Ok((i, JmxMapInfo { region_data }))
    }

    proof fn lemma_tail(s: Seq<u8>) {
        reveal(<JmxMapInfo as Parse>::spec_parse);
        broadcast use group_tails;
    }
}

impl JmxMapInfo {
    /// Decodes a map info file.
    pub fn parse<'a>(i: &'a [u8]) -> (r: IResult<'a, JmxMapInfo>)
        ensures
            decodes(r, i@, <JmxMapInfo as Parse>::spec_parse(i@)),
    {
        <JmxMapInfo as Parse>::parse(i)
    }

    /// An input that does not start with the magic tag is refused with
    /// `TagMismatch`, whatever follows.
    pub proof fn lemma_magic_mismatch(s: Seq<u8>)
        requires
            !MAGIC@.is_prefix_of(s),
        ensures
            <JmxMapInfo as Parse>::spec_parse(s) == Err::<(Seq<u8>, JmxMapInfoView), _>(
                DecodeErrorView::TagMismatch,
            ),
    {
        reveal(<JmxMapInfo as Parse>::spec_parse);
        reveal(spec_tag);
    }
}

} // verus!
