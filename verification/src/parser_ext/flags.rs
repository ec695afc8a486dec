//! Flag fields. A field with a bit outside its declared set is refused: such
//! a bit has always meant a revision of the format that is not understood.
use vstd::prelude::*;

use crate::decode::{decodes, IResult, Parsed};
use crate::error::{DecodeError, DecodeErrorView};
use crate::parser_ext::number::{le_u16, le_u32, spec_le_u16, spec_le_u32};

verus! {

/// Whether `raw` has no bit outside `declared`.
pub open spec fn only_declared_bits(raw: u32, declared: u32) -> bool {
    raw & !declared == 0
}

/// A 16-bit field, all of whose bits are in `declared`.
pub open spec fn spec_flags_u16(s: Seq<u8>, declared: u16) -> Parsed<u16> {
    match spec_le_u16(s) {
        Err(e) => Err(e),
        Ok((s, raw)) => if only_declared_bits(raw as u32, declared as u32) {
            Ok((s, raw))
        } else {
            Err(DecodeErrorView::UnknownBitflags(raw as u32))
        },
    }
}

/// A 32-bit field, all of whose bits are in `declared`.
pub open spec fn spec_flags_u32(s: Seq<u8>, declared: u32) -> Parsed<u32> {
    match spec_le_u32(s) {
        Err(e) => Err(e),
        Ok((s, raw)) => if only_declared_bits(raw, declared) {
            Ok((s, raw))
        } else {
            Err(DecodeErrorView::UnknownBitflags(raw))
        },
    }
}

/// Whether `raw` has no bit outside `declared`.
pub fn has_only_declared_bits(raw: u32, declared: u32) -> (r: bool)
    ensures
        r == only_declared_bits(raw, declared),
{
    raw & !declared == 0
}

/// Reads a `u16` and checks it against the declared bits.
pub fn flags_u16<'a>(i: &'a [u8], declared: u16) -> (r: IResult<'a, u16>)
    ensures
        decodes(r, i@, spec_flags_u16(i@, declared)),
{
    let (rest, raw) = le_u16(i)?;
    if has_only_declared_bits(raw as u32, declared as u32) {
        Ok((rest, raw))
    } else {
        Err(DecodeError::UnknownBitflags(raw as u32))
    }
}

/// Reads a `u32` and checks it against the declared bits.
pub fn flags_u32<'a>(i: &'a [u8], declared: u32) -> (r: IResult<'a, u32>)
    ensures
        decodes(r, i@, spec_flags_u32(i@, declared)),
{
    let (rest, raw) = le_u32(i)?;
    if has_only_declared_bits(raw, declared) {
        Ok((rest, raw))
    } else {
        Err(DecodeError::UnknownBitflags(raw))
    }
}

} // verus!
