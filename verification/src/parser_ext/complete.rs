//! Cursor primitives: taking bytes, matching a literal, jumping to a section.
use vstd::array::array_fill_for_copy_types;
use vstd::prelude::*;
use vstd::slice::slice_subrange;

use crate::decode::{decodes, is_tail, lemma_skip_is_tail, IResult, Parsed};
use crate::error::{DecodeError, DecodeErrorView};

verus! {

/// The first `n` bytes and the cursor behind them.
#[verifier::opaque]
pub open spec fn spec_take(s: Seq<u8>, n: nat) -> Result<(Seq<u8>, Seq<u8>), DecodeErrorView> {
    if s.len() < n {
        Err(DecodeErrorView::UnexpectedEof)
    } else {
        Ok((s.skip(n as int), s.take(n as int)))
    }
}

/// `spec_take` leaves what it did not take.
pub broadcast proof fn lemma_take_consumes(s: Seq<u8>, n: nat)
    ensures
        #[trigger] spec_take(s, n) matches Ok((rest, bytes)) ==> is_tail(rest, s) && rest.len() + n == s.len()
            && bytes.len() == n,
{
    reveal(spec_take);
    if s.len() >= n {
        lemma_skip_is_tail(s, n as int);
    }
}

/// Splits `n` bytes off the front of `i`.
pub fn take<'a>(i: &'a [u8], n: usize) -> (r: Result<(&'a [u8], &'a [u8]), DecodeError>)
    ensures
        match r {
            Ok((rest, bytes)) => spec_take(i@, n as nat) == Ok::<_, DecodeErrorView>((rest@, bytes@)),
            Err(e) => spec_take(i@, n as nat) == Err::<(Seq<u8>, Seq<u8>), _>(e@),
        },
        r matches Ok((rest, _)) ==> rest@.len() <= i@.len(),
{
    reveal(spec_take);
    if i.len() < n {
        Err(DecodeError::UnexpectedEof)
    } else {
        Ok((slice_subrange(i, n, i.len()), slice_subrange(i, 0, n)))
    }
}

/// A block of `n` bytes, kept as it is.
#[verifier::opaque]
pub open spec fn spec_take_fixed(s: Seq<u8>, n: nat) -> Parsed<Seq<u8>> {
    if s.len() < n {
        Err(DecodeErrorView::UnexpectedEof)
    } else {
        Ok((s.skip(n as int), s.take(n as int)))
    }
}

/// A block of `n` bytes is `n` bytes long.
pub broadcast proof fn lemma_take_fixed_consumes(s: Seq<u8>, n: nat)
    ensures
        #[trigger] spec_take_fixed(s, n) matches Ok((rest, bytes)) ==> is_tail(rest, s) && rest.len() + n
            == s.len() && bytes.len() == n,
{
    reveal(spec_take_fixed);
    if s.len() >= n {
        lemma_skip_is_tail(s, n as int);
    }
}

/// Reads a block of `C` bytes.
pub fn take_fixed<'a, const C: usize>(i: &'a [u8]) -> (r: IResult<'a, [u8; C]>)
    ensures
        decodes(r, i@, spec_take_fixed(i@, C as nat)),
{
    reveal(spec_take_fixed);
    reveal(spec_take);
    let (rest, bytes) = take(i, C)?;
    let mut block: [u8; C] = array_fill_for_copy_types(0u8);
    let mut k: usize = 0;
    while k < C
        invariant
            k <= C,
            bytes@.len() == C,
            forall|j: int| 0 <= j < k ==> block@[j] == bytes@[j],
        decreases C - k,
    {
        block[k] = bytes[k];
        k += 1;
    }
    assert(block.deep_view() =~= bytes@);
    Ok((rest, block))
}

/// Whether two byte strings are the same.
pub fn bytes_eq(a: &[u8], b: &[u8]) -> (r: bool)
    ensures
        r == (a@ == b@),
{
    if a.len() != b.len() {
        return false;
    }
    let mut k: usize = 0;
    while k < a.len()
        invariant
            k <= a@.len(),
            a@.len() == b@.len(),
            forall|j: int| 0 <= j < k ==> a@[j] == b@[j],
        decreases a@.len() - k,
    {
        if a[k] != b[k] {
            assert(a@[k as int] != b@[k as int]);
            return false;
        }
        k += 1;
    }
    assert(a@ =~= b@);
    true
}

/// The cursor behind `literal`, where the input starts with it. An input
/// that is too short to hold the literal does not start with it.
#[verifier::opaque]
pub open spec fn spec_tag(s: Seq<u8>, literal: Seq<u8>) -> Parsed<()> {
    if literal.is_prefix_of(s) {
        Ok((s.skip(literal.len() as int), ()))
    } else {
        Err(DecodeErrorView::TagMismatch)
    }
}

/// A literal that is found is consumed whole.
pub broadcast proof fn lemma_tag_consumes(s: Seq<u8>, literal: Seq<u8>)
    ensures
        #[trigger] spec_tag(s, literal) matches Ok((rest, _)) ==> is_tail(rest, s) && rest.len() + literal.len()
            == s.len(),
{
    reveal(spec_tag);
    if literal.is_prefix_of(s) {
        lemma_skip_is_tail(s, literal.len() as int);
    }
}

/// Whether `i` starts with `literal`.
pub fn starts_with(i: &[u8], literal: &[u8]) -> (r: bool)
    ensures
        r == literal@.is_prefix_of(i@),
{
    if i.len() < literal.len() {
        return false;
    }
    let mut k: usize = 0;
    while k < literal.len()
        invariant
            k <= literal@.len() <= i@.len(),
            forall|j: int| 0 <= j < k ==> i@[j] == literal@[j],
        decreases literal@.len() - k,
    {
        if i[k] != literal[k] {
            assert(i@.subrange(0, literal@.len() as int)[k as int] != literal@[k as int]);
            return false;
        }
        k += 1;
    }
    assert(i@.subrange(0, literal@.len() as int) =~= literal@);
    true
}

/// Consumes `literal` from the front of `i`, or fails with `TagMismatch`
/// and consumes nothing.
pub fn tag<'a>(i: &'a [u8], literal: &[u8]) -> (r: IResult<'a, ()>)
    ensures
        decodes(r, i@, spec_tag(i@, literal@)),
{
    reveal(spec_tag);
    if starts_with(i, literal) {
        Ok((slice_subrange(i, literal.len(), i.len()), ()))
    } else {
        Err(DecodeError::TagMismatch)
    }
}

/// The cursor that starts at the absolute offset `offset` of `buffer`.
pub open spec fn spec_section(buffer: Seq<u8>, offset: nat) -> Result<Seq<u8>, DecodeErrorView> {
    if offset > buffer.len() {
        Err(DecodeErrorView::OffsetOutOfBounds)
    } else {
        Ok(buffer.skip(offset as int))
    }
}

/// An offset behind the end of the buffer is refused, and any other offset
/// gives the bytes from there to the end: no byte outside the buffer is
/// ever part of a section.
pub proof fn lemma_section_bounds(buffer: Seq<u8>, offset: nat)
    ensures
        offset > buffer.len() ==> spec_section(buffer, offset) == Err::<Seq<u8>, _>(
            DecodeErrorView::OffsetOutOfBounds,
        ),
        offset <= buffer.len() ==> spec_section(buffer, offset) == Ok::<_, DecodeErrorView>(
            buffer.subrange(offset as int, buffer.len() as int),
        ),
{
}

/// Resolves a section offset taken from a header: the cursor returned starts
/// at `offset` bytes from the start of `buffer`, however much of the buffer
/// has been read before. No byte of the buffer is read.
pub fn section<'a>(buffer: &'a [u8], offset: u32) -> (r: Result<&'a [u8], DecodeError>)
    ensures
        match r {
            Ok(cursor) => spec_section(buffer@, offset as nat) == Ok::<_, DecodeErrorView>(cursor@),
            Err(e) => spec_section(buffer@, offset as nat) == Err::<Seq<u8>, _>(e@),
        },
        r matches Ok(cursor) ==> cursor@.len() <= buffer@.len(),
{
    let offset = offset as usize;
    if offset > buffer.len() {
        Err(DecodeError::OffsetOutOfBounds)
    } else {
        Ok(slice_subrange(buffer, offset, buffer.len()))
    }
}

/// A version suffix: as many bytes as `expected` has, and equal to it.
pub open spec fn spec_version(s: Seq<u8>, expected: Seq<u8>) -> Parsed<()> {
    match spec_take(s, expected.len()) {
        Err(e) => Err(e),
        Ok((s, version)) => if version == expected {
            Ok((s, ()))
        } else {
            Err(DecodeErrorView::TagMismatch)
        },
    }
}

/// Reads a version suffix and compares it with the one that is supported.
/// An input too short for it fails with `UnexpectedEof`, another version
/// with `TagMismatch`.
pub fn version<'a>(i: &'a [u8], expected: &[u8]) -> (r: IResult<'a, ()>)
    ensures
        decodes(r, i@, spec_version(i@, expected@)),
{
    reveal(spec_take);
    let (rest, found) = take(i, expected.len())?;
    if bytes_eq(found, expected) {
        Ok((rest, ()))
    } else {
        Err(DecodeError::TagMismatch)
    }
}

/// The empty cursor at the end of `buffer`. A format that is read by
/// sections leaves it: what stands behind a section is not looked at.
pub fn end_of<'a>(buffer: &'a [u8]) -> (r: &'a [u8])
    ensures
        r@ == Seq::<u8>::empty(),
{
    let r = slice_subrange(buffer, buffer.len(), buffer.len());
    assert(r@ =~= Seq::<u8>::empty());
    r
}

/// The cursor of a section that the format allows to be absent: the offset
/// `0` stands for "absent".
pub open spec fn spec_optional_section(buffer: Seq<u8>, offset: nat) -> Result<Option<Seq<u8>>, DecodeErrorView> {
    if offset == 0 {
        Ok(None)
    } else {
        match spec_section(buffer, offset) {
            Ok(cursor) => Ok(Some(cursor)),
            Err(e) => Err(e),
        }
    }
}

/// The offset `0` stands for an absent section, whatever the buffer holds:
/// the bytes at the start of the buffer are the header's, not a section's.
pub proof fn lemma_absent_section(buffer: Seq<u8>)
    ensures
        spec_optional_section(buffer, 0) == Ok::<Option<Seq<u8>>, DecodeErrorView>(None),
{
}

/// An input that does not start with the literal is refused with
/// `TagMismatch`, whatever else it holds.
pub proof fn lemma_tag_mismatch(s: Seq<u8>, literal: Seq<u8>)
    requires
        !literal.is_prefix_of(s),
    ensures
        spec_tag(s, literal) == Err::<(Seq<u8>, ()), _>(DecodeErrorView::TagMismatch),
{
    reveal(spec_tag);
}

/// The bytes of a cursor that may be absent.
pub open spec fn cursor_view(cursor: Option<&[u8]>) -> Option<Seq<u8>> {
    match cursor {
        None => None,
        Some(c) => Some(c@),
    }
}

/// Resolves the offset of a section that may be absent. For the offset `0`
/// the result is `None` and the buffer is not looked at.
pub fn optional_section<'a>(buffer: &'a [u8], offset: u32) -> (r: Result<Option<&'a [u8]>, DecodeError>)
    ensures
        match r {
            Ok(cursor) => spec_optional_section(buffer@, offset as nat) == Ok::<_, DecodeErrorView>(
                cursor_view(cursor),
            ),
            Err(e) => spec_optional_section(buffer@, offset as nat) == Err::<Option<Seq<u8>>, _>(e@),
        },
        r matches Ok(Some(cursor)) ==> cursor@.len() <= buffer@.len(),
{
    if offset == 0 {
        Ok(None)
    } else {
        match section(buffer, offset) {
            Ok(cursor) => Ok(Some(cursor)),
            Err(e) => Err(e),
        }
    }
}

} // verus!
