//! Little-endian numbers and the fixed-width vectors made of them.
use vstd::prelude::*;
use vstd::slice::slice_subrange;

use crate::decode::{decodes, is_tail, lemma_skip_is_tail, lemma_tail_of_tail, IResult, Parse, Parsed};
use crate::error::{DecodeError, DecodeErrorView};
use crate::math::{RowMatrix4, Vector2, Vector3, Vector4, F32};

verus! {

#[verifier::opaque]
pub open spec fn spec_le_u8(s: Seq<u8>) -> Parsed<u8> {
    if s.len() < 1 {
        Err(DecodeErrorView::UnexpectedEof)
    } else {
        Ok((s.skip(1), s[0]))
    }
}

/// The number whose low byte comes first.
#[verifier::opaque]
pub open spec fn spec_le_u16(s: Seq<u8>) -> Parsed<u16> {
    if s.len() < 2 {
        Err(DecodeErrorView::UnexpectedEof)
    } else {
        Ok((s.skip(2), (s[0] as int + 0x100 * s[1] as int) as u16))
    }
}

/// The number whose low byte comes first.
#[verifier::opaque]
pub open spec fn spec_le_u32(s: Seq<u8>) -> Parsed<u32> {
    if s.len() < 4 {
        Err(DecodeErrorView::UnexpectedEof)
    } else {
        Ok((
            s.skip(4),
            (s[0] as int + 0x100 * s[1] as int + 0x1_0000 * s[2] as int + 0x100_0000 * s[3] as int) as u32,
        ))
    }
}

/// The signed number that `bits` stands for in two's complement.
pub open spec fn twos_complement(bits: u32) -> i32 {
    if bits < 0x8000_0000 {
        bits as i32
    } else {
        (bits as int - 0x1_0000_0000) as i32
    }
}

pub open spec fn spec_le_i32(s: Seq<u8>) -> Parsed<i32> {
    match spec_le_u32(s) {
        Err(e) => Err(e),
        Ok((s, bits)) => Ok((s, twos_complement(bits))),
    }
}

pub open spec fn spec_le_f32(s: Seq<u8>) -> Parsed<F32> {
    match spec_le_u32(s) {
        Err(e) => Err(e),
        Ok((s, bits)) => Ok((s, F32 { bits })),
    }
}

pub fn le_u8<'a>(i: &'a [u8]) -> (r: IResult<'a, u8>)
    ensures
        decodes(r, i@, spec_le_u8(i@)),
{
    reveal(spec_le_u8);
    if i.len() < 1 {
        Err(DecodeError::UnexpectedEof)
    } else {
        Ok((slice_subrange(i, 1, i.len()), i[0]))
    }
}

pub fn le_u16<'a>(i: &'a [u8]) -> (r: IResult<'a, u16>)
    ensures
        decodes(r, i@, spec_le_u16(i@)),
{
    reveal(spec_le_u16);
    if i.len() < 2 {
        Err(DecodeError::UnexpectedEof)
    } else {
        let value: u16 = i[0] as u16 + 0x100 * (i[1] as u16);
        Ok((slice_subrange(i, 2, i.len()), value))
    }
}

pub fn le_u32<'a>(i: &'a [u8]) -> (r: IResult<'a, u32>)
    ensures
        decodes(r, i@, spec_le_u32(i@)),
{
    reveal(spec_le_u32);
    if i.len() < 4 {
        Err(DecodeError::UnexpectedEof)
    } else {
        let value: u32 = i[0] as u32 + 0x100 * (i[1] as u32) + 0x1_0000 * (i[2] as u32) + 0x100_0000 * (
        i[3] as u32);
        Ok((slice_subrange(i, 4, i.len()), value))
    }
}

pub fn le_i32<'a>(i: &'a [u8]) -> (r: IResult<'a, i32>)
    ensures
        decodes(r, i@, spec_le_i32(i@)),
{
    let (rest, bits) = le_u32(i)?;
    let value: i32 = if bits < 0x8000_0000 {
        bits as i32
    } else {
        ((bits - 0x8000_0000) as i32) - 0x7FFF_FFFF - 1
    };
    Ok((rest, value))
}

/// Reads the four bytes of a single-precision number.
pub fn le_f32<'a>(i: &'a [u8]) -> (r: IResult<'a, F32>)
    ensures
        decodes(r, i@, spec_le_f32(i@)),
{
    let (rest, bits) = le_u32(i)?;
    Ok((rest, F32 { bits }))
}

#[verifier::opaque]
pub open spec fn spec_vector2_f32(s: Seq<u8>) -> Parsed<Vector2> {
    match spec_le_f32(s) {
        Err(e) => Err(e),
        Ok((s, x)) => match spec_le_f32(s) {
            Err(e) => Err(e),
            Ok((s, y)) => Ok((s, Vector2 { x, y })),
        },
    }
}

#[verifier::opaque]
pub open spec fn spec_vector3_f32(s: Seq<u8>) -> Parsed<Vector3> {
    match spec_le_f32(s) {
        Err(e) => Err(e),
        Ok((s, x)) => match spec_le_f32(s) {
            Err(e) => Err(e),
            Ok((s, y)) => match spec_le_f32(s) {
                Err(e) => Err(e),
                Ok((s, z)) => Ok((s, Vector3 { x, y, z })),
            },
        },
    }
}

#[verifier::opaque]
pub open spec fn spec_vector4_f32(s: Seq<u8>) -> Parsed<Vector4> {
    match spec_le_f32(s) {
        Err(e) => Err(e),
        Ok((s, x)) => match spec_le_f32(s) {
            Err(e) => Err(e),
            Ok((s, y)) => match spec_le_f32(s) {
                Err(e) => Err(e),
                Ok((s, z)) => match spec_le_f32(s) {
                    Err(e) => Err(e),
                    Ok((s, w)) => Ok((s, Vector4 { x, y, z, w })),
                },
            },
        },
    }
}

/// Six numbers in a row, as a bounding box stores them.
#[verifier::opaque]
pub open spec fn spec_vector6_f32(s: Seq<u8>) -> Parsed<Seq<F32>> {
    match spec_vector3_f32(s) {
        Err(e) => Err(e),
        Ok((s, a)) => match spec_vector3_f32(s) {
            Err(e) => Err(e),
            Ok((s, b)) => Ok((s, seq![a.x, a.y, a.z, b.x, b.y, b.z])),
        },
    }
}

/// Sixteen numbers, row by row.
#[verifier::opaque]
pub open spec fn spec_matrix4x4(s: Seq<u8>) -> Parsed<RowMatrix4> {
    match spec_vector4_f32(s) {
        Err(e) => Err(e),
        Ok((s, x)) => match spec_vector4_f32(s) {
            Err(e) => Err(e),
            Ok((s, y)) => match spec_vector4_f32(s) {
                Err(e) => Err(e),
                Ok((s, z)) => match spec_vector4_f32(s) {
                    Err(e) => Err(e),
                    Ok((s, w)) => Ok((s, RowMatrix4 { x, y, z, w })),
                },
            },
        },
    }
}

/// Reads a `Vector2` of single-precision numbers.
pub fn vector2_f32<'a>(i: &'a [u8]) -> (r: IResult<'a, Vector2>)
    ensures
        decodes(r, i@, spec_vector2_f32(i@)),
{
    reveal(spec_vector2_f32);
    let (i, x) = le_f32(i)?;
    let (i, y) = le_f32(i)?;
    Ok((i, Vector2 { x, y }))
}

/// Reads a `Vector3` of single-precision numbers.
pub fn vector3_f32<'a>(i: &'a [u8]) -> (r: IResult<'a, Vector3>)
    ensures
        decodes(r, i@, spec_vector3_f32(i@)),
{
    reveal(spec_vector3_f32);
    let (i, x) = le_f32(i)?;
    let (i, y) = le_f32(i)?;
    let (i, z) = le_f32(i)?;
    Ok((i, Vector3 { x, y, z }))
}

/// Reads a `Vector4` of single-precision numbers.
pub fn vector4_f32<'a>(i: &'a [u8]) -> (r: IResult<'a, Vector4>)
    ensures
        decodes(r, i@, spec_vector4_f32(i@)),
{
    reveal(spec_vector4_f32);
    let (i, x) = le_f32(i)?;
    let (i, y) = le_f32(i)?;
    let (i, z) = le_f32(i)?;
    let (i, w) = le_f32(i)?;
    Ok((i, Vector4 { x, y, z, w }))
}

/// Reads six single-precision numbers.
pub fn vector6_f32<'a>(i: &'a [u8]) -> (r: IResult<'a, [F32; 6]>)
    ensures
        decodes(r, i@, spec_vector6_f32(i@)),
{
    reveal(spec_vector6_f32);
    let (i, a) = vector3_f32(i)?;
    let (i, b) = vector3_f32(i)?;
    let value = [a.x, a.y, a.z, b.x, b.y, b.z];
    assert(value.deep_view() =~= seq![a.x, a.y, a.z, b.x, b.y, b.z]);
    Ok((i, value))
}

/// Reads a 4x4 matrix of single-precision numbers, row by row.
pub fn matrix4x4<'a>(i: &'a [u8]) -> (r: IResult<'a, RowMatrix4>)
    ensures
        decodes(r, i@, spec_matrix4x4(i@)),
{
    reveal(spec_matrix4x4);
    let (i, x) = vector4_f32(i)?;
    let (i, y) = vector4_f32(i)?;
    let (i, z) = vector4_f32(i)?;
    let (i, w) = vector4_f32(i)?;
    Ok((i, RowMatrix4 { x, y, z, w }))
}

/// A `u8` is one byte long.
pub broadcast proof fn lemma_le_u8_consumes(s: Seq<u8>)
    ensures
        #[trigger] spec_le_u8(s) matches Ok((rest, _)) ==> is_tail(rest, s) && rest.len() + 1 == s.len(),
{
    reveal(spec_le_u8);
    if s.len() >= 1 {
        lemma_skip_is_tail(s, 1);
    }
}

/// A `u16` is two bytes long.
pub broadcast proof fn lemma_le_u16_consumes(s: Seq<u8>)
    ensures
        #[trigger] spec_le_u16(s) matches Ok((rest, _)) ==> is_tail(rest, s) && rest.len() + 2 == s.len(),
{
    reveal(spec_le_u16);
    if s.len() >= 2 {
        lemma_skip_is_tail(s, 2);
    }
}

/// A `u32` is four bytes long; so are an `i32` and a single-precision
/// number, which are read as one.
pub broadcast proof fn lemma_le_u32_consumes(s: Seq<u8>)
    ensures
        #[trigger] spec_le_u32(s) matches Ok((rest, _)) ==> is_tail(rest, s) && rest.len() + 4 == s.len(),
{
    reveal(spec_le_u32);
    if s.len() >= 4 {
        lemma_skip_is_tail(s, 4);
    }
}

/// A `Vector2` is eight bytes long.
pub broadcast proof fn lemma_vector2_consumes(s: Seq<u8>)
    ensures
        #[trigger] spec_vector2_f32(s) matches Ok((rest, _)) ==> is_tail(rest, s) && rest.len() + 8 == s.len(),
{
    reveal(spec_vector2_f32);
    broadcast use lemma_le_u32_consumes, lemma_tail_of_tail;
}

/// A `Vector3` is twelve bytes long.
pub broadcast proof fn lemma_vector3_consumes(s: Seq<u8>)
    ensures
        #[trigger] spec_vector3_f32(s) matches Ok((rest, _)) ==> is_tail(rest, s) && rest.len() + 12 == s.len(),
{
    reveal(spec_vector3_f32);
    broadcast use lemma_le_u32_consumes, lemma_tail_of_tail;
}

/// A `Vector4` is sixteen bytes long.
pub broadcast proof fn lemma_vector4_consumes(s: Seq<u8>)
    ensures
        #[trigger] spec_vector4_f32(s) matches Ok((rest, _)) ==> is_tail(rest, s) && rest.len() + 16 == s.len(),
{
    reveal(spec_vector4_f32);
    broadcast use lemma_le_u32_consumes, lemma_tail_of_tail;
}

/// Six numbers are twenty-four bytes long.
pub broadcast proof fn lemma_vector6_consumes(s: Seq<u8>)
    ensures
        #[trigger] spec_vector6_f32(s) matches Ok((rest, _)) ==> is_tail(rest, s) && rest.len() + 24 == s.len(),
{
    reveal(spec_vector6_f32);
    broadcast use lemma_vector3_consumes, lemma_tail_of_tail;
}

/// A matrix is sixty-four bytes long.
pub broadcast proof fn lemma_matrix4x4_consumes(s: Seq<u8>)
    ensures
        #[trigger] spec_matrix4x4(s) matches Ok((rest, _)) ==> is_tail(rest, s) && rest.len() + 64 == s.len(),
{
    reveal(spec_matrix4x4);
    broadcast use lemma_vector4_consumes, lemma_tail_of_tail;
}

/// Whether a number of `size` bytes decodes from `s`, and what is left.
pub open spec fn has_size<V>(r: Parsed<V>, s: Seq<u8>, size: nat) -> bool {
    match r {
        Ok((rest, _)) => s.len() >= size && rest.len() + size == s.len(),
        Err(e) => s.len() < size && e == DecodeErrorView::UnexpectedEof,
    }
}

/// A `u8` decodes from every input of one byte or more, and from no other.
pub broadcast proof fn lemma_le_u8_size(s: Seq<u8>)
    ensures
        has_size(#[trigger] spec_le_u8(s), s, 1),
{
    reveal(spec_le_u8);
}

/// A `u16` decodes from every input of two bytes or more, and from no other.
pub broadcast proof fn lemma_le_u16_size(s: Seq<u8>)
    ensures
        has_size(#[trigger] spec_le_u16(s), s, 2),
{
    reveal(spec_le_u16);
}

/// A `u32` decodes from every input of four bytes or more, and from no
/// other; so do an `i32` and a single-precision number.
pub broadcast proof fn lemma_le_u32_size(s: Seq<u8>)
    ensures
        has_size(#[trigger] spec_le_u32(s), s, 4),
{
    reveal(spec_le_u32);
}

/// A `Vector2` decodes from every input of eight bytes or more, and from no
/// other.
pub broadcast proof fn lemma_vector2_size(s: Seq<u8>)
    ensures
        has_size(#[trigger] spec_vector2_f32(s), s, 8),
{
    reveal(spec_vector2_f32);
    broadcast use lemma_le_u32_size;
}

/// A `Vector3` decodes from every input of twelve bytes or more, and from
/// no other.
pub broadcast proof fn lemma_vector3_size(s: Seq<u8>)
    ensures
        has_size(#[trigger] spec_vector3_f32(s), s, 12),
{
    reveal(spec_vector3_f32);
    broadcast use lemma_le_u32_size;
}

/// A `Vector4` decodes from every input of sixteen bytes or more, and from
/// no other.
pub broadcast proof fn lemma_vector4_size(s: Seq<u8>)
    ensures
        has_size(#[trigger] spec_vector4_f32(s), s, 16),
{
    reveal(spec_vector4_f32);
    broadcast use lemma_le_u32_size;
}

/// Six numbers decode from every input of twenty-four bytes or more, and
/// from no other.
pub broadcast proof fn lemma_vector6_size(s: Seq<u8>)
    ensures
        has_size(#[trigger] spec_vector6_f32(s), s, 24),
{
    reveal(spec_vector6_f32);
    broadcast use lemma_vector3_size;
}

/// A matrix decodes from every input of sixty-four bytes or more, and from
/// no other.
pub broadcast proof fn lemma_matrix4x4_size(s: Seq<u8>)
    ensures
        has_size(#[trigger] spec_matrix4x4(s), s, 64),
{
    reveal(spec_matrix4x4);
    broadcast use lemma_vector4_size;
}

/// The sizes of the numbers and vectors.
pub broadcast group group_sizes {
    lemma_le_u8_size,
    lemma_le_u16_size,
    lemma_le_u32_size,
    lemma_vector2_size,
    lemma_vector3_size,
    lemma_vector4_size,
    lemma_vector6_size,
    lemma_matrix4x4_size,
}

impl Parse for u8 {
    open spec fn spec_parse(s: Seq<u8>) -> Parsed<u8> {
        spec_le_u8(s)
    }

    fn parse<'a>(i: &'a [u8]) -> (r: IResult<'a, u8>) {
        le_u8(i)
    }

    proof fn lemma_tail(s: Seq<u8>) {
        broadcast use crate::decode::group_tails;
    }
}

impl Parse for u16 {
    open spec fn spec_parse(s: Seq<u8>) -> Parsed<u16> {
        spec_le_u16(s)
    }

    fn parse<'a>(i: &'a [u8]) -> (r: IResult<'a, u16>) {
        le_u16(i)
    }

    proof fn lemma_tail(s: Seq<u8>) {
        broadcast use crate::decode::group_tails;
    }
}

impl Parse for u32 {
    open spec fn spec_parse(s: Seq<u8>) -> Parsed<u32> {
        spec_le_u32(s)
    }

    fn parse<'a>(i: &'a [u8]) -> (r: IResult<'a, u32>) {
        le_u32(i)
    }

    proof fn lemma_tail(s: Seq<u8>) {
        broadcast use crate::decode::group_tails;
    }
}

impl Parse for i32 {
    open spec fn spec_parse(s: Seq<u8>) -> Parsed<i32> {
        spec_le_i32(s)
    }

    fn parse<'a>(i: &'a [u8]) -> (r: IResult<'a, i32>) {
        le_i32(i)
    }

    proof fn lemma_tail(s: Seq<u8>) {
        broadcast use crate::decode::group_tails;
    }
}

impl Parse for F32 {
    open spec fn spec_parse(s: Seq<u8>) -> Parsed<F32> {
        spec_le_f32(s)
    }

    fn parse<'a>(i: &'a [u8]) -> (r: IResult<'a, F32>) {
        le_f32(i)
    }

    proof fn lemma_tail(s: Seq<u8>) {
        broadcast use crate::decode::group_tails;
    }
}

impl Parse for Vector2 {
    open spec fn spec_parse(s: Seq<u8>) -> Parsed<Vector2> {
        spec_vector2_f32(s)
    }

    fn parse<'a>(i: &'a [u8]) -> (r: IResult<'a, Vector2>) {
        vector2_f32(i)
    }

    proof fn lemma_tail(s: Seq<u8>) {
        broadcast use crate::decode::group_tails;
    }
}

impl Parse for Vector3 {
    open spec fn spec_parse(s: Seq<u8>) -> Parsed<Vector3> {
        spec_vector3_f32(s)
    }

    fn parse<'a>(i: &'a [u8]) -> (r: IResult<'a, Vector3>) {
        vector3_f32(i)
    }

    proof fn lemma_tail(s: Seq<u8>) {
        broadcast use crate::decode::group_tails;
    }
}

impl Parse for Vector4 {
    open spec fn spec_parse(s: Seq<u8>) -> Parsed<Vector4> {
        spec_vector4_f32(s)
    }

    fn parse<'a>(i: &'a [u8]) -> (r: IResult<'a, Vector4>) {
        vector4_f32(i)
    }

    proof fn lemma_tail(s: Seq<u8>) {
        broadcast use crate::decode::group_tails;
    }
}

impl Parse for RowMatrix4 {
    open spec fn spec_parse(s: Seq<u8>) -> Parsed<RowMatrix4> {
        spec_matrix4x4(s)
    }

    fn parse<'a>(i: &'a [u8]) -> (r: IResult<'a, RowMatrix4>) {
        matrix4x4(i)
    }

    proof fn lemma_tail(s: Seq<u8>) {
        broadcast use crate::decode::group_tails;
    }
}

} // verus!
