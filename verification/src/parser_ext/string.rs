//! Text fields. The formats store text in EUC-KR; the decoders hand it out
//! as Unicode. Bytes that are no valid EUC-KR are replaced, never refused.
use vstd::prelude::*;

use crate::decode::{decodes, is_tail, lemma_skip_is_tail, IResult, Parse, Parsed};
use crate::error::{DecodeError, DecodeErrorView};
use crate::parser_ext::complete::{spec_take, take};
use crate::parser_ext::number::{le_u16, le_u32, spec_le_u16, spec_le_u32};

verus! {

/// The text that `bytes` stand for in EUC-KR, each malformed sequence
/// replaced by U+FFFD.
pub uninterp spec fn euc_kr_text(bytes: Seq<u8>) -> Seq<char>;

/// Whether every byte is below `0x80`.
pub open spec fn is_ascii_bytes(bytes: Seq<u8>) -> bool {
    forall|k: int| 0 <= k < bytes.len() ==> bytes[k] < 0x80
}

/// The characters whose code points are the bytes.
pub open spec fn ascii_text(bytes: Seq<u8>) -> Seq<char> {
    bytes.map_values(|b: u8| b as char)
}

/// Whether this machine can address the working buffer that the transcoder
/// asks for on `len` bytes of input. With a `usize` of 64 bits that is so
/// for every length a 32-bit field can hold.
pub open spec fn transcodable(len: nat) -> bool {
    len * 12 <= usize::MAX
}

/// On a machine whose `usize` has 64 bits, every length that a 32-bit field
/// can hold is transcodable: there no text field is refused for its length.
pub proof fn lemma_transcodable_with_64_bits(len: u32)
    requires
        usize::MAX == 0xFFFF_FFFF_FFFF_FFFF,
    ensures
        transcodable(len as nat),
{
}

/// Calls `encoding_rs::EUC_KR.decode_without_bom_handling` and keeps the
/// text. Trusted: the text is the transcoder's output for these bytes, a
/// function of the bytes alone, and for input that is all ASCII it is that
/// input unchanged. The transcoder panics where the size of its output
/// buffer, at most six times the input's length, overflows; `requires`
/// leaves such lengths out.
#[verifier::external_body]
fn decode_euc_kr(bytes: &[u8]) -> (text: String)
    requires
        transcodable(bytes@.len()),
    ensures
        text@ == euc_kr_text(bytes@),
        is_ascii_bytes(bytes@) ==> text@ == ascii_text(bytes@),
{
    encoding_rs::EUC_KR.decode_without_bom_handling(bytes).0.into_owned()
}

/// Whether `len` is [`transcodable`].
pub fn is_transcodable(len: usize) -> (r: bool)
    ensures
        r == transcodable(len as nat),
{
    len <= usize::MAX / 12
}

/// The text of a field that is `bytes` on the wire.
pub open spec fn spec_legacy_text(bytes: Seq<u8>) -> Result<Seq<char>, DecodeErrorView> {
    if transcodable(bytes.len()) {
        Ok(euc_kr_text(bytes))
    } else {
        Err(DecodeErrorView::UnexpectedEof)
    }
}

/// Transcodes one text field. A field too long for this machine to
/// transcode is reported like one that the input is too short for.
pub fn legacy_text(bytes: &[u8]) -> (r: Result<String, DecodeError>)
    ensures
        match r {
            Ok(text) => spec_legacy_text(bytes@) == Ok::<_, DecodeErrorView>(text@),
            Err(e) => spec_legacy_text(bytes@) == Err::<Seq<char>, _>(e@),
        },
        r matches Ok(text) ==> (is_ascii_bytes(bytes@) ==> text@ == ascii_text(bytes@)),
{
    if is_transcodable(bytes.len()) {
        Ok(decode_euc_kr(bytes))
    } else {
        Err(DecodeError::UnexpectedEof)
    }
}

/// A text field of `n` bytes at the front of `s`.
#[verifier::opaque]
pub open spec fn spec_text(s: Seq<u8>, n: nat) -> Parsed<Seq<char>> {
    if s.len() < n {
        Err(DecodeErrorView::UnexpectedEof)
    } else {
        match spec_legacy_text(s.take(n as int)) {
            Err(e) => Err(e),
            Ok(text) => Ok((s.skip(n as int), text)),
        }
    }
}

/// A text field of `n` bytes is `n` bytes long.
pub broadcast proof fn lemma_text_consumes(s: Seq<u8>, n: nat)
    ensures
        #[trigger] spec_text(s, n) matches Ok((rest, _)) ==> is_tail(rest, s) && rest.len() + n == s.len(),
{
    reveal(spec_text);
    if s.len() >= n {
        lemma_skip_is_tail(s, n as int);
    }
}

/// Reads a text field of `n` bytes. A field that is all ASCII is handed out
/// as it is.
pub fn text<'a>(i: &'a [u8], n: usize) -> (r: IResult<'a, String>)
    ensures
        decodes(r, i@, spec_text(i@, n as nat)),
        r matches Ok((_, text)) ==> (is_ascii_bytes(i@.take(n as int)) ==> text@ == ascii_text(i@.take(n as int))),
{
    reveal(spec_text);
    reveal(spec_take);
    let (rest, bytes) = take(i, n)?;
    let text = legacy_text(bytes)?;
    Ok((rest, text))
}

/// A 32-bit length, then that many bytes of text.
pub open spec fn spec_sized_string(s: Seq<u8>) -> Parsed<Seq<char>> {
    match spec_le_u32(s) {
        Err(e) => Err(e),
        Ok((s, n)) => spec_text(s, n as nat),
    }
}

/// A 16-bit length, then that many bytes of text.
pub open spec fn spec_small_sized_string(s: Seq<u8>) -> Parsed<Seq<char>> {
    match spec_le_u16(s) {
        Err(e) => Err(e),
        Ok((s, n)) => spec_text(s, n as nat),
    }
}

/// Reads a `u32`, then that many bytes, and transcodes them from EUC-KR.
pub fn sized_string<'a>(i: &'a [u8]) -> (r: IResult<'a, String>)
    ensures
        decodes(r, i@, spec_sized_string(i@)),
{
    let (i, n) = le_u32(i)?;
    text(i, n as usize)
}

/// Reads a `u16`, then that many bytes, and transcodes them from EUC-KR.
pub fn small_sized_string<'a>(i: &'a [u8]) -> (r: IResult<'a, String>)
    ensures
        decodes(r, i@, spec_small_sized_string(i@)),
{
    let (i, n) = le_u16(i)?;
    text(i, n as usize)
}

/// Reads a sized string that names a file. The path is handed out as text,
/// separators as stored.
pub fn sized_path<'a>(i: &'a [u8]) -> (r: IResult<'a, String>)
    ensures
        decodes(r, i@, spec_sized_string(i@)),
{
    sized_string(i)
}

/// Reads a small sized string that names a file.
pub fn small_sized_path<'a>(i: &'a [u8]) -> (r: IResult<'a, String>)
    ensures
        decodes(r, i@, spec_small_sized_string(i@)),
{
    small_sized_string(i)
}

/// The bytes before the first zero byte, or all of them where none is zero.
pub open spec fn until_nul(bytes: Seq<u8>) -> Seq<u8>
    decreases bytes.len(),
{
    if bytes.len() == 0 || bytes[0] == 0 {
        Seq::empty()
    } else {
        seq![bytes[0]] + until_nul(bytes.skip(1))
    }
}

/// `until_nul` cuts at the first position that holds a zero.
pub proof fn lemma_until_nul(bytes: Seq<u8>, end: int)
    requires
        0 <= end <= bytes.len(),
        forall|j: int| 0 <= j < end ==> bytes[j] != 0,
        end < bytes.len() ==> bytes[end] == 0,
    ensures
        until_nul(bytes) == bytes.take(end),
    decreases end,
{
    if end == 0 {
        assert(bytes.take(0) =~= Seq::<u8>::empty());
    } else {
        let tail = bytes.skip(1);
        assert forall|j: int| 0 <= j < end - 1 implies tail[j] != 0 by {
            assert(tail[j] == bytes[j + 1]);
        }
        lemma_until_nul(tail, end - 1);
        assert(seq![bytes[0]] + tail.take(end - 1) =~= bytes.take(end));
    }
}

/// The position of the first zero byte of `bytes`, or its length.
pub fn nul_position(bytes: &[u8]) -> (end: usize)
    ensures
        end <= bytes@.len(),
        until_nul(bytes@) == bytes@.take(end as int),
{
    let mut end: usize = 0;
    while end < bytes.len() && bytes[end] != 0
        invariant
            end <= bytes@.len(),
            forall|j: int| 0 <= j < end ==> bytes@[j] != 0,
        decreases bytes@.len() - end,
    {
        end += 1;
    }
    proof {
        lemma_until_nul(bytes@, end as int);
    }
    end
}

/// A block of `len` bytes whose text ends at the first zero byte.
#[verifier::opaque]
pub open spec fn spec_fixed_string(s: Seq<u8>, len: nat) -> Parsed<Seq<char>> {
    if s.len() < len {
        Err(DecodeErrorView::UnexpectedEof)
    } else {
        match spec_legacy_text(until_nul(s.take(len as int))) {
            Err(e) => Err(e),
            Ok(text) => Ok((s.skip(len as int), text)),
        }
    }
}

/// A block of `len` bytes is `len` bytes long, wherever its text ends.
pub broadcast proof fn lemma_fixed_string_consumes(s: Seq<u8>, len: nat)
    ensures
        #[trigger] spec_fixed_string(s, len) matches Ok((rest, _)) ==> is_tail(rest, s) && rest.len() + len
            == s.len(),
{
    reveal(spec_fixed_string);
    if s.len() >= len {
        lemma_skip_is_tail(s, len as int);
    }
}

/// Reads a block of `LEN` bytes and transcodes what stands before its first
/// zero byte.
pub fn fixed_string<'a, const LEN: usize>(i: &'a [u8]) -> (r: IResult<'a, String>)
    ensures
        decodes(r, i@, spec_fixed_string(i@, LEN as nat)),
{
    reveal(spec_fixed_string);
    reveal(spec_take);
    let (rest, block) = take(i, LEN)?;
    let end = nul_position(block);
    let text = legacy_text(vstd::slice::slice_subrange(block, 0, end))?;
    Ok((rest, text))
}

/// Reads a block of `LEN` bytes that names a file.
pub fn fixed_path<'a, const LEN: usize>(i: &'a [u8]) -> (r: IResult<'a, String>)
    ensures
        decodes(r, i@, spec_fixed_string(i@, LEN as nat)),
{
    fixed_string::<LEN>(i)
}

pub fn fixed_string_64<'a>(i: &'a [u8]) -> (r: IResult<'a, String>)
    ensures
        decodes(r, i@, spec_fixed_string(i@, 64)),
{
    fixed_string::<64>(i)
}

pub fn fixed_string_128<'a>(i: &'a [u8]) -> (r: IResult<'a, String>)
    ensures
        decodes(r, i@, spec_fixed_string(i@, 128)),
{
    fixed_string::<128>(i)
}

pub fn fixed_string_256<'a>(i: &'a [u8]) -> (r: IResult<'a, String>)
    ensures
        decodes(r, i@, spec_fixed_string(i@, 256)),
{
    fixed_string::<256>(i)
}

/// A `String` on the wire is a sized string with a 32-bit length.
impl Parse for String {
    open spec fn spec_parse(s: Seq<u8>) -> Parsed<Seq<char>> {
        spec_sized_string(s)
    }

    fn parse<'a>(i: &'a [u8]) -> (r: IResult<'a, String>) {
        sized_string(i)
    }

    proof fn lemma_tail(s: Seq<u8>) {
        broadcast use crate::decode::group_tails;
    }
}

/// Whether two texts are the same, character by character.
pub fn text_eq(a: &str, b: &str) -> (r: bool)
    ensures
        r == (a@ == b@),
{
    let x = a.as_bytes();
    let y = b.as_bytes();
    proof {
        vstd::utf8::encode_utf8_decode_utf8(a@);
        vstd::utf8::encode_utf8_decode_utf8(b@);
    }
    if x.len() != y.len() {
        return false;
    }
    let mut k: usize = 0;
    while k < x.len()
        invariant
            k <= x@.len(),
            x@.len() == y@.len(),
            x@ == vstd::utf8::encode_utf8(a@),
            y@ == vstd::utf8::encode_utf8(b@),
            forall|j: int| 0 <= j < k ==> x@[j] == y@[j],
        decreases x@.len() - k,
    {
        if x[k] != y[k] {
            assert(x@[k as int] != y@[k as int]);
            return false;
        }
        k += 1;
    }
    assert(x@ =~= y@);
    true
}

} // verus!
