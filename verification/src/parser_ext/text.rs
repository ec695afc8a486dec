//! Tokens of the formats that are written as text: numbers in decimal and
//! in hexadecimal, quoted strings, white space and line ends.
//!
//! A text is specified through its bytes in UTF-8. Every token of these
//! formats is ASCII, so a cursor always starts at a character.
use vstd::prelude::*;
use vstd::string::StringSliceAdditionalSpecFns;
use vstd::utf8::{decode_utf8, is_char_boundary, length_of_first_scalar, pop_first_scalar, valid_utf8};

use crate::error::{DecodeError, DecodeErrorView};

verus! {

/// What a specification says of a text: the bytes that are left and the
/// value that was read, or the error.
pub type TextParsed<V> = Result<(Seq<u8>, V), DecodeErrorView>;

/// What a decoder of text returns: the text that is left and the value that
/// was read, or the error.
pub type TextResult<'a, T> = Result<(&'a str, T), DecodeError>;

/// The mathematical value of a text decoder's result.
pub open spec fn text_outcome<T: DeepView>(r: TextResult<T>) -> TextParsed<T::V> {
    match r {
        Ok((rest, value)) => Ok((rest.spec_bytes(), value.deep_view())),
        Err(e) => Err(e@),
    }
}

/// `r` is what decoding `input` must give according to `expected`, and the
/// text it leaves is no longer than `input`.
pub open spec fn reads<T: DeepView>(r: TextResult<T>, input: &str, expected: TextParsed<T::V>) -> bool {
    &&& text_outcome(r) == expected
    &&& r matches Ok((rest, _)) ==> rest.spec_bytes().len() <= input.spec_bytes().len()
}

/// In valid UTF-8 a character starts behind every ASCII byte.
pub proof fn lemma_boundary_after_ascii(bytes: Seq<u8>, i: int)
    requires
        valid_utf8(bytes),
        0 <= i < bytes.len(),
        bytes[i] < 0x80,
    ensures
        is_char_boundary(bytes, i + 1),
    decreases bytes.len(),
{
    reveal_with_fuel(valid_utf8, 2);
    reveal_with_fuel(is_char_boundary, 2);
    let n = length_of_first_scalar(bytes);
    let tail = pop_first_scalar(bytes);
    if i < n {
        assert(i == 0);
        assert(n == 1);
    } else {
        assert(tail[i - n] == bytes[i]);
        lemma_boundary_after_ascii(tail, i - n);
    }
}

/// Splits `input` behind its first `at` bytes. The place must be the start
/// of the text or lie behind an ASCII byte.
pub(crate) fn split_text<'a>(input: &'a str, at: usize) -> (r: (&'a str, &'a str))
    requires
        at <= input.spec_bytes().len(),
        at == 0 || input.spec_bytes()[at - 1] < 0x80,
    ensures
        r.0.spec_bytes() == input.spec_bytes().take(at as int),
        r.1.spec_bytes() == input.spec_bytes().skip(at as int),
{
    proof {
        vstd::utf8::encode_utf8_valid_utf8(input@);
        if at > 0 {
            lemma_boundary_after_ascii(input.spec_bytes(), at - 1);
        }
    }
    input.split_at(at)
}

/// The text of a `str`, from its bytes.
pub proof fn lemma_text_of_bytes(text: &str)
    ensures
        text@ == decode_utf8(text.spec_bytes()),
{
    vstd::utf8::encode_utf8_decode_utf8(text@);
}

/// How many bytes at the front of `s` satisfy `accepts`.
pub open spec fn run_len(s: Seq<u8>, accepts: spec_fn(u8) -> bool) -> nat
    decreases s.len(),
{
    if s.len() == 0 || !accepts(s[0]) {
        0
    } else {
        1 + run_len(s.skip(1), accepts)
    }
}

/// A run ends at the first byte that is not accepted.
pub proof fn lemma_run_len(s: Seq<u8>, accepts: spec_fn(u8) -> bool, end: int)
    requires
        0 <= end <= s.len(),
        forall|j: int| 0 <= j < end ==> accepts(s[j]),
        end < s.len() ==> !accepts(s[end]),
    ensures
        run_len(s, accepts) == end,
    decreases end,
{
    if end > 0 {
        let tail = s.skip(1);
        assert forall|j: int| 0 <= j < end - 1 implies accepts(tail[j]) by {
            assert(tail[j] == s[j + 1]);
        }
        lemma_run_len(tail, accepts, end - 1);
    }
}

/// Whether `b` is one of `0` to `9`.
pub open spec fn is_digit(b: u8) -> bool {
    0x30 <= b <= 0x39
}

/// Whether `b` is a hexadecimal digit, in either case.
pub open spec fn is_hex_digit(b: u8) -> bool {
    is_digit(b) || 0x41 <= b <= 0x46 || 0x61 <= b <= 0x66
}

/// Whether `b` is a blank, a tab, a carriage return or a line feed.
pub open spec fn is_space(b: u8) -> bool {
    b == 0x20 || b == 0x09 || b == 0x0D || b == 0x0A
}

/// The value of a hexadecimal digit; of a decimal digit too.
pub open spec fn digit_value(b: u8) -> nat {
    if is_digit(b) {
        (b - 0x30) as nat
    } else if 0x41 <= b <= 0x46 {
        (b - 0x41 + 10) as nat
    } else {
        (b - 0x61 + 10) as nat
    }
}

/// The number that the digits stand for in the given base, the first digit
/// the most significant.
pub open spec fn number(digits: Seq<u8>, base: nat) -> nat
    decreases digits.len(),
{
    if digits.len() == 0 {
        0
    } else {
        number(digits.drop_last(), base) * base + digit_value(digits.last())
    }
}

/// A number never gets smaller by a further digit.
pub proof fn lemma_number_grows(digits: Seq<u8>, base: nat, shorter: int)
    requires
        0 <= shorter <= digits.len(),
        base >= 1,
    ensures
        number(digits.take(shorter), base) <= number(digits, base),
    decreases digits.len() - shorter,
{
    if shorter < digits.len() {
        lemma_number_grows(digits.drop_last(), base, shorter);
        assert(digits.drop_last().take(shorter) =~= digits.take(shorter));
        assert(number(digits.drop_last(), base) <= number(digits.drop_last(), base) * base) by (nonlinear_arith)
            requires
                base >= 1,
        ;
    } else {
        assert(digits.take(shorter) =~= digits);
    }
}

/// Whether `b` is accepted as a digit of the given base: 10 or 16.
pub open spec fn is_digit_of(base: nat) -> spec_fn(u8) -> bool {
    |b: u8| if base == 16 { is_hex_digit(b) } else { is_digit(b) }
}

/// A number at the front of `s`: as many digits of the base as there are,
/// at least one, and their value no more than `max`.
pub open spec fn spec_number(s: Seq<u8>, base: nat, max: nat) -> TextParsed<nat> {
    let n = run_len(s, is_digit_of(base));
    if n == 0 || number(s.take(n as int), base) > max {
        Err(DecodeErrorView::Malformed)
    } else {
        Ok((s.skip(n as int), number(s.take(n as int), base)))
    }
}

/// Whether `b` is a digit of the given base.
pub fn accepts_digit(b: u8, hex: bool) -> (r: bool)
    ensures
        r == is_digit_of(if hex { 16nat } else { 10nat })(b),
{
    (0x30 <= b && b <= 0x39) || (hex && ((0x41 <= b && b <= 0x46) || (0x61 <= b && b <= 0x66)))
}

/// The value of the digit `b`.
pub(crate) fn value_of_digit(b: u8) -> (r: u64)
    requires
        is_hex_digit(b),
    ensures
        r == digit_value(b),
        r < 16,
        is_digit(b) ==> r < 10,
{
    if 0x30 <= b && b <= 0x39 {
        (b - 0x30) as u64
    } else if 0x41 <= b && b <= 0x46 {
        (b - 0x41 + 10) as u64
    } else {
        (b - 0x61 + 10) as u64
    }
}

/// Reads a number in decimal, or in hexadecimal where `hex` holds: all the
/// digits that stand at the front of `input`. Fails with `Malformed` where
/// there is no digit or the number is above `max`.
pub fn read_number<'a>(input: &'a str, hex: bool, max: u32) -> (r: Result<(&'a str, u32), DecodeError>)
    ensures
        match r {
            Ok((rest, value)) => spec_number(input.spec_bytes(), if hex { 16nat } else { 10nat }, max as nat)
                == Ok::<_, DecodeErrorView>((rest.spec_bytes(), value as nat)),
            Err(e) => spec_number(input.spec_bytes(), if hex { 16nat } else { 10nat }, max as nat) == Err::<
                (Seq<u8>, nat),
                _,
            >(e@),
        },
        r matches Ok((rest, _)) ==> rest.spec_bytes().len() < input.spec_bytes().len(),
{
    let bytes = input.as_bytes();
    let ghost base: nat = if hex { 16 } else { 10 };
    let ghost s = bytes@;
    let radix: u64 = if hex { 16 } else { 10 };
    let mut end: usize = 0;
    let mut value: u64 = 0;
    let mut too_large = false;
    assert(s.take(0) =~= Seq::<u8>::empty());
    while end < bytes.len() && accepts_digit(bytes[end], hex)
        invariant
            end <= s.len(),
            s == bytes@,
            base == (if hex { 16nat } else { 10nat }),
            radix == base,
            forall|j: int| 0 <= j < end ==> is_digit_of(base)(s[j]),
            too_large ==> number(s.take(end as int), base) > max,
            !too_large ==> value == number(s.take(end as int), base) && value <= max,
        decreases s.len() - end,
    {
        let digit = value_of_digit(bytes[end]);
        proof {
            let longer = s.take(end + 1);
            assert(longer.drop_last() =~= s.take(end as int));
            assert(longer.last() == s[end as int]);
            if too_large {
                lemma_number_grows(longer, base, end as int);
                assert(longer.take(end as int) =~= s.take(end as int));
            }
        }
        if !too_large {
            value = value * radix + digit;
            if value > max as u64 {
                too_large = true;
            }
        }
        end += 1;
    }
    proof {
        lemma_run_len(s, is_digit_of(base), end as int);
    }
    if end == 0 || too_large {
        Err(DecodeError::Malformed)
    } else {
        let (_, rest) = split_text(input, end);
        Ok((rest, value as u32))
    }
}

/// A decimal number that fits in a `u8`.
pub open spec fn spec_parse_u8_str(s: Seq<u8>) -> TextParsed<u8> {
    match spec_number(s, 10, 0xFF) {
        Err(e) => Err(e),
        Ok((s, value)) => Ok((s, value as u8)),
    }
}

/// A decimal number that fits in a `u16`.
pub open spec fn spec_parse_u16_str(s: Seq<u8>) -> TextParsed<u16> {
    match spec_number(s, 10, 0xFFFF) {
        Err(e) => Err(e),
        Ok((s, value)) => Ok((s, value as u16)),
    }
}

/// The literal `0x`, then a hexadecimal number that fits in a `u32`.
pub open spec fn spec_parse_u32_hex_str(s: Seq<u8>) -> TextParsed<u32> {
    match spec_literal(s, seq![0x30u8, 0x78u8]) {
        Err(e) => Err(e),
        Ok((s, _)) => match spec_number(s, 16, 0xFFFF_FFFF) {
            Err(e) => Err(e),
            Ok((s, value)) => Ok((s, value as u32)),
        },
    }
}

/// Reads a `u8` written in decimal.
pub fn parse_u8_str<'a>(input: &'a str) -> (r: TextResult<'a, u8>)
    ensures
        reads(r, input, spec_parse_u8_str(input.spec_bytes())),
{
    let (rest, value) = read_number(input, false, 0xFF)?;
    Ok((rest, value as u8))
}

/// Reads a `u16` written in decimal.
pub fn parse_u16_str<'a>(input: &'a str) -> (r: TextResult<'a, u16>)
    ensures
        reads(r, input, spec_parse_u16_str(input.spec_bytes())),
{
    let (rest, value) = read_number(input, false, 0xFFFF)?;
    Ok((rest, value as u16))
}

/// Reads a `u32` written in hexadecimal behind `0x`.
pub fn parse_u32_hex_str<'a>(input: &'a str) -> (r: TextResult<'a, u32>)
    ensures
        reads(r, input, spec_parse_u32_hex_str(input.spec_bytes())),
{
    proof {
        reveal_strlit("0x");
        lemma_ascii_literal("0x", seq![0x30u8, 0x78u8]);
    }
    let (rest, _) = literal(input, "0x")?;
    let (rest, value) = read_number(rest, true, 0xFFFF_FFFF)?;
    Ok((rest, value))
}

/// The bytes of a text made of the given ASCII bytes.
pub proof fn lemma_ascii_literal(text: &str, bytes: Seq<u8>)
    requires
        text@.len() == bytes.len(),
        forall|j: int| 0 <= j < bytes.len() ==> bytes[j] < 0x80 && text@[j] == bytes[j] as char,
    ensures
        text.spec_bytes() == bytes,
{
    assert(vstd::utf8::is_ascii_chars(text@)) by {
        assert forall|j: int| 0 <= j < text@.len() implies '\0' <= #[trigger] text@[j] <= '\u{7f}' by {
            assert(text@[j] == bytes[j] as char);
        }
    }
    vstd::utf8::is_ascii_chars_encode_utf8(text@);
    assert(text.spec_bytes() =~= bytes) by {
        assert forall|j: int| 0 <= j < bytes.len() implies text.spec_bytes()[j] == bytes[j] by {
            assert(text@[j] == bytes[j] as char);
        }
    }
}

/// The text behind `expected`, where the text starts with it.
pub open spec fn spec_literal(s: Seq<u8>, expected: Seq<u8>) -> TextParsed<()> {
    if expected.is_prefix_of(s) {
        Ok((s.skip(expected.len() as int), ()))
    } else {
        Err(DecodeErrorView::Malformed)
    }
}

/// Consumes `expected` from the front of `input`. The literal must be
/// ASCII.
pub(crate) fn literal<'a>(input: &'a str, expected: &str) -> (r: TextResult<'a, ()>)
    requires
        forall|j: int| 0 <= j < expected.spec_bytes().len() ==> expected.spec_bytes()[j] < 0x80,
    ensures
        reads(r, input, spec_literal(input.spec_bytes(), expected.spec_bytes())),
{
    let bytes = input.as_bytes();
    let wanted = expected.as_bytes();
    if crate::parser_ext::complete::starts_with(bytes, wanted) {
        proof {
            if wanted@.len() > 0 {
                assert(bytes@.subrange(0, wanted@.len() as int)[wanted@.len() - 1] == bytes@[wanted@.len() - 1]);
            }
        }
        let (_, rest) = split_text(input, wanted.len());
        Ok((rest, ()))
    } else {
        Err(DecodeError::Malformed)
    }
}

/// The text behind the one byte `c`.
pub open spec fn spec_char(s: Seq<u8>, c: u8) -> TextParsed<()> {
    if s.len() > 0 && s[0] == c {
        Ok((s.skip(1), ()))
    } else {
        Err(DecodeErrorView::Malformed)
    }
}

/// Consumes the ASCII character `c` from the front of `input`.
pub(crate) fn ascii_char<'a>(input: &'a str, c: u8) -> (r: TextResult<'a, ()>)
    requires
        c < 0x80,
    ensures
        reads(r, input, spec_char(input.spec_bytes(), c)),
{
    let bytes = input.as_bytes();
    if bytes.len() > 0 && bytes[0] == c {
        let (_, rest) = split_text(input, 1);
        Ok((rest, ()))
    } else {
        Err(DecodeError::Malformed)
    }
}

/// One or more blanks, tabs, carriage returns and line feeds.
pub open spec fn spec_multispace1(s: Seq<u8>) -> TextParsed<()> {
    let n = run_len(s, |b: u8| is_space(b));
    if n == 0 {
        Err(DecodeErrorView::Malformed)
    } else {
        Ok((s.skip(n as int), ()))
    }
}

/// Consumes the white space at the front of `input`, which must not be
/// empty.
pub fn multispace1<'a>(input: &'a str) -> (r: TextResult<'a, ()>)
    ensures
        reads(r, input, spec_multispace1(input.spec_bytes())),
        r matches Ok((rest, _)) ==> rest.spec_bytes().len() < input.spec_bytes().len(),
{
    let bytes = input.as_bytes();
    let mut end: usize = 0;
    while end < bytes.len() && (bytes[end] == 0x20 || bytes[end] == 0x09 || bytes[end] == 0x0D || bytes[end]
        == 0x0A)
        invariant
            end <= bytes@.len(),
            forall|j: int| 0 <= j < end ==> is_space(bytes@[j]),
        decreases bytes@.len() - end,
    {
        end += 1;
    }
    proof {
        lemma_run_len(bytes@, |b: u8| is_space(b), end as int);
    }
    if end == 0 {
        Err(DecodeError::Malformed)
    } else {
        let (_, rest) = split_text(input, end);
        Ok((rest, ()))
    }
}

/// A line feed, or a carriage return and a line feed.
pub open spec fn spec_line_ending(s: Seq<u8>) -> TextParsed<()> {
    if s.len() >= 1 && s[0] == 0x0A {
        Ok((s.skip(1), ()))
    } else if s.len() >= 2 && s[0] == 0x0D && s[1] == 0x0A {
        Ok((s.skip(2), ()))
    } else {
        Err(DecodeErrorView::Malformed)
    }
}

/// Consumes the end of a line.
pub fn line_ending<'a>(input: &'a str) -> (r: TextResult<'a, ()>)
    ensures
        reads(r, input, spec_line_ending(input.spec_bytes())),
{
    let bytes = input.as_bytes();
    if bytes.len() >= 1 && bytes[0] == 0x0A {
        let (_, rest) = split_text(input, 1);
        Ok((rest, ()))
    } else if bytes.len() >= 2 && bytes[0] == 0x0D && bytes[1] == 0x0A {
        let (_, rest) = split_text(input, 2);
        Ok((rest, ()))
    } else {
        Err(DecodeError::Malformed)
    }
}

/// A double quote, the bytes up to the next double quote, and that quote.
/// The value is the bytes between the quotes.
pub open spec fn spec_quoted(s: Seq<u8>) -> TextParsed<Seq<u8>> {
    if s.len() == 0 || s[0] != 0x22 {
        Err(DecodeErrorView::Malformed)
    } else {
        let n = run_len(s.skip(1), |b: u8| b != 0x22);
        if 1 + n >= s.len() {
            Err(DecodeErrorView::Malformed)
        } else {
            Ok((s.skip(n as int + 2), s.subrange(1, n as int + 1)))
        }
    }
}

/// A quoted string as text.
pub open spec fn spec_parse_quoted_string(s: Seq<u8>) -> TextParsed<Seq<char>> {
    match spec_quoted(s) {
        Err(e) => Err(e),
        Ok((s, bytes)) => Ok((s, decode_utf8(bytes))),
    }
}

/// Reads a quoted string and hands out what stands between the quotes. No
/// character is an escape: the string ends at the first quote behind its
/// start.
pub fn parse_quoted_str<'a>(input: &'a str) -> (r: Result<(&'a str, &'a str), DecodeError>)
    ensures
        match r {
            Ok((rest, content)) => spec_quoted(input.spec_bytes()) == Ok::<_, DecodeErrorView>(
                (rest.spec_bytes(), content.spec_bytes()),
            ),
            Err(e) => spec_quoted(input.spec_bytes()) == Err::<(Seq<u8>, Seq<u8>), _>(e@),
        },
        r matches Ok((rest, _)) ==> rest.spec_bytes().len() < input.spec_bytes().len(),
{
    let bytes = input.as_bytes();
    if bytes.len() == 0 || bytes[0] != 0x22 {
        return Err(DecodeError::Malformed);
    }
    let (_, inside) = split_text(input, 1);
    let inner = inside.as_bytes();
    let mut end: usize = 0;
    while end < inner.len() && inner[end] != 0x22
        invariant
            end <= inner@.len(),
            forall|j: int| 0 <= j < end ==> inner@[j] != 0x22,
        decreases inner@.len() - end,
    {
        end += 1;
    }
    proof {
        lemma_run_len(inner@, |b: u8| b != 0x22, end as int);
    }
    if end >= inner.len() {
        return Err(DecodeError::Malformed);
    }
    proof {
        vstd::utf8::encode_utf8_valid_utf8(inside@);
        vstd::utf8::is_char_boundary_iff_not_is_continuation_byte(inside.spec_bytes(), end as int);
    }
    let (content, tail) = inside.split_at(end);
    let (_, rest) = split_text(tail, 1);
    proof {
        let s = input.spec_bytes();
        assert(content.spec_bytes() =~= s.subrange(1, end as int + 1));
        assert(rest.spec_bytes() =~= s.skip(end as int + 2));
    }
    Ok((rest, content))
}

/// Reads a quoted string and hands out a copy of what stands between the
/// quotes.
pub fn parse_quoted_string<'a>(input: &'a str) -> (r: TextResult<'a, String>)
    ensures
        reads(r, input, spec_parse_quoted_string(input.spec_bytes())),
{
    let (rest, content) = parse_quoted_str(input)?;
    proof {
        lemma_text_of_bytes(content);
    }
    Ok((rest, content.to_owned()))
}

/// Reads a quoted string that names a file. The path is handed out as text,
/// separators as written.
pub fn parse_quoted_path_buf<'a>(input: &'a str) -> (r: TextResult<'a, String>)
    ensures
        reads(r, input, spec_parse_quoted_string(input.spec_bytes())),
{
    parse_quoted_string(input)
}

/// A type that is written as one line of a text format.
pub trait ParseLine: DeepView + Sized {
    /// The line's specification.
    spec fn spec_parse_single(s: Seq<u8>) -> TextParsed<Self::V>;

    /// Decodes one line from the front of `i`.
    fn parse_single<'a>(i: &'a str) -> (r: TextResult<'a, Self>)
        ensures
            reads(r, i, Self::spec_parse_single(i.spec_bytes())),
    ;
}

/// `n` lines in a row: `n - 1` lines, then one more from where they ended.
/// The first failure is the failure of the whole.
pub open spec fn spec_lines<T: ParseLine>(s: Seq<u8>, n: nat) -> TextParsed<Seq<T::V>>
    decreases n,
{
    if n == 0 {
        Ok((s, Seq::empty()))
    } else {
        match spec_lines::<T>(s, (n - 1) as nat) {
            Err(e) => Err(e),
            Ok((s, lines)) => match T::spec_parse_single(s) {
                Err(e) => Err(e),
                Ok((s, line)) => Ok((s, lines.push(line))),
            },
        }
    }
}

/// Once the first `k` lines fail to decode, so does every longer run of
/// lines from the same text, with the same error.
pub proof fn lemma_lines_fail_fast<T: ParseLine>(s: Seq<u8>, k: nat, n: nat)
    requires
        k <= n,
        spec_lines::<T>(s, k) is Err,
    ensures
        spec_lines::<T>(s, n) == spec_lines::<T>(s, k),
    decreases n,
{
    if k < n {
        lemma_lines_fail_fast::<T>(s, k, (n - 1) as nat);
    }
}

/// Decodes exactly `n` lines, each from where the last one ended.
pub fn lines<'a, T: ParseLine>(input: &'a str, n: usize) -> (r: TextResult<'a, Vec<T>>)
    ensures
        reads(r, input, spec_lines::<T>(input.spec_bytes(), n as nat)),
{
    let mut items: Vec<T> = Vec::new();
    let mut cursor = input;
    let mut k: usize = 0;
    assert(items.deep_view() =~= Seq::empty());
    while k < n
        invariant
            k <= n,
            cursor.spec_bytes().len() <= input.spec_bytes().len(),
            spec_lines::<T>(input.spec_bytes(), k as nat) == Ok::<_, DecodeErrorView>(
                (cursor.spec_bytes(), items.deep_view()),
            ),
        decreases n - k,
    {
        match T::parse_single(cursor) {
            Err(e) => {
                proof {
                    lemma_lines_fail_fast::<T>(input.spec_bytes(), (k + 1) as nat, n as nat);
                }
                return Err(e);
            },
            Ok((rest, item)) => {
                let ghost before = items.deep_view();
                items.push(item);
                assert(items.deep_view() =~= before.push(item.deep_view()));
                cursor = rest;
                k += 1;
            },
        }
    }
    Ok((cursor, items))
}

/// A file of lines: the magic line, a line with the number of lines in
/// decimal, and that many lines.
pub open spec fn spec_counted_lines<T: ParseLine>(s: Seq<u8>, magic: Seq<u8>) -> TextParsed<Seq<T::V>> {
    match spec_literal(s, magic) {
        Err(_) => Err(DecodeErrorView::TagMismatch),
        Ok((s, _)) => match spec_parse_u16_str(s) {
            Err(e) => Err(e),
            Ok((s, n)) => match spec_line_ending(s) {
                Err(e) => Err(e),
                Ok((s, _)) => spec_lines::<T>(s, n as nat),
            },
        },
    }
}

/// Decodes a file of lines. `magic` is the first line with its line feed;
/// a file that does not start with it fails with `TagMismatch`.
pub(crate) fn counted_lines<'a, T: ParseLine>(input: &'a str, magic: &str) -> (r: TextResult<'a, Vec<T>>)
    requires
        forall|j: int| 0 <= j < magic.spec_bytes().len() ==> magic.spec_bytes()[j] < 0x80,
    ensures
        reads(r, input, spec_counted_lines::<T>(input.spec_bytes(), magic.spec_bytes())),
{
    let rest = match literal(input, magic) {
        Ok((rest, _)) => rest,
        Err(_) => {
            return Err(DecodeError::TagMismatch);
        },
    };
    let (rest, n) = parse_u16_str(rest)?;
    let (rest, _) = line_ending(rest)?;
    lines::<T>(rest, n as usize)
}

} // verus!
