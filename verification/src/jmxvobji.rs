//! Object tables: text files, one object to a line.
use vstd::prelude::*;
use vstd::string::StringSliceAdditionalSpecFns;

use crate::math::F32;
use crate::parser_ext::text::{
    counted_lines, lemma_ascii_literal, multispace1, line_ending, parse_quoted_path_buf, parse_quoted_string,
    parse_u16_str, parse_u32_hex_str, parse_u8_str, reads, spec_counted_lines, spec_line_ending, spec_multispace1,
    spec_parse_quoted_string, spec_parse_u16_str, spec_parse_u32_hex_str, spec_parse_u8_str, ParseLine, TextParsed,
    TextResult,
};

verus! {

/// The first line of an object table, with its line feed: `JMXVOBJI1000`.
pub open spec fn magic() -> Seq<u8> {
    seq![0x4Au8, 0x4D, 0x58, 0x56, 0x4F, 0x42, 0x4A, 0x49, 0x31, 0x30, 0x30, 0x30, 0x0A]
}

/// A single-precision number written as the hexadecimal number of its bits.
pub open spec fn spec_parse_f32_hex_dumped_str(s: Seq<u8>) -> TextParsed<F32> {
    match spec_parse_u32_hex_str(s) {
        Err(e) => Err(e),
        Ok((s, bits)) => Ok((s, F32 { bits })),
    }
}

/// Reads a single-precision number written as the hexadecimal number of its
/// bits.
pub fn parse_f32_hex_dumped_str<'a>(input: &'a str) -> (r: TextResult<'a, F32>)
    ensures
        reads(r, input, spec_parse_f32_hex_dumped_str(input.spec_bytes())),
{
    let (rest, bits) = parse_u32_hex_str(input)?;
    Ok((rest, F32 { bits }))
}

/// One line of the table of placed objects: where an object stands, and its
/// name.
#[derive(Debug, PartialEq, Eq)]
pub struct ObjectStringIfo {
    pub index: u32,
    pub flag: u32,
    pub x_sec: u8,
    pub y_sec: u8,
    pub x_offset: F32,
    pub y_offset: F32,
    pub z_offset: F32,
    pub yaw: F32,
    pub string: String,
}

/// The mathematical value of an [`ObjectStringIfo`].
pub struct ObjectStringIfoView {
    pub index: u32,
    pub flag: u32,
    pub x_sec: u8,
    pub y_sec: u8,
    pub x_offset: F32,
    pub y_offset: F32,
    pub z_offset: F32,
    pub yaw: F32,
    pub string: Seq<char>,
}

impl DeepView for ObjectStringIfo {
    type V = ObjectStringIfoView;

    open spec fn deep_view(&self) -> ObjectStringIfoView {
        ObjectStringIfoView {
            index: self.index,
            flag: self.flag,
            x_sec: self.x_sec,
            y_sec: self.y_sec,
            x_offset: self.x_offset,
            y_offset: self.y_offset,
            z_offset: self.z_offset,
            yaw: self.yaw,
            string: self.string.deep_view(),
        }
    }
}

impl ParseLine for ObjectStringIfo {
    /// Two numbers in hexadecimal, two in decimal, four single-precision
    /// numbers as their bits in hexadecimal, and a quoted string, with white
    /// space between them and the end of the line behind them.
    #[verifier::opaque]
    open spec fn spec_parse_single(s: Seq<u8>) -> TextParsed<ObjectStringIfoView> {
        match spec_parse_u32_hex_str(s) { Err(e) => Err(e), Ok((s, index)) =>
        match spec_multispace1(s) { Err(e) => Err(e), Ok((s, _)) =>
        match spec_parse_u32_hex_str(s) { Err(e) => Err(e), Ok((s, flag)) =>
        match spec_multispace1(s) { Err(e) => Err(e), Ok((s, _)) =>
        match spec_parse_u8_str(s) { Err(e) => Err(e), Ok((s, x_sec)) =>
        match spec_multispace1(s) { Err(e) => Err(e), Ok((s, _)) =>
        match spec_parse_u8_str(s) { Err(e) => Err(e), Ok((s, y_sec)) =>
        match spec_multispace1(s) { Err(e) => Err(e), Ok((s, _)) =>
        match spec_parse_f32_hex_dumped_str(s) { Err(e) => Err(e), Ok((s, x_offset)) =>
        match spec_multispace1(s) { Err(e) => Err(e), Ok((s, _)) =>
        match spec_parse_f32_hex_dumped_str(s) { Err(e) => Err(e), Ok((s, y_offset)) =>
        match spec_multispace1(s) { Err(e) => Err(e), Ok((s, _)) =>
        match spec_parse_f32_hex_dumped_str(s) { Err(e) => Err(e), Ok((s, z_offset)) =>
        match spec_multispace1(s) { Err(e) => Err(e), Ok((s, _)) =>
        match spec_parse_f32_hex_dumped_str(s) { Err(e) => Err(e), Ok((s, yaw)) =>
        match spec_multispace1(s) { Err(e) => Err(e), Ok((s, _)) =>
        match spec_parse_quoted_string(s) { Err(e) => Err(e), Ok((s, string)) =>
        match spec_line_ending(s) { Err(e) => Err(e), Ok((s, _)) =>
        Ok((s, ObjectStringIfoView { index, flag, x_sec, y_sec, x_offset, y_offset, z_offset, yaw, string }))
        }}}}}}}}}}}}}}}}}}
    }

    fn parse_single<'a>(i: &'a str) -> (r: TextResult<'a, ObjectStringIfo>) {
        reveal(<ObjectStringIfo as ParseLine>::spec_parse_single);
        let (i, index) = parse_u32_hex_str(i)?;
        let (i, _) = multispace1(i)?;
        let (i, flag) = parse_u32_hex_str(i)?;
        let (i, _) = multispace1(i)?;
        let (i, x_sec) = parse_u8_str(i)?;
        let (i, _) = multispace1(i)?;
        let (i, y_sec) = parse_u8_str(i)?;
        let (i, _) = multispace1(i)?;
        let (i, x_offset) = parse_f32_hex_dumped_str(i)?;
        let (i, _) = multispace1(i)?;
        let (i, y_offset) = parse_f32_hex_dumped_str(i)?;
        let (i, _) = multispace1(i)?;
        let (i, z_offset) = parse_f32_hex_dumped_str(i)?;
        let (i, _) = multispace1(i)?;
        let (i, yaw) = parse_f32_hex_dumped_str(i)?;
        let (i, _) = multispace1(i)?;
        let (i, string) = parse_quoted_string(i)?;
        let (i, _) = line_ending(i)?;
        Ok((i, ObjectStringIfo { index, flag, x_sec, y_sec, x_offset, y_offset, z_offset, yaw, string }))
    }
}

impl ObjectStringIfo {
    /// Decodes a table of placed objects: the magic line, the number of
    /// objects, and one line for each object.
    pub fn parse<'a>(i: &'a str) -> (r: TextResult<'a, Vec<ObjectStringIfo>>)
        ensures
            reads(r, i, spec_counted_lines::<ObjectStringIfo>(i.spec_bytes(), magic())),
    {
        proof {
            reveal_strlit("JMXVOBJI1000\n");
            lemma_ascii_literal("JMXVOBJI1000\n", magic());
        }
        counted_lines::<ObjectStringIfo>(i, "JMXVOBJI1000\n")
    }
}

/// One line of the object table `object.ifo`: an object and the resource
/// that draws it.
#[derive(Debug, PartialEq, Eq)]
pub struct ObjectIfo {
    pub index: u16,
    pub flag: u32,
    pub path: String,
}

/// The mathematical value of an [`ObjectIfo`].
pub struct ObjectIfoView {
    pub index: u16,
    pub flag: u32,
    pub path: Seq<char>,
}

impl DeepView for ObjectIfo {
    type V = ObjectIfoView;

    open spec fn deep_view(&self) -> ObjectIfoView {
        ObjectIfoView { index: self.index, flag: self.flag, path: self.path.deep_view() }
    }
}

impl ParseLine for ObjectIfo {
    /// A number in decimal, a number in hexadecimal and a quoted path, with
    /// white space between them and the end of the line behind them.
    #[verifier::opaque]
    open spec fn spec_parse_single(s: Seq<u8>) -> TextParsed<ObjectIfoView> {
        match spec_parse_u16_str(s) { Err(e) => Err(e), Ok((s, index)) =>
        match spec_multispace1(s) { Err(e) => Err(e), Ok((s, _)) =>
        match spec_parse_u32_hex_str(s) { Err(e) => Err(e), Ok((s, flag)) =>
        match spec_multispace1(s) { Err(e) => Err(e), Ok((s, _)) =>
        match spec_parse_quoted_string(s) { Err(e) => Err(e), Ok((s, path)) =>
        match spec_line_ending(s) { Err(e) => Err(e), Ok((s, _)) =>
        Ok((s, ObjectIfoView { index, flag, path }))
        }}}}}}
    }

    fn parse_single<'a>(i: &'a str) -> (r: TextResult<'a, ObjectIfo>) {
        reveal(<ObjectIfo as ParseLine>::spec_parse_single);
        let (i, index) = parse_u16_str(i)?;
        let (i, _) = multispace1(i)?;
        let (i, flag) = parse_u32_hex_str(i)?;
        let (i, _) = multispace1(i)?;
        let (i, path) = parse_quoted_path_buf(i)?;
        let (i, _) = line_ending(i)?;
        Ok((i, ObjectIfo { index, flag, path }))
    }
}

impl ObjectIfo {
    /// Decodes `object.ifo`: the magic line, the number of objects, and one
    /// line for each object.
    pub fn parse<'a>(i: &'a str) -> (r: TextResult<'a, Vec<ObjectIfo>>)
        ensures
            reads(r, i, spec_counted_lines::<ObjectIfo>(i.spec_bytes(), magic())),
    {
        proof {
            reveal_strlit("JMXVOBJI1000\n");
            lemma_ascii_literal("JMXVOBJI1000\n", magic());
        }
        counted_lines::<ObjectIfo>(i, "JMXVOBJI1000\n")
    }
}

} // verus!
