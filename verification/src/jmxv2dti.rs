//! The tile table: a text file, one tile to a line.
use vstd::prelude::*;
use vstd::string::StringSliceAdditionalSpecFns;

use crate::parser_ext::text::{
    ascii_char, counted_lines, lemma_ascii_literal, line_ending, multispace1, parse_quoted_path_buf,
    parse_quoted_string, parse_u16_str, parse_u32_hex_str, reads, spec_char, spec_counted_lines, spec_line_ending,
    spec_multispace1, spec_parse_quoted_string, spec_parse_u16_str, spec_parse_u32_hex_str, ParseLine, TextParsed,
    TextResult,
};

verus! {

/// The first line of the tile table, with its line feed: `JMXV2DTI1001`.
pub open spec fn magic() -> Seq<u8> {
    seq![0x4Au8, 0x4D, 0x58, 0x56, 0x32, 0x44, 0x54, 0x49, 0x31, 0x30, 0x30, 0x31, 0x0A]
}

/// White space, then two decimal numbers in braces with a comma between
/// them: `{12,3}`.
pub open spec fn spec_pair(s: Seq<u8>) -> TextParsed<(u16, u16)> {
    match spec_multispace1(s) { Err(e) => Err(e), Ok((s, _)) =>
    match spec_char(s, 0x7B) { Err(e) => Err(e), Ok((s, _)) =>
    match spec_parse_u16_str(s) { Err(e) => Err(e), Ok((s, model)) =>
    match spec_char(s, 0x2C) { Err(e) => Err(e), Ok((s, _)) =>
    match spec_parse_u16_str(s) { Err(e) => Err(e), Ok((s, amount)) =>
    match spec_char(s, 0x7D) { Err(e) => Err(e), Ok((s, _)) =>
    Ok((s, (model, amount)))
    }}}}}}
}

/// Reads one pair with the white space before it.
pub fn pair<'a>(i: &'a str) -> (r: TextResult<'a, (u16, u16)>)
    ensures
        reads(r, i, spec_pair(i.spec_bytes())),
        r matches Ok((rest, _)) ==> rest.spec_bytes().len() < i.spec_bytes().len(),
{
    let (i, _) = multispace1(i)?;
    let (i, _) = ascii_char(i, 0x7B)?;
    let (i, model) = parse_u16_str(i)?;
    let (i, _) = ascii_char(i, 0x2C)?;
    let (i, amount) = parse_u16_str(i)?;
    let (i, _) = ascii_char(i, 0x7D)?;
    Ok((i, (model, amount)))
}

/// As many pairs as stand at the front of `s`, put behind `found`: the
/// pairs end where the next one fails, and what failed is not consumed.
pub open spec fn spec_pairs(s: Seq<u8>, found: Seq<(u16, u16)>) -> (Seq<u8>, Seq<(u16, u16)>)
    decreases s.len(),
{
    match spec_pair(s) {
        Ok((rest, pair)) => if rest.len() < s.len() {
            spec_pairs(rest, found.push(pair))
        } else {
            (s, found)
        },
        Err(_) => (s, found),
    }
}

/// Reads the pairs at the front of `i`, none where there is none.
pub fn pairs<'a>(i: &'a str) -> (r: (&'a str, Vec<(u16, u16)>))
    ensures
        (r.0.spec_bytes(), r.1.deep_view()) == spec_pairs(i.spec_bytes(), Seq::empty()),
        r.0.spec_bytes().len() <= i.spec_bytes().len(),
{
    let mut found: Vec<(u16, u16)> = Vec::new();
    let mut cursor = i;
    assert(found.deep_view() =~= Seq::empty());
    loop
        invariant
            cursor.spec_bytes().len() <= i.spec_bytes().len(),
            spec_pairs(i.spec_bytes(), Seq::empty()) == spec_pairs(cursor.spec_bytes(), found.deep_view()),
        decreases cursor.spec_bytes().len(),
    {
        match pair(cursor) {
            Ok((rest, item)) => {
                let ghost before = found.deep_view();
                found.push(item);
                assert(found.deep_view() =~= before.push(item.deep_view()));
                cursor = rest;
            },
            Err(_) => {
                return (cursor, found);
            },
        }
    }
}

/// One line of the tile table.
#[derive(Debug, PartialEq, Eq)]
pub struct TileInfo2D {
    pub index: u16,
    pub flag: u32,
    pub category: String,
    pub file: String,
    /// For each kind of object that is strewn on the tile: its index in
    /// `object.ifo`, and how many of it are placed.
    pub extra: Vec<(u16, u16)>,
}

/// The mathematical value of a [`TileInfo2D`].
pub struct TileInfo2DView {
    pub index: u16,
    pub flag: u32,
    pub category: Seq<char>,
    pub file: Seq<char>,
    pub extra: Seq<(u16, u16)>,
}

impl DeepView for TileInfo2D {
    type V = TileInfo2DView;

    open spec fn deep_view(&self) -> TileInfo2DView {
        TileInfo2DView {
            index: self.index,
            flag: self.flag,
            category: self.category.deep_view(),
            file: self.file.deep_view(),
            extra: self.extra.deep_view(),
        }
    }
}

impl ParseLine for TileInfo2D {
    /// A number in decimal, a number in hexadecimal, a quoted string and a
    /// quoted path, with white space between them; then the pairs, none or
    /// some, and the end of the line.
    open spec fn spec_parse_single(s: Seq<u8>) -> TextParsed<TileInfo2DView> {
        match spec_parse_u16_str(s) { Err(e) => Err(e), Ok((s, index)) =>
        match spec_multispace1(s) { Err(e) => Err(e), Ok((s, _)) =>
        match spec_parse_u32_hex_str(s) { Err(e) => Err(e), Ok((s, flag)) =>
        match spec_multispace1(s) { Err(e) => Err(e), Ok((s, _)) =>
        match spec_parse_quoted_string(s) { Err(e) => Err(e), Ok((s, category)) =>
        match spec_multispace1(s) { Err(e) => Err(e), Ok((s, _)) =>
        match spec_parse_quoted_string(s) { Err(e) => Err(e), Ok((s, file)) =>
        match spec_line_ending(spec_pairs(s, Seq::empty()).0) { Err(e) => Err(e), Ok((rest, _)) =>
        Ok((rest, TileInfo2DView { index, flag, category, file, extra: spec_pairs(s, Seq::empty()).1 }))
        }}}}}}}}
    }

    fn parse_single<'a>(i: &'a str) -> (r: TextResult<'a, TileInfo2D>) {
        let (i, index) = parse_u16_str(i)?;
        let (i, _) = multispace1(i)?;
        let (i, flag) = parse_u32_hex_str(i)?;
        let (i, _) = multispace1(i)?;
        let (i, category) = parse_quoted_string(i)?;
        let (i, _) = multispace1(i)?;
        let (i, file) = parse_quoted_path_buf(i)?;
        let (i, extra) = pairs(i);
        let (i, _) = line_ending(i)?;
        Ok((i, TileInfo2D { index, flag, category, file, extra }))
    }
}

impl TileInfo2D {
    /// Decodes the tile table: the magic line, the number of tiles, and one
    /// line for each tile.
    pub fn parse<'a>(i: &'a str) -> (r: TextResult<'a, Vec<TileInfo2D>>)
        ensures
            reads(r, i, spec_counted_lines::<TileInfo2D>(i.spec_bytes(), magic())),
    {
        proof {
            reveal_strlit("JMXV2DTI1001\n");
            lemma_ascii_literal("JMXV2DTI1001\n", magic());
        }
        counted_lines::<TileInfo2D>(i, "JMXV2DTI1001\n")
    }
}

} // verus!
