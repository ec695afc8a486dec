//! Environments: curves of light and fog over the time of day.
use vstd::prelude::*;

use crate::decode::{Decoder, decodes, Each, group_tails, IResult, Parse, Parsed};
use crate::error::DecodeErrorView;
use crate::math::{F32, Vector3};
use crate::parser_ext::complete::{spec_tag, tag};
use crate::parser_ext::multi::{
    count, count_indexed, CountWidth, IndexedDecoder, parse_objects_u32, spec_count,
    spec_count_indexed, spec_parse_objects,
};
use crate::parser_ext::number::{
    le_f32, le_u16, le_u32, spec_le_f32, spec_le_u16, spec_le_u32, spec_vector3_f32, vector3_f32,
};
use crate::parser_ext::string::{sized_string, spec_sized_string};

verus! {

/// The magic tag of an environment file: `JMXVENVI1003`.
pub const MAGIC: [u8; 12] = [
    0x4A, 0x4D, 0x58, 0x56, 0x45, 0x4E, 0x56, 0x49, 0x31, 0x30, 0x30, 0x33,
];

/// One point of a curve over the time of day. Some curves are of numbers,
/// the others of vectors.
#[derive(Debug, PartialEq, Eq)]
pub enum GraphPoint {
    Float { value: F32, pos_on_graph: F32 },
    Vector { value: Vector3, pos_on_graph: F32 },
}

impl DeepView for GraphPoint {
    type V = GraphPoint;

    open spec fn deep_view(&self) -> GraphPoint {
        *self
    }
}

/// The decoder of the points of the curve at position `idx` of an
/// environment.
#[derive(Clone, Copy, Debug)]
pub struct GraphPointParser {
    pub idx: usize,
}

impl GraphPoint {
    /// Whether the curve at position `idx` is a curve of numbers: the curves
    /// 7, 8, 10, 11, 12 and 15 are.
    pub open spec fn spec_is_float_curve(idx: usize) -> bool {
        idx == 7 || idx == 8 || idx == 10 || idx == 11 || idx == 12 || idx == 15
    }

    /// Whether the curve at position `idx` is a curve of numbers.
    #[verifier::when_used_as_spec(spec_is_float_curve)]
    pub fn is_float_curve(idx: usize) -> (r: bool)
        ensures
            r == Self::spec_is_float_curve(idx),
    {
        idx == 7 || idx == 8 || idx == 10 || idx == 11 || idx == 12 || idx == 15
    }

    /// The decoder of the points of the curve at position `idx`.
    pub fn parser(idx: usize) -> (d: GraphPointParser)
        ensures
            d == (GraphPointParser { idx }),
    {
        GraphPointParser { idx }
    }
}

impl Decoder for GraphPointParser {
    type Out = GraphPoint;

    /// A number or a vector, as the curve asks, then the position.
    #[verifier::opaque]
    open spec fn spec_decode(&self, s: Seq<u8>) -> Parsed<GraphPoint> {
        if GraphPoint::is_float_curve(self.idx) {
            match spec_le_f32(s) { Err(e) => Err(e), Ok((s, value)) =>
            match spec_le_f32(s) { Err(e) => Err(e), Ok((s, pos_on_graph)) =>
            Ok((s, GraphPoint::Float { value, pos_on_graph }))
            }}
        } else {
            match spec_vector3_f32(s) { Err(e) => Err(e), Ok((s, value)) =>
            match spec_le_f32(s) { Err(e) => Err(e), Ok((s, pos_on_graph)) =>
            Ok((s, GraphPoint::Vector { value, pos_on_graph }))
            }}
        }
    }

    fn decode<'a>(&self, i: &'a [u8]) -> (r: IResult<'a, GraphPoint>) {
        reveal(<GraphPointParser as Decoder>::spec_decode);
        if GraphPoint::is_float_curve(self.idx) {
            let (i, value) = le_f32(i)?;
            let (i, pos_on_graph) = le_f32(i)?;
            Ok((i, GraphPoint::Float { value, pos_on_graph }))
        } else {
            let (i, value) = vector3_f32(i)?;
            let (i, pos_on_graph) = le_f32(i)?;
            Ok((i, GraphPoint::Vector { value, pos_on_graph }))
        }
    }

    proof fn lemma_tail(&self, s: Seq<u8>) {
        reveal(<GraphPointParser as Decoder>::spec_decode);
        broadcast use group_tails;
    }
}

/// The decoder of the curves of an environment: the curve at each position
/// is a counted sequence of the points that this position asks for.
#[derive(Clone, Copy, Debug)]
pub struct Curves;

impl IndexedDecoder for Curves {
    type Out = Vec<GraphPoint>;

    open spec fn spec_decode_at(&self, idx: nat, s: Seq<u8>) -> Parsed<Seq<GraphPoint>> {
        spec_parse_objects(CountWidth::U32, &GraphPointParser { idx: idx as usize }, s)
    }

    fn decode_at<'a>(&self, idx: usize, i: &'a [u8]) -> (r: IResult<'a, Vec<GraphPoint>>) {
        parse_objects_u32(&GraphPoint::parser(idx), i)
    }

    proof fn lemma_tail_at(&self, idx: nat, s: Seq<u8>) {
        broadcast use group_tails;
    }
}

#[derive(Debug, PartialEq, Eq)]
pub struct EnvironmentGroupEntry {
    pub name: String,
    pub unk0: u16,
    pub unk1: u16,
    pub unk2: u16,
    pub unk3: u16,
    pub unk4: u16,
    pub unk5: u16,
    pub unk6: u16,
    pub unk7: u16,
}

/// The mathematical value of a [`EnvironmentGroupEntry`].
pub struct EnvironmentGroupEntryView {
    pub name: Seq<char>,
    pub unk0: u16,
    pub unk1: u16,
    pub unk2: u16,
    pub unk3: u16,
    pub unk4: u16,
    pub unk5: u16,
    pub unk6: u16,
    pub unk7: u16,
}

impl DeepView for EnvironmentGroupEntry {
    type V = EnvironmentGroupEntryView;

    open spec fn deep_view(&self) -> EnvironmentGroupEntryView {
        EnvironmentGroupEntryView {
            name: self.name.deep_view(),
            unk0: self.unk0,
            unk1: self.unk1,
            unk2: self.unk2,
            unk3: self.unk3,
            unk4: self.unk4,
            unk5: self.unk5,
            unk6: self.unk6,
            unk7: self.unk7,
        }
    }
}

impl Parse for EnvironmentGroupEntry {
    #[verifier::opaque]
    open spec fn spec_parse(s: Seq<u8>) -> Parsed<EnvironmentGroupEntryView> {
        match spec_sized_string(s) { Err(e) => Err(e), Ok((s, name)) =>
        match spec_le_u16(s) { Err(e) => Err(e), Ok((s, unk0)) =>
        match spec_le_u16(s) { Err(e) => Err(e), Ok((s, unk1)) =>
        match spec_le_u16(s) { Err(e) => Err(e), Ok((s, unk2)) =>
        match spec_le_u16(s) { Err(e) => Err(e), Ok((s, unk3)) =>
        match spec_le_u16(s) { Err(e) => Err(e), Ok((s, unk4)) =>
        match spec_le_u16(s) { Err(e) => Err(e), Ok((s, unk5)) =>
        match spec_le_u16(s) { Err(e) => Err(e), Ok((s, unk6)) =>
        match spec_le_u16(s) { Err(e) => Err(e), Ok((s, unk7)) =>
        Ok((s, EnvironmentGroupEntryView { name, unk0, unk1, unk2, unk3, unk4, unk5, unk6, unk7 }))
        }}}}}}}}}
    }

    fn parse<'a>(i: &'a [u8]) -> (r: IResult<'a, EnvironmentGroupEntry>) {
        reveal(<EnvironmentGroupEntry as Parse>::spec_parse);
        let (i, name) = sized_string(i)?;
        let (i, unk0) = le_u16(i)?;
        let (i, unk1) = le_u16(i)?;
        let (i, unk2) = le_u16(i)?;
        let (i, unk3) = le_u16(i)?;
        let (i, unk4) = le_u16(i)?;
        let (i, unk5) = le_u16(i)?;
        let (i, unk6) = le_u16(i)?;
        let (i, unk7) = le_u16(i)?;
        Ok((i, EnvironmentGroupEntry { name, unk0, unk1, unk2, unk3, unk4, unk5, unk6, unk7 }))
    }

    proof fn lemma_tail(s: Seq<u8>) {
        reveal(<EnvironmentGroupEntry as Parse>::spec_parse);
        broadcast use group_tails;
    }
}

#[derive(Debug, PartialEq, Eq)]
pub struct EnvironmentGroup {
    pub name: String,
    pub unk0: u16,
    pub unk1: u16,
    pub unk2: u16,
    pub unk3: u16,
    pub unk4: u16,
    pub unk5: u16,
    pub entries: Vec<EnvironmentGroupEntry>,
}

/// The mathematical value of a [`EnvironmentGroup`].
pub struct EnvironmentGroupView {
    pub name: Seq<char>,
    pub unk0: u16,
    pub unk1: u16,
    pub unk2: u16,
    pub unk3: u16,
    pub unk4: u16,
    pub unk5: u16,
    pub entries: Seq<EnvironmentGroupEntryView>,
}

impl DeepView for EnvironmentGroup {
    type V = EnvironmentGroupView;

    open spec fn deep_view(&self) -> EnvironmentGroupView {
        EnvironmentGroupView {
            name: self.name.deep_view(),
            unk0: self.unk0,
            unk1: self.unk1,
            unk2: self.unk2,
            unk3: self.unk3,
            unk4: self.unk4,
            unk5: self.unk5,
            entries: self.entries.deep_view(),
        }
    }
}

impl Parse for EnvironmentGroup {
    #[verifier::opaque]
    open spec fn spec_parse(s: Seq<u8>) -> Parsed<EnvironmentGroupView> {
        match spec_sized_string(s) { Err(e) => Err(e), Ok((s, name)) =>
        match spec_le_u16(s) { Err(e) => Err(e), Ok((s, unk0)) =>
        match spec_le_u16(s) { Err(e) => Err(e), Ok((s, unk1)) =>
        match spec_le_u16(s) { Err(e) => Err(e), Ok((s, unk2)) =>
        match spec_le_u16(s) { Err(e) => Err(e), Ok((s, unk3)) =>
        match spec_le_u16(s) { Err(e) => Err(e), Ok((s, unk4)) =>
        match spec_le_u16(s) { Err(e) => Err(e), Ok((s, unk5)) =>
        match spec_parse_objects(
            CountWidth::U32,
            &Each::<EnvironmentGroupEntry>::it(),
            s,
        ) { Err(e) => Err(e), Ok((s, entries)) =>
        Ok((s, EnvironmentGroupView { name, unk0, unk1, unk2, unk3, unk4, unk5, entries }))
        }}}}}}}}
    }

    fn parse<'a>(i: &'a [u8]) -> (r: IResult<'a, EnvironmentGroup>) {
        reveal(<EnvironmentGroup as Parse>::spec_parse);
        let (i, name) = sized_string(i)?;
        let (i, unk0) = le_u16(i)?;
        let (i, unk1) = le_u16(i)?;
        let (i, unk2) = le_u16(i)?;
        let (i, unk3) = le_u16(i)?;
        let (i, unk4) = le_u16(i)?;
        let (i, unk5) = le_u16(i)?;
        let (i, entries) = parse_objects_u32(&Each::<EnvironmentGroupEntry>::new(), i)?;
        Ok((i, EnvironmentGroup { name, unk0, unk1, unk2, unk3, unk4, unk5, entries }))
    }

    proof fn lemma_tail(s: Seq<u8>) {
        reveal(<EnvironmentGroup as Parse>::spec_parse);
        broadcast use group_tails;
    }
}

#[derive(Debug, PartialEq, Eq)]
pub struct Environment {
    pub id: u16,
    pub name: String,
    pub unk0: u32,
    pub unk1: u32,
    /// Sixteen curves.
    pub fncs: Vec<Vec<GraphPoint>>,
}

/// The mathematical value of a [`Environment`].
pub struct EnvironmentView {
    pub id: u16,
    pub name: Seq<char>,
    pub unk0: u32,
    pub unk1: u32,
    pub fncs: Seq<Seq<GraphPoint>>,
}

impl DeepView for Environment {
    type V = EnvironmentView;

    open spec fn deep_view(&self) -> EnvironmentView {
        EnvironmentView {
            id: self.id,
            name: self.name.deep_view(),
            unk0: self.unk0,
            unk1: self.unk1,
            fncs: self.fncs.deep_view(),
        }
    }
}

impl Parse for Environment {
    #[verifier::opaque]
    open spec fn spec_parse(s: Seq<u8>) -> Parsed<EnvironmentView> {
        match spec_le_u16(s) { Err(e) => Err(e), Ok((s, id)) =>
        match spec_sized_string(s) { Err(e) => Err(e), Ok((s, name)) =>
        match spec_le_u32(s) { Err(e) => Err(e), Ok((s, unk0)) =>
        match spec_le_u32(s) { Err(e) => Err(e), Ok((s, unk1)) =>
        match spec_count_indexed(&Curves, s, 16) { Err(e) => Err(e), Ok((s, fncs)) =>
        Ok((s, EnvironmentView { id, name, unk0, unk1, fncs }))
        }}}}}
    }

    fn parse<'a>(i: &'a [u8]) -> (r: IResult<'a, Environment>) {
        reveal(<Environment as Parse>::spec_parse);
        let (i, id) = le_u16(i)?;
        let (i, name) = sized_string(i)?;
        let (i, unk0) = le_u32(i)?;
        let (i, unk1) = le_u32(i)?;
        let (i, fncs) = count_indexed(&Curves, 16, i)?;
        Ok((i, Environment { id, name, unk0, unk1, fncs }))
    }

    proof fn lemma_tail(s: Seq<u8>) {
        reveal(<Environment as Parse>::spec_parse);
        broadcast use group_tails;
    }
}

/// An environment file: how light and fog change over the day.
#[derive(Debug, PartialEq, Eq)]
pub struct JmxEnvironment {
    pub unk0: u16,
    /// As many environments as the count that stands before `unk0`.
    pub environments: Vec<Environment>,
    pub environment_groups: Vec<EnvironmentGroup>,
}

/// The mathematical value of a [`JmxEnvironment`].
pub struct JmxEnvironmentView {
    pub unk0: u16,
    pub environments: Seq<EnvironmentView>,
    pub environment_groups: Seq<EnvironmentGroupView>,
}

impl DeepView for JmxEnvironment {
    type V = JmxEnvironmentView;

    open spec fn deep_view(&self) -> JmxEnvironmentView {
        JmxEnvironmentView {
            unk0: self.unk0,
            environments: self.environments.deep_view(),
            environment_groups: self.environment_groups.deep_view(),
        }
    }
}

impl Parse for JmxEnvironment {
    #[verifier::opaque]
    open spec fn spec_parse(s: Seq<u8>) -> Parsed<JmxEnvironmentView> {
        match spec_tag(s, MAGIC@) { Err(e) => Err(e), Ok((s, _)) =>
        match spec_le_u32(s) { Err(e) => Err(e), Ok((s, environment_count)) =>
        match spec_le_u16(s) { Err(e) => Err(e), Ok((s, unk0)) =>
        match spec_count(
            &Each::<Environment>::it(),
            s,
            environment_count as nat,
        ) { Err(e) => Err(e), Ok((s, environments)) =>
        match spec_parse_objects(
            CountWidth::U32,
            &Each::<EnvironmentGroup>::it(),
            s,
        ) { Err(e) => Err(e), Ok((s, environment_groups)) =>
        Ok((s, JmxEnvironmentView { unk0, environments, environment_groups }))
        }}}}}
    }

    fn parse<'a>(i: &'a [u8]) -> (r: IResult<'a, JmxEnvironment>) {
        reveal(<JmxEnvironment as Parse>::spec_parse);
        let (i, _) = tag(i, &MAGIC)?;
        let (i, environment_count) = le_u32(i)?;
        let (i, unk0) = le_u16(i)?;
        let (i, environments) = count(&Each::<Environment>::new(), environment_count as usize, i)?;
        let (i, environment_groups) = parse_objects_u32(&Each::<EnvironmentGroup>::new(), i)?;
        Ok((i, JmxEnvironment { unk0, environments, environment_groups }))
    }

    proof fn lemma_tail(s: Seq<u8>) {
        reveal(<JmxEnvironment as Parse>::spec_parse);
        broadcast use group_tails;
    }
}

impl JmxEnvironment {
    /// Decodes an environment file.
    pub fn parse<'a>(i: &'a [u8]) -> (r: IResult<'a, JmxEnvironment>)
        ensures
            decodes(r, i@, <JmxEnvironment as Parse>::spec_parse(i@)),
    {
        <JmxEnvironment as Parse>::parse(i)
    }

    /// An input that does not start with the magic tag is refused with
    /// `TagMismatch`, whatever follows.
    pub proof fn lemma_magic_mismatch(s: Seq<u8>)
        requires
            !MAGIC@.is_prefix_of(s),
        ensures
            <JmxEnvironment as Parse>::spec_parse(s) == Err::<(Seq<u8>, JmxEnvironmentView), _>(
                DecodeErrorView::TagMismatch,
            ),
    {
        reveal(<JmxEnvironment as Parse>::spec_parse);
        reveal(spec_tag);
    }
}

} // verus!
