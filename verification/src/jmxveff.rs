//! Particle effects: a header and a tree of nodes. Each node holds commands
//! that are chosen by name, and its child nodes.
use vstd::prelude::*;

use crate::decode::{Decoder, decodes, Each, group_tails, IResult, is_tail, Parse, Parsed};
use crate::error::{DecodeError, DecodeErrorView};
use crate::math::{F32, RowMatrix4, Vector3, Vector4};
use crate::parser_ext::combinator::{bool_u32, bool_u8, Counted, Pair, spec_bool_u32, spec_bool_u8};
use crate::parser_ext::complete::{
    bytes_eq, spec_tag, spec_take, spec_take_fixed, tag, take, take_fixed, version,
};
use crate::parser_ext::multi::{count, CountWidth, parse_objects_u32, spec_parse_objects};
use crate::parser_ext::number::{
    le_f32, le_i32, le_u32, le_u8, matrix4x4, spec_le_f32, spec_le_i32, spec_le_u32, spec_le_u8,
    spec_matrix4x4, spec_vector3_f32, spec_vector4_f32, vector3_f32, vector4_f32,
};
use crate::parser_ext::string::{sized_string, spec_sized_string, text_eq};

verus! {

/// The magic tag of an effect file: `JMXVEFF `.
pub const MAGIC: [u8; 8] = [0x4A, 0x4D, 0x58, 0x56, 0x45, 0x46, 0x46, 0x20];

/// The version suffix `0010`.
pub const VERSION_0010: [u8; 4] = [0x30, 0x30, 0x31, 0x30];

/// The version suffix `0011`.
pub const VERSION_0011: [u8; 4] = [0x30, 0x30, 0x31, 0x31];

/// The version suffix `0012`.
pub const VERSION_0012: [u8; 4] = [0x30, 0x30, 0x31, 0x32];

/// The version suffix `0013`.
pub const VERSION_0013: [u8; 4] = [0x30, 0x30, 0x31, 0x33];

/// What stands before the root node: the version and the fields that the
/// later versions added. A field that the file's version does not have is 0.
#[derive(Clone, Debug, PartialEq, Eq, Hash)]
pub struct JmxvEffHeader {
    pub version: [u8; 4],
    pub v12_unk0: u32,
    pub v13_unk0: u32,
    pub v13_unk1: u32,
    pub v13_unk2: u32,
}

/// The mathematical value of a [`JmxvEffHeader`].
pub struct JmxvEffHeaderView {
    pub version: Seq<u8>,
    pub v12_unk0: u32,
    pub v13_unk0: u32,
    pub v13_unk1: u32,
    pub v13_unk2: u32,
}

impl DeepView for JmxvEffHeader {
    type V = JmxvEffHeaderView;

    open spec fn deep_view(&self) -> JmxvEffHeaderView {
        JmxvEffHeaderView {
            version: self.version.deep_view(),
            v12_unk0: self.v12_unk0,
            v13_unk0: self.v13_unk0,
            v13_unk1: self.v13_unk1,
            v13_unk2: self.v13_unk2,
        }
    }
}

impl Parse for JmxvEffHeader {
    /// The magic tag, the version suffix, and the fields of that version:
    /// none for `0010` and `0011`, one for `0012`, one and three for `0013`.
    open spec fn spec_parse(s: Seq<u8>) -> Parsed<JmxvEffHeaderView> {
        match spec_tag(s, MAGIC@) { Err(e) => Err(e), Ok((s, _)) =>
        match spec_take_fixed(s, 4) { Err(e) => Err(e), Ok((s, version)) =>
        if version == VERSION_0010@ || version == VERSION_0011@ {
            Ok((s, JmxvEffHeaderView { version, v12_unk0: 0, v13_unk0: 0, v13_unk1: 0, v13_unk2: 0 }))
        } else if version == VERSION_0012@ {
            match spec_le_u32(s) { Err(e) => Err(e), Ok((s, v12_unk0)) =>
            Ok((s, JmxvEffHeaderView { version, v12_unk0, v13_unk0: 0, v13_unk1: 0, v13_unk2: 0 }))
            }
        } else if version == VERSION_0013@ {
            match spec_le_u32(s) { Err(e) => Err(e), Ok((s, v12_unk0)) =>
            match spec_le_u32(s) { Err(e) => Err(e), Ok((s, v13_unk0)) =>
            match spec_le_u32(s) { Err(e) => Err(e), Ok((s, v13_unk1)) =>
            match spec_le_u32(s) { Err(e) => Err(e), Ok((s, v13_unk2)) =>
            Ok((s, JmxvEffHeaderView { version, v12_unk0, v13_unk0, v13_unk1, v13_unk2 }))
            }}}}
        } else {
            Err(DecodeErrorView::TagMismatch)
        }
        }}
    }

    fn parse<'a>(i: &'a [u8]) -> (r: IResult<'a, JmxvEffHeader>) {
        let (i, _) = tag(i, &MAGIC)?;
        let (i, version) = take_fixed::<4>(i)?;
        let mut header = JmxvEffHeader { version, v12_unk0: 0, v13_unk0: 0, v13_unk1: 0, v13_unk2: 0 };
        assert(version.deep_view() =~= version@);
        if bytes_eq(&version, &VERSION_0010) || bytes_eq(&version, &VERSION_0011) {
            Ok((i, header))
        } else if bytes_eq(&version, &VERSION_0012) {
            let (i, v12_unk0) = le_u32(i)?;
            header.v12_unk0 = v12_unk0;
            Ok((i, header))
        } else if bytes_eq(&version, &VERSION_0013) {
            let (i, v12_unk0) = le_u32(i)?;
            let (i, v13_unk0) = le_u32(i)?;
            let (i, v13_unk1) = le_u32(i)?;
            let (i, v13_unk2) = le_u32(i)?;
            header.v12_unk0 = v12_unk0;
            header.v13_unk0 = v13_unk0;
            header.v13_unk1 = v13_unk1;
            header.v13_unk2 = v13_unk2;
            Ok((i, header))
        } else {
            Err(DecodeError::TagMismatch)
        }
    }

    proof fn lemma_tail(s: Seq<u8>) {
        broadcast use group_tails;
    }
}

impl JmxvEffHeader {
    /// Whether `version` is one of the four supported suffixes.
    pub open spec fn is_supported_version(version: Seq<u8>) -> bool {
        ||| version == VERSION_0010@
        ||| version == VERSION_0011@
        ||| version == VERSION_0012@
        ||| version == VERSION_0013@
    }

    /// How many 32-bit fields the header of the given version holds behind
    /// the version suffix.
    pub open spec fn extra_fields(version: Seq<u8>) -> nat {
        if version == VERSION_0013@ {
            4
        } else if version == VERSION_0012@ {
            1
        } else {
            0
        }
    }

    /// Reads the magic tag and the version, then the fields of that version.
    pub fn parse<'a>(i: &'a [u8]) -> (r: IResult<'a, JmxvEffHeader>)
        ensures
            decodes(r, i@, <JmxvEffHeader as Parse>::spec_parse(i@)),
    {
        <JmxvEffHeader as Parse>::parse(i)
    }

    /// An input whose magic tag or version suffix is none of the supported
    /// ones is refused with `TagMismatch`.
    pub proof fn lemma_unrecognized_is_tag_mismatch(s: Seq<u8>)
        ensures
            !MAGIC@.is_prefix_of(s) ==> <Self as Parse>::spec_parse(s) == Err::<(Seq<u8>, JmxvEffHeaderView), _>(
                DecodeErrorView::TagMismatch,
            ),
            MAGIC@.is_prefix_of(s) && s.len() >= 12 && !Self::is_supported_version(s.subrange(8, 12))
                ==> <Self as Parse>::spec_parse(s) == Err::<(Seq<u8>, JmxvEffHeaderView), _>(
                DecodeErrorView::TagMismatch,
            ),
    {
        reveal(spec_tag);
        reveal(spec_take_fixed);
        if MAGIC@.is_prefix_of(s) && s.len() >= 12 {
            assert(s.skip(8).take(4) =~= s.subrange(8, 12));
        }
    }

    /// A header that decodes holds a supported version and is as long as
    /// that version says: the twelve bytes of tag and version, and four more
    /// for each field behind them.
    pub proof fn lemma_header_length(s: Seq<u8>)
        requires
            <Self as Parse>::spec_parse(s) is Ok,
        ensures
            Self::is_supported_version(<Self as Parse>::spec_parse(s)->Ok_0.1.version),
            <Self as Parse>::spec_parse(s)->Ok_0.1.version == s.subrange(8, 12),
            <Self as Parse>::spec_parse(s)->Ok_0.0 == s.skip(12 + 4 * Self::extra_fields(s.subrange(8, 12)) as int),
    {
        reveal(spec_tag);
        reveal(spec_take_fixed);
        reveal(spec_le_u32);
        let v = s.skip(8).take(4);
        assert(v =~= s.subrange(8, 12));
        let t = s.skip(8).skip(4);
        assert(t =~= s.skip(12));
        assert(VERSION_0012@[3] != VERSION_0013@[3]);
        if v == VERSION_0012@ {
            assert(t.skip(4) =~= s.skip(16));
        } else if v == VERSION_0013@ {
            assert(t.skip(4).skip(4).skip(4).skip(4) =~= s.skip(28));
        }
    }
}

/// A colour as one 32-bit number: alpha, red, green, blue.
#[derive(Clone, Debug, PartialEq, Eq, Hash)]
pub struct Color(pub u32);

impl DeepView for Color {
    type V = Color;

    open spec fn deep_view(&self) -> Color {
        *self
    }
}

impl Parse for Color {
    #[verifier::opaque]
    open spec fn spec_parse(s: Seq<u8>) -> Parsed<Color> {
        match spec_le_u32(s) { Err(e) => Err(e), Ok((s, argb)) =>
        Ok((s, Color(argb)))
        }
    }

    fn parse<'a>(i: &'a [u8]) -> (r: IResult<'a, Color>) {
        reveal(<Color as Parse>::spec_parse);
        let (i, argb) = le_u32(i)?;
        Ok((i, Color(argb)))
    }

    proof fn lemma_tail(s: Seq<u8>) {
        reveal(<Color as Parse>::spec_parse);
        broadcast use group_tails;
    }
}

impl Color {
    /// On the wire a value of this type is 4 bytes long: it decodes from
    /// every input that holds as many, and from no other.
    pub broadcast proof fn lemma_fixed_size(s: Seq<u8>)
        ensures
            #![trigger <Color as Parse>::spec_parse(s)]
            match <Color as Parse>::spec_parse(s) {
                Ok((rest, _)) => s.len() >= 4 && rest.len() + 4 == s.len(),
                Err(e) => s.len() < 4 && e == DecodeErrorView::UnexpectedEof,
            },
    {
        reveal(<Color as Parse>::spec_parse);
        broadcast use group_tails;
        broadcast use crate::parser_ext::number::group_sizes;
    }
}

/// How an emitter that does not move releases its particles.
#[derive(Clone, Debug, PartialEq, Eq)]
pub struct EFStaticEmit {
    pub min: i32,
    pub max: i32,
    pub burst_rate: i32,
    pub min_particles: i32,
    pub spawn_rate: F32,
}

impl DeepView for EFStaticEmit {
    type V = EFStaticEmit;

    open spec fn deep_view(&self) -> EFStaticEmit {
        *self
    }
}

impl Parse for EFStaticEmit {
    #[verifier::opaque]
    open spec fn spec_parse(s: Seq<u8>) -> Parsed<EFStaticEmit> {
        match spec_le_i32(s) { Err(e) => Err(e), Ok((s, min)) =>
        match spec_le_i32(s) { Err(e) => Err(e), Ok((s, max)) =>
        match spec_le_i32(s) { Err(e) => Err(e), Ok((s, burst_rate)) =>
        match spec_le_i32(s) { Err(e) => Err(e), Ok((s, min_particles)) =>
        match spec_le_f32(s) { Err(e) => Err(e), Ok((s, spawn_rate)) =>
        Ok((s, EFStaticEmit { min, max, burst_rate, min_particles, spawn_rate }))
        }}}}}
    }

    fn parse<'a>(i: &'a [u8]) -> (r: IResult<'a, EFStaticEmit>) {
        reveal(<EFStaticEmit as Parse>::spec_parse);
        let (i, min) = le_i32(i)?;
        let (i, max) = le_i32(i)?;
        let (i, burst_rate) = le_i32(i)?;
        let (i, min_particles) = le_i32(i)?;
        let (i, spawn_rate) = le_f32(i)?;
        Ok((i, EFStaticEmit { min, max, burst_rate, min_particles, spawn_rate }))
    }

    proof fn lemma_tail(s: Seq<u8>) {
        reveal(<EFStaticEmit as Parse>::spec_parse);
        broadcast use group_tails;
    }
}

impl EFStaticEmit {
    /// On the wire a value of this type is 20 bytes long: it decodes from
    /// every input that holds as many, and from no other.
    pub broadcast proof fn lemma_fixed_size(s: Seq<u8>)
        ensures
            #![trigger <EFStaticEmit as Parse>::spec_parse(s)]
            match <EFStaticEmit as Parse>::spec_parse(s) {
                Ok((rest, _)) => s.len() >= 20 && rest.len() + 20 == s.len(),
                Err(e) => s.len() < 20 && e == DecodeErrorView::UnexpectedEof,
            },
    {
        reveal(<EFStaticEmit as Parse>::spec_parse);
        broadcast use group_tails;
        broadcast use crate::parser_ext::number::group_sizes;
    }
}

#[derive(Clone, Debug, PartialEq, Eq)]
pub struct AngleVector1(pub Vector3, pub Vector3);

impl DeepView for AngleVector1 {
    type V = AngleVector1;

    open spec fn deep_view(&self) -> AngleVector1 {
        *self
    }
}

impl Parse for AngleVector1 {
    #[verifier::opaque]
    open spec fn spec_parse(s: Seq<u8>) -> Parsed<AngleVector1> {
        match spec_vector3_f32(s) { Err(e) => Err(e), Ok((s, first)) =>
        match spec_vector3_f32(s) { Err(e) => Err(e), Ok((s, second)) =>
        Ok((s, AngleVector1(first, second)))
        }}
    }

    fn parse<'a>(i: &'a [u8]) -> (r: IResult<'a, AngleVector1>) {
        reveal(<AngleVector1 as Parse>::spec_parse);
        let (i, first) = vector3_f32(i)?;
        let (i, second) = vector3_f32(i)?;
        Ok((i, AngleVector1(first, second)))
    }

    proof fn lemma_tail(s: Seq<u8>) {
        reveal(<AngleVector1 as Parse>::spec_parse);
        broadcast use group_tails;
    }
}

impl AngleVector1 {
    /// On the wire a value of this type is 24 bytes long: it decodes from
    /// every input that holds as many, and from no other.
    pub broadcast proof fn lemma_fixed_size(s: Seq<u8>)
        ensures
            #![trigger <AngleVector1 as Parse>::spec_parse(s)]
            match <AngleVector1 as Parse>::spec_parse(s) {
                Ok((rest, _)) => s.len() >= 24 && rest.len() + 24 == s.len(),
                Err(e) => s.len() < 24 && e == DecodeErrorView::UnexpectedEof,
            },
    {
        reveal(<AngleVector1 as Parse>::spec_parse);
        broadcast use group_tails;
        broadcast use crate::parser_ext::number::group_sizes;
    }
}

#[derive(Clone, Debug, PartialEq, Eq)]
pub struct AxisVector4(pub Vector4, pub RowMatrix4);

impl DeepView for AxisVector4 {
    type V = AxisVector4;

    open spec fn deep_view(&self) -> AxisVector4 {
        *self
    }
}

impl Parse for AxisVector4 {
    #[verifier::opaque]
    open spec fn spec_parse(s: Seq<u8>) -> Parsed<AxisVector4> {
        match spec_vector4_f32(s) { Err(e) => Err(e), Ok((s, axis)) =>
        match spec_matrix4x4(s) { Err(e) => Err(e), Ok((s, matrix)) =>
        Ok((s, AxisVector4(axis, matrix)))
        }}
    }

    fn parse<'a>(i: &'a [u8]) -> (r: IResult<'a, AxisVector4>) {
        reveal(<AxisVector4 as Parse>::spec_parse);
        let (i, axis) = vector4_f32(i)?;
        let (i, matrix) = matrix4x4(i)?;
        Ok((i, AxisVector4(axis, matrix)))
    }

    proof fn lemma_tail(s: Seq<u8>) {
        reveal(<AxisVector4 as Parse>::spec_parse);
        broadcast use group_tails;
    }
}

impl AxisVector4 {
    /// On the wire a value of this type is 80 bytes long: it decodes from
    /// every input that holds as many, and from no other.
    pub broadcast proof fn lemma_fixed_size(s: Seq<u8>)
        ensures
            #![trigger <AxisVector4 as Parse>::spec_parse(s)]
            match <AxisVector4 as Parse>::spec_parse(s) {
                Ok((rest, _)) => s.len() >= 80 && rest.len() + 80 == s.len(),
                Err(e) => s.len() < 80 && e == DecodeErrorView::UnexpectedEof,
            },
    {
        reveal(<AxisVector4 as Parse>::spec_parse);
        broadcast use group_tails;
        broadcast use crate::parser_ext::number::group_sizes;
    }
}

#[derive(Clone, Debug, PartialEq, Eq)]
pub struct RotVector(pub Vector3, pub RowMatrix4);

impl DeepView for RotVector {
    type V = RotVector;

    open spec fn deep_view(&self) -> RotVector {
        *self
    }
}

impl Parse for RotVector {
    #[verifier::opaque]
    open spec fn spec_parse(s: Seq<u8>) -> Parsed<RotVector> {
        match spec_vector3_f32(s) { Err(e) => Err(e), Ok((s, rotation)) =>
        match spec_matrix4x4(s) { Err(e) => Err(e), Ok((s, matrix)) =>
        Ok((s, RotVector(rotation, matrix)))
        }}
    }

    fn parse<'a>(i: &'a [u8]) -> (r: IResult<'a, RotVector>) {
        reveal(<RotVector as Parse>::spec_parse);
        let (i, rotation) = vector3_f32(i)?;
        let (i, matrix) = matrix4x4(i)?;
        Ok((i, RotVector(rotation, matrix)))
    }

    proof fn lemma_tail(s: Seq<u8>) {
        reveal(<RotVector as Parse>::spec_parse);
        broadcast use group_tails;
    }
}

impl RotVector {
    /// On the wire a value of this type is 76 bytes long: it decodes from
    /// every input that holds as many, and from no other.
    pub broadcast proof fn lemma_fixed_size(s: Seq<u8>)
        ensures
            #![trigger <RotVector as Parse>::spec_parse(s)]
            match <RotVector as Parse>::spec_parse(s) {
                Ok((rest, _)) => s.len() >= 76 && rest.len() + 76 == s.len(),
                Err(e) => s.len() < 76 && e == DecodeErrorView::UnexpectedEof,
            },
    {
        reveal(<RotVector as Parse>::spec_parse);
        broadcast use group_tails;
        broadcast use crate::parser_ext::number::group_sizes;
    }
}

#[derive(Clone, Debug, PartialEq, Eq)]
pub struct FrameTextureSlide(pub Vector3, pub Vec<Vector4>);

impl DeepView for FrameTextureSlide {
    type V = (Vector3, Seq<Vector4>);

    open spec fn deep_view(&self) -> (Vector3, Seq<Vector4>) {
        (self.0, self.1.deep_view())
    }
}

impl Parse for FrameTextureSlide {
    #[verifier::opaque]
    open spec fn spec_parse(s: Seq<u8>) -> Parsed<(Vector3, Seq<Vector4>)> {
        match spec_vector3_f32(s) { Err(e) => Err(e), Ok((s, first)) =>
        match spec_parse_objects(
            CountWidth::U32,
            &Each::<Vector4>::it(),
            s,
        ) { Err(e) => Err(e), Ok((s, frames)) =>
        Ok((s, (first, frames)))
        }}
    }

    fn parse<'a>(i: &'a [u8]) -> (r: IResult<'a, FrameTextureSlide>) {
        reveal(<FrameTextureSlide as Parse>::spec_parse);
        let (i, first) = vector3_f32(i)?;
        let (i, frames) = parse_objects_u32(&Each::<Vector4>::new(), i)?;
        Ok((i, FrameTextureSlide(first, frames)))
    }

    proof fn lemma_tail(s: Seq<u8>) {
        reveal(<FrameTextureSlide as Parse>::spec_parse);
        broadcast use group_tails;
    }
}

#[derive(Clone, Debug, PartialEq, Eq)]
pub struct FrameBANPosition(pub F32, pub Vec<Vector3>);

impl DeepView for FrameBANPosition {
    type V = (F32, Seq<Vector3>);

    open spec fn deep_view(&self) -> (F32, Seq<Vector3>) {
        (self.0, self.1.deep_view())
    }
}

impl Parse for FrameBANPosition {
    #[verifier::opaque]
    open spec fn spec_parse(s: Seq<u8>) -> Parsed<(F32, Seq<Vector3>)> {
        match spec_le_f32(s) { Err(e) => Err(e), Ok((s, first)) =>
        match spec_parse_objects(
            CountWidth::U32,
            &Each::<Vector3>::it(),
            s,
        ) { Err(e) => Err(e), Ok((s, frames)) =>
        Ok((s, (first, frames)))
        }}
    }

    fn parse<'a>(i: &'a [u8]) -> (r: IResult<'a, FrameBANPosition>) {
        reveal(<FrameBANPosition as Parse>::spec_parse);
        let (i, first) = le_f32(i)?;
        let (i, frames) = parse_objects_u32(&Each::<Vector3>::new(), i)?;
        Ok((i, FrameBANPosition(first, frames)))
    }

    proof fn lemma_tail(s: Seq<u8>) {
        reveal(<FrameBANPosition as Parse>::spec_parse);
        broadcast use group_tails;
    }
}

#[derive(Clone, Debug, PartialEq, Eq)]
pub struct FrameBANRotation(pub F32, pub Vec<RowMatrix4>);

impl DeepView for FrameBANRotation {
    type V = (F32, Seq<RowMatrix4>);

    open spec fn deep_view(&self) -> (F32, Seq<RowMatrix4>) {
        (self.0, self.1.deep_view())
    }
}

impl Parse for FrameBANRotation {
    #[verifier::opaque]
    open spec fn spec_parse(s: Seq<u8>) -> Parsed<(F32, Seq<RowMatrix4>)> {
        match spec_le_f32(s) { Err(e) => Err(e), Ok((s, first)) =>
        match spec_parse_objects(
            CountWidth::U32,
            &Each::<RowMatrix4>::it(),
            s,
        ) { Err(e) => Err(e), Ok((s, frames)) =>
        Ok((s, (first, frames)))
        }}
    }

    fn parse<'a>(i: &'a [u8]) -> (r: IResult<'a, FrameBANRotation>) {
        reveal(<FrameBANRotation as Parse>::spec_parse);
        let (i, first) = le_f32(i)?;
        let (i, frames) = parse_objects_u32(&Each::<RowMatrix4>::new(), i)?;
        Ok((i, FrameBANRotation(first, frames)))
    }

    proof fn lemma_tail(s: Seq<u8>) {
        reveal(<FrameBANRotation as Parse>::spec_parse);
        broadcast use group_tails;
    }
}

#[derive(Clone, Debug, PartialEq, Eq, Hash)]
pub struct FrameDiffuse(pub Vec<Color>);

impl DeepView for FrameDiffuse {
    type V = Seq<Color>;

    open spec fn deep_view(&self) -> Seq<Color> {
        self.0.deep_view()
    }
}

impl Parse for FrameDiffuse {
    #[verifier::opaque]
    open spec fn spec_parse(s: Seq<u8>) -> Parsed<Seq<Color>> {
        match spec_parse_objects(
            CountWidth::U32,
            &Each::<Color>::it(),
            s,
        ) { Err(e) => Err(e), Ok((s, frames)) =>
        Ok((s, frames))
        }
    }

    fn parse<'a>(i: &'a [u8]) -> (r: IResult<'a, FrameDiffuse>) {
        reveal(<FrameDiffuse as Parse>::spec_parse);
        let (i, frames) = parse_objects_u32(&Each::<Color>::new(), i)?;
        Ok((i, FrameDiffuse(frames)))
    }

    proof fn lemma_tail(s: Seq<u8>) {
        reveal(<FrameDiffuse as Parse>::spec_parse);
        broadcast use group_tails;
    }
}

#[derive(Clone, Debug, PartialEq, Eq)]
pub struct FrameScale(pub Vec<Vector3>);

impl DeepView for FrameScale {
    type V = Seq<Vector3>;

    open spec fn deep_view(&self) -> Seq<Vector3> {
        self.0.deep_view()
    }
}

impl Parse for FrameScale {
    #[verifier::opaque]
    open spec fn spec_parse(s: Seq<u8>) -> Parsed<Seq<Vector3>> {
        match spec_parse_objects(
            CountWidth::U32,
            &Each::<Vector3>::it(),
            s,
        ) { Err(e) => Err(e), Ok((s, frames)) =>
        Ok((s, frames))
        }
    }

    fn parse<'a>(i: &'a [u8]) -> (r: IResult<'a, FrameScale>) {
        reveal(<FrameScale as Parse>::spec_parse);
        let (i, frames) = parse_objects_u32(&Each::<Vector3>::new(), i)?;
        Ok((i, FrameScale(frames)))
    }

    proof fn lemma_tail(s: Seq<u8>) {
        reveal(<FrameScale as Parse>::spec_parse);
        broadcast use group_tails;
    }
}

/// The names of the animations that a node plays.
#[derive(Clone, Debug, PartialEq, Eq, Hash)]
pub struct BSAnimation(pub Vec<String>);

impl DeepView for BSAnimation {
    type V = Seq<Seq<char>>;

    open spec fn deep_view(&self) -> Seq<Seq<char>> {
        self.0.deep_view()
    }
}

impl Parse for BSAnimation {
    #[verifier::opaque]
    open spec fn spec_parse(s: Seq<u8>) -> Parsed<Seq<Seq<char>>> {
        match spec_parse_objects(
            CountWidth::U32,
            &Each::<String>::it(),
            s,
        ) { Err(e) => Err(e), Ok((s, names)) =>
        Ok((s, names))
        }
    }

    fn parse<'a>(i: &'a [u8]) -> (r: IResult<'a, BSAnimation>) {
        reveal(<BSAnimation as Parse>::spec_parse);
        let (i, names) = parse_objects_u32(&Each::<String>::new(), i)?;
        Ok((i, BSAnimation(names)))
    }

    proof fn lemma_tail(s: Seq<u8>) {
        reveal(<BSAnimation as Parse>::spec_parse);
        broadcast use group_tails;
    }
}

impl BSAnimation {
    /// Reads a counted sequence of sized strings.
    pub fn parse<'a>(i: &'a [u8]) -> (r: IResult<'a, BSAnimation>)
        ensures
            decodes(r, i@, <BSAnimation as Parse>::spec_parse(i@)),
    {
        <BSAnimation as Parse>::parse(i)
    }
}

/// How a node is drawn: the blend states, and the meshes with their textures.
#[derive(Clone, Debug, PartialEq, Eq, Hash)]
pub struct EEResource {
    pub two_sided: bool,
    pub src_blend: u32,
    pub dst_blend: u32,
    pub src_texture_arg0: u32,
    pub src_texture_arg1: u32,
    pub src_texture_op: u32,
    pub dst_texture_arg0: u32,
    pub dst_texture_arg1: u32,
    pub dst_texture_op: u32,
    /// Each mesh with its textures.
    pub meshes: Vec<(String, Vec<String>)>,
}

/// The mathematical value of a [`EEResource`].
pub struct EEResourceView {
    pub two_sided: bool,
    pub src_blend: u32,
    pub dst_blend: u32,
    pub src_texture_arg0: u32,
    pub src_texture_arg1: u32,
    pub src_texture_op: u32,
    pub dst_texture_arg0: u32,
    pub dst_texture_arg1: u32,
    pub dst_texture_op: u32,
    pub meshes: Seq<(Seq<char>, Seq<Seq<char>>)>,
}

impl DeepView for EEResource {
    type V = EEResourceView;

    open spec fn deep_view(&self) -> EEResourceView {
        EEResourceView {
            two_sided: self.two_sided,
            src_blend: self.src_blend,
            dst_blend: self.dst_blend,
            src_texture_arg0: self.src_texture_arg0,
            src_texture_arg1: self.src_texture_arg1,
            src_texture_op: self.src_texture_op,
            dst_texture_arg0: self.dst_texture_arg0,
            dst_texture_arg1: self.dst_texture_arg1,
            dst_texture_op: self.dst_texture_op,
            meshes: self.meshes.deep_view(),
        }
    }
}

impl Parse for EEResource {
    #[verifier::opaque]
    open spec fn spec_parse(s: Seq<u8>) -> Parsed<EEResourceView> {
        match spec_bool_u32(s) { Err(e) => Err(e), Ok((s, two_sided)) =>
        match spec_le_u32(s) { Err(e) => Err(e), Ok((s, src_blend)) =>
        match spec_le_u32(s) { Err(e) => Err(e), Ok((s, dst_blend)) =>
        match spec_le_u32(s) { Err(e) => Err(e), Ok((s, src_texture_arg0)) =>
        match spec_le_u32(s) { Err(e) => Err(e), Ok((s, src_texture_arg1)) =>
        match spec_le_u32(s) { Err(e) => Err(e), Ok((s, src_texture_op)) =>
        match spec_le_u32(s) { Err(e) => Err(e), Ok((s, dst_texture_arg0)) =>
        match spec_le_u32(s) { Err(e) => Err(e), Ok((s, dst_texture_arg1)) =>
        match spec_le_u32(s) { Err(e) => Err(e), Ok((s, dst_texture_op)) =>
        match spec_parse_objects(
            CountWidth::U32,
            &Pair(Each::<String>::it(), Counted { width: CountWidth::U32, item: Each::<String>::it() }),
            s,
        ) { Err(e) => Err(e), Ok((s, meshes)) =>
        Ok((s, EEResourceView {
            two_sided,
            src_blend,
            dst_blend,
            src_texture_arg0,
            src_texture_arg1,
            src_texture_op,
            dst_texture_arg0,
            dst_texture_arg1,
            dst_texture_op,
            meshes,
        }))
        }}}}}}}}}}
    }

    fn parse<'a>(i: &'a [u8]) -> (r: IResult<'a, EEResource>) {
        reveal(<EEResource as Parse>::spec_parse);
        let (i, two_sided) = bool_u32(i)?;
        let (i, src_blend) = le_u32(i)?;
        let (i, dst_blend) = le_u32(i)?;
        let (i, src_texture_arg0) = le_u32(i)?;
        let (i, src_texture_arg1) = le_u32(i)?;
        let (i, src_texture_op) = le_u32(i)?;
        let (i, dst_texture_arg0) = le_u32(i)?;
        let (i, dst_texture_arg1) = le_u32(i)?;
        let (i, dst_texture_op) = le_u32(i)?;
        let (i, meshes) = parse_objects_u32(
            &Pair(Each::<String>::new(), Counted { width: CountWidth::U32, item: Each::<String>::new() }),
            i,
        )?;
        Ok((i, EEResource {
            two_sided,
            src_blend,
            dst_blend,
            src_texture_arg0,
            src_texture_arg1,
            src_texture_op,
            dst_texture_arg0,
            dst_texture_arg1,
            dst_texture_op,
            meshes,
        }))
    }

    proof fn lemma_tail(s: Seq<u8>) {
        reveal(<EEResource as Parse>::spec_parse);
        broadcast use group_tails;
    }
}

/// A blend curve: two boundary numbers, and the samples between them, each
/// with its key.
#[derive(Clone, Debug, PartialEq, Eq)]
pub struct EEBlend<T> {
    pub begin: F32,
    pub end: F32,
    pub blends: Vec<(F32, T)>,
}

/// The mathematical value of an [`EEBlend`].
pub struct EEBlendView<V> {
    pub begin: F32,
    pub end: F32,
    pub blends: Seq<(F32, V)>,
}

impl<T: DeepView> DeepView for EEBlend<T> {
    type V = EEBlendView<T::V>;

    open spec fn deep_view(&self) -> EEBlendView<T::V> {
        EEBlendView { begin: self.begin, end: self.end, blends: self.blends.deep_view() }
    }
}

impl<T: DeepView> EEBlend<T> {
    /// The two boundaries, then a counted sequence of samples: the key,
    /// then what `sample` decodes.
    pub open spec fn spec_parser<D: Decoder<Out = T>>(sample: D, s: Seq<u8>) -> Parsed<EEBlendView<T::V>> {
        match spec_le_f32(s) { Err(e) => Err(e), Ok((s, begin)) =>
        match spec_le_f32(s) { Err(e) => Err(e), Ok((s, end)) =>
        match spec_parse_objects(CountWidth::U32, &Pair(Each::<F32>::it(), sample), s) { Err(e) => Err(e), Ok((s, blends)) =>
        Ok((s, EEBlendView { begin, end, blends }))
        }}}
    }

    /// Reads a blend curve whose samples are read by `sample`.
    pub fn parser<'a, D: Decoder<Out = T>>(sample: D, i: &'a [u8]) -> (r: IResult<'a, EEBlend<T>>)
        ensures
            decodes(r, i@, Self::spec_parser(sample, i@)),
    {
        let (i, begin) = le_f32(i)?;
        let (i, end) = le_f32(i)?;
        let (i, blends) = parse_objects_u32(&Pair(Each::<F32>::new(), sample), i)?;
        Ok((i, EEBlend { begin, end, blends }))
    }
}

/// A blend curve of samples that have a wire format of their own.
impl<T: Parse> Parse for EEBlend<T> {
    open spec fn spec_parse(s: Seq<u8>) -> Parsed<EEBlendView<T::V>> {
        EEBlend::<T>::spec_parser(Each::<T>::it(), s)
    }

    fn parse<'a>(i: &'a [u8]) -> (r: IResult<'a, EEBlend<T>>) {
        EEBlend::<T>::parser(Each::<T>::new(), i)
    }

    proof fn lemma_tail(s: Seq<u8>) {
        broadcast use group_tails;
    }
}

/// Whether the particles of a node are turned towards the camera.
#[derive(Clone, Copy, Debug, PartialEq, Eq, Hash)]
pub enum ViewMode {
    /// No locking.
    Unlocked,
    /// Both axes are locked towards the camera.
    Billboard,
    /// The horizontal axis is locked towards the camera.
    YBillboard,
    /// The vertical axis is locked towards the camera.
    VBillboard,
}

impl DeepView for ViewMode {
    type V = ViewMode;

    open spec fn deep_view(&self) -> ViewMode {
        *self
    }
}

impl ViewMode {
    /// Whether `name` is one of the names that select a variant.
    pub open spec fn is_known_tag(name: Seq<char>) -> bool {
        ||| name == "ViewNone"@
        ||| name == "ViewBillboard"@
        ||| name == "ViewYBillboard"@
        ||| name == "ViewVBillboard"@
    }

    #[verifier::opaque]
    pub open spec fn spec_from_name(name: Seq<char>, s: Seq<u8>) -> Parsed<ViewMode> {
        if name == "ViewNone"@ {
            Ok((s, ViewMode::Unlocked))
        } else if name == "ViewBillboard"@ {
            Ok((s, ViewMode::Billboard))
        } else if name == "ViewYBillboard"@ {
            Ok((s, ViewMode::YBillboard))
        } else if name == "ViewVBillboard"@ {
            Ok((s, ViewMode::VBillboard))
        } else {
            Err(DecodeErrorView::UnknownVariant(name))
        }
    }

    /// The view mode that `name` selects. Reads nothing from `i`.
    pub fn from_name<'a>(name: &str, i: &'a [u8]) -> (r: IResult<'a, ViewMode>)
        ensures
            decodes(r, i@, Self::spec_from_name(name@, i@)),
    {
        reveal(ViewMode::spec_from_name);
        if text_eq(name, "ViewNone") {
            return Ok((i, ViewMode::Unlocked));
        }
        if text_eq(name, "ViewBillboard") {
            return Ok((i, ViewMode::Billboard));
        }
        if text_eq(name, "ViewYBillboard") {
            return Ok((i, ViewMode::YBillboard));
        }
        if text_eq(name, "ViewVBillboard") {
            return Ok((i, ViewMode::VBillboard));
        }
        Err(DecodeError::UnknownVariant(name.to_owned()))
    }

    /// A name that selects no variant is refused with `UnknownVariant`, which
    /// holds the name. No variant stands in for it, whatever the input.
    pub proof fn lemma_unknown_name(name: Seq<char>, s: Seq<u8>)
        ensures
            !Self::is_known_tag(name) ==> Self::spec_from_name(name, s) == Err::<(Seq<u8>, ViewMode), _>(
                DecodeErrorView::UnknownVariant(name),
            ),
            Self::spec_from_name(name, s) is Ok ==> Self::is_known_tag(name),
    {
        reveal(ViewMode::spec_from_name);
    }
}

/// The payload that a name selects is read from the front of the cursor.
pub broadcast proof fn lemma_view_mode_payload_tail(name: Seq<char>, s: Seq<u8>)
    ensures
        #[trigger] ViewMode::spec_from_name(name, s) matches Ok((rest, _)) ==> is_tail(rest, s),
{
    reveal(ViewMode::spec_from_name);
    broadcast use group_tails;
}

impl Parse for ViewMode {
    /// A sized string, taken as the name, then what the name selects.
    open spec fn spec_parse(s: Seq<u8>) -> Parsed<ViewMode> {
        match spec_sized_string(s) {
            Err(e) => Err(e),
            Ok((s, name)) => Self::spec_from_name(name, s),
        }
    }

    fn parse<'a>(i: &'a [u8]) -> (r: IResult<'a, ViewMode>) {
        let (i, name) = sized_string(i)?;
        Self::from_name(name.as_str(), i)
    }

    proof fn lemma_tail(s: Seq<u8>) {
        broadcast use group_tails;
        broadcast use lemma_view_mode_payload_tail;
    }
}

impl ViewMode {
    /// Reads a sized string and takes it as the name of a view mode.
    pub fn parse<'a>(i: &'a [u8]) -> (r: IResult<'a, ViewMode>)
        ensures
            decodes(r, i@, <ViewMode as Parse>::spec_parse(i@)),
    {
        <ViewMode as Parse>::parse(i)
    }
}

/// What a node draws for each of its particles.
#[derive(Clone, Copy, Debug, PartialEq, Eq, Hash)]
pub enum RenderShape {
    /// Nothing is drawn.
    Nothing,
    /// A quad.
    Plate,
    /// A mesh of the node's resource.
    Mesh,
    LinkDPipe,
    LinkPipe,
    LinkObj,
}

impl DeepView for RenderShape {
    type V = RenderShape;

    open spec fn deep_view(&self) -> RenderShape {
        *self
    }
}

impl RenderShape {
    /// Whether `name` is one of the names that select a variant.
    pub open spec fn is_known_tag(name: Seq<char>) -> bool {
        ||| name == "RenderNone"@
        ||| name == "RenderPlate"@
        ||| name == "RenderMesh"@
        ||| name == "RenderLinkDPipe"@
        ||| name == "RenderLinkPipe"@
        ||| name == "RenderLinkObj"@
    }

    #[verifier::opaque]
    pub open spec fn spec_from_name(name: Seq<char>, s: Seq<u8>) -> Parsed<RenderShape> {
        if name == "RenderNone"@ {
            Ok((s, RenderShape::Nothing))
        } else if name == "RenderPlate"@ {
            Ok((s, RenderShape::Plate))
        } else if name == "RenderMesh"@ {
            Ok((s, RenderShape::Mesh))
        } else if name == "RenderLinkDPipe"@ {
            Ok((s, RenderShape::LinkDPipe))
        } else if name == "RenderLinkPipe"@ {
            Ok((s, RenderShape::LinkPipe))
        } else if name == "RenderLinkObj"@ {
            Ok((s, RenderShape::LinkObj))
        } else {
            Err(DecodeErrorView::UnknownVariant(name))
        }
    }

    /// The shape that `name` selects. Reads nothing from `i`.
    pub fn from_name<'a>(name: &str, i: &'a [u8]) -> (r: IResult<'a, RenderShape>)
        ensures
            decodes(r, i@, Self::spec_from_name(name@, i@)),
    {
        reveal(RenderShape::spec_from_name);
        if text_eq(name, "RenderNone") {
            return Ok((i, RenderShape::Nothing));
        }
        if text_eq(name, "RenderPlate") {
            return Ok((i, RenderShape::Plate));
        }
        if text_eq(name, "RenderMesh") {
            return Ok((i, RenderShape::Mesh));
        }
        if text_eq(name, "RenderLinkDPipe") {
            return Ok((i, RenderShape::LinkDPipe));
        }
        if text_eq(name, "RenderLinkPipe") {
            return Ok((i, RenderShape::LinkPipe));
        }
        if text_eq(name, "RenderLinkObj") {
            return Ok((i, RenderShape::LinkObj));
        }
        Err(DecodeError::UnknownVariant(name.to_owned()))
    }

    /// A name that selects no variant is refused with `UnknownVariant`, which
    /// holds the name. No variant stands in for it, whatever the input.
    pub proof fn lemma_unknown_name(name: Seq<char>, s: Seq<u8>)
        ensures
            !Self::is_known_tag(name) ==> Self::spec_from_name(name, s) == Err::<(Seq<u8>, RenderShape), _>(
                DecodeErrorView::UnknownVariant(name),
            ),
            Self::spec_from_name(name, s) is Ok ==> Self::is_known_tag(name),
    {
        reveal(RenderShape::spec_from_name);
    }
}

/// The payload that a name selects is read from the front of the cursor.
pub broadcast proof fn lemma_render_shape_payload_tail(name: Seq<char>, s: Seq<u8>)
    ensures
        #[trigger] RenderShape::spec_from_name(name, s) matches Ok((rest, _)) ==> is_tail(rest, s),
{
    reveal(RenderShape::spec_from_name);
    broadcast use group_tails;
}

impl Parse for RenderShape {
    /// A sized string, taken as the name, then what the name selects.
    open spec fn spec_parse(s: Seq<u8>) -> Parsed<RenderShape> {
        match spec_sized_string(s) {
            Err(e) => Err(e),
            Ok((s, name)) => Self::spec_from_name(name, s),
        }
    }

    fn parse<'a>(i: &'a [u8]) -> (r: IResult<'a, RenderShape>) {
        let (i, name) = sized_string(i)?;
        Self::from_name(name.as_str(), i)
    }

    proof fn lemma_tail(s: Seq<u8>) {
        broadcast use group_tails;
        broadcast use lemma_render_shape_payload_tail;
    }
}

impl RenderShape {
    /// Reads a sized string and takes it as the name of a shape.
    pub fn parse<'a>(i: &'a [u8]) -> (r: IResult<'a, RenderShape>)
        ensures
            decodes(r, i@, <RenderShape as Parse>::spec_parse(i@)),
    {
        <RenderShape as Parse>::parse(i)
    }
}

/// One command of a node, chosen by its name. The name is compared whole and
/// with case; it is not kept once the variant is chosen.
#[derive(Clone, Debug, PartialEq, Eq)]
pub enum EECommand {
    NeverExtinct,
    NormalTimeExtinct,
    NormalTimeLoop,
    StaticEmit(EFStaticEmit),
    ProgramUpdate,
    ViewMode(ViewMode),
    RenderShape(RenderShape),
    Attraction(F32),
    ConeForce(AngleVector1),
    Force(Vector3),
    SetBANPos(FrameBANPosition),
    SetBANRot(FrameBANRotation),
    SetConePos(AngleVector1),
    SetConeVel(AngleVector1),
    SetGraphDiffuse(FrameDiffuse),
    SetGraphRandomScale(F32),
    SetGraphScale(FrameScale),
    SetPosition(Vector3),
    SetRotation(RotVector),
    SetRotationAxis(AxisVector4),
    SetRotationMat(RowMatrix4),
    SetRVelocity(RotVector),
    SetRVelocityAxis(AxisVector4),
    SetRVelocityMat(RowMatrix4),
    SetShapeRot(AxisVector4),
    SetShapeRotVel(AxisVector4),
    SetSpherePos(Vector3),
    SetVelocity(Vector3),
    TextureSlide(FrameTextureSlide),
}

/// The mathematical value of a [`EECommand`].
pub enum EECommandView {
    NeverExtinct,
    NormalTimeExtinct,
    NormalTimeLoop,
    StaticEmit(EFStaticEmit),
    ProgramUpdate,
    ViewMode(ViewMode),
    RenderShape(RenderShape),
    Attraction(F32),
    ConeForce(AngleVector1),
    Force(Vector3),
    SetBANPos((F32, Seq<Vector3>)),
    SetBANRot((F32, Seq<RowMatrix4>)),
    SetConePos(AngleVector1),
    SetConeVel(AngleVector1),
    SetGraphDiffuse(Seq<Color>),
    SetGraphRandomScale(F32),
    SetGraphScale(Seq<Vector3>),
    SetPosition(Vector3),
    SetRotation(RotVector),
    SetRotationAxis(AxisVector4),
    SetRotationMat(RowMatrix4),
    SetRVelocity(RotVector),
    SetRVelocityAxis(AxisVector4),
    SetRVelocityMat(RowMatrix4),
    SetShapeRot(AxisVector4),
    SetShapeRotVel(AxisVector4),
    SetSpherePos(Vector3),
    SetVelocity(Vector3),
    TextureSlide((Vector3, Seq<Vector4>)),
}

impl DeepView for EECommand {
    type V = EECommandView;

    open spec fn deep_view(&self) -> EECommandView {
        match self {
            EECommand::NeverExtinct => EECommandView::NeverExtinct,
            EECommand::NormalTimeExtinct => EECommandView::NormalTimeExtinct,
            EECommand::NormalTimeLoop => EECommandView::NormalTimeLoop,
            EECommand::StaticEmit(value) => EECommandView::StaticEmit(*value),
            EECommand::ProgramUpdate => EECommandView::ProgramUpdate,
            EECommand::ViewMode(value) => EECommandView::ViewMode(*value),
            EECommand::RenderShape(value) => EECommandView::RenderShape(*value),
            EECommand::Attraction(value) => EECommandView::Attraction(*value),
            EECommand::ConeForce(value) => EECommandView::ConeForce(*value),
            EECommand::Force(value) => EECommandView::Force(*value),
            EECommand::SetBANPos(value) => EECommandView::SetBANPos(value.deep_view()),
            EECommand::SetBANRot(value) => EECommandView::SetBANRot(value.deep_view()),
            EECommand::SetConePos(value) => EECommandView::SetConePos(*value),
            EECommand::SetConeVel(value) => EECommandView::SetConeVel(*value),
            EECommand::SetGraphDiffuse(value) => EECommandView::SetGraphDiffuse(value.deep_view()),
            EECommand::SetGraphRandomScale(value) => EECommandView::SetGraphRandomScale(*value),
            EECommand::SetGraphScale(value) => EECommandView::SetGraphScale(value.deep_view()),
            EECommand::SetPosition(value) => EECommandView::SetPosition(*value),
            EECommand::SetRotation(value) => EECommandView::SetRotation(*value),
            EECommand::SetRotationAxis(value) => EECommandView::SetRotationAxis(*value),
            EECommand::SetRotationMat(value) => EECommandView::SetRotationMat(*value),
            EECommand::SetRVelocity(value) => EECommandView::SetRVelocity(*value),
            EECommand::SetRVelocityAxis(value) => EECommandView::SetRVelocityAxis(*value),
            EECommand::SetRVelocityMat(value) => EECommandView::SetRVelocityMat(*value),
            EECommand::SetShapeRot(value) => EECommandView::SetShapeRot(*value),
            EECommand::SetShapeRotVel(value) => EECommandView::SetShapeRotVel(*value),
            EECommand::SetSpherePos(value) => EECommandView::SetSpherePos(*value),
            EECommand::SetVelocity(value) => EECommandView::SetVelocity(*value),
            EECommand::TextureSlide(value) => EECommandView::TextureSlide(value.deep_view()),
        }
    }
}

impl EECommand {
    /// Whether `name` is one of the names that select a variant.
    pub open spec fn is_known_tag(name: Seq<char>) -> bool {
        ||| name == "NeverExtinct"@
        ||| name == "NormalTimeExtinct"@
        ||| name == "NormalTimeLoop"@
        ||| name == "StaticEmit"@
        ||| name == "ProgramUpdate"@
        ||| name == "ViewNone"@
        ||| name == "ViewBillboard"@
        ||| name == "ViewYBillboard"@
        ||| name == "ViewVBillboard"@
        ||| name == "RenderNone"@
        ||| name == "RenderPlate"@
        ||| name == "RenderMesh"@
        ||| name == "RenderLinkDPipe"@
        ||| name == "RenderLinkPipe"@
        ||| name == "RenderLinkObj"@
        ||| name == "Attraction"@
        ||| name == "ConeForce"@
        ||| name == "Force"@
        ||| name == "SetBANPos"@
        ||| name == "SetBANRot"@
        ||| name == "SetConePos"@
        ||| name == "SetConeVel"@
        ||| name == "SetGraphDiffuse"@
        ||| name == "SetGraphRandomScale"@
        ||| name == "SetGraphScale"@
        ||| name == "SetPosition"@
        ||| name == "SetRotation"@
        ||| name == "SetRotationAxis"@
        ||| name == "SetRotationMat"@
        ||| name == "SetRVelocity"@
        ||| name == "SetRVelocityAxis"@
        ||| name == "SetRVelocityMat"@
        ||| name == "SetShapeRot"@
        ||| name == "SetShapeRotVel"@
        ||| name == "SetSpherePos"@
        ||| name == "SetVelocity"@
        ||| name == "TextureSlide"@
    }

    /// The command that `name` selects, with the payload that this command reads
    /// from `s`. A command without a payload reads nothing.
    #[verifier::opaque]
    pub open spec fn spec_parser_for(name: Seq<char>, s: Seq<u8>) -> Parsed<EECommandView> {
        if name == "NeverExtinct"@ {
            Ok((s, EECommandView::NeverExtinct))
        } else if name == "NormalTimeExtinct"@ {
            Ok((s, EECommandView::NormalTimeExtinct))
        } else if name == "NormalTimeLoop"@ {
            Ok((s, EECommandView::NormalTimeLoop))
        } else if name == "StaticEmit"@ {
            match EFStaticEmit::spec_parse(s) {
                Err(e) => Err(e),
                Ok((s, value)) => Ok((s, EECommandView::StaticEmit(value))),
            }
        } else if name == "ProgramUpdate"@ {
            Ok((s, EECommandView::ProgramUpdate))
        } else if name == "ViewNone"@ {
            Ok((s, EECommandView::ViewMode(ViewMode::Unlocked)))
        } else if name == "ViewBillboard"@ {
            Ok((s, EECommandView::ViewMode(ViewMode::Billboard)))
        } else if name == "ViewYBillboard"@ {
            Ok((s, EECommandView::ViewMode(ViewMode::YBillboard)))
        } else if name == "ViewVBillboard"@ {
            Ok((s, EECommandView::ViewMode(ViewMode::VBillboard)))
        } else if name == "RenderNone"@ {
            Ok((s, EECommandView::RenderShape(RenderShape::Nothing)))
        } else if name == "RenderPlate"@ {
            Ok((s, EECommandView::RenderShape(RenderShape::Plate)))
        } else if name == "RenderMesh"@ {
            Ok((s, EECommandView::RenderShape(RenderShape::Mesh)))
        } else if name == "RenderLinkDPipe"@ {
            Ok((s, EECommandView::RenderShape(RenderShape::LinkDPipe)))
        } else if name == "RenderLinkPipe"@ {
            Ok((s, EECommandView::RenderShape(RenderShape::LinkPipe)))
        } else if name == "RenderLinkObj"@ {
            Ok((s, EECommandView::RenderShape(RenderShape::LinkObj)))
        } else if name == "Attraction"@ {
            match spec_le_f32(s) {
                Err(e) => Err(e),
                Ok((s, value)) => Ok((s, EECommandView::Attraction(value))),
            }
        } else if name == "ConeForce"@ {
            match AngleVector1::spec_parse(s) {
                Err(e) => Err(e),
                Ok((s, value)) => Ok((s, EECommandView::ConeForce(value))),
            }
        } else if name == "Force"@ {
            match spec_vector3_f32(s) {
                Err(e) => Err(e),
                Ok((s, value)) => Ok((s, EECommandView::Force(value))),
            }
        } else if name == "SetBANPos"@ {
            match FrameBANPosition::spec_parse(s) {
                Err(e) => Err(e),
                Ok((s, value)) => Ok((s, EECommandView::SetBANPos(value))),
            }
        } else if name == "SetBANRot"@ {
            match FrameBANRotation::spec_parse(s) {
                Err(e) => Err(e),
                Ok((s, value)) => Ok((s, EECommandView::SetBANRot(value))),
            }
        } else if name == "SetConePos"@ {
            match AngleVector1::spec_parse(s) {
                Err(e) => Err(e),
                Ok((s, value)) => Ok((s, EECommandView::SetConePos(value))),
            }
        } else if name == "SetConeVel"@ {
            match AngleVector1::spec_parse(s) {
                Err(e) => Err(e),
                Ok((s, value)) => Ok((s, EECommandView::SetConeVel(value))),
            }
        } else if name == "SetGraphDiffuse"@ {
            match FrameDiffuse::spec_parse(s) {
                Err(e) => Err(e),
                Ok((s, value)) => Ok((s, EECommandView::SetGraphDiffuse(value))),
            }
        } else if name == "SetGraphRandomScale"@ {
            match spec_le_f32(s) {
                Err(e) => Err(e),
                Ok((s, value)) => Ok((s, EECommandView::SetGraphRandomScale(value))),
            }
        } else if name == "SetGraphScale"@ {
            match FrameScale::spec_parse(s) {
                Err(e) => Err(e),
                Ok((s, value)) => Ok((s, EECommandView::SetGraphScale(value))),
            }
        } else if name == "SetPosition"@ {
            match spec_vector3_f32(s) {
                Err(e) => Err(e),
                Ok((s, value)) => Ok((s, EECommandView::SetPosition(value))),
            }
        } else if name == "SetRotation"@ {
            match RotVector::spec_parse(s) {
                Err(e) => Err(e),
                Ok((s, value)) => Ok((s, EECommandView::SetRotation(value))),
            }
        } else if name == "SetRotationAxis"@ {
            match AxisVector4::spec_parse(s) {
                Err(e) => Err(e),
                Ok((s, value)) => Ok((s, EECommandView::SetRotationAxis(value))),
            }
        } else if name == "SetRotationMat"@ {
            match spec_matrix4x4(s) {
                Err(e) => Err(e),
                Ok((s, value)) => Ok((s, EECommandView::SetRotationMat(value))),
            }
        } else if name == "SetRVelocity"@ {
            match RotVector::spec_parse(s) {
                Err(e) => Err(e),
                Ok((s, value)) => Ok((s, EECommandView::SetRVelocity(value))),
            }
        } else if name == "SetRVelocityAxis"@ {
            match AxisVector4::spec_parse(s) {
                Err(e) => Err(e),
                Ok((s, value)) => Ok((s, EECommandView::SetRVelocityAxis(value))),
            }
        } else if name == "SetRVelocityMat"@ {
            match spec_matrix4x4(s) {
                Err(e) => Err(e),
                Ok((s, value)) => Ok((s, EECommandView::SetRVelocityMat(value))),
            }
        } else if name == "SetShapeRot"@ {
            match AxisVector4::spec_parse(s) {
                Err(e) => Err(e),
                Ok((s, value)) => Ok((s, EECommandView::SetShapeRot(value))),
            }
        } else if name == "SetShapeRotVel"@ {
            match AxisVector4::spec_parse(s) {
                Err(e) => Err(e),
                Ok((s, value)) => Ok((s, EECommandView::SetShapeRotVel(value))),
            }
        } else if name == "SetSpherePos"@ {
            match spec_vector3_f32(s) {
                Err(e) => Err(e),
                Ok((s, value)) => Ok((s, EECommandView::SetSpherePos(value))),
            }
        } else if name == "SetVelocity"@ {
            match spec_vector3_f32(s) {
                Err(e) => Err(e),
                Ok((s, value)) => Ok((s, EECommandView::SetVelocity(value))),
            }
        } else if name == "TextureSlide"@ {
            match FrameTextureSlide::spec_parse(s) {
                Err(e) => Err(e),
                Ok((s, value)) => Ok((s, EECommandView::TextureSlide(value))),
            }
        } else {
            Err(DecodeErrorView::UnknownVariant(name))
        }
    }

    /// Decodes the payload of the command that `name` selects.
    pub fn parser_for<'a>(name: &str, i: &'a [u8]) -> (r: IResult<'a, EECommand>)
        ensures
            decodes(r, i@, Self::spec_parser_for(name@, i@)),
    {
        reveal(EECommand::spec_parser_for);
        if text_eq(name, "NeverExtinct") {
            return Ok((i, EECommand::NeverExtinct));
        }
        if text_eq(name, "NormalTimeExtinct") {
            return Ok((i, EECommand::NormalTimeExtinct));
        }
        if text_eq(name, "NormalTimeLoop") {
            return Ok((i, EECommand::NormalTimeLoop));
        }
        if text_eq(name, "StaticEmit") {
            let (i, value) = EFStaticEmit::parse(i)?;
            return Ok((i, EECommand::StaticEmit(value)));
        }
        if text_eq(name, "ProgramUpdate") {
            return Ok((i, EECommand::ProgramUpdate));
        }
        if text_eq(name, "ViewNone") {
            return Ok((i, EECommand::ViewMode(ViewMode::Unlocked)));
        }
        if text_eq(name, "ViewBillboard") {
            return Ok((i, EECommand::ViewMode(ViewMode::Billboard)));
        }
        if text_eq(name, "ViewYBillboard") {
            return Ok((i, EECommand::ViewMode(ViewMode::YBillboard)));
        }
        if text_eq(name, "ViewVBillboard") {
            return Ok((i, EECommand::ViewMode(ViewMode::VBillboard)));
        }
        if text_eq(name, "RenderNone") {
            return Ok((i, EECommand::RenderShape(RenderShape::Nothing)));
        }
        if text_eq(name, "RenderPlate") {
            return Ok((i, EECommand::RenderShape(RenderShape::Plate)));
        }
        if text_eq(name, "RenderMesh") {
            return Ok((i, EECommand::RenderShape(RenderShape::Mesh)));
        }
        if text_eq(name, "RenderLinkDPipe") {
            return Ok((i, EECommand::RenderShape(RenderShape::LinkDPipe)));
        }
        if text_eq(name, "RenderLinkPipe") {
            return Ok((i, EECommand::RenderShape(RenderShape::LinkPipe)));
        }
        if text_eq(name, "RenderLinkObj") {
            return Ok((i, EECommand::RenderShape(RenderShape::LinkObj)));
        }
        if text_eq(name, "Attraction") {
            let (i, value) = le_f32(i)?;
            return Ok((i, EECommand::Attraction(value)));
        }
        if text_eq(name, "ConeForce") {
            let (i, value) = AngleVector1::parse(i)?;
            return Ok((i, EECommand::ConeForce(value)));
        }
        if text_eq(name, "Force") {
            let (i, value) = vector3_f32(i)?;
            return Ok((i, EECommand::Force(value)));
        }
        if text_eq(name, "SetBANPos") {
            let (i, value) = FrameBANPosition::parse(i)?;
            return Ok((i, EECommand::SetBANPos(value)));
        }
        if text_eq(name, "SetBANRot") {
            let (i, value) = FrameBANRotation::parse(i)?;
            return Ok((i, EECommand::SetBANRot(value)));
        }
        if text_eq(name, "SetConePos") {
            let (i, value) = AngleVector1::parse(i)?;
            return Ok((i, EECommand::SetConePos(value)));
        }
        if text_eq(name, "SetConeVel") {
            let (i, value) = AngleVector1::parse(i)?;
            return Ok((i, EECommand::SetConeVel(value)));
        }
        if text_eq(name, "SetGraphDiffuse") {
            let (i, value) = FrameDiffuse::parse(i)?;
            return Ok((i, EECommand::SetGraphDiffuse(value)));
        }
        if text_eq(name, "SetGraphRandomScale") {
            let (i, value) = le_f32(i)?;
            return Ok((i, EECommand::SetGraphRandomScale(value)));
        }
        if text_eq(name, "SetGraphScale") {
            let (i, value) = FrameScale::parse(i)?;
            return Ok((i, EECommand::SetGraphScale(value)));
        }
        if text_eq(name, "SetPosition") {
            let (i, value) = vector3_f32(i)?;
            return Ok((i, EECommand::SetPosition(value)));
        }
        if text_eq(name, "SetRotation") {
            let (i, value) = RotVector::parse(i)?;
            return Ok((i, EECommand::SetRotation(value)));
        }
        if text_eq(name, "SetRotationAxis") {
            let (i, value) = AxisVector4::parse(i)?;
            return Ok((i, EECommand::SetRotationAxis(value)));
        }
        if text_eq(name, "SetRotationMat") {
            let (i, value) = matrix4x4(i)?;
            return Ok((i, EECommand::SetRotationMat(value)));
        }
        if text_eq(name, "SetRVelocity") {
            let (i, value) = RotVector::parse(i)?;
            return Ok((i, EECommand::SetRVelocity(value)));
        }
        if text_eq(name, "SetRVelocityAxis") {
            let (i, value) = AxisVector4::parse(i)?;
            return Ok((i, EECommand::SetRVelocityAxis(value)));
        }
        if text_eq(name, "SetRVelocityMat") {
            let (i, value) = matrix4x4(i)?;
            return Ok((i, EECommand::SetRVelocityMat(value)));
        }
        if text_eq(name, "SetShapeRot") {
            let (i, value) = AxisVector4::parse(i)?;
            return Ok((i, EECommand::SetShapeRot(value)));
        }
        if text_eq(name, "SetShapeRotVel") {
            let (i, value) = AxisVector4::parse(i)?;
            return Ok((i, EECommand::SetShapeRotVel(value)));
        }
        if text_eq(name, "SetSpherePos") {
            let (i, value) = vector3_f32(i)?;
            return Ok((i, EECommand::SetSpherePos(value)));
        }
        if text_eq(name, "SetVelocity") {
            let (i, value) = vector3_f32(i)?;
            return Ok((i, EECommand::SetVelocity(value)));
        }
        if text_eq(name, "TextureSlide") {
            let (i, value) = FrameTextureSlide::parse(i)?;
            return Ok((i, EECommand::TextureSlide(value)));
        }
        Err(DecodeError::UnknownVariant(name.to_owned()))
    }

    /// A name that selects no variant is refused with `UnknownVariant`, which
    /// holds the name. No variant stands in for it, whatever the input.
    pub proof fn lemma_unknown_name(name: Seq<char>, s: Seq<u8>)
        ensures
            !Self::is_known_tag(name) ==> Self::spec_parser_for(name, s) == Err::<(Seq<u8>, EECommandView), _>(
                DecodeErrorView::UnknownVariant(name),
            ),
            Self::spec_parser_for(name, s) is Ok ==> Self::is_known_tag(name),
    {
        reveal(EECommand::spec_parser_for);
    }
}

/// The payload that a name selects is read from the front of the cursor.
pub broadcast proof fn lemma_eecommand_payload_tail(name: Seq<char>, s: Seq<u8>)
    ensures
        #[trigger] EECommand::spec_parser_for(name, s) matches Ok((rest, _)) ==> is_tail(rest, s),
{
    reveal(EECommand::spec_parser_for);
    broadcast use group_tails;
}

/// One filled slot of a node: the command, and when and how it applies.
#[derive(Clone, Debug, PartialEq, Eq)]
pub struct EESourceData {
    pub command: EECommand,
    pub subtype: u8,
    pub unkb1: u8,
    pub start: F32,
    pub end: F32,
    pub unkf0: F32,
}

/// The mathematical value of an [`EESourceData`].
pub struct EESourceDataView {
    pub command: EECommandView,
    pub subtype: u8,
    pub unkb1: u8,
    pub start: F32,
    pub end: F32,
    pub unkf0: F32,
}

impl DeepView for EESourceData {
    type V = EESourceDataView;

    open spec fn deep_view(&self) -> EESourceDataView {
        EESourceDataView {
            command: self.command.deep_view(),
            subtype: self.subtype,
            unkb1: self.unkb1,
            start: self.start,
            end: self.end,
            unkf0: self.unkf0,
        }
    }
}

/// The decoder of one slot of a node.
pub struct Slot;

impl Decoder for Slot {
    type Out = Option<EESourceData>;

    /// A presence byte; where it is zero the slot is empty and nothing more
    /// is read. Else the command's name, five fields, and the payload of the
    /// command that the name selects.
    #[verifier::opaque]
    open spec fn spec_decode(&self, s: Seq<u8>) -> Parsed<Option<EESourceDataView>> {
        match spec_bool_u8(s) { Err(e) => Err(e), Ok((s, non_empty)) =>
        if !non_empty {
            Ok((s, None))
        } else {
            match spec_sized_string(s) { Err(e) => Err(e), Ok((s, name)) =>
            match spec_le_u8(s) { Err(e) => Err(e), Ok((s, subtype)) =>
            match spec_le_u8(s) { Err(e) => Err(e), Ok((s, unkb1)) =>
            match spec_le_f32(s) { Err(e) => Err(e), Ok((s, start)) =>
            match spec_le_f32(s) { Err(e) => Err(e), Ok((s, end)) =>
            match spec_le_f32(s) { Err(e) => Err(e), Ok((s, unkf0)) =>
            match EECommand::spec_parser_for(name, s) { Err(e) => Err(e), Ok((s, command)) =>
            Ok((s, Some(EESourceDataView { command, subtype, unkb1, start, end, unkf0 })))
            }}}}}}}
        }
        }
    }

    fn decode<'a>(&self, i: &'a [u8]) -> (r: IResult<'a, Option<EESourceData>>) {
        reveal(<Slot as Decoder>::spec_decode);
        let (i, non_empty) = bool_u8(i)?;
        if !non_empty {
            return Ok((i, None));
        }
        let (i, name) = sized_string(i)?;
        let (i, subtype) = le_u8(i)?;
        let (i, unkb1) = le_u8(i)?;
        let (i, start) = le_f32(i)?;
        let (i, end) = le_f32(i)?;
        let (i, unkf0) = le_f32(i)?;
        let (i, command) = EECommand::parser_for(name.as_str(), i)?;
        Ok((i, Some(EESourceData { command, subtype, unkb1, start, end, unkf0 })))
    }

    proof fn lemma_tail(&self, s: Seq<u8>) {
        reveal(<Slot as Decoder>::spec_decode);
        broadcast use group_tails;
        broadcast use lemma_eecommand_payload_tail;
    }
}

impl EESourceData {
    /// Decodes one slot, which may be empty.
    pub fn parse<'a>(i: &'a [u8]) -> (r: IResult<'a, Option<EESourceData>>)
        ensures
            decodes(r, i@, Slot.spec_decode(i@)),
    {
        Slot.decode(i)
    }

    /// An empty slot is one byte long: behind a presence byte of zero no
    /// name and no payload is read.
    pub proof fn lemma_empty_slot(s: Seq<u8>)
        requires
            s.len() >= 1,
            s[0] == 0,
        ensures
            Slot.spec_decode(s) == Ok::<_, DecodeErrorView>((s.skip(1), None::<EESourceDataView>)),
    {
        reveal(<Slot as Decoder>::spec_decode);
        reveal(spec_le_u8);
    }
}

/// A counted sequence of slots, each filled or empty.
#[derive(Clone, Debug, PartialEq, Eq)]
pub struct EESourceList(pub Vec<Option<EESourceData>>);

impl DeepView for EESourceList {
    type V = Seq<Option<EESourceDataView>>;

    open spec fn deep_view(&self) -> Seq<Option<EESourceDataView>> {
        self.0.deep_view()
    }
}

impl Parse for EESourceList {
    #[verifier::opaque]
    open spec fn spec_parse(s: Seq<u8>) -> Parsed<Seq<Option<EESourceDataView>>> {
        match spec_parse_objects(CountWidth::U32, &Slot, s) { Err(e) => Err(e), Ok((s, slots)) =>
        Ok((s, slots))
        }
    }

    fn parse<'a>(i: &'a [u8]) -> (r: IResult<'a, EESourceList>) {
        reveal(<EESourceList as Parse>::spec_parse);
        let (i, slots) = parse_objects_u32(&Slot, i)?;
        Ok((i, EESourceList(slots)))
    }

    proof fn lemma_tail(s: Seq<u8>) {
        reveal(<EESourceList as Parse>::spec_parse);
        broadcast use group_tails;
    }
}

/// A single slot, filled or empty.
#[derive(Clone, Debug, PartialEq, Eq)]
pub struct EESource(pub Option<EESourceData>);

impl DeepView for EESource {
    type V = Option<EESourceDataView>;

    open spec fn deep_view(&self) -> Option<EESourceDataView> {
        self.0.deep_view()
    }
}

impl Parse for EESource {
    #[verifier::opaque]
    open spec fn spec_parse(s: Seq<u8>) -> Parsed<Option<EESourceDataView>> {
        match Slot.spec_decode(s) { Err(e) => Err(e), Ok((s, slot)) =>
        Ok((s, slot))
        }
    }

    fn parse<'a>(i: &'a [u8]) -> (r: IResult<'a, EESource>) {
        reveal(<EESource as Parse>::spec_parse);
        let (i, slot) = EESourceData::parse(i)?;
        Ok((i, EESource(slot)))
    }

    proof fn lemma_tail(s: Seq<u8>) {
        reveal(<EESource as Parse>::spec_parse);
        broadcast use group_tails;
    }
}

#[derive(Clone, Debug, PartialEq, Eq)]
pub struct EEProgram(pub EESourceList);

impl DeepView for EEProgram {
    type V = Seq<Option<EESourceDataView>>;

    open spec fn deep_view(&self) -> Seq<Option<EESourceDataView>> {
        self.0.deep_view()
    }
}

impl Parse for EEProgram {
    #[verifier::opaque]
    open spec fn spec_parse(s: Seq<u8>) -> Parsed<Seq<Option<EESourceDataView>>> {
        match EESourceList::spec_parse(s) { Err(e) => Err(e), Ok((s, sources)) =>
        Ok((s, sources))
        }
    }

    fn parse<'a>(i: &'a [u8]) -> (r: IResult<'a, EEProgram>) {
        reveal(<EEProgram as Parse>::spec_parse);
        let (i, sources) = EESourceList::parse(i)?;
        Ok((i, EEProgram(sources)))
    }

    proof fn lemma_tail(s: Seq<u8>) {
        reveal(<EEProgram as Parse>::spec_parse);
        broadcast use group_tails;
    }
}

/// One typed parameter of a node's parameter block, chosen by its name.
#[derive(Clone, Debug, PartialEq, Eq)]
pub enum EEParameter {
    Float(F32),
    Vector(Vector3),
    Matrix(RowMatrix4),
    AxisVector4(AxisVector4),
    RotVector(RotVector),
    AngleVector1(AngleVector1),
    FrameScale(FrameScale),
    FrameDiffuse(FrameDiffuse),
    FrameBANRotation(FrameBANRotation),
    FrameBANPosition(FrameBANPosition),
    FrameTextureSlide(FrameTextureSlide),
    BSAnimation(BSAnimation),
    BlendScaleGraphPointer(F32),
    StaticEmit(EFStaticEmit),
    BlendDiffuseGraph(EEBlend<Color>),
    BlendScaleGraph(EEBlend<Vector3>),
}

/// The mathematical value of a [`EEParameter`].
pub enum EEParameterView {
    Float(F32),
    Vector(Vector3),
    Matrix(RowMatrix4),
    AxisVector4(AxisVector4),
    RotVector(RotVector),
    AngleVector1(AngleVector1),
    FrameScale(Seq<Vector3>),
    FrameDiffuse(Seq<Color>),
    FrameBANRotation((F32, Seq<RowMatrix4>)),
    FrameBANPosition((F32, Seq<Vector3>)),
    FrameTextureSlide((Vector3, Seq<Vector4>)),
    BSAnimation(Seq<Seq<char>>),
    BlendScaleGraphPointer(F32),
    StaticEmit(EFStaticEmit),
    BlendDiffuseGraph(EEBlendView<Color>),
    BlendScaleGraph(EEBlendView<Vector3>),
}

impl DeepView for EEParameter {
    type V = EEParameterView;

    open spec fn deep_view(&self) -> EEParameterView {
        match self {
            EEParameter::Float(value) => EEParameterView::Float(*value),
            EEParameter::Vector(value) => EEParameterView::Vector(*value),
            EEParameter::Matrix(value) => EEParameterView::Matrix(*value),
            EEParameter::AxisVector4(value) => EEParameterView::AxisVector4(*value),
            EEParameter::RotVector(value) => EEParameterView::RotVector(*value),
            EEParameter::AngleVector1(value) => EEParameterView::AngleVector1(*value),
            EEParameter::FrameScale(value) => EEParameterView::FrameScale(value.deep_view()),
            EEParameter::FrameDiffuse(value) => EEParameterView::FrameDiffuse(value.deep_view()),
            EEParameter::FrameBANRotation(value) => EEParameterView::FrameBANRotation(value.deep_view()),
            EEParameter::FrameBANPosition(value) => EEParameterView::FrameBANPosition(value.deep_view()),
            EEParameter::FrameTextureSlide(value) => EEParameterView::FrameTextureSlide(value.deep_view()),
            EEParameter::BSAnimation(value) => EEParameterView::BSAnimation(value.deep_view()),
            EEParameter::BlendScaleGraphPointer(value) => EEParameterView::BlendScaleGraphPointer(*value),
            EEParameter::StaticEmit(value) => EEParameterView::StaticEmit(*value),
            EEParameter::BlendDiffuseGraph(value) => EEParameterView::BlendDiffuseGraph(value.deep_view()),
            EEParameter::BlendScaleGraph(value) => EEParameterView::BlendScaleGraph(value.deep_view()),
        }
    }
}

impl EEParameter {
    /// Whether `name` is one of the names that select a variant.
    pub open spec fn is_known_tag(name: Seq<char>) -> bool {
        ||| name == "Float"@
        ||| name == "Vector"@
        ||| name == "Matrix"@
        ||| name == "AxisVector4"@
        ||| name == "RotVector"@
        ||| name == "AngleVector1"@
        ||| name == "FrameScale"@
        ||| name == "FrameDiffuse"@
        ||| name == "FrameBANRotation"@
        ||| name == "FrameBANPosition"@
        ||| name == "FrameTextureSlide"@
        ||| name == "BSAnimation"@
        ||| name == "BlendeScaleGraphPointer"@
        ||| name == "StaticEmit"@
        ||| name == "BlendDiffuseGraph"@
        ||| name == "BlendScaleGraph"@
    }

    #[verifier::opaque]
    pub open spec fn spec_parser_for(name: Seq<char>, s: Seq<u8>) -> Parsed<EEParameterView> {
        if name == "Float"@ {
            match spec_le_f32(s) {
                Err(e) => Err(e),
                Ok((s, value)) => Ok((s, EEParameterView::Float(value))),
            }
        } else if name == "Vector"@ {
            match spec_vector3_f32(s) {
                Err(e) => Err(e),
                Ok((s, value)) => Ok((s, EEParameterView::Vector(value))),
            }
        } else if name == "Matrix"@ {
            match spec_matrix4x4(s) {
                Err(e) => Err(e),
                Ok((s, value)) => Ok((s, EEParameterView::Matrix(value))),
            }
        } else if name == "AxisVector4"@ {
            match AxisVector4::spec_parse(s) {
                Err(e) => Err(e),
                Ok((s, value)) => Ok((s, EEParameterView::AxisVector4(value))),
            }
        } else if name == "RotVector"@ {
            match RotVector::spec_parse(s) {
                Err(e) => Err(e),
                Ok((s, value)) => Ok((s, EEParameterView::RotVector(value))),
            }
        } else if name == "AngleVector1"@ {
            match AngleVector1::spec_parse(s) {
                Err(e) => Err(e),
                Ok((s, value)) => Ok((s, EEParameterView::AngleVector1(value))),
            }
        } else if name == "FrameScale"@ {
            match FrameScale::spec_parse(s) {
                Err(e) => Err(e),
                Ok((s, value)) => Ok((s, EEParameterView::FrameScale(value))),
            }
        } else if name == "FrameDiffuse"@ {
            match FrameDiffuse::spec_parse(s) {
                Err(e) => Err(e),
                Ok((s, value)) => Ok((s, EEParameterView::FrameDiffuse(value))),
            }
        } else if name == "FrameBANRotation"@ {
            match FrameBANRotation::spec_parse(s) {
                Err(e) => Err(e),
                Ok((s, value)) => Ok((s, EEParameterView::FrameBANRotation(value))),
            }
        } else if name == "FrameBANPosition"@ {
            match FrameBANPosition::spec_parse(s) {
                Err(e) => Err(e),
                Ok((s, value)) => Ok((s, EEParameterView::FrameBANPosition(value))),
            }
        } else if name == "FrameTextureSlide"@ {
            match FrameTextureSlide::spec_parse(s) {
                Err(e) => Err(e),
                Ok((s, value)) => Ok((s, EEParameterView::FrameTextureSlide(value))),
            }
        } else if name == "BSAnimation"@ {
            match BSAnimation::spec_parse(s) {
                Err(e) => Err(e),
                Ok((s, value)) => Ok((s, EEParameterView::BSAnimation(value))),
            }
        } else if name == "BlendeScaleGraphPointer"@ {
            match spec_le_f32(s) {
                Err(e) => Err(e),
                Ok((s, value)) => Ok((s, EEParameterView::BlendScaleGraphPointer(value))),
            }
        } else if name == "StaticEmit"@ {
            match EFStaticEmit::spec_parse(s) {
                Err(e) => Err(e),
                Ok((s, value)) => Ok((s, EEParameterView::StaticEmit(value))),
            }
        } else if name == "BlendDiffuseGraph"@ {
            match EEBlend::spec_parser(Each::<Color>::it(), s) {
                Err(e) => Err(e),
                Ok((s, value)) => Ok((s, EEParameterView::BlendDiffuseGraph(value))),
            }
        } else if name == "BlendScaleGraph"@ {
            match EEBlend::spec_parser(Each::<Vector3>::it(), s) {
                Err(e) => Err(e),
                Ok((s, value)) => Ok((s, EEParameterView::BlendScaleGraph(value))),
            }
        } else {
            Err(DecodeErrorView::UnknownVariant(name))
        }
    }

    /// Decodes the value of the parameter type that `name` selects.
    pub fn parser_for<'a>(name: &str, i: &'a [u8]) -> (r: IResult<'a, EEParameter>)
        ensures
            decodes(r, i@, Self::spec_parser_for(name@, i@)),
    {
        reveal(EEParameter::spec_parser_for);
        if text_eq(name, "Float") {
            let (i, value) = le_f32(i)?;
            return Ok((i, EEParameter::Float(value)));
        }
        if text_eq(name, "Vector") {
            let (i, value) = vector3_f32(i)?;
            return Ok((i, EEParameter::Vector(value)));
        }
        if text_eq(name, "Matrix") {
            let (i, value) = matrix4x4(i)?;
            return Ok((i, EEParameter::Matrix(value)));
        }
        if text_eq(name, "AxisVector4") {
            let (i, value) = AxisVector4::parse(i)?;
            return Ok((i, EEParameter::AxisVector4(value)));
        }
        if text_eq(name, "RotVector") {
            let (i, value) = RotVector::parse(i)?;
            return Ok((i, EEParameter::RotVector(value)));
        }
        if text_eq(name, "AngleVector1") {
            let (i, value) = AngleVector1::parse(i)?;
            return Ok((i, EEParameter::AngleVector1(value)));
        }
        if text_eq(name, "FrameScale") {
            let (i, value) = FrameScale::parse(i)?;
            return Ok((i, EEParameter::FrameScale(value)));
        }
        if text_eq(name, "FrameDiffuse") {
            let (i, value) = FrameDiffuse::parse(i)?;
            return Ok((i, EEParameter::FrameDiffuse(value)));
        }
        if text_eq(name, "FrameBANRotation") {
            let (i, value) = FrameBANRotation::parse(i)?;
            return Ok((i, EEParameter::FrameBANRotation(value)));
        }
        if text_eq(name, "FrameBANPosition") {
            let (i, value) = FrameBANPosition::parse(i)?;
            return Ok((i, EEParameter::FrameBANPosition(value)));
        }
        if text_eq(name, "FrameTextureSlide") {
            let (i, value) = FrameTextureSlide::parse(i)?;
            return Ok((i, EEParameter::FrameTextureSlide(value)));
        }
        if text_eq(name, "BSAnimation") {
            let (i, value) = BSAnimation::parse(i)?;
            return Ok((i, EEParameter::BSAnimation(value)));
        }
        if text_eq(name, "BlendeScaleGraphPointer") {
            let (i, value) = le_f32(i)?;
            return Ok((i, EEParameter::BlendScaleGraphPointer(value)));
        }
        if text_eq(name, "StaticEmit") {
            let (i, value) = EFStaticEmit::parse(i)?;
            return Ok((i, EEParameter::StaticEmit(value)));
        }
        if text_eq(name, "BlendDiffuseGraph") {
            let (i, value) = EEBlend::parser(Each::<Color>::new(), i)?;
            return Ok((i, EEParameter::BlendDiffuseGraph(value)));
        }
        if text_eq(name, "BlendScaleGraph") {
            let (i, value) = EEBlend::parser(Each::<Vector3>::new(), i)?;
            return Ok((i, EEParameter::BlendScaleGraph(value)));
        }
        Err(DecodeError::UnknownVariant(name.to_owned()))
    }

    /// A name that selects no variant is refused with `UnknownVariant`, which
    /// holds the name. No variant stands in for it, whatever the input.
    pub proof fn lemma_unknown_name(name: Seq<char>, s: Seq<u8>)
        ensures
            !Self::is_known_tag(name) ==> Self::spec_parser_for(name, s) == Err::<(Seq<u8>, EEParameterView), _>(
                DecodeErrorView::UnknownVariant(name),
            ),
            Self::spec_parser_for(name, s) is Ok ==> Self::is_known_tag(name),
    {
        reveal(EEParameter::spec_parser_for);
    }
}

/// The payload that a name selects is read from the front of the cursor.
pub broadcast proof fn lemma_eeparameter_payload_tail(name: Seq<char>, s: Seq<u8>)
    ensures
        #[trigger] EEParameter::spec_parser_for(name, s) matches Ok((rest, _)) ==> is_tail(rest, s),
{
    reveal(EEParameter::spec_parser_for);
    broadcast use group_tails;
}

impl Parse for EEParameter {
    /// A sized string, taken as the name, then what the name selects.
    open spec fn spec_parse(s: Seq<u8>) -> Parsed<EEParameterView> {
        match spec_sized_string(s) {
            Err(e) => Err(e),
            Ok((s, name)) => Self::spec_parser_for(name, s),
        }
    }

    fn parse<'a>(i: &'a [u8]) -> (r: IResult<'a, EEParameter>) {
        let (i, name) = sized_string(i)?;
        Self::parser_for(name.as_str(), i)
    }

    proof fn lemma_tail(s: Seq<u8>) {
        broadcast use group_tails;
        broadcast use lemma_eeparameter_payload_tail;
    }
}

/// The parameter block of a node.
#[derive(Clone, Debug, PartialEq, Eq)]
pub struct EEGlobalData {
    pub unk0: u32,
    pub parameters: Vec<EEParameter>,
}

/// The mathematical value of a [`EEGlobalData`].
pub struct EEGlobalDataView {
    pub unk0: u32,
    pub parameters: Seq<EEParameterView>,
}

impl DeepView for EEGlobalData {
    type V = EEGlobalDataView;

    open spec fn deep_view(&self) -> EEGlobalDataView {
        EEGlobalDataView {
            unk0: self.unk0,
            parameters: self.parameters.deep_view(),
        }
    }
}

impl Parse for EEGlobalData {
    #[verifier::opaque]
    open spec fn spec_parse(s: Seq<u8>) -> Parsed<EEGlobalDataView> {
        match spec_le_u32(s) { Err(e) => Err(e), Ok((s, unk0)) =>
        match spec_parse_objects(
            CountWidth::U32,
            &Each::<EEParameter>::it(),
            s,
        ) { Err(e) => Err(e), Ok((s, parameters)) =>
        Ok((s, EEGlobalDataView { unk0, parameters }))
        }}
    }

    fn parse<'a>(i: &'a [u8]) -> (r: IResult<'a, EEGlobalData>) {
        reveal(<EEGlobalData as Parse>::spec_parse);
        let (i, unk0) = le_u32(i)?;
        let (i, parameters) = parse_objects_u32(&Each::<EEParameter>::new(), i)?;
        Ok((i, EEGlobalData { unk0, parameters }))
    }

    proof fn lemma_tail(s: Seq<u8>) {
        reveal(<EEGlobalData as Parse>::spec_parse);
        broadcast use group_tails;
    }
}

/// A controller that a node declares, chosen by its name.
#[derive(Clone, Debug, PartialEq, Eq)]
#[allow(inconsistent_fields)]
pub enum EFController {
    NormalTimeLife,
    NormalTimeLoopLife,
    StaticEmit(EFStaticEmit),
    Program(EEProgram),
    LinkMode {
        unk0: u32,
        unk1: u32,
        unk2: u32,
        unk3: u32,
    },
    Ban(BSAnimation),
    ViewMode(ViewMode),
    Shape {
        shape: RenderShape,
        resource: EEResource,
    },
    ScaleGraph {
        scale_x: EEBlend<F32>,
        scale_y: EEBlend<F32>,
        scale_z: EEBlend<F32>,
        float0: F32,
        float1: F32,
    },
    DiffuseGraph {
        scale_x: EEBlend<u8>,
        scale_y: EEBlend<Color>,
    },
}

/// The mathematical value of a [`EFController`].
#[allow(inconsistent_fields)]
pub enum EFControllerView {
    NormalTimeLife,
    NormalTimeLoopLife,
    StaticEmit(EFStaticEmit),
    Program(Seq<Option<EESourceDataView>>),
    LinkMode {
        unk0: u32,
        unk1: u32,
        unk2: u32,
        unk3: u32,
    },
    Ban(Seq<Seq<char>>),
    ViewMode(ViewMode),
    Shape {
        shape: RenderShape,
        resource: EEResourceView,
    },
    ScaleGraph {
        scale_x: EEBlendView<F32>,
        scale_y: EEBlendView<F32>,
        scale_z: EEBlendView<F32>,
        float0: F32,
        float1: F32,
    },
    DiffuseGraph {
        scale_x: EEBlendView<u8>,
        scale_y: EEBlendView<Color>,
    },
}

impl DeepView for EFController {
    type V = EFControllerView;

    open spec fn deep_view(&self) -> EFControllerView {
        match self {
            EFController::NormalTimeLife => EFControllerView::NormalTimeLife,
            EFController::NormalTimeLoopLife => EFControllerView::NormalTimeLoopLife,
            EFController::StaticEmit(value) => EFControllerView::StaticEmit(*value),
            EFController::Program(value) => EFControllerView::Program(value.deep_view()),
            EFController::LinkMode { unk0, unk1, unk2, unk3 } => EFControllerView::LinkMode {
                unk0: *unk0,
                unk1: *unk1,
                unk2: *unk2,
                unk3: *unk3,
            },
            EFController::Ban(value) => EFControllerView::Ban(value.deep_view()),
            EFController::ViewMode(value) => EFControllerView::ViewMode(*value),
            EFController::Shape { shape, resource } => EFControllerView::Shape {
                shape: *shape,
                resource: resource.deep_view(),
            },
            EFController::ScaleGraph { scale_x, scale_y, scale_z, float0, float1 } => EFControllerView::ScaleGraph {
                scale_x: scale_x.deep_view(),
                scale_y: scale_y.deep_view(),
                scale_z: scale_z.deep_view(),
                float0: *float0,
                float1: *float1,
            },
            EFController::DiffuseGraph { scale_x, scale_y } => EFControllerView::DiffuseGraph {
                scale_x: scale_x.deep_view(),
                scale_y: scale_y.deep_view(),
            },
        }
    }
}

impl EFController {
    /// Whether `name` is one of the names that select a variant.
    pub open spec fn is_known_tag(name: Seq<char>) -> bool {
        ||| name == "NormalTimeLife"@
        ||| name == "NormalTimeLoopLife"@
        ||| name == "StaticEmit"@
        ||| name == "Program"@
        ||| name == "LinkMode"@
        ||| name == "BAN"@
        ||| name == "ViewMode"@
        ||| name == "Shape"@
        ||| name == "ScaleGraph"@
        ||| name == "DiffuseGraph"@
    }

    #[verifier::opaque]
    pub open spec fn spec_parser_for(name: Seq<char>, s: Seq<u8>) -> Parsed<EFControllerView> {
        if name == "NormalTimeLife"@ {
            Ok((s, EFControllerView::NormalTimeLife))
        } else if name == "NormalTimeLoopLife"@ {
            Ok((s, EFControllerView::NormalTimeLoopLife))
        } else if name == "StaticEmit"@ {
            match EFStaticEmit::spec_parse(s) {
                Err(e) => Err(e),
                Ok((s, value)) => Ok((s, EFControllerView::StaticEmit(value))),
            }
        } else if name == "Program"@ {
            match EEProgram::spec_parse(s) {
                Err(e) => Err(e),
                Ok((s, value)) => Ok((s, EFControllerView::Program(value))),
            }
        } else if name == "LinkMode"@ {
            match spec_le_u32(s) { Err(e) => Err(e), Ok((s, unk0)) =>
            match spec_le_u32(s) { Err(e) => Err(e), Ok((s, unk1)) =>
            match spec_le_u32(s) { Err(e) => Err(e), Ok((s, unk2)) =>
            match spec_le_u32(s) { Err(e) => Err(e), Ok((s, unk3)) =>
            Ok((s, EFControllerView::LinkMode { unk0, unk1, unk2, unk3 }))
            }}}}
        } else if name == "BAN"@ {
            match BSAnimation::spec_parse(s) {
                Err(e) => Err(e),
                Ok((s, value)) => Ok((s, EFControllerView::Ban(value))),
            }
        } else if name == "ViewMode"@ {
            match ViewMode::spec_parse(s) {
                Err(e) => Err(e),
                Ok((s, value)) => Ok((s, EFControllerView::ViewMode(value))),
            }
        } else if name == "Shape"@ {
            match RenderShape::spec_parse(s) { Err(e) => Err(e), Ok((s, shape)) =>
            match EEResource::spec_parse(s) { Err(e) => Err(e), Ok((s, resource)) =>
            Ok((s, EFControllerView::Shape { shape, resource }))
            }}
        } else if name == "ScaleGraph"@ {
            match EEBlend::spec_parser(Each::<F32>::it(), s) { Err(e) => Err(e), Ok((s, scale_x)) =>
            match EEBlend::spec_parser(Each::<F32>::it(), s) { Err(e) => Err(e), Ok((s, scale_y)) =>
            match EEBlend::spec_parser(Each::<F32>::it(), s) { Err(e) => Err(e), Ok((s, scale_z)) =>
            match spec_le_f32(s) { Err(e) => Err(e), Ok((s, float0)) =>
            match spec_le_f32(s) { Err(e) => Err(e), Ok((s, float1)) =>
            Ok((s, EFControllerView::ScaleGraph { scale_x, scale_y, scale_z, float0, float1 }))
            }}}}}
        } else if name == "DiffuseGraph"@ {
            match EEBlend::spec_parser(Each::<u8>::it(), s) { Err(e) => Err(e), Ok((s, scale_x)) =>
            match EEBlend::spec_parser(Each::<Color>::it(), s) { Err(e) => Err(e), Ok((s, scale_y)) =>
            Ok((s, EFControllerView::DiffuseGraph { scale_x, scale_y }))
            }}
        } else {
            Err(DecodeErrorView::UnknownVariant(name))
        }
    }

    /// Decodes the payload of the controller that `name` selects.
    pub fn parser_for<'a>(name: &str, i: &'a [u8]) -> (r: IResult<'a, EFController>)
        ensures
            decodes(r, i@, Self::spec_parser_for(name@, i@)),
    {
        reveal(EFController::spec_parser_for);
        if text_eq(name, "NormalTimeLife") {
            return Ok((i, EFController::NormalTimeLife));
        }
        if text_eq(name, "NormalTimeLoopLife") {
            return Ok((i, EFController::NormalTimeLoopLife));
        }
        if text_eq(name, "StaticEmit") {
            let (i, value) = EFStaticEmit::parse(i)?;
            return Ok((i, EFController::StaticEmit(value)));
        }
        if text_eq(name, "Program") {
            let (i, value) = EEProgram::parse(i)?;
            return Ok((i, EFController::Program(value)));
        }
        if text_eq(name, "LinkMode") {
            let (i, unk0) = le_u32(i)?;
            let (i, unk1) = le_u32(i)?;
            let (i, unk2) = le_u32(i)?;
            let (i, unk3) = le_u32(i)?;
            return Ok((i, EFController::LinkMode { unk0, unk1, unk2, unk3 }));
        }
        if text_eq(name, "BAN") {
            let (i, value) = BSAnimation::parse(i)?;
            return Ok((i, EFController::Ban(value)));
        }
        if text_eq(name, "ViewMode") {
            let (i, value) = ViewMode::parse(i)?;
            return Ok((i, EFController::ViewMode(value)));
        }
        if text_eq(name, "Shape") {
            let (i, shape) = RenderShape::parse(i)?;
            let (i, resource) = EEResource::parse(i)?;
            return Ok((i, EFController::Shape { shape, resource }));
        }
        if text_eq(name, "ScaleGraph") {
            let (i, scale_x) = EEBlend::parser(Each::<F32>::new(), i)?;
            let (i, scale_y) = EEBlend::parser(Each::<F32>::new(), i)?;
            let (i, scale_z) = EEBlend::parser(Each::<F32>::new(), i)?;
            let (i, float0) = le_f32(i)?;
            let (i, float1) = le_f32(i)?;
            return Ok((i, EFController::ScaleGraph { scale_x, scale_y, scale_z, float0, float1 }));
        }
        if text_eq(name, "DiffuseGraph") {
            let (i, scale_x) = EEBlend::parser(Each::<u8>::new(), i)?;
            let (i, scale_y) = EEBlend::parser(Each::<Color>::new(), i)?;
            return Ok((i, EFController::DiffuseGraph { scale_x, scale_y }));
        }
        Err(DecodeError::UnknownVariant(name.to_owned()))
    }

    /// A name that selects no variant is refused with `UnknownVariant`, which
    /// holds the name. No variant stands in for it, whatever the input.
    pub proof fn lemma_unknown_name(name: Seq<char>, s: Seq<u8>)
        ensures
            !Self::is_known_tag(name) ==> Self::spec_parser_for(name, s) == Err::<(Seq<u8>, EFControllerView), _>(
                DecodeErrorView::UnknownVariant(name),
            ),
            Self::spec_parser_for(name, s) is Ok ==> Self::is_known_tag(name),
    {
        reveal(EFController::spec_parser_for);
    }
}

/// The payload that a name selects is read from the front of the cursor.
pub broadcast proof fn lemma_efcontroller_payload_tail(name: Seq<char>, s: Seq<u8>)
    ensures
        #[trigger] EFController::spec_parser_for(name, s) matches Ok((rest, _)) ==> is_tail(rest, s),
{
    reveal(EFController::spec_parser_for);
    broadcast use group_tails;
}

impl Parse for EFController {
    /// A sized string, taken as the name, then what the name selects.
    open spec fn spec_parse(s: Seq<u8>) -> Parsed<EFControllerView> {
        match spec_sized_string(s) {
            Err(e) => Err(e),
            Ok((s, name)) => Self::spec_parser_for(name, s),
        }
    }

    fn parse<'a>(i: &'a [u8]) -> (r: IResult<'a, EFController>) {
        let (i, name) = sized_string(i)?;
        Self::parser_for(name.as_str(), i)
    }

    proof fn lemma_tail(s: Seq<u8>) {
        broadcast use group_tails;
        broadcast use lemma_efcontroller_payload_tail;
    }
}

impl EFController {
    /// Reads a sized string, takes it as the name of a controller and decodes
    /// that controller's payload.
    pub fn parse<'a>(i: &'a [u8]) -> (r: IResult<'a, EFController>)
        ensures
            decodes(r, i@, <EFController as Parse>::spec_parse(i@)),
    {
        <EFController as Parse>::parse(i)
    }
}

/// One node of an effect tree. A node owns its children; nothing points
/// back at a parent, so a tree has no cycle.
#[derive(Debug, PartialEq, Eq)]
pub struct EFStoredObject {
    pub name: String,
    pub controllers: Vec<EFController>,
    pub global_data: EEGlobalData,
    pub empty_sl0: EESourceList,
    /// `StaticEmit`.
    pub emitter_sl: EESourceList,
    pub empty_sl2: EESourceList,
    /// `NormalTimeExtinct`, `NormalTimeLoop` or `NeverExtinct`.
    pub lifetime_source: EESource,
    /// `ProgramUpdate`.
    pub program_sl: EESourceList,
    pub unkb0: u8,
    pub unkb1: u8,
    pub unk0: u32,
    pub unk1: u32,
    pub unk2: u32,
    pub unkb2: u8,
    pub unk3: u32,
    pub unkb3: u8,
    /// One of the view modes.
    pub view_mode_source: EESource,
    pub resource: EEResource,
    /// One of the render shapes.
    pub render_source: EESource,
    pub empty_sl3: EESourceList,
    /// The commands that move, turn, scale and colour the particles.
    pub render_sl: EESourceList,
    pub children: Vec<EFStoredObject>,
}

/// The mathematical value of an [`EFStoredObject`].
pub struct EFStoredObjectView {
    pub name: Seq<char>,
    pub controllers: Seq<EFControllerView>,
    pub global_data: EEGlobalDataView,
    pub empty_sl0: Seq<Option<EESourceDataView>>,
    pub emitter_sl: Seq<Option<EESourceDataView>>,
    pub empty_sl2: Seq<Option<EESourceDataView>>,
    pub lifetime_source: Option<EESourceDataView>,
    pub program_sl: Seq<Option<EESourceDataView>>,
    pub unkb0: u8,
    pub unkb1: u8,
    pub unk0: u32,
    pub unk1: u32,
    pub unk2: u32,
    pub unkb2: u8,
    pub unk3: u32,
    pub unkb3: u8,
    pub view_mode_source: Option<EESourceDataView>,
    pub resource: EEResourceView,
    pub render_source: Option<EESourceDataView>,
    pub empty_sl3: Seq<Option<EESourceDataView>>,
    pub render_sl: Seq<Option<EESourceDataView>>,
    pub children: Seq<EFStoredObjectView>,
}

impl DeepView for EFStoredObject {
    type V = EFStoredObjectView;

    open spec fn deep_view(&self) -> EFStoredObjectView {
        self.value()
    }
}

impl EFStoredObject {
    /// The node's mathematical value: its fields' values, and the values of
    /// its children.
    pub open spec fn value(&self) -> EFStoredObjectView
        decreases self,
    {
        EFStoredObjectView {
            name: self.name.deep_view(),
            controllers: self.controllers.deep_view(),
            global_data: self.global_data.deep_view(),
            empty_sl0: self.empty_sl0.deep_view(),
            emitter_sl: self.emitter_sl.deep_view(),
            empty_sl2: self.empty_sl2.deep_view(),
            lifetime_source: self.lifetime_source.deep_view(),
            program_sl: self.program_sl.deep_view(),
            unkb0: self.unkb0,
            unkb1: self.unkb1,
            unk0: self.unk0,
            unk1: self.unk1,
            unk2: self.unk2,
            unkb2: self.unkb2,
            unk3: self.unk3,
            unkb3: self.unkb3,
            view_mode_source: self.view_mode_source.deep_view(),
            resource: self.resource.deep_view(),
            render_source: self.render_source.deep_view(),
            empty_sl3: self.empty_sl3.deep_view(),
            render_sl: self.render_sl.deep_view(),
            children: Seq::new(
                self.children@.len(),
                |k: int|
                    if 0 <= k < self.children@.len() {
                        self.children@[k].value()
                    } else {
                        arbitrary()
                    },
            ),
        }
    }

    /// All of a node but its children, read from the cursor `s` that starts
    /// at the node; with it the number of children that follow.
    ///
    /// First come the data offset, the name and the controllers. The rest is
    /// not read from where the controllers ended but from `data_offset + 4`
    /// bytes behind the node's start: an offset within the node, not within
    /// the file. There stand the parameter block, the slots, the scalar
    /// fields and the child count.
    #[verifier::opaque]
    pub open spec fn spec_fields(s: Seq<u8>) -> Parsed<(EFStoredObjectView, u32)> {
        match spec_le_u32(s) { Err(e) => Err(e), Ok((t, data_offset)) =>
        match spec_sized_string(t) { Err(e) => Err(e), Ok((t, name)) =>
        match spec_parse_objects(CountWidth::U32, &Each::<EFController>::it(), t) { Err(e) => Err(e), Ok((_, controllers)) =>
        match spec_take(s, data_offset as nat + 4) { Err(e) => Err(e), Ok((t, _)) =>
        match EEGlobalData::spec_parse(t) { Err(e) => Err(e), Ok((t, global_data)) =>
        match EESourceList::spec_parse(t) { Err(e) => Err(e), Ok((t, empty_sl0)) =>
        match EESourceList::spec_parse(t) { Err(e) => Err(e), Ok((t, emitter_sl)) =>
        match EESourceList::spec_parse(t) { Err(e) => Err(e), Ok((t, empty_sl2)) =>
        match EESource::spec_parse(t) { Err(e) => Err(e), Ok((t, lifetime_source)) =>
        match EESourceList::spec_parse(t) { Err(e) => Err(e), Ok((t, program_sl)) =>
        match spec_le_u8(t) { Err(e) => Err(e), Ok((t, unkb0)) =>
        match spec_le_u8(t) { Err(e) => Err(e), Ok((t, unkb1)) =>
        match spec_le_u32(t) { Err(e) => Err(e), Ok((t, unk0)) =>
        match spec_le_u32(t) { Err(e) => Err(e), Ok((t, unk1)) =>
        match spec_le_u32(t) { Err(e) => Err(e), Ok((t, unk2)) =>
        match spec_le_u8(t) { Err(e) => Err(e), Ok((t, unkb2)) =>
        match spec_le_u32(t) { Err(e) => Err(e), Ok((t, unk3)) =>
        match spec_le_u8(t) { Err(e) => Err(e), Ok((t, unkb3)) =>
        match EESource::spec_parse(t) { Err(e) => Err(e), Ok((t, view_mode_source)) =>
        match EEResource::spec_parse(t) { Err(e) => Err(e), Ok((t, resource)) =>
        match EESource::spec_parse(t) { Err(e) => Err(e), Ok((t, render_source)) =>
        match EESourceList::spec_parse(t) { Err(e) => Err(e), Ok((t, empty_sl3)) =>
        match EESourceList::spec_parse(t) { Err(e) => Err(e), Ok((t, render_sl)) =>
        match spec_le_u32(t) { Err(e) => Err(e), Ok((t, child_count)) =>
        Ok((t, (EFStoredObjectView {
            name,
            controllers,
            global_data,
            empty_sl0,
            emitter_sl,
            empty_sl2,
            lifetime_source,
            program_sl,
            unkb0,
            unkb1,
            unk0,
            unk1,
            unk2,
            unkb2,
            unk3,
            unkb3,
            view_mode_source,
            resource,
            render_source,
            empty_sl3,
            render_sl,
            children: Seq::empty(),
        }, child_count)))
        }}}}}}}}}}}}}}}}}}}}}}}}
    }

    /// One node: its fields, then its children, each child a node.
    ///
    /// The child count is read before any child, and a child's cursor is
    /// shorter than its parent's. The test `t.len() < s.len()` says so where
    /// the definition needs it to end; it holds of every input
    /// ([`lemma_fields_consume`]).
    pub open spec fn spec_parse(s: Seq<u8>) -> Parsed<EFStoredObjectView>
        decreases s.len(), 0nat,
    {
        match Self::spec_fields(s) {
            Err(e) => Err(e),
            Ok((t, (fields, child_count))) => if t.len() < s.len() {
                match Self::spec_children(t, child_count as nat) {
                    Err(e) => Err(e),
                    Ok((t, children)) => Ok((t, EFStoredObjectView { children, ..fields })),
                }
            } else {
                Err(DecodeErrorView::UnexpectedEof)
            },
        }
    }

    /// `n` nodes in a row: `n - 1` nodes, then one more from where they
    /// ended. The first failure is the failure of the whole.
    ///
    /// The test `t.len() <= s.len()` holds of every input
    /// ([`Self::lemma_children_tail`]).
    pub open spec fn spec_children(s: Seq<u8>, n: nat) -> Parsed<Seq<EFStoredObjectView>>
        decreases s.len(), n + 1,
    {
        if n == 0 {
            Ok((s, Seq::empty()))
        } else {
            match Self::spec_children(s, (n - 1) as nat) {
                Err(e) => Err(e),
                Ok((t, nodes)) => if t.len() <= s.len() {
                    match Self::spec_parse(t) {
                        Err(e) => Err(e),
                        Ok((t, node)) => Ok((t, nodes.push(node))),
                    }
                } else {
                    Err(DecodeErrorView::UnexpectedEof)
                },
            }
        }
    }

    /// The children of a node's value are the values of its children.
    pub proof fn lemma_children_view(&self)
        ensures
            self.deep_view().children == self.children.deep_view(),
    {
        let mine = self.deep_view().children;
        let theirs = self.children.deep_view();
        assert(mine.len() == theirs.len());
        assert forall|k: int| 0 <= k < mine.len() implies mine[k] == theirs[k] by {
            assert(mine[k] == self.children@[k].value());
        }
        assert(mine =~= theirs);
    }

    /// A node is read from the front of its cursor, and is longer than
    /// nothing: what is left behind it is a tail of what it was read from,
    /// and shorter.
    pub proof fn lemma_parse_tail(s: Seq<u8>)
        ensures
            Self::spec_parse(s) matches Ok((rest, _)) ==> is_tail(rest, s) && rest.len() < s.len(),
        decreases s.len(), 0nat,
    {
        broadcast use lemma_fields_consume, crate::decode::lemma_tail_of_tail, crate::decode::lemma_tail_len;
        if let Ok((t, (_, child_count))) = Self::spec_fields(s) {
            if t.len() < s.len() {
                Self::lemma_children_tail(t, child_count as nat);
            }
        }
    }

    /// Children are read from the front of the cursor. So the length test
    /// in [`Self::spec_children`] holds wherever it is reached.
    pub proof fn lemma_children_tail(s: Seq<u8>, n: nat)
        ensures
            Self::spec_children(s, n) matches Ok((rest, _)) ==> is_tail(rest, s),
        decreases s.len(), n + 1,
    {
        broadcast use crate::decode::lemma_tail_of_tail, crate::decode::lemma_tail_of_itself;

        if n > 0 {
            Self::lemma_children_tail(s, (n - 1) as nat);
            if let Ok((t, _)) = Self::spec_children(s, (n - 1) as nat) {
                if t.len() <= s.len() {
                    Self::lemma_parse_tail(t);
                }
            }
        }
    }

    /// Once the first `k` children fail to decode, so does every longer
    /// run of children from the same input, with the same error.
    pub proof fn lemma_children_fail_fast(s: Seq<u8>, k: nat, n: nat)
        requires
            k <= n,
            Self::spec_children(s, k) is Err,
        ensures
            Self::spec_children(s, n) == Self::spec_children(s, k),
        decreases n,
    {
        if k < n {
            Self::lemma_children_fail_fast(s, k, (n - 1) as nat);
        }
    }

    /// Decodes all of a node but its children, and the number of children.
    pub fn parse_fields<'a>(i: &'a [u8]) -> (r: IResult<'a, (EFStoredObject, u32)>)
        ensures
            decodes(r, i@, Self::spec_fields(i@)),
            r matches Ok((rest, _)) ==> rest@.len() < i@.len(),
    {
        reveal(EFStoredObject::spec_fields);
        reveal(spec_take);
        let (t, data_offset) = le_u32(i)?;
        let (t, name) = sized_string(t)?;
        let (_, controllers) = parse_objects_u32(&Each::<EFController>::new(), t)?;
        if i.len() < 4 || data_offset as usize > i.len() - 4 {
            return Err(DecodeError::UnexpectedEof);
        }
        let (t, _) = take(i, data_offset as usize + 4)?;
        let (t, global_data) = EEGlobalData::parse(t)?;
        let (t, empty_sl0) = EESourceList::parse(t)?;
        let (t, emitter_sl) = EESourceList::parse(t)?;
        let (t, empty_sl2) = EESourceList::parse(t)?;
        let (t, lifetime_source) = EESource::parse(t)?;
        let (t, program_sl) = EESourceList::parse(t)?;
        let (t, unkb0) = le_u8(t)?;
        let (t, unkb1) = le_u8(t)?;
        let (t, unk0) = le_u32(t)?;
        let (t, unk1) = le_u32(t)?;
        let (t, unk2) = le_u32(t)?;
        let (t, unkb2) = le_u8(t)?;
        let (t, unk3) = le_u32(t)?;
        let (t, unkb3) = le_u8(t)?;
        let (t, view_mode_source) = EESource::parse(t)?;
        let (t, resource) = EEResource::parse(t)?;
        let (t, render_source) = EESource::parse(t)?;
        let (t, empty_sl3) = EESourceList::parse(t)?;
        let (t, render_sl) = EESourceList::parse(t)?;
        let (t, child_count) = le_u32(t)?;
        let node = EFStoredObject {
            name,
            controllers,
            global_data,
            empty_sl0,
            emitter_sl,
            empty_sl2,
            lifetime_source,
            program_sl,
            unkb0,
            unkb1,
            unk0,
            unk1,
            unk2,
            unkb2,
            unk3,
            unkb3,
            view_mode_source,
            resource,
            render_source,
            empty_sl3,
            render_sl,
            children: Vec::new(),
        };
        assert(node.deep_view().children =~= Seq::empty());
        Ok((t, (node, child_count)))
    }

    /// Decodes one node and, by calling itself, all that hangs below it.
    pub fn parse<'a>(i: &'a [u8]) -> (r: IResult<'a, EFStoredObject>)
        ensures
            decodes(r, i@, Self::spec_parse(i@)),
        decreases i@.len(), 0nat,
    {
        let (t, (fields, child_count)) = Self::parse_fields(i)?;
        let (t, children) = Self::parse_children(t, child_count as usize)?;
        let mut node = fields;
        node.children = children;
        proof {
            node.lemma_children_view();
        }
        Ok((t, node))
    }

    /// Decodes `n` nodes, each from where the one before it ended.
    pub fn parse_children<'a>(i: &'a [u8], n: usize) -> (r: IResult<'a, Vec<EFStoredObject>>)
        ensures
            decodes(r, i@, Self::spec_children(i@, n as nat)),
        decreases i@.len(), n + 1,
    {
        let mut nodes: Vec<EFStoredObject> = Vec::new();
        let mut cursor = i;
        let mut k: usize = 0;
        assert(nodes.deep_view() =~= Seq::empty());
        while k < n
            invariant
                k <= n,
                cursor@.len() <= i@.len(),
                Self::spec_children(i@, k as nat) == Ok::<_, DecodeErrorView>((cursor@, nodes.deep_view())),
            decreases n - k,
        {
            match Self::parse(cursor) {
                Err(e) => {
                    proof {
                        Self::lemma_children_fail_fast(i@, (k + 1) as nat, n as nat);
                    }
                    return Err(e);
                },
                Ok((rest, node)) => {
                    let ghost before = nodes.deep_view();
                    nodes.push(node);
                    assert(nodes.deep_view() =~= before.push(node.deep_view()));
                    cursor = rest;
                    k += 1;
                },
            }
        }
        Ok((cursor, nodes))
    }
}

/// The fields of a node take at least the four bytes of the data offset:
/// what they leave is a tail of what they were read from, and shorter. So
/// the length test in [`EFStoredObject::spec_parse`] holds wherever it is
/// reached.
pub broadcast proof fn lemma_fields_consume(s: Seq<u8>)
    ensures
        #[trigger] EFStoredObject::spec_fields(s) matches Ok((rest, _)) ==> is_tail(rest, s) && rest.len() + 4
            <= s.len(),
{
    reveal(EFStoredObject::spec_fields);
    broadcast use group_tails;
}

/// A node leaves a tail of the cursor it was read from.
pub broadcast proof fn lemma_node_tail(s: Seq<u8>)
    ensures
        #[trigger] EFStoredObject::spec_parse(s) matches Ok((rest, _)) ==> is_tail(rest, s),
{
    EFStoredObject::lemma_parse_tail(s);
}

/// An effect file: the header, then the root node with all that hangs below it.
#[derive(Debug, PartialEq, Eq)]
pub struct JmxvEff {
    pub header: JmxvEffHeader,
    pub root: EFStoredObject,
}

/// The mathematical value of a [`JmxvEff`].
pub struct JmxvEffView {
    pub header: JmxvEffHeaderView,
    pub root: EFStoredObjectView,
}

impl DeepView for JmxvEff {
    type V = JmxvEffView;

    open spec fn deep_view(&self) -> JmxvEffView {
        JmxvEffView {
            header: self.header.deep_view(),
            root: self.root.deep_view(),
        }
    }
}

impl Parse for JmxvEff {
    #[verifier::opaque]
    open spec fn spec_parse(s: Seq<u8>) -> Parsed<JmxvEffView> {
        match JmxvEffHeader::spec_parse(s) { Err(e) => Err(e), Ok((s, header)) =>
        match EFStoredObject::spec_parse(s) { Err(e) => Err(e), Ok((s, root)) =>
        Ok((s, JmxvEffView { header, root }))
        }}
    }

    fn parse<'a>(i: &'a [u8]) -> (r: IResult<'a, JmxvEff>) {
        reveal(<JmxvEff as Parse>::spec_parse);
        let (i, header) = JmxvEffHeader::parse(i)?;
        let (i, root) = EFStoredObject::parse(i)?;
        Ok((i, JmxvEff { header, root }))
    }

    proof fn lemma_tail(s: Seq<u8>) {
        reveal(<JmxvEff as Parse>::spec_parse);
        broadcast use group_tails;
        broadcast use lemma_node_tail;
    }
}

impl JmxvEff {
    /// Decodes an effect file. Any failure, in whatever node, is the failure of
    /// the whole: no part of the tree is handed out.
    pub fn parse<'a>(i: &'a [u8]) -> (r: IResult<'a, JmxvEff>)
        ensures
            decodes(r, i@, <JmxvEff as Parse>::spec_parse(i@)),
    {
        <JmxvEff as Parse>::parse(i)
    }
}

impl JmxvEff {
    /// An input whose magic tag or version suffix is none of the supported
    /// ones is refused with `TagMismatch`: nothing behind the tag, or behind
    /// the version, is looked at.
    pub proof fn lemma_unrecognized_is_tag_mismatch(s: Seq<u8>)
        ensures
            !MAGIC@.is_prefix_of(s) ==> <JmxvEff as Parse>::spec_parse(s) == Err::<(Seq<u8>, JmxvEffView), _>(
                DecodeErrorView::TagMismatch,
            ),
            MAGIC@.is_prefix_of(s) && s.len() >= 12 && !JmxvEffHeader::is_supported_version(s.subrange(8, 12))
                ==> <JmxvEff as Parse>::spec_parse(s) == Err::<(Seq<u8>, JmxvEffView), _>(
                DecodeErrorView::TagMismatch,
            ),
    {
        reveal(<JmxvEff as Parse>::spec_parse);
        JmxvEffHeader::lemma_unrecognized_is_tag_mismatch(s);
    }

    /// The root node is read from behind the header: twelve bytes into the
    /// file for the versions `0010` and `0011`, sixteen for `0012`,
    /// twenty-eight for `0013`.
    pub proof fn lemma_root_position(s: Seq<u8>)
        requires
            <JmxvEff as Parse>::spec_parse(s) is Ok,
        ensures
            JmxvEffHeader::is_supported_version(s.subrange(8, 12)),
            EFStoredObject::spec_parse(s.skip(12 + 4 * JmxvEffHeader::extra_fields(s.subrange(8, 12)) as int)) is Ok,
            <JmxvEff as Parse>::spec_parse(s)->Ok_0.1.root == EFStoredObject::spec_parse(
                s.skip(12 + 4 * JmxvEffHeader::extra_fields(s.subrange(8, 12)) as int),
            )->Ok_0.1,
    {
        reveal(<JmxvEff as Parse>::spec_parse);
        JmxvEffHeader::lemma_header_length(s);
    }
}

} // verus!
