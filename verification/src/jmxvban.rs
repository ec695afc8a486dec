//! Animations (`.ban`): key frames for each bone.
use vstd::prelude::*;

use crate::decode::{decodes, Each, group_tails, IResult, Parse, Parsed};
use crate::error::DecodeErrorView;
use crate::math::{Vector3, Vector4};
use crate::parser_ext::combinator::{bool_u32, spec_bool_u32};
use crate::parser_ext::complete::{spec_tag, spec_version, tag, version};
use crate::parser_ext::multi::{CountWidth, parse_objects_u32, spec_parse_objects};
use crate::parser_ext::number::{
    le_u32, spec_le_u32, spec_vector3_f32, spec_vector4_f32, vector3_f32, vector4_f32,
};
use crate::parser_ext::string::{sized_string, spec_sized_string};

verus! {

/// The magic tag of an animation file: `JMXVBAN `.
pub const MAGIC: [u8; 8] = [0x4A, 0x4D, 0x58, 0x56, 0x42, 0x41, 0x4E, 0x20];

/// The one version suffix that is supported: `0102`.
pub const VERSION_0102: [u8; 4] = [0x30, 0x31, 0x30, 0x32];

#[derive(Debug, PartialEq, Eq)]
pub struct KeyFrame {
    pub rotation: Vector4,
    pub translation: Vector3,
}

impl DeepView for KeyFrame {
    type V = KeyFrame;

    open spec fn deep_view(&self) -> KeyFrame {
        *self
    }
}

impl Parse for KeyFrame {
    #[verifier::opaque]
    open spec fn spec_parse(s: Seq<u8>) -> Parsed<KeyFrame> {
        match spec_vector4_f32(s) { Err(e) => Err(e), Ok((s, rotation)) =>
        match spec_vector3_f32(s) { Err(e) => Err(e), Ok((s, translation)) =>
        Ok((s, KeyFrame { rotation, translation }))
        }}
    }

    fn parse<'a>(i: &'a [u8]) -> (r: IResult<'a, KeyFrame>) {
        reveal(<KeyFrame as Parse>::spec_parse);
        let (i, rotation) = vector4_f32(i)?;
        let (i, translation) = vector3_f32(i)?;
        Ok((i, KeyFrame { rotation, translation }))
    }

    proof fn lemma_tail(s: Seq<u8>) {
        reveal(<KeyFrame as Parse>::spec_parse);
        broadcast use group_tails;
    }
}

impl KeyFrame {
    /// On the wire a value of this type is 28 bytes long: it decodes from
    /// every input that holds as many, and from no other.
    pub broadcast proof fn lemma_fixed_size(s: Seq<u8>)
        ensures
            #![trigger <KeyFrame as Parse>::spec_parse(s)]
            match <KeyFrame as Parse>::spec_parse(s) {
                Ok((rest, _)) => s.len() >= 28 && rest.len() + 28 == s.len(),
                Err(e) => s.len() < 28 && e == DecodeErrorView::UnexpectedEof,
            },
    {
        reveal(<KeyFrame as Parse>::spec_parse);
        broadcast use group_tails;
        broadcast use crate::parser_ext::number::group_sizes;
    }
}

#[derive(Debug, PartialEq, Eq)]
pub struct AnimatedBone {
    pub name: String,
    pub keyframes: Vec<KeyFrame>,
}

/// The mathematical value of a [`AnimatedBone`].
pub struct AnimatedBoneView {
    pub name: Seq<char>,
    pub keyframes: Seq<KeyFrame>,
}

impl DeepView for AnimatedBone {
    type V = AnimatedBoneView;

    open spec fn deep_view(&self) -> AnimatedBoneView {
        AnimatedBoneView {
            name: self.name.deep_view(),
            keyframes: self.keyframes.deep_view(),
        }
    }
}

impl Parse for AnimatedBone {
    #[verifier::opaque]
    open spec fn spec_parse(s: Seq<u8>) -> Parsed<AnimatedBoneView> {
        match spec_sized_string(s) { Err(e) => Err(e), Ok((s, name)) =>
        match spec_parse_objects(
            CountWidth::U32,
            &Each::<KeyFrame>::it(),
            s,
        ) { Err(e) => Err(e), Ok((s, keyframes)) =>
        Ok((s, AnimatedBoneView { name, keyframes }))
        }}
    }

    fn parse<'a>(i: &'a [u8]) -> (r: IResult<'a, AnimatedBone>) {
        reveal(<AnimatedBone as Parse>::spec_parse);
        let (i, name) = sized_string(i)?;
        let (i, keyframes) = parse_objects_u32(&Each::<KeyFrame>::new(), i)?;
        Ok((i, AnimatedBone { name, keyframes }))
    }

    proof fn lemma_tail(s: Seq<u8>) {
        reveal(<AnimatedBone as Parse>::spec_parse);
        broadcast use group_tails;
    }
}

/// An animation file (`.ban`).
#[derive(Debug, PartialEq, Eq)]
pub struct JmxAnimation {
    pub unk0: u32,
    pub unk1: u32,
    pub name: String,
    pub duration: u32,
    pub frames_per_second: u32,
    pub is_continuous: bool,
    pub key_frame_times: Vec<u32>,
    pub animated_bones: Vec<AnimatedBone>,
}

/// The mathematical value of a [`JmxAnimation`].
pub struct JmxAnimationView {
    pub unk0: u32,
    pub unk1: u32,
    pub name: Seq<char>,
    pub duration: u32,
    pub frames_per_second: u32,
    pub is_continuous: bool,
    pub key_frame_times: Seq<u32>,
    pub animated_bones: Seq<AnimatedBoneView>,
}

impl DeepView for JmxAnimation {
    type V = JmxAnimationView;

    open spec fn deep_view(&self) -> JmxAnimationView {
        JmxAnimationView {
            unk0: self.unk0,
            unk1: self.unk1,
            name: self.name.deep_view(),
            duration: self.duration,
            frames_per_second: self.frames_per_second,
            is_continuous: self.is_continuous,
            key_frame_times: self.key_frame_times.deep_view(),
            animated_bones: self.animated_bones.deep_view(),
        }
    }
}

impl Parse for JmxAnimation {
    /// The tag and the version suffix, then the fields. A version other than
    /// `0102` fails with `TagMismatch`.
    #[verifier::opaque]
    open spec fn spec_parse(s: Seq<u8>) -> Parsed<JmxAnimationView> {
        match spec_tag(s, MAGIC@) { Err(e) => Err(e), Ok((s, _)) =>
        match spec_version(s, VERSION_0102@) { Err(e) => Err(e), Ok((s, supported)) =>
        match spec_le_u32(s) { Err(e) => Err(e), Ok((s, unk0)) =>
        match spec_le_u32(s) { Err(e) => Err(e), Ok((s, unk1)) =>
        match spec_sized_string(s) { Err(e) => Err(e), Ok((s, name)) =>
        match spec_le_u32(s) { Err(e) => Err(e), Ok((s, duration)) =>
        match spec_le_u32(s) { Err(e) => Err(e), Ok((s, frames_per_second)) =>
        match spec_bool_u32(s) { Err(e) => Err(e), Ok((s, is_continuous)) =>
        match spec_parse_objects(
            CountWidth::U32,
            &Each::<u32>::it(),
            s,
        ) { Err(e) => Err(e), Ok((s, key_frame_times)) =>
        match spec_parse_objects(
            CountWidth::U32,
            &Each::<AnimatedBone>::it(),
            s,
        ) { Err(e) => Err(e), Ok((s, animated_bones)) =>
        Ok((s, JmxAnimationView {
            unk0,
            unk1,
            name,
            duration,
            frames_per_second,
            is_continuous,
            key_frame_times,
            animated_bones,
        }))
        }}}}}}}}}}
    }

    fn parse<'a>(i: &'a [u8]) -> (r: IResult<'a, JmxAnimation>) {
        reveal(<JmxAnimation as Parse>::spec_parse);
        let (i, _) = tag(i, &MAGIC)?;
        let (i, supported) = version(i, &VERSION_0102)?;
        let (i, unk0) = le_u32(i)?;
        let (i, unk1) = le_u32(i)?;
        let (i, name) = sized_string(i)?;
        let (i, duration) = le_u32(i)?;
        let (i, frames_per_second) = le_u32(i)?;
        let (i, is_continuous) = bool_u32(i)?;
        let (i, key_frame_times) = parse_objects_u32(&Each::<u32>::new(), i)?;
        let (i, animated_bones) = parse_objects_u32(&Each::<AnimatedBone>::new(), i)?;
        Ok((i, JmxAnimation {
            unk0,
            unk1,
            name,
            duration,
            frames_per_second,
            is_continuous,
            key_frame_times,
            animated_bones,
        }))
    }

    proof fn lemma_tail(s: Seq<u8>) {
        reveal(<JmxAnimation as Parse>::spec_parse);
        broadcast use group_tails;
    }
}

impl JmxAnimation {
    /// Decodes an animation file.
    pub fn parse<'a>(i: &'a [u8]) -> (r: IResult<'a, JmxAnimation>)
        ensures
            decodes(r, i@, <JmxAnimation as Parse>::spec_parse(i@)),
    {
        <JmxAnimation as Parse>::parse(i)
    }

    /// An input that does not start with the magic tag is refused with
    /// `TagMismatch`, whatever follows.
    pub proof fn lemma_magic_mismatch(s: Seq<u8>)
        requires
            !MAGIC@.is_prefix_of(s),
        ensures
            <JmxAnimation as Parse>::spec_parse(s) == Err::<(Seq<u8>, JmxAnimationView), _>(
                DecodeErrorView::TagMismatch,
            ),
    {
        reveal(<JmxAnimation as Parse>::spec_parse);
        reveal(spec_tag);
    }
}

} // verus!
