//! Skeletons (`.bsk`).
use vstd::prelude::*;

use crate::decode::{decodes, Each, group_tails, IResult, Parse, Parsed};
use crate::error::DecodeErrorView;
use crate::math::{Vector3, Vector4};
use crate::parser_ext::complete::{spec_tag, tag};
use crate::parser_ext::multi::{CountWidth, parse_objects_u32, spec_parse_objects};
use crate::parser_ext::number::{
    le_u32, le_u8, spec_le_u32, spec_le_u8, spec_vector3_f32, spec_vector4_f32, vector3_f32,
    vector4_f32,
};
use crate::parser_ext::string::{sized_string, spec_sized_string};

verus! {

/// The magic tag of a skeleton file: `JMXVBSK 0101`.
pub const MAGIC: [u8; 12] = [
    0x4A, 0x4D, 0x58, 0x56, 0x42, 0x53, 0x4B, 0x20, 0x30, 0x31, 0x30, 0x31,
];

/// One bone of a skeleton, with the names of its parent and of its children.
#[derive(Debug, PartialEq, Eq)]
pub struct Bone {
    pub unk: u8,
    pub name: String,
    pub parent_name: String,
    pub rotation_to_parent: Vector4,
    pub translation_to_parent: Vector3,
    pub rotation_to_origin: Vector4,
    pub translation_to_origin: Vector3,
    pub rotation_to_unknown: Vector4,
    pub translation_to_unknown: Vector3,
    pub children: Vec<String>,
}

/// The mathematical value of a [`Bone`].
pub struct BoneView {
    pub unk: u8,
    pub name: Seq<char>,
    pub parent_name: Seq<char>,
    pub rotation_to_parent: Vector4,
    pub translation_to_parent: Vector3,
    pub rotation_to_origin: Vector4,
    pub translation_to_origin: Vector3,
    pub rotation_to_unknown: Vector4,
    pub translation_to_unknown: Vector3,
    pub children: Seq<Seq<char>>,
}

impl DeepView for Bone {
    type V = BoneView;

    open spec fn deep_view(&self) -> BoneView {
        BoneView {
            unk: self.unk,
            name: self.name.deep_view(),
            parent_name: self.parent_name.deep_view(),
            rotation_to_parent: self.rotation_to_parent,
            translation_to_parent: self.translation_to_parent,
            rotation_to_origin: self.rotation_to_origin,
            translation_to_origin: self.translation_to_origin,
            rotation_to_unknown: self.rotation_to_unknown,
            translation_to_unknown: self.translation_to_unknown,
            children: self.children.deep_view(),
        }
    }
}

impl Parse for Bone {
    #[verifier::opaque]
    open spec fn spec_parse(s: Seq<u8>) -> Parsed<BoneView> {
        match spec_le_u8(s) { Err(e) => Err(e), Ok((s, unk)) =>
        match spec_sized_string(s) { Err(e) => Err(e), Ok((s, name)) =>
        match spec_sized_string(s) { Err(e) => Err(e), Ok((s, parent_name)) =>
        match spec_vector4_f32(s) { Err(e) => Err(e), Ok((s, rotation_to_parent)) =>
        match spec_vector3_f32(s) { Err(e) => Err(e), Ok((s, translation_to_parent)) =>
        match spec_vector4_f32(s) { Err(e) => Err(e), Ok((s, rotation_to_origin)) =>
        match spec_vector3_f32(s) { Err(e) => Err(e), Ok((s, translation_to_origin)) =>
        match spec_vector4_f32(s) { Err(e) => Err(e), Ok((s, rotation_to_unknown)) =>
        match spec_vector3_f32(s) { Err(e) => Err(e), Ok((s, translation_to_unknown)) =>
        match spec_parse_objects(
            CountWidth::U32,
            &Each::<String>::it(),
            s,
        ) { Err(e) => Err(e), Ok((s, children)) =>
        Ok((s, BoneView {
            unk,
            name,
            parent_name,
            rotation_to_parent,
            translation_to_parent,
            rotation_to_origin,
            translation_to_origin,
            rotation_to_unknown,
            translation_to_unknown,
            children,
        }))
        }}}}}}}}}}
    }

    fn parse<'a>(i: &'a [u8]) -> (r: IResult<'a, Bone>) {
        reveal(<Bone as Parse>::spec_parse);
        let (i, unk) = le_u8(i)?;
        let (i, name) = sized_string(i)?;
        let (i, parent_name) = sized_string(i)?;
        let (i, rotation_to_parent) = vector4_f32(i)?;
        let (i, translation_to_parent) = vector3_f32(i)?;
        let (i, rotation_to_origin) = vector4_f32(i)?;
        let (i, translation_to_origin) = vector3_f32(i)?;
        let (i, rotation_to_unknown) = vector4_f32(i)?;
        let (i, translation_to_unknown) = vector3_f32(i)?;
        let (i, children) = parse_objects_u32(&Each::<String>::new(), i)?;
        Ok((i, Bone {
            unk,
            name,
            parent_name,
            rotation_to_parent,
            translation_to_parent,
            rotation_to_origin,
            translation_to_origin,
            rotation_to_unknown,
            translation_to_unknown,
            children,
        }))
    }

    proof fn lemma_tail(s: Seq<u8>) {
        reveal(<Bone as Parse>::spec_parse);
        broadcast use group_tails;
    }
}

/// A skeleton file: the tag `JMXVBSK 0101`, then the bones.
#[derive(Debug, PartialEq, Eq)]
pub struct JmxSkeleton {
    pub bones: Vec<Bone>,
    pub unk0: u32,
    pub unk1: u32,
}

/// The mathematical value of a [`JmxSkeleton`].
pub struct JmxSkeletonView {
    pub bones: Seq<BoneView>,
    pub unk0: u32,
    pub unk1: u32,
}

impl DeepView for JmxSkeleton {
    type V = JmxSkeletonView;

    open spec fn deep_view(&self) -> JmxSkeletonView {
        JmxSkeletonView {
            bones: self.bones.deep_view(),
            unk0: self.unk0,
            unk1: self.unk1,
        }
    }
}

impl Parse for JmxSkeleton {
    #[verifier::opaque]
    open spec fn spec_parse(s: Seq<u8>) -> Parsed<JmxSkeletonView> {
        match spec_tag(s, MAGIC@) { Err(e) => Err(e), Ok((s, _)) =>
        match spec_parse_objects(CountWidth::U32, &Each::<Bone>::it(), s) { Err(e) => Err(e), Ok((s, bones)) =>
        match spec_le_u32(s) { Err(e) => Err(e), Ok((s, unk0)) =>
        match spec_le_u32(s) { Err(e) => Err(e), Ok((s, unk1)) =>
        Ok((s, JmxSkeletonView { bones, unk0, unk1 }))
        }}}}
    }

    fn parse<'a>(i: &'a [u8]) -> (r: IResult<'a, JmxSkeleton>) {
        reveal(<JmxSkeleton as Parse>::spec_parse);
        let (i, _) = tag(i, &MAGIC)?;
        let (i, bones) = parse_objects_u32(&Each::<Bone>::new(), i)?;
        let (i, unk0) = le_u32(i)?;
        let (i, unk1) = le_u32(i)?;
        Ok((i, JmxSkeleton { bones, unk0, unk1 }))
    }

    proof fn lemma_tail(s: Seq<u8>) {
        reveal(<JmxSkeleton as Parse>::spec_parse);
        broadcast use group_tails;
    }
}

impl JmxSkeleton {
    /// Decodes a skeleton file.
    pub fn parse<'a>(i: &'a [u8]) -> (r: IResult<'a, JmxSkeleton>)
        ensures
            decodes(r, i@, <JmxSkeleton as Parse>::spec_parse(i@)),
    {
        <JmxSkeleton as Parse>::parse(i)
    }

    /// An input that does not start with the magic tag is refused with
    /// `TagMismatch`, whatever follows.
    pub proof fn lemma_magic_mismatch(s: Seq<u8>)
        requires
            !MAGIC@.is_prefix_of(s),
        ensures
            <JmxSkeleton as Parse>::spec_parse(s) == Err::<(Seq<u8>, JmxSkeletonView), _>(
                DecodeErrorView::TagMismatch,
            ),
    {
        reveal(<JmxSkeleton as Parse>::spec_parse);
        reveal(spec_tag);
    }
}

} // verus!
