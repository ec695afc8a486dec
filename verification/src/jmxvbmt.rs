//! Materials (`.bmt`).
use vstd::prelude::*;

use crate::decode::{decodes, Each, group_tails, IResult, Parse, Parsed};
use crate::error::DecodeErrorView;
use crate::math::{F32, Vector4};
use crate::parser_ext::combinator::{bool_u8, cond, Pair, spec_bool_u8, spec_cond};
use crate::parser_ext::complete::{spec_tag, tag};
use crate::parser_ext::flags::{
    flags_u32, has_only_declared_bits, only_declared_bits, spec_flags_u32,
};
use crate::parser_ext::multi::{CountWidth, parse_objects_u32, spec_parse_objects};
use crate::parser_ext::number::{
    le_f32, le_u16, spec_le_f32, spec_le_u16, spec_vector4_f32, vector4_f32,
};
use crate::parser_ext::string::{sized_path, sized_string, spec_sized_string};

verus! {

/// The magic tag of a material file: `JMXVBMT 0102`.
pub const MAGIC: [u8; 12] = [
    0x4A, 0x4D, 0x58, 0x56, 0x42, 0x4D, 0x54, 0x20, 0x30, 0x31, 0x30, 0x32,
];

/// The flags of a material.
#[derive(Clone, Copy, Debug, PartialEq, Eq, Structural, Hash)]
pub struct MaterialFlags {
    pub bits: u32,
}

impl DeepView for MaterialFlags {
    type V = MaterialFlags;

    open spec fn deep_view(&self) -> MaterialFlags {
        *self
    }
}

impl MaterialFlags {
    pub const UNK0: u32 = 0x1;

    pub const UNK1: u32 = 0x2;

    pub const UNK2: u32 = 0x4;

    pub const UNK3: u32 = 0x8;

    pub const UNK4: u32 = 0x10;

    pub const UNK5: u32 = 0x20;

    pub const UNK6: u32 = 0x40;

    pub const UNK7: u32 = 0x80;

    pub const UNK8: u32 = 0x100;

    pub const UNK9: u32 = 0x200;

    pub const UNK10: u32 = 0x400;

    pub const UNK11: u32 = 0x800;

    pub const UNK12: u32 = 0x1000;

    /// The material names a normal map.
    pub const HAS_NORMAL_MAP: u32 = 0x2000;

    /// Every declared bit.
    pub const ALL: u32 = 0x3FFF;

    /// Whether no bit outside the declared ones is set.
    pub open spec fn is_valid(&self) -> bool {
        only_declared_bits(self.bits, Self::ALL)
    }

    /// The flags that `bits` stand for, unless a bit is set that is not declared.
    pub fn from_bits(bits: u32) -> (r: Option<MaterialFlags>)
        ensures
            r == (if only_declared_bits(bits, Self::ALL) {
                Some(MaterialFlags { bits })
            } else {
                None
            }),
    {
        if has_only_declared_bits(bits, Self::ALL) {
            Some(MaterialFlags { bits })
        } else {
            None
        }
    }

    /// The field as it was read.
    pub fn bits(&self) -> (r: u32)
        ensures
            r == self.bits,
    {
        self.bits
    }

    /// Whether every bit of `mask` is set.
    pub open spec fn spec_contains(&self, mask: u32) -> bool {
        self.bits & mask == mask
    }

    /// Whether every bit of `mask` is set.
    #[verifier::when_used_as_spec(spec_contains)]
    pub fn contains(&self, mask: u32) -> (r: bool)
        ensures
            r == self.spec_contains(mask),
    {
        self.bits & mask == mask
    }
}

impl Parse for MaterialFlags {
    /// A `u32`, refused with `UnknownBitflags` where it has a bit that is not
    /// declared.
    open spec fn spec_parse(s: Seq<u8>) -> Parsed<MaterialFlags> {
        match spec_flags_u32(s, MaterialFlags::ALL) {
            Err(e) => Err(e),
            Ok((s, bits)) => Ok((s, MaterialFlags { bits })),
        }
    }

    fn parse<'a>(i: &'a [u8]) -> (r: IResult<'a, MaterialFlags>) {
        let (i, bits) = flags_u32(i, MaterialFlags::ALL)?;
        Ok((i, MaterialFlags { bits }))
    }

    proof fn lemma_tail(s: Seq<u8>) {
        broadcast use group_tails;
    }
}

impl MaterialFlags {
    /// Flags that decode are valid: the policy is strict, no undeclared bit
    /// is let through.
    pub proof fn lemma_decoded_is_valid(s: Seq<u8>)
        ensures
            <MaterialFlags as Parse>::spec_parse(s) matches Ok((_, flags)) ==> flags.is_valid(),
    {
    }
}

/// One material.
#[derive(Debug, PartialEq, Eq)]
pub struct Material {
    pub name: String,
    pub diffuse: Vector4,
    pub ambient: Vector4,
    pub specular: Vector4,
    pub emissive: Vector4,
    pub specular_power: F32,
    pub material_flags: MaterialFlags,
    pub diffuse_map: String,
    pub unk0: F32,
    pub unk1: u16,
    pub absolute_diffuse_map_path: bool,
    /// Present where the flags say so.
    pub normal_map: Option<(String, u32)>,
}

/// The mathematical value of a [`Material`].
pub struct MaterialView {
    pub name: Seq<char>,
    pub diffuse: Vector4,
    pub ambient: Vector4,
    pub specular: Vector4,
    pub emissive: Vector4,
    pub specular_power: F32,
    pub material_flags: MaterialFlags,
    pub diffuse_map: Seq<char>,
    pub unk0: F32,
    pub unk1: u16,
    pub absolute_diffuse_map_path: bool,
    pub normal_map: Option<(Seq<char>, u32)>,
}

impl DeepView for Material {
    type V = MaterialView;

    open spec fn deep_view(&self) -> MaterialView {
        MaterialView {
            name: self.name.deep_view(),
            diffuse: self.diffuse,
            ambient: self.ambient,
            specular: self.specular,
            emissive: self.emissive,
            specular_power: self.specular_power,
            material_flags: self.material_flags,
            diffuse_map: self.diffuse_map.deep_view(),
            unk0: self.unk0,
            unk1: self.unk1,
            absolute_diffuse_map_path: self.absolute_diffuse_map_path,
            normal_map: self.normal_map.deep_view(),
        }
    }
}

impl Parse for Material {
    #[verifier::opaque]
    open spec fn spec_parse(s: Seq<u8>) -> Parsed<MaterialView> {
        match spec_sized_string(s) { Err(e) => Err(e), Ok((s, name)) =>
        match spec_vector4_f32(s) { Err(e) => Err(e), Ok((s, diffuse)) =>
        match spec_vector4_f32(s) { Err(e) => Err(e), Ok((s, ambient)) =>
        match spec_vector4_f32(s) { Err(e) => Err(e), Ok((s, specular)) =>
        match spec_vector4_f32(s) { Err(e) => Err(e), Ok((s, emissive)) =>
        match spec_le_f32(s) { Err(e) => Err(e), Ok((s, specular_power)) =>
        match MaterialFlags::spec_parse(s) { Err(e) => Err(e), Ok((s, material_flags)) =>
        match spec_sized_string(s) { Err(e) => Err(e), Ok((s, diffuse_map)) =>
        match spec_le_f32(s) { Err(e) => Err(e), Ok((s, unk0)) =>
        match spec_le_u16(s) { Err(e) => Err(e), Ok((s, unk1)) =>
        match spec_bool_u8(s) { Err(e) => Err(e), Ok((s, absolute_diffuse_map_path)) =>
        match spec_cond(
            material_flags.contains(MaterialFlags::HAS_NORMAL_MAP),
            &Pair(Each::<String>::it(), Each::<u32>::it()),
            s,
        ) { Err(e) => Err(e), Ok((s, normal_map)) =>
        Ok((s, MaterialView {
            name,
            diffuse,
            ambient,
            specular,
            emissive,
            specular_power,
            material_flags,
            diffuse_map,
            unk0,
            unk1,
            absolute_diffuse_map_path,
            normal_map,
        }))
        }}}}}}}}}}}}
    }

    fn parse<'a>(i: &'a [u8]) -> (r: IResult<'a, Material>) {
        reveal(<Material as Parse>::spec_parse);
        let (i, name) = sized_string(i)?;
        let (i, diffuse) = vector4_f32(i)?;
        let (i, ambient) = vector4_f32(i)?;
        let (i, specular) = vector4_f32(i)?;
        let (i, emissive) = vector4_f32(i)?;
        let (i, specular_power) = le_f32(i)?;
        let (i, material_flags) = MaterialFlags::parse(i)?;
        let (i, diffuse_map) = sized_path(i)?;
        let (i, unk0) = le_f32(i)?;
        let (i, unk1) = le_u16(i)?;
        let (i, absolute_diffuse_map_path) = bool_u8(i)?;
        let (i, normal_map) = cond(
            material_flags.contains(MaterialFlags::HAS_NORMAL_MAP),
            &Pair(Each::<String>::new(), Each::<u32>::new()),
            i,
        )?;
        Ok((i, Material {
            name,
            diffuse,
            ambient,
            specular,
            emissive,
            specular_power,
            material_flags,
            diffuse_map,
            unk0,
            unk1,
            absolute_diffuse_map_path,
            normal_map,
        }))
    }

    proof fn lemma_tail(s: Seq<u8>) {
        reveal(<Material as Parse>::spec_parse);
        broadcast use group_tails;
    }
}

/// A material file (`.bmt`): the tag, then a counted sequence of materials.
#[derive(Debug, PartialEq, Eq)]
pub struct JmxMat(pub Vec<Material>);

impl DeepView for JmxMat {
    type V = Seq<MaterialView>;

    open spec fn deep_view(&self) -> Seq<MaterialView> {
        self.0.deep_view()
    }
}

impl Parse for JmxMat {
    #[verifier::opaque]
    open spec fn spec_parse(s: Seq<u8>) -> Parsed<Seq<MaterialView>> {
        match spec_tag(s, MAGIC@) { Err(e) => Err(e), Ok((s, _)) =>
        match spec_parse_objects(
            CountWidth::U32,
            &Each::<Material>::it(),
            s,
        ) { Err(e) => Err(e), Ok((s, materials)) =>
        Ok((s, materials))
        }}
    }

    fn parse<'a>(i: &'a [u8]) -> (r: IResult<'a, JmxMat>) {
        reveal(<JmxMat as Parse>::spec_parse);
        let (i, _) = tag(i, &MAGIC)?;
        let (i, materials) = parse_objects_u32(&Each::<Material>::new(), i)?;
        Ok((i, JmxMat(materials)))
    }

    proof fn lemma_tail(s: Seq<u8>) {
        reveal(<JmxMat as Parse>::spec_parse);
        broadcast use group_tails;
    }
}

impl JmxMat {
    /// Decodes a material file.
    pub fn parse<'a>(i: &'a [u8]) -> (r: IResult<'a, JmxMat>)
        ensures
            decodes(r, i@, <JmxMat as Parse>::spec_parse(i@)),
    {
        <JmxMat as Parse>::parse(i)
    }

    /// An input that does not start with the magic tag is refused with
    /// `TagMismatch`, whatever follows.
    pub proof fn lemma_magic_mismatch(s: Seq<u8>)
        requires
            !MAGIC@.is_prefix_of(s),
        ensures
            <JmxMat as Parse>::spec_parse(s) == Err::<(Seq<u8>, Seq<MaterialView>), _>(
                DecodeErrorView::TagMismatch,
            ),
    {
        reveal(<JmxMat as Parse>::spec_parse);
        reveal(spec_tag);
    }
}

} // verus!
