//! Meshes (`.bms`): vertices, faces, skin, cloth and navigation, by sections.
use vstd::prelude::*;

use crate::decode::{
    Decoder, decodes, Each, group_tails, IResult, lemma_empty_is_tail, Parse, Parsed,
};
use crate::error::DecodeErrorView;
use crate::math::{F32, Vector2, Vector3};
use crate::parser_ext::combinator::{
    bool_u32, Cond, cond, Counted, optional, Pair, Repeat, spec_bool_u32, spec_cond, spec_optional,
    Triple,
};
use crate::parser_ext::complete::{
    end_of, optional_section, section, spec_optional_section, spec_section, spec_tag, tag, version,
};
use crate::parser_ext::flags::{
    flags_u32, has_only_declared_bits, only_declared_bits, spec_flags_u32,
};
use crate::parser_ext::multi::{
    count, CountWidth, parse_objects_if, parse_objects_u32, spec_parse_objects,
    spec_parse_objects_if,
};
use crate::parser_ext::number::{
    le_f32, le_i32, le_u16, le_u32, le_u8, spec_le_f32, spec_le_i32, spec_le_u16, spec_le_u32,
    spec_le_u8, spec_vector2_f32, spec_vector3_f32, spec_vector6_f32, vector2_f32, vector3_f32,
    vector6_f32,
};
use crate::parser_ext::string::{sized_string, spec_sized_string};

verus! {

/// The magic tag of a mesh file of version 0109.
pub const MAGIC_0109: [u8; 12] = [
    0x4A, 0x4D, 0x58, 0x56, 0x42, 0x4D, 0x53, 0x20, 0x30, 0x31, 0x30, 0x39,
];

/// The magic tag of a mesh file of version 0110.
pub const MAGIC_0110: [u8; 12] = [
    0x4A, 0x4D, 0x58, 0x56, 0x42, 0x4D, 0x53, 0x20, 0x30, 0x31, 0x31, 0x30,
];

/// What the vertices of a mesh hold.
#[derive(Clone, Copy, Debug, PartialEq, Eq, Structural, Hash)]
pub struct VertexFlags {
    pub bits: u32,
}

impl DeepView for VertexFlags {
    type V = VertexFlags;

    open spec fn deep_view(&self) -> VertexFlags {
        *self
    }
}

impl VertexFlags {
    /// Each vertex has a second pair of texture coordinates, and the mesh names a
    /// light map.
    pub const HAS_LIGHT_MAP: u32 = 0x400;

    pub const UNKNOWN: u32 = 0x800;

    pub const UNKNOWN2: u32 = 0x1000;

    /// Every declared bit.
    pub const ALL: u32 = 0x1C00;

    /// Whether no bit outside the declared ones is set.
    pub open spec fn is_valid(&self) -> bool {
        only_declared_bits(self.bits, Self::ALL)
    }

    /// The flags that `bits` stand for, unless a bit is set that is not declared.
    pub fn from_bits(bits: u32) -> (r: Option<VertexFlags>)
        ensures
            r == (if only_declared_bits(bits, Self::ALL) {
                Some(VertexFlags { bits })
            } else {
                None
            }),
    {
        if has_only_declared_bits(bits, Self::ALL) {
            Some(VertexFlags { bits })
        } else {
            None
        }
    }

    /// The field as it was read.
    pub fn bits(&self) -> (r: u32)
        ensures
            r == self.bits,
    {
        self.bits
    }

    /// Whether every bit of `mask` is set.
    pub open spec fn spec_contains(&self, mask: u32) -> bool {
        self.bits & mask == mask
    }

    /// Whether every bit of `mask` is set.
    #[verifier::when_used_as_spec(spec_contains)]
    pub fn contains(&self, mask: u32) -> (r: bool)
        ensures
            r == self.spec_contains(mask),
    {
        self.bits & mask == mask
    }
}

impl Parse for VertexFlags {
    /// A `u32`, refused with `UnknownBitflags` where it has a bit that is not
    /// declared.
    open spec fn spec_parse(s: Seq<u8>) -> Parsed<VertexFlags> {
        match spec_flags_u32(s, VertexFlags::ALL) {
            Err(e) => Err(e),
            Ok((s, bits)) => Ok((s, VertexFlags { bits })),
        }
    }

    fn parse<'a>(i: &'a [u8]) -> (r: IResult<'a, VertexFlags>) {
        let (i, bits) = flags_u32(i, VertexFlags::ALL)?;
        Ok((i, VertexFlags { bits }))
    }

    proof fn lemma_tail(s: Seq<u8>) {
        broadcast use group_tails;
    }
}

impl VertexFlags {
    /// Flags that decode are valid: the policy is strict, no undeclared bit
    /// is let through.
    pub proof fn lemma_decoded_is_valid(s: Seq<u8>)
        ensures
            <VertexFlags as Parse>::spec_parse(s) matches Ok((_, flags)) ==> flags.is_valid(),
    {
    }
}

/// What the navigation mesh of a mesh file holds.
#[derive(Clone, Copy, Debug, PartialEq, Eq, Structural, Hash)]
pub struct NavFlags {
    pub bits: u32,
}

impl DeepView for NavFlags {
    type V = NavFlags;

    open spec fn deep_view(&self) -> NavFlags {
        *self
    }
}

impl NavFlags {
    /// Each outline and inline has one more byte.
    pub const UNK0: u32 = 0x1;

    /// Each ground cell has one more byte.
    pub const UNK1: u32 = 0x2;

    /// The navigation mesh names its events.
    pub const UNK2: u32 = 0x4;

    pub const UNK3: u32 = 0x8;

    /// Every declared bit.
    pub const ALL: u32 = 0xF;

    /// Whether no bit outside the declared ones is set.
    pub open spec fn is_valid(&self) -> bool {
        only_declared_bits(self.bits, Self::ALL)
    }

    /// The flags that `bits` stand for, unless a bit is set that is not declared.
    pub fn from_bits(bits: u32) -> (r: Option<NavFlags>)
        ensures
            r == (if only_declared_bits(bits, Self::ALL) {
                Some(NavFlags { bits })
            } else {
                None
            }),
    {
        if has_only_declared_bits(bits, Self::ALL) {
            Some(NavFlags { bits })
        } else {
            None
        }
    }

    /// The field as it was read.
    pub fn bits(&self) -> (r: u32)
        ensures
            r == self.bits,
    {
        self.bits
    }

    /// Whether every bit of `mask` is set.
    pub open spec fn spec_contains(&self, mask: u32) -> bool {
        self.bits & mask == mask
    }

    /// Whether every bit of `mask` is set.
    #[verifier::when_used_as_spec(spec_contains)]
    pub fn contains(&self, mask: u32) -> (r: bool)
        ensures
            r == self.spec_contains(mask),
    {
        self.bits & mask == mask
    }
}

impl Parse for NavFlags {
    /// A `u32`, refused with `UnknownBitflags` where it has a bit that is not
    /// declared.
    open spec fn spec_parse(s: Seq<u8>) -> Parsed<NavFlags> {
        match spec_flags_u32(s, NavFlags::ALL) {
            Err(e) => Err(e),
            Ok((s, bits)) => Ok((s, NavFlags { bits })),
        }
    }

    fn parse<'a>(i: &'a [u8]) -> (r: IResult<'a, NavFlags>) {
        let (i, bits) = flags_u32(i, NavFlags::ALL)?;
        Ok((i, NavFlags { bits }))
    }

    proof fn lemma_tail(s: Seq<u8>) {
        broadcast use group_tails;
    }
}

impl NavFlags {
    /// Flags that decode are valid: the policy is strict, no undeclared bit
    /// is let through.
    pub proof fn lemma_decoded_is_valid(s: Seq<u8>)
        ensures
            <NavFlags as Parse>::spec_parse(s) matches Ok((_, flags)) ==> flags.is_valid(),
    {
    }
}

/// One vertex of a mesh.
#[derive(Clone, Copy, Debug, PartialEq, Eq)]
pub struct Vertex {
    pub position: Vector3,
    pub normal: Vector3,
    pub uv0: Vector2,
    /// Present where the mesh has a light map.
    pub uv1: Option<Vector2>,
    pub float0: F32,
    pub int0: i32,
    pub int1: i32,
}

impl DeepView for Vertex {
    type V = Vertex;

    open spec fn deep_view(&self) -> Vertex {
        *self
    }
}

/// The decoder of a [`Vertex`], with what its format depends on.
#[derive(Clone, Copy, Debug)]
pub struct VertexParser {
    pub light_map: bool,
}

impl Vertex {
    /// The decoder for the given parameters.
    pub fn parser(light_map: bool) -> (d: VertexParser)
        ensures
            d == (VertexParser { light_map }),
    {
        VertexParser { light_map }
    }
}

impl Decoder for VertexParser {
    type Out = Vertex;

    #[verifier::opaque]
    open spec fn spec_decode(&self, s: Seq<u8>) -> Parsed<Vertex> {
        match spec_vector3_f32(s) { Err(e) => Err(e), Ok((s, position)) =>
        match spec_vector3_f32(s) { Err(e) => Err(e), Ok((s, normal)) =>
        match spec_vector2_f32(s) { Err(e) => Err(e), Ok((s, uv0)) =>
        match spec_cond(self.light_map, &Each::<Vector2>::it(), s) { Err(e) => Err(e), Ok((s, uv1)) =>
        match spec_le_f32(s) { Err(e) => Err(e), Ok((s, float0)) =>
        match spec_le_i32(s) { Err(e) => Err(e), Ok((s, int0)) =>
        match spec_le_i32(s) { Err(e) => Err(e), Ok((s, int1)) =>
        Ok((s, Vertex { position, normal, uv0, uv1, float0, int0, int1 }))
        }}}}}}}
    }

    fn decode<'a>(&self, i: &'a [u8]) -> (r: IResult<'a, Vertex>) {
        reveal(<VertexParser as Decoder>::spec_decode);
        let (i, position) = vector3_f32(i)?;
        let (i, normal) = vector3_f32(i)?;
        let (i, uv0) = vector2_f32(i)?;
        let (i, uv1) = cond(self.light_map, &Each::<Vector2>::new(), i)?;
        let (i, float0) = le_f32(i)?;
        let (i, int0) = le_i32(i)?;
        let (i, int1) = le_i32(i)?;
        Ok((i, Vertex { position, normal, uv0, uv1, float0, int0, int1 }))
    }

    proof fn lemma_tail(&self, s: Seq<u8>) {
        reveal(<VertexParser as Decoder>::spec_decode);
        broadcast use group_tails;
    }
}

#[derive(Clone, Copy, Debug, PartialEq, Eq)]
pub struct Unknown(pub F32, pub u32);

#[derive(Clone, Copy, Debug, PartialEq, Eq)]
pub struct ClothEdge {
    pub vertex_index0: u32,
    pub vertex_index1: u32,
    pub max_distance: F32,
}

impl DeepView for ClothEdge {
    type V = ClothEdge;

    open spec fn deep_view(&self) -> ClothEdge {
        *self
    }
}

impl Parse for ClothEdge {
    #[verifier::opaque]
    open spec fn spec_parse(s: Seq<u8>) -> Parsed<ClothEdge> {
        match spec_le_u32(s) { Err(e) => Err(e), Ok((s, vertex_index0)) =>
        match spec_le_u32(s) { Err(e) => Err(e), Ok((s, vertex_index1)) =>
        match spec_le_f32(s) { Err(e) => Err(e), Ok((s, max_distance)) =>
        Ok((s, ClothEdge { vertex_index0, vertex_index1, max_distance }))
        }}}
    }

    fn parse<'a>(i: &'a [u8]) -> (r: IResult<'a, ClothEdge>) {
        reveal(<ClothEdge as Parse>::spec_parse);
        let (i, vertex_index0) = le_u32(i)?;
        let (i, vertex_index1) = le_u32(i)?;
        let (i, max_distance) = le_f32(i)?;
        Ok((i, ClothEdge { vertex_index0, vertex_index1, max_distance }))
    }

    proof fn lemma_tail(s: Seq<u8>) {
        reveal(<ClothEdge as Parse>::spec_parse);
        broadcast use group_tails;
    }
}

impl ClothEdge {
    /// On the wire a value of this type is 12 bytes long: it decodes from
    /// every input that holds as many, and from no other.
    pub broadcast proof fn lemma_fixed_size(s: Seq<u8>)
        ensures
            #![trigger <ClothEdge as Parse>::spec_parse(s)]
            match <ClothEdge as Parse>::spec_parse(s) {
                Ok((rest, _)) => s.len() >= 12 && rest.len() + 12 == s.len(),
                Err(e) => s.len() < 12 && e == DecodeErrorView::UnexpectedEof,
            },
    {
        reveal(<ClothEdge as Parse>::spec_parse);
        broadcast use group_tails;
        broadcast use crate::parser_ext::number::group_sizes;
    }
}

#[derive(Clone, Copy, Debug, PartialEq, Eq)]
pub struct ClothSimParams {
    pub unk0: u32,
    pub unk1: F32,
    pub unk2: F32,
    pub unk3: F32,
    pub unk4: F32,
    pub unk5: F32,
    pub unk6: F32,
    pub unk7: F32,
    pub unk8: u32,
}

impl DeepView for ClothSimParams {
    type V = ClothSimParams;

    open spec fn deep_view(&self) -> ClothSimParams {
        *self
    }
}

impl Parse for ClothSimParams {
    #[verifier::opaque]
    open spec fn spec_parse(s: Seq<u8>) -> Parsed<ClothSimParams> {
        match spec_le_u32(s) { Err(e) => Err(e), Ok((s, unk0)) =>
        match spec_le_f32(s) { Err(e) => Err(e), Ok((s, unk1)) =>
        match spec_le_f32(s) { Err(e) => Err(e), Ok((s, unk2)) =>
        match spec_le_f32(s) { Err(e) => Err(e), Ok((s, unk3)) =>
        match spec_le_f32(s) { Err(e) => Err(e), Ok((s, unk4)) =>
        match spec_le_f32(s) { Err(e) => Err(e), Ok((s, unk5)) =>
        match spec_le_f32(s) { Err(e) => Err(e), Ok((s, unk6)) =>
        match spec_le_f32(s) { Err(e) => Err(e), Ok((s, unk7)) =>
        match spec_le_u32(s) { Err(e) => Err(e), Ok((s, unk8)) =>
        Ok((s, ClothSimParams { unk0, unk1, unk2, unk3, unk4, unk5, unk6, unk7, unk8 }))
        }}}}}}}}}
    }

    fn parse<'a>(i: &'a [u8]) -> (r: IResult<'a, ClothSimParams>) {
        reveal(<ClothSimParams as Parse>::spec_parse);
        let (i, unk0) = le_u32(i)?;
        let (i, unk1) = le_f32(i)?;
        let (i, unk2) = le_f32(i)?;
        let (i, unk3) = le_f32(i)?;
        let (i, unk4) = le_f32(i)?;
        let (i, unk5) = le_f32(i)?;
        let (i, unk6) = le_f32(i)?;
        let (i, unk7) = le_f32(i)?;
        let (i, unk8) = le_u32(i)?;
        Ok((i, ClothSimParams { unk0, unk1, unk2, unk3, unk4, unk5, unk6, unk7, unk8 }))
    }

    proof fn lemma_tail(s: Seq<u8>) {
        reveal(<ClothSimParams as Parse>::spec_parse);
        broadcast use group_tails;
    }
}

impl ClothSimParams {
    /// On the wire a value of this type is 36 bytes long: it decodes from
    /// every input that holds as many, and from no other.
    pub broadcast proof fn lemma_fixed_size(s: Seq<u8>)
        ensures
            #![trigger <ClothSimParams as Parse>::spec_parse(s)]
            match <ClothSimParams as Parse>::spec_parse(s) {
                Ok((rest, _)) => s.len() >= 36 && rest.len() + 36 == s.len(),
                Err(e) => s.len() < 36 && e == DecodeErrorView::UnexpectedEof,
            },
    {
        reveal(<ClothSimParams as Parse>::spec_parse);
        broadcast use group_tails;
        broadcast use crate::parser_ext::number::group_sizes;
    }
}

#[derive(Clone, Copy, Debug, PartialEq, Eq)]
pub struct ClothVertex {
    pub max_distance: F32,
    pub is_pinned: bool,
}

impl DeepView for ClothVertex {
    type V = ClothVertex;

    open spec fn deep_view(&self) -> ClothVertex {
        *self
    }
}

impl Parse for ClothVertex {
    #[verifier::opaque]
    open spec fn spec_parse(s: Seq<u8>) -> Parsed<ClothVertex> {
        match spec_le_f32(s) { Err(e) => Err(e), Ok((s, max_distance)) =>
        match spec_bool_u32(s) { Err(e) => Err(e), Ok((s, is_pinned)) =>
        Ok((s, ClothVertex { max_distance, is_pinned }))
        }}
    }

    fn parse<'a>(i: &'a [u8]) -> (r: IResult<'a, ClothVertex>) {
        reveal(<ClothVertex as Parse>::spec_parse);
        let (i, max_distance) = le_f32(i)?;
        let (i, is_pinned) = bool_u32(i)?;
        Ok((i, ClothVertex { max_distance, is_pinned }))
    }

    proof fn lemma_tail(s: Seq<u8>) {
        reveal(<ClothVertex as Parse>::spec_parse);
        broadcast use group_tails;
    }
}

impl ClothVertex {
    /// On the wire a value of this type is 8 bytes long: it decodes from
    /// every input that holds as many, and from no other.
    pub broadcast proof fn lemma_fixed_size(s: Seq<u8>)
        ensures
            #![trigger <ClothVertex as Parse>::spec_parse(s)]
            match <ClothVertex as Parse>::spec_parse(s) {
                Ok((rest, _)) => s.len() >= 8 && rest.len() + 8 == s.len(),
                Err(e) => s.len() < 8 && e == DecodeErrorView::UnexpectedEof,
            },
    {
        reveal(<ClothVertex as Parse>::spec_parse);
        broadcast use group_tails;
        broadcast use crate::parser_ext::number::group_sizes;
    }
}

/// The two bones that move a vertex, each with its weight.
#[derive(Clone, Copy, Debug, PartialEq, Eq)]
pub struct BoneIndexData {
    pub index0: u8,
    pub weight0: u16,
    pub index1: u8,
    pub weight1: u16,
}

impl DeepView for BoneIndexData {
    type V = BoneIndexData;

    open spec fn deep_view(&self) -> BoneIndexData {
        *self
    }
}

impl Parse for BoneIndexData {
    #[verifier::opaque]
    open spec fn spec_parse(s: Seq<u8>) -> Parsed<BoneIndexData> {
        match spec_le_u8(s) { Err(e) => Err(e), Ok((s, index0)) =>
        match spec_le_u16(s) { Err(e) => Err(e), Ok((s, weight0)) =>
        match spec_le_u8(s) { Err(e) => Err(e), Ok((s, index1)) =>
        match spec_le_u16(s) { Err(e) => Err(e), Ok((s, weight1)) =>
        Ok((s, BoneIndexData { index0, weight0, index1, weight1 }))
        }}}}
    }

    fn parse<'a>(i: &'a [u8]) -> (r: IResult<'a, BoneIndexData>) {
        reveal(<BoneIndexData as Parse>::spec_parse);
        let (i, index0) = le_u8(i)?;
        let (i, weight0) = le_u16(i)?;
        let (i, index1) = le_u8(i)?;
        let (i, weight1) = le_u16(i)?;
        Ok((i, BoneIndexData { index0, weight0, index1, weight1 }))
    }

    proof fn lemma_tail(s: Seq<u8>) {
        reveal(<BoneIndexData as Parse>::spec_parse);
        broadcast use group_tails;
    }
}

impl BoneIndexData {
    /// On the wire a value of this type is 6 bytes long: it decodes from
    /// every input that holds as many, and from no other.
    pub broadcast proof fn lemma_fixed_size(s: Seq<u8>)
        ensures
            #![trigger <BoneIndexData as Parse>::spec_parse(s)]
            match <BoneIndexData as Parse>::spec_parse(s) {
                Ok((rest, _)) => s.len() >= 6 && rest.len() + 6 == s.len(),
                Err(e) => s.len() < 6 && e == DecodeErrorView::UnexpectedEof,
            },
    {
        reveal(<BoneIndexData as Parse>::spec_parse);
        broadcast use group_tails;
        broadcast use crate::parser_ext::number::group_sizes;
    }
}

/// The cloth edges of a mesh, where it has any: as many edges as the count
/// before them says, as many numbers, and the parameters of the simulation.
pub open spec fn spec_parse_cloth_edges(s: Seq<u8>) -> Parsed<Option<(Seq<ClothEdge>, Seq<u32>, ClothSimParams)>> {
    match spec_le_u32(s) {
        Err(e) => Err(e),
        Ok((s, n)) => spec_cond(
            n != 0,
            &Triple(
                Repeat { times: n as usize, item: Each::<ClothEdge>::it() },
                Repeat { times: n as usize, item: Each::<u32>::it() },
                Each::<ClothSimParams>::it(),
            ),
            s,
        ),
    }
}

/// Reads the cloth section of a mesh. A count of zero stands for a mesh
/// without cloth; nothing is read behind it.
pub fn parse_cloth_edges<'a>(i: &'a [u8]) -> (r: IResult<'a, Option<(Vec<ClothEdge>, Vec<u32>, ClothSimParams)>>)
    ensures
        decodes(r, i@, spec_parse_cloth_edges(i@)),
{
    let (i, n) = le_u32(i)?;
    cond(
        n != 0,
        &Triple(
            Repeat { times: n as usize, item: Each::<ClothEdge>::new() },
            Repeat { times: n as usize, item: Each::<u32>::new() },
            Each::<ClothSimParams>::new(),
        ),
        i,
    )
}

/// The skin of a mesh, where it has one: as many bone names as the count
/// before them says, and for each of the mesh's `vertex_count` vertices the
/// bones that move it.
pub open spec fn spec_parse_bones(vertex_count: usize, s: Seq<u8>) -> Parsed<Option<(Seq<Seq<char>>, Seq<BoneIndexData>)>> {
    match spec_le_u32(s) {
        Err(e) => Err(e),
        Ok((s, n)) => spec_cond(
            n != 0,
            &Pair(
                Repeat { times: n as usize, item: Each::<String>::it() },
                Repeat { times: vertex_count, item: Each::<BoneIndexData>::it() },
            ),
            s,
        ),
    }
}

/// Reads the skin section of a mesh with `vertex_count` vertices. A count of
/// zero stands for a mesh without bones; nothing is read behind it.
pub fn parse_bones<'a>(vertex_count: usize, i: &'a [u8]) -> (r: IResult<'a, Option<(Vec<String>, Vec<BoneIndexData>)>>)
    ensures
        decodes(r, i@, spec_parse_bones(vertex_count, i@)),
{
    let (i, n) = le_u32(i)?;
    cond(
        n != 0,
        &Pair(
            Repeat { times: n as usize, item: Each::<String>::new() },
            Repeat { times: vertex_count, item: Each::<BoneIndexData>::new() },
        ),
        i,
    )
}

/// A triangle: the indices of its three vertices.
#[derive(Clone, Copy, Debug, PartialEq, Eq)]
pub struct Face(pub [u16; 3]);

impl DeepView for Face {
    type V = Seq<u16>;

    open spec fn deep_view(&self) -> Seq<u16> {
        self.0@
    }
}

impl Parse for Face {
    open spec fn spec_parse(s: Seq<u8>) -> Parsed<Seq<u16>> {
        match spec_le_u16(s) { Err(e) => Err(e), Ok((s, a)) =>
        match spec_le_u16(s) { Err(e) => Err(e), Ok((s, b)) =>
        match spec_le_u16(s) { Err(e) => Err(e), Ok((s, c)) =>
        Ok((s, seq![a, b, c]))
        }}}
    }

    fn parse<'a>(i: &'a [u8]) -> (r: IResult<'a, Face>) {
        let (i, a) = le_u16(i)?;
        let (i, b) = le_u16(i)?;
        let (i, c) = le_u16(i)?;
        let indices = [a, b, c];
        assert(indices@ =~= seq![a, b, c]);
        Ok((i, Face(indices)))
    }

    proof fn lemma_tail(s: Seq<u8>) {
        broadcast use group_tails;
    }
}

#[derive(Clone, Debug, PartialEq, Eq)]
pub struct Gate {
    pub name: String,
    pub vertices: Vec<Vector3>,
    pub faces: Vec<Face>,
}

/// The mathematical value of a [`Gate`].
pub struct GateView {
    pub name: Seq<char>,
    pub vertices: Seq<Vector3>,
    pub faces: Seq<Seq<u16>>,
}

impl DeepView for Gate {
    type V = GateView;

    open spec fn deep_view(&self) -> GateView {
        GateView {
            name: self.name.deep_view(),
            vertices: self.vertices.deep_view(),
            faces: self.faces.deep_view(),
        }
    }
}

impl Parse for Gate {
    #[verifier::opaque]
    open spec fn spec_parse(s: Seq<u8>) -> Parsed<GateView> {
        match spec_sized_string(s) { Err(e) => Err(e), Ok((s, name)) =>
        match spec_parse_objects(
            CountWidth::U32,
            &Each::<Vector3>::it(),
            s,
        ) { Err(e) => Err(e), Ok((s, vertices)) =>
        match spec_parse_objects(CountWidth::U32, &Each::<Face>::it(), s) { Err(e) => Err(e), Ok((s, faces)) =>
        Ok((s, GateView { name, vertices, faces }))
        }}}
    }

    fn parse<'a>(i: &'a [u8]) -> (r: IResult<'a, Gate>) {
        reveal(<Gate as Parse>::spec_parse);
        let (i, name) = sized_string(i)?;
        let (i, vertices) = parse_objects_u32(&Each::<Vector3>::new(), i)?;
        let (i, faces) = parse_objects_u32(&Each::<Face>::new(), i)?;
        Ok((i, Gate { name, vertices, faces }))
    }

    proof fn lemma_tail(s: Seq<u8>) {
        reveal(<Gate as Parse>::spec_parse);
        broadcast use group_tails;
    }
}

/// One edge of the navigation mesh.
#[derive(Clone, Copy, Debug, PartialEq, Eq)]
pub struct ObjectLines {
    pub vertex_source: u16,
    pub vertex_destination: u16,
    /// The index of the one neighbour triangle.
    pub cell_source: u16,
    /// The index of the other neighbour triangle; `0xFFFF` where there is none.
    pub cell_destination: u16,
    pub collision_flag: u8,
    pub unk: Option<u8>,
}

impl DeepView for ObjectLines {
    type V = ObjectLines;

    open spec fn deep_view(&self) -> ObjectLines {
        *self
    }
}

/// The decoder of a [`ObjectLines`], with what its format depends on.
#[derive(Clone, Copy, Debug)]
pub struct ObjectLinesParser {
    pub nav_flag: NavFlags,
}

impl ObjectLines {
    /// The decoder for the given parameters.
    pub fn parser(nav_flag: NavFlags) -> (d: ObjectLinesParser)
        ensures
            d == (ObjectLinesParser { nav_flag }),
    {
        ObjectLinesParser { nav_flag }
    }
}

impl Decoder for ObjectLinesParser {
    type Out = ObjectLines;

    #[verifier::opaque]
    open spec fn spec_decode(&self, s: Seq<u8>) -> Parsed<ObjectLines> {
        match spec_le_u16(s) { Err(e) => Err(e), Ok((s, vertex_source)) =>
        match spec_le_u16(s) { Err(e) => Err(e), Ok((s, vertex_destination)) =>
        match spec_le_u16(s) { Err(e) => Err(e), Ok((s, cell_source)) =>
        match spec_le_u16(s) { Err(e) => Err(e), Ok((s, cell_destination)) =>
        match spec_le_u8(s) { Err(e) => Err(e), Ok((s, collision_flag)) =>
        match spec_cond(
            self.nav_flag.contains(NavFlags::UNK0),
            &Each::<u8>::it(),
            s,
        ) { Err(e) => Err(e), Ok((s, unk)) =>
        Ok((s, ObjectLines {
            vertex_source,
            vertex_destination,
            cell_source,
            cell_destination,
            collision_flag,
            unk,
        }))
        }}}}}}
    }

    fn decode<'a>(&self, i: &'a [u8]) -> (r: IResult<'a, ObjectLines>) {
        reveal(<ObjectLinesParser as Decoder>::spec_decode);
        let (i, vertex_source) = le_u16(i)?;
        let (i, vertex_destination) = le_u16(i)?;
        let (i, cell_source) = le_u16(i)?;
        let (i, cell_destination) = le_u16(i)?;
        let (i, collision_flag) = le_u8(i)?;
        let (i, unk) = cond(self.nav_flag.contains(NavFlags::UNK0), &Each::<u8>::new(), i)?;
        Ok((i, ObjectLines {
            vertex_source,
            vertex_destination,
            cell_source,
            cell_destination,
            collision_flag,
            unk,
        }))
    }

    proof fn lemma_tail(&self, s: Seq<u8>) {
        reveal(<ObjectLinesParser as Decoder>::spec_decode);
        broadcast use group_tails;
    }
}

/// The navigation mesh of a mesh file.
#[derive(Clone, Debug, PartialEq, Eq)]
pub struct NavMesh {
    pub vertices: Vec<(Vector3, u8)>,
    pub ground: Vec<(Face, u16, Option<u8>)>,
    pub outlines: Vec<ObjectLines>,
    pub inlines: Vec<ObjectLines>,
    /// Empty where the flags name no events.
    pub event: Vec<String>,
    pub unk0: F32,
    pub unk1: F32,
    pub unk2: u32,
    pub unk3: u32,
    pub unk4: Vec<Vec<u16>>,
}

/// The mathematical value of a [`NavMesh`].
pub struct NavMeshView {
    pub vertices: Seq<(Vector3, u8)>,
    pub ground: Seq<(Seq<u16>, u16, Option<u8>)>,
    pub outlines: Seq<ObjectLines>,
    pub inlines: Seq<ObjectLines>,
    pub event: Seq<Seq<char>>,
    pub unk0: F32,
    pub unk1: F32,
    pub unk2: u32,
    pub unk3: u32,
    pub unk4: Seq<Seq<u16>>,
}

impl DeepView for NavMesh {
    type V = NavMeshView;

    open spec fn deep_view(&self) -> NavMeshView {
        NavMeshView {
            vertices: self.vertices.deep_view(),
            ground: self.ground.deep_view(),
            outlines: self.outlines.deep_view(),
            inlines: self.inlines.deep_view(),
            event: self.event.deep_view(),
            unk0: self.unk0,
            unk1: self.unk1,
            unk2: self.unk2,
            unk3: self.unk3,
            unk4: self.unk4.deep_view(),
        }
    }
}

/// The decoder of a [`NavMesh`], with what its format depends on.
#[derive(Clone, Copy, Debug)]
pub struct NavMeshParser {
    pub nav_flag: NavFlags,
}

impl NavMesh {
    /// The decoder for the given parameters.
    pub fn parser(nav_flag: NavFlags) -> (d: NavMeshParser)
        ensures
            d == (NavMeshParser { nav_flag }),
    {
        NavMeshParser { nav_flag }
    }
}

impl Decoder for NavMeshParser {
    type Out = NavMesh;

    #[verifier::opaque]
    open spec fn spec_decode(&self, s: Seq<u8>) -> Parsed<NavMeshView> {
        match spec_parse_objects(
            CountWidth::U32,
            &Pair(Each::<Vector3>::it(), Each::<u8>::it()),
            s,
        ) { Err(e) => Err(e), Ok((s, vertices)) =>
        match spec_parse_objects(
            CountWidth::U32,
            &Triple(Each::<Face>::it(), Each::<u16>::it(), Cond { present: self.nav_flag.contains(NavFlags::UNK1), inner: Each::<u8>::it() }),
            s,
        ) { Err(e) => Err(e), Ok((s, ground)) =>
        match spec_parse_objects(
            CountWidth::U32,
            &ObjectLinesParser { nav_flag: self.nav_flag },
            s,
        ) { Err(e) => Err(e), Ok((s, outlines)) =>
        match spec_parse_objects(
            CountWidth::U32,
            &ObjectLinesParser { nav_flag: self.nav_flag },
            s,
        ) { Err(e) => Err(e), Ok((s, inlines)) =>
        match spec_parse_objects_if(
            self.nav_flag.contains(NavFlags::UNK2),
            CountWidth::U32,
            &Each::<String>::it(),
            s,
        ) { Err(e) => Err(e), Ok((s, event)) =>
        match spec_le_f32(s) { Err(e) => Err(e), Ok((s, unk0)) =>
        match spec_le_f32(s) { Err(e) => Err(e), Ok((s, unk1)) =>
        match spec_le_u32(s) { Err(e) => Err(e), Ok((s, unk2)) =>
        match spec_le_u32(s) { Err(e) => Err(e), Ok((s, unk3)) =>
        match spec_parse_objects(
            CountWidth::U32,
            &Counted { width: CountWidth::U32, item: Each::<u16>::it() },
            s,
        ) { Err(e) => Err(e), Ok((s, unk4)) =>
        Ok((s, NavMeshView {
            vertices,
            ground,
            outlines,
            inlines,
            event,
            unk0,
            unk1,
            unk2,
            unk3,
            unk4,
        }))
        }}}}}}}}}}
    }

    fn decode<'a>(&self, i: &'a [u8]) -> (r: IResult<'a, NavMesh>) {
        reveal(<NavMeshParser as Decoder>::spec_decode);
        let (i, vertices) = parse_objects_u32(&Pair(Each::<Vector3>::new(), Each::<u8>::new()), i)?;
        let (i, ground) = parse_objects_u32(
            &Triple(Each::<Face>::new(), Each::<u16>::new(), Cond { present: self.nav_flag.contains(NavFlags::UNK1), inner: Each::<u8>::new() }),
            i,
        )?;
        let (i, outlines) = parse_objects_u32(&ObjectLines::parser(self.nav_flag), i)?;
        let (i, inlines) = parse_objects_u32(&ObjectLines::parser(self.nav_flag), i)?;
        let (i, event) = parse_objects_if(
            self.nav_flag.contains(NavFlags::UNK2),
            CountWidth::U32,
            &Each::<String>::new(),
            i,
        )?;
        let (i, unk0) = le_f32(i)?;
        let (i, unk1) = le_f32(i)?;
        let (i, unk2) = le_u32(i)?;
        let (i, unk3) = le_u32(i)?;
        let (i, unk4) = parse_objects_u32(&Counted { width: CountWidth::U32, item: Each::<u16>::new() }, i)?;
        Ok((i, NavMesh {
            vertices,
            ground,
            outlines,
            inlines,
            event,
            unk0,
            unk1,
            unk2,
            unk3,
            unk4,
        }))
    }

    proof fn lemma_tail(&self, s: Seq<u8>) {
        reveal(<NavMeshParser as Decoder>::spec_decode);
        broadcast use group_tails;
    }
}

/// One of the two magic tags of a mesh file.
pub open spec fn spec_magic(s: Seq<u8>) -> Parsed<()> {
    match spec_tag(s, MAGIC_0109@) {
        Ok(r) => Ok(r),
        Err(_) => spec_tag(s, MAGIC_0110@),
    }
}

/// Reads the magic tag of a mesh file, of either version.
pub fn magic<'a>(i: &'a [u8]) -> (r: IResult<'a, ()>)
    ensures
        decodes(r, i@, spec_magic(i@)),
{
    match tag(i, &MAGIC_0109) {
        Ok(r) => Ok(r),
        Err(_) => tag(i, &MAGIC_0110),
    }
}

/// The header of a mesh file. Each of the first eight fields is the offset of
/// a section, counted from the start of the file.
#[derive(Clone, Debug, PartialEq, Eq)]
pub struct JmxBMeshHeader {
    pub vertex: u32,
    pub skin: u32,
    pub face: u32,
    pub cloth_vertex: u32,
    pub cloth_edge: u32,
    pub bounding_box: u32,
    pub gate: u32,
    /// The offset of the navigation mesh; 0 where the file has none.
    pub nav_mesh: u32,
    pub unk0: u32,
    pub unk1: u32,
    pub unk3: u32,
    pub nav_flags: NavFlags,
    pub sub_prim_count: u32,
    pub vertex_flags: VertexFlags,
    pub unk4: u32,
    pub name: String,
    pub material: String,
    pub unk5: u32,
}

/// The mathematical value of a [`JmxBMeshHeader`].
pub struct JmxBMeshHeaderView {
    pub vertex: u32,
    pub skin: u32,
    pub face: u32,
    pub cloth_vertex: u32,
    pub cloth_edge: u32,
    pub bounding_box: u32,
    pub gate: u32,
    pub nav_mesh: u32,
    pub unk0: u32,
    pub unk1: u32,
    pub unk3: u32,
    pub nav_flags: NavFlags,
    pub sub_prim_count: u32,
    pub vertex_flags: VertexFlags,
    pub unk4: u32,
    pub name: Seq<char>,
    pub material: Seq<char>,
    pub unk5: u32,
}

impl DeepView for JmxBMeshHeader {
    type V = JmxBMeshHeaderView;

    open spec fn deep_view(&self) -> JmxBMeshHeaderView {
        JmxBMeshHeaderView {
            vertex: self.vertex,
            skin: self.skin,
            face: self.face,
            cloth_vertex: self.cloth_vertex,
            cloth_edge: self.cloth_edge,
            bounding_box: self.bounding_box,
            gate: self.gate,
            nav_mesh: self.nav_mesh,
            unk0: self.unk0,
            unk1: self.unk1,
            unk3: self.unk3,
            nav_flags: self.nav_flags,
            sub_prim_count: self.sub_prim_count,
            vertex_flags: self.vertex_flags,
            unk4: self.unk4,
            name: self.name.deep_view(),
            material: self.material.deep_view(),
            unk5: self.unk5,
        }
    }
}

impl Parse for JmxBMeshHeader {
    #[verifier::opaque]
    open spec fn spec_parse(s: Seq<u8>) -> Parsed<JmxBMeshHeaderView> {
        match spec_magic(s) { Err(e) => Err(e), Ok((s, found)) =>
        match spec_le_u32(s) { Err(e) => Err(e), Ok((s, vertex)) =>
        match spec_le_u32(s) { Err(e) => Err(e), Ok((s, skin)) =>
        match spec_le_u32(s) { Err(e) => Err(e), Ok((s, face)) =>
        match spec_le_u32(s) { Err(e) => Err(e), Ok((s, cloth_vertex)) =>
        match spec_le_u32(s) { Err(e) => Err(e), Ok((s, cloth_edge)) =>
        match spec_le_u32(s) { Err(e) => Err(e), Ok((s, bounding_box)) =>
        match spec_le_u32(s) { Err(e) => Err(e), Ok((s, gate)) =>
        match spec_le_u32(s) { Err(e) => Err(e), Ok((s, nav_mesh)) =>
        match spec_le_u32(s) { Err(e) => Err(e), Ok((s, unk0)) =>
        match spec_le_u32(s) { Err(e) => Err(e), Ok((s, unk1)) =>
        match spec_le_u32(s) { Err(e) => Err(e), Ok((s, unk3)) =>
        match NavFlags::spec_parse(s) { Err(e) => Err(e), Ok((s, nav_flags)) =>
        match spec_le_u32(s) { Err(e) => Err(e), Ok((s, sub_prim_count)) =>
        match VertexFlags::spec_parse(s) { Err(e) => Err(e), Ok((s, vertex_flags)) =>
        match spec_le_u32(s) { Err(e) => Err(e), Ok((s, unk4)) =>
        match spec_sized_string(s) { Err(e) => Err(e), Ok((s, name)) =>
        match spec_sized_string(s) { Err(e) => Err(e), Ok((s, material)) =>
        match spec_le_u32(s) { Err(e) => Err(e), Ok((s, unk5)) =>
        Ok((s, JmxBMeshHeaderView {
            vertex,
            skin,
            face,
            cloth_vertex,
            cloth_edge,
            bounding_box,
            gate,
            nav_mesh,
            unk0,
            unk1,
            unk3,
            nav_flags,
            sub_prim_count,
            vertex_flags,
            unk4,
            name,
            material,
            unk5,
        }))
        }}}}}}}}}}}}}}}}}}}
    }

    fn parse<'a>(i: &'a [u8]) -> (r: IResult<'a, JmxBMeshHeader>) {
        reveal(<JmxBMeshHeader as Parse>::spec_parse);
        let (i, found) = magic(i)?;
        let (i, vertex) = le_u32(i)?;
        let (i, skin) = le_u32(i)?;
        let (i, face) = le_u32(i)?;
        let (i, cloth_vertex) = le_u32(i)?;
        let (i, cloth_edge) = le_u32(i)?;
        let (i, bounding_box) = le_u32(i)?;
        let (i, gate) = le_u32(i)?;
        let (i, nav_mesh) = le_u32(i)?;
        let (i, unk0) = le_u32(i)?;
        let (i, unk1) = le_u32(i)?;
        let (i, unk3) = le_u32(i)?;
        let (i, nav_flags) = NavFlags::parse(i)?;
        let (i, sub_prim_count) = le_u32(i)?;
        let (i, vertex_flags) = VertexFlags::parse(i)?;
        let (i, unk4) = le_u32(i)?;
        let (i, name) = sized_string(i)?;
        let (i, material) = sized_string(i)?;
        let (i, unk5) = le_u32(i)?;
        Ok((i, JmxBMeshHeader {
            vertex,
            skin,
            face,
            cloth_vertex,
            cloth_edge,
            bounding_box,
            gate,
            nav_mesh,
            unk0,
            unk1,
            unk3,
            nav_flags,
            sub_prim_count,
            vertex_flags,
            unk4,
            name,
            material,
            unk5,
        }))
    }

    proof fn lemma_tail(s: Seq<u8>) {
        reveal(<JmxBMeshHeader as Parse>::spec_parse);
        broadcast use group_tails;
    }
}

impl JmxBMeshHeader {
    /// Reads the magic tag and the header behind it.
    pub fn parse<'a>(i: &'a [u8]) -> (r: IResult<'a, JmxBMeshHeader>)
        ensures
            decodes(r, i@, <JmxBMeshHeader as Parse>::spec_parse(i@)),
    {
        <JmxBMeshHeader as Parse>::parse(i)
    }
}

impl JmxBMeshHeader {
    /// An input that starts with neither magic tag is refused with
    /// `TagMismatch`, whatever follows.
    pub proof fn lemma_magic_mismatch(s: Seq<u8>)
        requires
            !MAGIC_0109@.is_prefix_of(s),
            !MAGIC_0110@.is_prefix_of(s),
        ensures
            <JmxBMeshHeader as Parse>::spec_parse(s) == Err::<(Seq<u8>, JmxBMeshHeaderView), _>(
                DecodeErrorView::TagMismatch,
            ),
    {
        reveal(<JmxBMeshHeader as Parse>::spec_parse);
        reveal(spec_tag);
    }
}

/// A mesh file (`.bms`): a header of offsets, and the sections that the
/// offsets name.
#[derive(Clone, Debug, PartialEq, Eq)]
pub struct JmxBMesh {
    pub header: JmxBMeshHeader,
    pub vertices: Vec<Vertex>,
    /// Stands behind the vertices, where the mesh has a light map.
    pub light_map_path: Option<String>,
    pub bone_data: Option<(Vec<String>, Vec<BoneIndexData>)>,
    pub faces: Vec<Face>,
    pub cloth_vertex: Vec<ClothVertex>,
    pub cloth_edges: Option<(Vec<ClothEdge>, Vec<u32>, ClothSimParams)>,
    pub bounding_box: [F32; 6],
    pub gates: Vec<Gate>,
    /// Absent where the header's offset for it is 0.
    pub nav_mesh: Option<NavMesh>,
}

/// The mathematical value of a [`JmxBMesh`].
pub struct JmxBMeshView {
    pub header: JmxBMeshHeaderView,
    pub vertices: Seq<Vertex>,
    pub light_map_path: Option<Seq<char>>,
    pub bone_data: Option<(Seq<Seq<char>>, Seq<BoneIndexData>)>,
    pub faces: Seq<Seq<u16>>,
    pub cloth_vertex: Seq<ClothVertex>,
    pub cloth_edges: Option<(Seq<ClothEdge>, Seq<u32>, ClothSimParams)>,
    pub bounding_box: Seq<F32>,
    pub gates: Seq<GateView>,
    pub nav_mesh: Option<NavMeshView>,
}

impl DeepView for JmxBMesh {
    type V = JmxBMeshView;

    open spec fn deep_view(&self) -> JmxBMeshView {
        JmxBMeshView {
            header: self.header.deep_view(),
            vertices: self.vertices.deep_view(),
            light_map_path: self.light_map_path.deep_view(),
            bone_data: self.bone_data.deep_view(),
            faces: self.faces.deep_view(),
            cloth_vertex: self.cloth_vertex.deep_view(),
            cloth_edges: self.cloth_edges.deep_view(),
            bounding_box: self.bounding_box.deep_view(),
            gates: self.gates.deep_view(),
            nav_mesh: self.nav_mesh.deep_view(),
        }
    }
}

impl Parse for JmxBMesh {
    /// The header, read from the start; then each section, read from its own
    /// offset into the whole file. The navigation mesh is optional: an offset of
    /// 0 stands for a file without one, and then no byte is read for it.
    #[verifier::opaque]
    open spec fn spec_parse(s: Seq<u8>) -> Parsed<JmxBMeshView> {
        let buffer = s;
        match JmxBMeshHeader::spec_parse(s) { Err(e) => Err(e), Ok((s, header)) =>
        match spec_section(buffer, header.vertex as nat) { Err(e) => Err(e), Ok(s) =>
        match spec_parse_objects(
            CountWidth::U32,
            &VertexParser { light_map: header.vertex_flags.contains(VertexFlags::HAS_LIGHT_MAP) },
            s,
        ) { Err(e) => Err(e), Ok((s, vertices)) =>
        match spec_cond(
            header.vertex_flags.contains(VertexFlags::HAS_LIGHT_MAP),
            &Each::<String>::it(),
            s,
        ) { Err(e) => Err(e), Ok((s, light_map_path)) =>
        match spec_section(buffer, header.skin as nat) { Err(e) => Err(e), Ok(s) =>
        match spec_parse_bones(vertices.len() as usize, s) { Err(e) => Err(e), Ok((s, bone_data)) =>
        match spec_section(buffer, header.face as nat) { Err(e) => Err(e), Ok(s) =>
        match spec_parse_objects(CountWidth::U32, &Each::<Face>::it(), s) { Err(e) => Err(e), Ok((s, faces)) =>
        match spec_section(buffer, header.cloth_vertex as nat) { Err(e) => Err(e), Ok(s) =>
        match spec_parse_objects(
            CountWidth::U32,
            &Each::<ClothVertex>::it(),
            s,
        ) { Err(e) => Err(e), Ok((s, cloth_vertex)) =>
        match spec_section(buffer, header.cloth_edge as nat) { Err(e) => Err(e), Ok(s) =>
        match spec_parse_cloth_edges(s) { Err(e) => Err(e), Ok((s, cloth_edges)) =>
        match spec_section(buffer, header.bounding_box as nat) { Err(e) => Err(e), Ok(s) =>
        match spec_vector6_f32(s) { Err(e) => Err(e), Ok((s, bounding_box)) =>
        match spec_section(buffer, header.gate as nat) { Err(e) => Err(e), Ok(s) =>
        match spec_parse_objects(CountWidth::U32, &Each::<Gate>::it(), s) { Err(e) => Err(e), Ok((s, gates)) =>
        match spec_optional_section(buffer, header.nav_mesh as nat) { Err(e) => Err(e), Ok(cursor) =>
        match spec_optional(
            &NavMeshParser { nav_flag: header.nav_flags },
            cursor,
        ) { Err(e) => Err(e), Ok(nav_mesh) =>
        Ok((Seq::empty(), JmxBMeshView {
            header,
            vertices,
            light_map_path,
            bone_data,
            faces,
            cloth_vertex,
            cloth_edges,
            bounding_box,
            gates,
            nav_mesh,
        }))
        }}}}}}}}}}}}}}}}}}
    }

    fn parse<'a>(i: &'a [u8]) -> (r: IResult<'a, JmxBMesh>) {
        reveal(<JmxBMesh as Parse>::spec_parse);
        let buffer = i;
        let (i, header) = JmxBMeshHeader::parse(i)?;
        let i = section(buffer, header.vertex)?;
        let (i, vertices) = parse_objects_u32(
            &Vertex::parser(header.vertex_flags.contains(VertexFlags::HAS_LIGHT_MAP)),
            i,
        )?;
        let (i, light_map_path) = cond(
            header.vertex_flags.contains(VertexFlags::HAS_LIGHT_MAP),
            &Each::<String>::new(),
            i,
        )?;
        let i = section(buffer, header.skin)?;
        let (i, bone_data) = parse_bones(vertices.len(), i)?;
        let i = section(buffer, header.face)?;
        let (i, faces) = parse_objects_u32(&Each::<Face>::new(), i)?;
        let i = section(buffer, header.cloth_vertex)?;
        let (i, cloth_vertex) = parse_objects_u32(&Each::<ClothVertex>::new(), i)?;
        let i = section(buffer, header.cloth_edge)?;
        let (i, cloth_edges) = parse_cloth_edges(i)?;
        let i = section(buffer, header.bounding_box)?;
        let (i, bounding_box) = vector6_f32(i)?;
        let i = section(buffer, header.gate)?;
        let (i, gates) = parse_objects_u32(&Each::<Gate>::new(), i)?;
        let cursor = optional_section(buffer, header.nav_mesh)?;
        let nav_mesh = optional(&NavMesh::parser(header.nav_flags), cursor)?;
        Ok((end_of(buffer), JmxBMesh {
            header,
            vertices,
            light_map_path,
            bone_data,
            faces,
            cloth_vertex,
            cloth_edges,
            bounding_box,
            gates,
            nav_mesh,
        }))
    }

    proof fn lemma_tail(s: Seq<u8>) {
        reveal(<JmxBMesh as Parse>::spec_parse);
        broadcast use group_tails;
        lemma_empty_is_tail(s);
    }
}

impl JmxBMesh {
    /// Decodes a mesh file.
    pub fn parse<'a>(i: &'a [u8]) -> (r: IResult<'a, JmxBMesh>)
        ensures
            decodes(r, i@, <JmxBMesh as Parse>::spec_parse(i@)),
    {
        <JmxBMesh as Parse>::parse(i)
    }

    /// A file that does not start with the magic tag is refused with
    /// `TagMismatch`: no section of it is looked at.
    pub proof fn lemma_magic_mismatch(s: Seq<u8>)
        requires
            !MAGIC_0109@.is_prefix_of(s),
            !MAGIC_0110@.is_prefix_of(s),
        ensures
            <JmxBMesh as Parse>::spec_parse(s) == Err::<(Seq<u8>, JmxBMeshView), _>(
                DecodeErrorView::TagMismatch,
            ),
    {
        reveal(<JmxBMesh as Parse>::spec_parse);
        JmxBMeshHeader::lemma_magic_mismatch(s);
    }

    /// No section is read from behind the end of the file: where a file
    /// decodes, every offset that was followed lies within it.
    pub proof fn lemma_offsets_in_bounds(s: Seq<u8>)
        requires
            <JmxBMesh as Parse>::spec_parse(s) is Ok,
        ensures
            <JmxBMesh as Parse>::spec_parse(s)->Ok_0.1.header.vertex <= s.len(),
            <JmxBMesh as Parse>::spec_parse(s)->Ok_0.1.header.skin <= s.len(),
            <JmxBMesh as Parse>::spec_parse(s)->Ok_0.1.header.face <= s.len(),
            <JmxBMesh as Parse>::spec_parse(s)->Ok_0.1.header.cloth_vertex <= s.len(),
            <JmxBMesh as Parse>::spec_parse(s)->Ok_0.1.header.cloth_edge <= s.len(),
            <JmxBMesh as Parse>::spec_parse(s)->Ok_0.1.header.bounding_box <= s.len(),
            <JmxBMesh as Parse>::spec_parse(s)->Ok_0.1.header.gate <= s.len(),
            <JmxBMesh as Parse>::spec_parse(s)->Ok_0.1.header.nav_mesh <= s.len(),
    {
        reveal(<JmxBMesh as Parse>::spec_parse);
    }
}

impl JmxBMesh {
    /// A file whose header gives 0 as the offset of the navigation mesh has
    /// none, whatever stands at the start of the file.
    pub proof fn lemma_absent_nav_mesh(s: Seq<u8>)
        requires
            <JmxBMesh as Parse>::spec_parse(s) is Ok,
            <JmxBMesh as Parse>::spec_parse(s)->Ok_0.1.header.nav_mesh == 0,
        ensures
            <JmxBMesh as Parse>::spec_parse(s)->Ok_0.1.nav_mesh is None,
    {
        reveal(<JmxBMesh as Parse>::spec_parse);
    }
}

} // verus!
