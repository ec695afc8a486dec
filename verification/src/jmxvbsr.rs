//! Resources (`.bsr`): what a model is made of, by sections.
use vstd::prelude::*;

use crate::decode::{decodes, Each, group_tails, IResult, lemma_empty_is_tail, Parse, Parsed};
use crate::enums::{ResourceAnimationType, ResourceType};
use crate::error::DecodeErrorView;
use crate::math::{F32, Vector2};
use crate::parser_ext::combinator::{Cond, Counted, Pair};
use crate::parser_ext::complete::{end_of, section, spec_section, spec_tag, tag};
use crate::parser_ext::multi::{
    count, CountWidth, parse_objects_u32, spec_count, spec_parse_objects,
};
use crate::parser_ext::number::{
    le_f32, le_u32, spec_le_f32, spec_le_u32, spec_vector6_f32, vector6_f32,
};
use crate::parser_ext::string::{sized_path, sized_string, spec_sized_string};

verus! {

/// The magic tag of a resource file: `JMXVRES 0109`.
pub const MAGIC: [u8; 12] = [
    0x4A, 0x4D, 0x58, 0x56, 0x52, 0x45, 0x53, 0x20, 0x30, 0x31, 0x30, 0x39,
];

/// The collision section of a resource.
#[derive(Debug, PartialEq, Eq)]
pub struct BoundingBox {
    pub root_mesh: String,
    pub bounding_box0: [F32; 6],
    pub bounding_box1: [F32; 6],
    /// 64 bytes where the field before them is not zero, else none.
    pub extra_bounding_data: Vec<u8>,
}

/// The mathematical value of a [`BoundingBox`].
pub struct BoundingBoxView {
    pub root_mesh: Seq<char>,
    pub bounding_box0: Seq<F32>,
    pub bounding_box1: Seq<F32>,
    pub extra_bounding_data: Seq<u8>,
}

impl DeepView for BoundingBox {
    type V = BoundingBoxView;

    open spec fn deep_view(&self) -> BoundingBoxView {
        BoundingBoxView {
            root_mesh: self.root_mesh.deep_view(),
            bounding_box0: self.bounding_box0.deep_view(),
            bounding_box1: self.bounding_box1.deep_view(),
            extra_bounding_data: self.extra_bounding_data.deep_view(),
        }
    }
}

impl Parse for BoundingBox {
    #[verifier::opaque]
    open spec fn spec_parse(s: Seq<u8>) -> Parsed<BoundingBoxView> {
        match spec_sized_string(s) { Err(e) => Err(e), Ok((s, root_mesh)) =>
        match spec_vector6_f32(s) { Err(e) => Err(e), Ok((s, bounding_box0)) =>
        match spec_vector6_f32(s) { Err(e) => Err(e), Ok((s, bounding_box1)) =>
        match spec_le_u32(s) { Err(e) => Err(e), Ok((s, has_extra)) =>
        match spec_count(
            &Each::<u8>::it(),
            s,
            if has_extra != 0 { 64nat } else { 0nat },
        ) { Err(e) => Err(e), Ok((s, extra_bounding_data)) =>
        Ok((s, BoundingBoxView { root_mesh, bounding_box0, bounding_box1, extra_bounding_data }))
        }}}}}
    }

    fn parse<'a>(i: &'a [u8]) -> (r: IResult<'a, BoundingBox>) {
        reveal(<BoundingBox as Parse>::spec_parse);
        let (i, root_mesh) = sized_string(i)?;
        let (i, bounding_box0) = vector6_f32(i)?;
        let (i, bounding_box1) = vector6_f32(i)?;
        let (i, has_extra) = le_u32(i)?;
        let (i, extra_bounding_data) = count(&Each::<u8>::new(), if has_extra != 0 { 64 } else { 0 }, i)?;
        Ok((i, BoundingBox { root_mesh, bounding_box0, bounding_box1, extra_bounding_data }))
    }

    proof fn lemma_tail(s: Seq<u8>) {
        reveal(<BoundingBox as Parse>::spec_parse);
        broadcast use group_tails;
    }
}

#[derive(Debug, PartialEq, Eq)]
pub struct MaterialDescriptor {
    pub id: u32,
    pub path: String,
}

/// The mathematical value of a [`MaterialDescriptor`].
pub struct MaterialDescriptorView {
    pub id: u32,
    pub path: Seq<char>,
}

impl DeepView for MaterialDescriptor {
    type V = MaterialDescriptorView;

    open spec fn deep_view(&self) -> MaterialDescriptorView {
        MaterialDescriptorView {
            id: self.id,
            path: self.path.deep_view(),
        }
    }
}

impl Parse for MaterialDescriptor {
    #[verifier::opaque]
    open spec fn spec_parse(s: Seq<u8>) -> Parsed<MaterialDescriptorView> {
        match spec_le_u32(s) { Err(e) => Err(e), Ok((s, id)) =>
        match spec_sized_string(s) { Err(e) => Err(e), Ok((s, path)) =>
        Ok((s, MaterialDescriptorView { id, path }))
        }}
    }

    fn parse<'a>(i: &'a [u8]) -> (r: IResult<'a, MaterialDescriptor>) {
        reveal(<MaterialDescriptor as Parse>::spec_parse);
        let (i, id) = le_u32(i)?;
        let (i, path) = sized_path(i)?;
        Ok((i, MaterialDescriptor { id, path }))
    }

    proof fn lemma_tail(s: Seq<u8>) {
        reveal(<MaterialDescriptor as Parse>::spec_parse);
        broadcast use group_tails;
    }
}

#[derive(Debug, PartialEq, Eq)]
pub struct Animation {
    pub unk0: u32,
    pub unk1: u32,
    pub paths: Vec<String>,
}

/// The mathematical value of a [`Animation`].
pub struct AnimationView {
    pub unk0: u32,
    pub unk1: u32,
    pub paths: Seq<Seq<char>>,
}

impl DeepView for Animation {
    type V = AnimationView;

    open spec fn deep_view(&self) -> AnimationView {
        AnimationView {
            unk0: self.unk0,
            unk1: self.unk1,
            paths: self.paths.deep_view(),
        }
    }
}

impl Parse for Animation {
    #[verifier::opaque]
    open spec fn spec_parse(s: Seq<u8>) -> Parsed<AnimationView> {
        match spec_le_u32(s) { Err(e) => Err(e), Ok((s, unk0)) =>
        match spec_le_u32(s) { Err(e) => Err(e), Ok((s, unk1)) =>
        match spec_parse_objects(
            CountWidth::U32,
            &Each::<String>::it(),
            s,
        ) { Err(e) => Err(e), Ok((s, paths)) =>
        Ok((s, AnimationView { unk0, unk1, paths }))
        }}}
    }

    fn parse<'a>(i: &'a [u8]) -> (r: IResult<'a, Animation>) {
        reveal(<Animation as Parse>::spec_parse);
        let (i, unk0) = le_u32(i)?;
        let (i, unk1) = le_u32(i)?;
        let (i, paths) = parse_objects_u32(&Each::<String>::new(), i)?;
        Ok((i, Animation { unk0, unk1, paths }))
    }

    proof fn lemma_tail(s: Seq<u8>) {
        reveal(<Animation as Parse>::spec_parse);
        broadcast use group_tails;
    }
}

#[derive(Debug, PartialEq, Eq)]
pub struct MeshGroup {
    pub name: String,
    pub file_indices: Vec<u32>,
}

/// The mathematical value of a [`MeshGroup`].
pub struct MeshGroupView {
    pub name: Seq<char>,
    pub file_indices: Seq<u32>,
}

impl DeepView for MeshGroup {
    type V = MeshGroupView;

    open spec fn deep_view(&self) -> MeshGroupView {
        MeshGroupView {
            name: self.name.deep_view(),
            file_indices: self.file_indices.deep_view(),
        }
    }
}

impl Parse for MeshGroup {
    #[verifier::opaque]
    open spec fn spec_parse(s: Seq<u8>) -> Parsed<MeshGroupView> {
        match spec_sized_string(s) { Err(e) => Err(e), Ok((s, name)) =>
        match spec_parse_objects(
            CountWidth::U32,
            &Each::<u32>::it(),
            s,
        ) { Err(e) => Err(e), Ok((s, file_indices)) =>
        Ok((s, MeshGroupView { name, file_indices }))
        }}
    }

    fn parse<'a>(i: &'a [u8]) -> (r: IResult<'a, MeshGroup>) {
        reveal(<MeshGroup as Parse>::spec_parse);
        let (i, name) = sized_string(i)?;
        let (i, file_indices) = parse_objects_u32(&Each::<u32>::new(), i)?;
        Ok((i, MeshGroup { name, file_indices }))
    }

    proof fn lemma_tail(s: Seq<u8>) {
        reveal(<MeshGroup as Parse>::spec_parse);
        broadcast use group_tails;
    }
}

#[derive(Debug, PartialEq, Eq)]
pub struct AnimationEvent {
    pub key_time: u32,
    pub typ: u32,
    pub unk0: u32,
    pub unk1: u32,
}

impl DeepView for AnimationEvent {
    type V = AnimationEvent;

    open spec fn deep_view(&self) -> AnimationEvent {
        *self
    }
}

impl Parse for AnimationEvent {
    #[verifier::opaque]
    open spec fn spec_parse(s: Seq<u8>) -> Parsed<AnimationEvent> {
        match spec_le_u32(s) { Err(e) => Err(e), Ok((s, key_time)) =>
        match spec_le_u32(s) { Err(e) => Err(e), Ok((s, typ)) =>
        match spec_le_u32(s) { Err(e) => Err(e), Ok((s, unk0)) =>
        match spec_le_u32(s) { Err(e) => Err(e), Ok((s, unk1)) =>
        Ok((s, AnimationEvent { key_time, typ, unk0, unk1 }))
        }}}}
    }

    fn parse<'a>(i: &'a [u8]) -> (r: IResult<'a, AnimationEvent>) {
        reveal(<AnimationEvent as Parse>::spec_parse);
        let (i, key_time) = le_u32(i)?;
        let (i, typ) = le_u32(i)?;
        let (i, unk0) = le_u32(i)?;
        let (i, unk1) = le_u32(i)?;
        Ok((i, AnimationEvent { key_time, typ, unk0, unk1 }))
    }

    proof fn lemma_tail(s: Seq<u8>) {
        reveal(<AnimationEvent as Parse>::spec_parse);
        broadcast use group_tails;
    }
}

impl AnimationEvent {
    /// On the wire a value of this type is 16 bytes long: it decodes from
    /// every input that holds as many, and from no other.
    pub broadcast proof fn lemma_fixed_size(s: Seq<u8>)
        ensures
            #![trigger <AnimationEvent as Parse>::spec_parse(s)]
            match <AnimationEvent as Parse>::spec_parse(s) {
                Ok((rest, _)) => s.len() >= 16 && rest.len() + 16 == s.len(),
                Err(e) => s.len() < 16 && e == DecodeErrorView::UnexpectedEof,
            },
    {
        reveal(<AnimationEvent as Parse>::spec_parse);
        broadcast use group_tails;
        broadcast use crate::parser_ext::number::group_sizes;
    }
}

#[derive(Debug, PartialEq, Eq)]
pub struct AnimationGroupEntry {
    pub typ: ResourceAnimationType,
    pub file_index: u32,
    pub events: Vec<AnimationEvent>,
    pub walk_length: F32,
    /// As many points as the count that stands before `walk_length`.
    pub walk_graph: Vec<Vector2>,
}

/// The mathematical value of a [`AnimationGroupEntry`].
pub struct AnimationGroupEntryView {
    pub typ: ResourceAnimationType,
    pub file_index: u32,
    pub events: Seq<AnimationEvent>,
    pub walk_length: F32,
    pub walk_graph: Seq<Vector2>,
}

impl DeepView for AnimationGroupEntry {
    type V = AnimationGroupEntryView;

    open spec fn deep_view(&self) -> AnimationGroupEntryView {
        AnimationGroupEntryView {
            typ: self.typ,
            file_index: self.file_index,
            events: self.events.deep_view(),
            walk_length: self.walk_length,
            walk_graph: self.walk_graph.deep_view(),
        }
    }
}

impl Parse for AnimationGroupEntry {
    #[verifier::opaque]
    open spec fn spec_parse(s: Seq<u8>) -> Parsed<AnimationGroupEntryView> {
        match ResourceAnimationType::spec_parse(s) { Err(e) => Err(e), Ok((s, typ)) =>
        match spec_le_u32(s) { Err(e) => Err(e), Ok((s, file_index)) =>
        match spec_parse_objects(
            CountWidth::U32,
            &Each::<AnimationEvent>::it(),
            s,
        ) { Err(e) => Err(e), Ok((s, events)) =>
        match spec_le_u32(s) { Err(e) => Err(e), Ok((s, walk_graph_len)) =>
        match spec_le_f32(s) { Err(e) => Err(e), Ok((s, walk_length)) =>
        match spec_count(
            &Each::<Vector2>::it(),
            s,
            walk_graph_len as nat,
        ) { Err(e) => Err(e), Ok((s, walk_graph)) =>
        Ok((s, AnimationGroupEntryView { typ, file_index, events, walk_length, walk_graph }))
        }}}}}}
    }

    fn parse<'a>(i: &'a [u8]) -> (r: IResult<'a, AnimationGroupEntry>) {
        reveal(<AnimationGroupEntry as Parse>::spec_parse);
        let (i, typ) = ResourceAnimationType::parse(i)?;
        let (i, file_index) = le_u32(i)?;
        let (i, events) = parse_objects_u32(&Each::<AnimationEvent>::new(), i)?;
        let (i, walk_graph_len) = le_u32(i)?;
        let (i, walk_length) = le_f32(i)?;
        let (i, walk_graph) = count(&Each::<Vector2>::new(), walk_graph_len as usize, i)?;
        Ok((i, AnimationGroupEntry { typ, file_index, events, walk_length, walk_graph }))
    }

    proof fn lemma_tail(s: Seq<u8>) {
        reveal(<AnimationGroupEntry as Parse>::spec_parse);
        broadcast use group_tails;
    }
}

#[derive(Debug, PartialEq, Eq)]
pub struct AnimationGroup {
    pub name: String,
    pub animations: Vec<AnimationGroupEntry>,
}

/// The mathematical value of a [`AnimationGroup`].
pub struct AnimationGroupView {
    pub name: Seq<char>,
    pub animations: Seq<AnimationGroupEntryView>,
}

impl DeepView for AnimationGroup {
    type V = AnimationGroupView;

    open spec fn deep_view(&self) -> AnimationGroupView {
        AnimationGroupView {
            name: self.name.deep_view(),
            animations: self.animations.deep_view(),
        }
    }
}

impl Parse for AnimationGroup {
    #[verifier::opaque]
    open spec fn spec_parse(s: Seq<u8>) -> Parsed<AnimationGroupView> {
        match spec_sized_string(s) { Err(e) => Err(e), Ok((s, name)) =>
        match spec_parse_objects(
            CountWidth::U32,
            &Each::<AnimationGroupEntry>::it(),
            s,
        ) { Err(e) => Err(e), Ok((s, animations)) =>
        Ok((s, AnimationGroupView { name, animations }))
        }}
    }

    fn parse<'a>(i: &'a [u8]) -> (r: IResult<'a, AnimationGroup>) {
        reveal(<AnimationGroup as Parse>::spec_parse);
        let (i, name) = sized_string(i)?;
        let (i, animations) = parse_objects_u32(&Each::<AnimationGroupEntry>::new(), i)?;
        Ok((i, AnimationGroup { name, animations }))
    }

    proof fn lemma_tail(s: Seq<u8>) {
        reveal(<AnimationGroup as Parse>::spec_parse);
        broadcast use group_tails;
    }
}

/// The header of a resource file. Each offset is counted from the start of
/// the file and names the section that starts there.
#[derive(Debug, PartialEq, Eq)]
pub struct JmxResHeader {
    pub material_offset: u32,
    pub mesh_offset: u32,
    pub skeleton_offset: u32,
    pub animation_offset: u32,
    pub mesh_group_offset: u32,
    pub animation_group_offset: u32,
    pub mod_palette_offset: u32,
    pub collision_offset: u32,
    pub unk0: u32,
    pub unk1: u32,
    pub unk2: u32,
    pub unk3: u32,
    pub unk4: u32,
    pub res_type: ResourceType,
    pub name: String,
}

/// The mathematical value of a [`JmxResHeader`].
pub struct JmxResHeaderView {
    pub material_offset: u32,
    pub mesh_offset: u32,
    pub skeleton_offset: u32,
    pub animation_offset: u32,
    pub mesh_group_offset: u32,
    pub animation_group_offset: u32,
    pub mod_palette_offset: u32,
    pub collision_offset: u32,
    pub unk0: u32,
    pub unk1: u32,
    pub unk2: u32,
    pub unk3: u32,
    pub unk4: u32,
    pub res_type: ResourceType,
    pub name: Seq<char>,
}

impl DeepView for JmxResHeader {
    type V = JmxResHeaderView;

    open spec fn deep_view(&self) -> JmxResHeaderView {
        JmxResHeaderView {
            material_offset: self.material_offset,
            mesh_offset: self.mesh_offset,
            skeleton_offset: self.skeleton_offset,
            animation_offset: self.animation_offset,
            mesh_group_offset: self.mesh_group_offset,
            animation_group_offset: self.animation_group_offset,
            mod_palette_offset: self.mod_palette_offset,
            collision_offset: self.collision_offset,
            unk0: self.unk0,
            unk1: self.unk1,
            unk2: self.unk2,
            unk3: self.unk3,
            unk4: self.unk4,
            res_type: self.res_type,
            name: self.name.deep_view(),
        }
    }
}

impl Parse for JmxResHeader {
    #[verifier::opaque]
    open spec fn spec_parse(s: Seq<u8>) -> Parsed<JmxResHeaderView> {
        match spec_tag(s, MAGIC@) { Err(e) => Err(e), Ok((s, _)) =>
        match spec_le_u32(s) { Err(e) => Err(e), Ok((s, material_offset)) =>
        match spec_le_u32(s) { Err(e) => Err(e), Ok((s, mesh_offset)) =>
        match spec_le_u32(s) { Err(e) => Err(e), Ok((s, skeleton_offset)) =>
        match spec_le_u32(s) { Err(e) => Err(e), Ok((s, animation_offset)) =>
        match spec_le_u32(s) { Err(e) => Err(e), Ok((s, mesh_group_offset)) =>
        match spec_le_u32(s) { Err(e) => Err(e), Ok((s, animation_group_offset)) =>
        match spec_le_u32(s) { Err(e) => Err(e), Ok((s, mod_palette_offset)) =>
        match spec_le_u32(s) { Err(e) => Err(e), Ok((s, collision_offset)) =>
        match spec_le_u32(s) { Err(e) => Err(e), Ok((s, unk0)) =>
        match spec_le_u32(s) { Err(e) => Err(e), Ok((s, unk1)) =>
        match spec_le_u32(s) { Err(e) => Err(e), Ok((s, unk2)) =>
        match spec_le_u32(s) { Err(e) => Err(e), Ok((s, unk3)) =>
        match spec_le_u32(s) { Err(e) => Err(e), Ok((s, unk4)) =>
        match ResourceType::spec_parse(s) { Err(e) => Err(e), Ok((s, res_type)) =>
        match spec_sized_string(s) { Err(e) => Err(e), Ok((s, name)) =>
        Ok((s, JmxResHeaderView {
            material_offset,
            mesh_offset,
            skeleton_offset,
            animation_offset,
            mesh_group_offset,
            animation_group_offset,
            mod_palette_offset,
            collision_offset,
            unk0,
            unk1,
            unk2,
            unk3,
            unk4,
            res_type,
            name,
        }))
        }}}}}}}}}}}}}}}}
    }

    fn parse<'a>(i: &'a [u8]) -> (r: IResult<'a, JmxResHeader>) {
        reveal(<JmxResHeader as Parse>::spec_parse);
        let (i, _) = tag(i, &MAGIC)?;
        let (i, material_offset) = le_u32(i)?;
        let (i, mesh_offset) = le_u32(i)?;
        let (i, skeleton_offset) = le_u32(i)?;
        let (i, animation_offset) = le_u32(i)?;
        let (i, mesh_group_offset) = le_u32(i)?;
        let (i, animation_group_offset) = le_u32(i)?;
        let (i, mod_palette_offset) = le_u32(i)?;
        let (i, collision_offset) = le_u32(i)?;
        let (i, unk0) = le_u32(i)?;
        let (i, unk1) = le_u32(i)?;
        let (i, unk2) = le_u32(i)?;
        let (i, unk3) = le_u32(i)?;
        let (i, unk4) = le_u32(i)?;
        let (i, res_type) = ResourceType::parse(i)?;
        let (i, name) = sized_string(i)?;
        Ok((i, JmxResHeader {
            material_offset,
            mesh_offset,
            skeleton_offset,
            animation_offset,
            mesh_group_offset,
            animation_group_offset,
            mod_palette_offset,
            collision_offset,
            unk0,
            unk1,
            unk2,
            unk3,
            unk4,
            res_type,
            name,
        }))
    }

    proof fn lemma_tail(s: Seq<u8>) {
        reveal(<JmxResHeader as Parse>::spec_parse);
        broadcast use group_tails;
    }
}

impl JmxResHeader {
    /// Reads the magic tag and the header behind it.
    pub fn parse<'a>(i: &'a [u8]) -> (r: IResult<'a, JmxResHeader>)
        ensures
            decodes(r, i@, <JmxResHeader as Parse>::spec_parse(i@)),
    {
        <JmxResHeader as Parse>::parse(i)
    }

    /// An input that does not start with the magic tag is refused with
    /// `TagMismatch`, whatever follows.
    pub proof fn lemma_magic_mismatch(s: Seq<u8>)
        requires
            !MAGIC@.is_prefix_of(s),
        ensures
            <JmxResHeader as Parse>::spec_parse(s) == Err::<(Seq<u8>, JmxResHeaderView), _>(
                DecodeErrorView::TagMismatch,
            ),
    {
        reveal(<JmxResHeader as Parse>::spec_parse);
        reveal(spec_tag);
    }
}

/// A resource file (`.bsr`): a header of offsets, and the sections that the
/// offsets name.
#[derive(Debug, PartialEq, Eq)]
pub struct JmxRes {
    pub header: JmxResHeader,
    pub bounding_box: BoundingBox,
    pub material_sets: Vec<MaterialDescriptor>,
    /// Each mesh; with a number where the header's `unk0` is 1.
    pub mesh_paths: Vec<(String, Option<u32>)>,
    pub animation: Animation,
    pub skeleton_paths: Vec<(String, Vec<u8>)>,
    pub mesh_groups: Vec<MeshGroup>,
    pub animation_groups: Vec<AnimationGroup>,
}

/// The mathematical value of a [`JmxRes`].
pub struct JmxResView {
    pub header: JmxResHeaderView,
    pub bounding_box: BoundingBoxView,
    pub material_sets: Seq<MaterialDescriptorView>,
    pub mesh_paths: Seq<(Seq<char>, Option<u32>)>,
    pub animation: AnimationView,
    pub skeleton_paths: Seq<(Seq<char>, Seq<u8>)>,
    pub mesh_groups: Seq<MeshGroupView>,
    pub animation_groups: Seq<AnimationGroupView>,
}

impl DeepView for JmxRes {
    type V = JmxResView;

    open spec fn deep_view(&self) -> JmxResView {
        JmxResView {
            header: self.header.deep_view(),
            bounding_box: self.bounding_box.deep_view(),
            material_sets: self.material_sets.deep_view(),
            mesh_paths: self.mesh_paths.deep_view(),
            animation: self.animation.deep_view(),
            skeleton_paths: self.skeleton_paths.deep_view(),
            mesh_groups: self.mesh_groups.deep_view(),
            animation_groups: self.animation_groups.deep_view(),
        }
    }
}

impl Parse for JmxRes {
    /// The header, read from the start; then each section, read from its own
    /// offset into the whole file, wherever the section before it ended. An
    /// offset behind the end of the file fails with `OffsetOutOfBounds`. What
    /// stands behind a section is not looked at, so no cursor is left.
    #[verifier::opaque]
    open spec fn spec_parse(s: Seq<u8>) -> Parsed<JmxResView> {
        let buffer = s;
        match JmxResHeader::spec_parse(s) { Err(e) => Err(e), Ok((s, header)) =>
        match spec_section(buffer, header.collision_offset as nat) { Err(e) => Err(e), Ok(s) =>
        match BoundingBox::spec_parse(s) { Err(e) => Err(e), Ok((s, bounding_box)) =>
        match spec_section(buffer, header.material_offset as nat) { Err(e) => Err(e), Ok(s) =>
        match spec_parse_objects(
            CountWidth::U32,
            &Each::<MaterialDescriptor>::it(),
            s,
        ) { Err(e) => Err(e), Ok((s, material_sets)) =>
        match spec_section(buffer, header.mesh_offset as nat) { Err(e) => Err(e), Ok(s) =>
        match spec_parse_objects(
            CountWidth::U32,
            &Pair(Each::<String>::it(), Cond { present: header.unk0 == 1, inner: Each::<u32>::it() }),
            s,
        ) { Err(e) => Err(e), Ok((s, mesh_paths)) =>
        match spec_section(buffer, header.animation_offset as nat) { Err(e) => Err(e), Ok(s) =>
        match Animation::spec_parse(s) { Err(e) => Err(e), Ok((s, animation)) =>
        match spec_section(buffer, header.skeleton_offset as nat) { Err(e) => Err(e), Ok(s) =>
        match spec_parse_objects(
            CountWidth::U32,
            &Pair(Each::<String>::it(), Counted { width: CountWidth::U32, item: Each::<u8>::it() }),
            s,
        ) { Err(e) => Err(e), Ok((s, skeleton_paths)) =>
        match spec_section(buffer, header.mesh_group_offset as nat) { Err(e) => Err(e), Ok(s) =>
        match spec_parse_objects(
            CountWidth::U32,
            &Each::<MeshGroup>::it(),
            s,
        ) { Err(e) => Err(e), Ok((s, mesh_groups)) =>
        match spec_section(buffer, header.animation_group_offset as nat) { Err(e) => Err(e), Ok(s) =>
        match spec_parse_objects(
            CountWidth::U32,
            &Each::<AnimationGroup>::it(),
            s,
        ) { Err(e) => Err(e), Ok((s, animation_groups)) =>
        Ok((Seq::empty(), JmxResView {
            header,
            bounding_box,
            material_sets,
            mesh_paths,
            animation,
            skeleton_paths,
            mesh_groups,
            animation_groups,
        }))
        }}}}}}}}}}}}}}}
    }

    fn parse<'a>(i: &'a [u8]) -> (r: IResult<'a, JmxRes>) {
        reveal(<JmxRes as Parse>::spec_parse);
        let buffer = i;
        let (i, header) = JmxResHeader::parse(i)?;
        let i = section(buffer, header.collision_offset)?;
        let (i, bounding_box) = BoundingBox::parse(i)?;
        let i = section(buffer, header.material_offset)?;
        let (i, material_sets) = parse_objects_u32(&Each::<MaterialDescriptor>::new(), i)?;
        let i = section(buffer, header.mesh_offset)?;
        let (i, mesh_paths) = parse_objects_u32(
            &Pair(Each::<String>::new(), Cond { present: header.unk0 == 1, inner: Each::<u32>::new() }),
            i,
        )?;
        let i = section(buffer, header.animation_offset)?;
        let (i, animation) = Animation::parse(i)?;
        let i = section(buffer, header.skeleton_offset)?;
        let (i, skeleton_paths) = parse_objects_u32(
            &Pair(Each::<String>::new(), Counted { width: CountWidth::U32, item: Each::<u8>::new() }),
            i,
        )?;
        let i = section(buffer, header.mesh_group_offset)?;
        let (i, mesh_groups) = parse_objects_u32(&Each::<MeshGroup>::new(), i)?;
        let i = section(buffer, header.animation_group_offset)?;
        let (i, animation_groups) = parse_objects_u32(&Each::<AnimationGroup>::new(), i)?;
        Ok((end_of(buffer), JmxRes {
            header,
            bounding_box,
            material_sets,
            mesh_paths,
            animation,
            skeleton_paths,
            mesh_groups,
            animation_groups,
        }))
    }

    proof fn lemma_tail(s: Seq<u8>) {
        reveal(<JmxRes as Parse>::spec_parse);
        broadcast use group_tails;
        lemma_empty_is_tail(s);
    }
}

impl JmxRes {
    /// Decodes a resource file.
    pub fn parse<'a>(i: &'a [u8]) -> (r: IResult<'a, JmxRes>)
        ensures
            decodes(r, i@, <JmxRes as Parse>::spec_parse(i@)),
    {
        <JmxRes as Parse>::parse(i)
    }

    /// A file that does not start with the magic tag is refused with
    /// `TagMismatch`: no section of it is looked at.
    pub proof fn lemma_magic_mismatch(s: Seq<u8>)
        requires
            !MAGIC@.is_prefix_of(s),
        ensures
            <JmxRes as Parse>::spec_parse(s) == Err::<(Seq<u8>, JmxResView), _>(
                DecodeErrorView::TagMismatch,
            ),
    {
        reveal(<JmxRes as Parse>::spec_parse);
        JmxResHeader::lemma_magic_mismatch(s);
    }

    /// No section is read from behind the end of the file: where a file
    /// decodes, every offset that was followed lies within it.
    pub proof fn lemma_offsets_in_bounds(s: Seq<u8>)
        requires
            <JmxRes as Parse>::spec_parse(s) is Ok,
        ensures
            <JmxRes as Parse>::spec_parse(s)->Ok_0.1.header.collision_offset <= s.len(),
            <JmxRes as Parse>::spec_parse(s)->Ok_0.1.header.material_offset <= s.len(),
            <JmxRes as Parse>::spec_parse(s)->Ok_0.1.header.mesh_offset <= s.len(),
            <JmxRes as Parse>::spec_parse(s)->Ok_0.1.header.animation_offset <= s.len(),
            <JmxRes as Parse>::spec_parse(s)->Ok_0.1.header.skeleton_offset <= s.len(),
            <JmxRes as Parse>::spec_parse(s)->Ok_0.1.header.mesh_group_offset <= s.len(),
            <JmxRes as Parse>::spec_parse(s)->Ok_0.1.header.animation_group_offset <= s.len(),
    {
        reveal(<JmxRes as Parse>::spec_parse);
    }
}

} // verus!
