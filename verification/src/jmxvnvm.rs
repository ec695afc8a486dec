//! Navigation meshes of regions.
use vstd::prelude::*;

use crate::decode::{decodes, Each, group_tails, IResult, Parse, Parsed};
use crate::error::DecodeErrorView;
use crate::math::{F32, Vector2, Vector3};
use crate::parser_ext::combinator::{Tuple4, Tuple6};
use crate::parser_ext::complete::{spec_tag, tag};
use crate::parser_ext::flags::{
    flags_u16, has_only_declared_bits, only_declared_bits, spec_flags_u16,
};
use crate::parser_ext::multi::{
    count, CountWidth, parse_objects_u16, parse_objects_u32, parse_objects_u8, spec_count,
    spec_parse_objects,
};
use crate::parser_ext::number::{
    le_f32, le_u16, le_u32, le_u8, spec_le_f32, spec_le_u16, spec_le_u32, spec_le_u8,
    spec_vector2_f32, spec_vector3_f32, vector2_f32, vector3_f32,
};

verus! {

/// The magic tag of a navigation file: `JMXVNVM 1000`.
pub const MAGIC: [u8; 12] = [
    0x4A, 0x4D, 0x58, 0x56, 0x4E, 0x56, 0x4D, 0x20, 0x31, 0x30, 0x30, 0x30,
];

/// Whether an entry takes part in collision.
#[derive(Clone, Copy, Debug, PartialEq, Eq, Structural, Hash)]
pub struct CollisionFlag {
    pub bits: u16,
}

impl DeepView for CollisionFlag {
    type V = CollisionFlag;

    open spec fn deep_view(&self) -> CollisionFlag {
        *self
    }
}

impl CollisionFlag {
    pub const HAS_COLLISION: u16 = 0xFFFF;

    /// Every declared bit.
    pub const ALL: u16 = 0xFFFF;

    /// Whether no bit outside the declared ones is set.
    pub open spec fn is_valid(&self) -> bool {
        only_declared_bits(self.bits as u32, Self::ALL as u32)
    }

    /// The flags that `bits` stand for, unless a bit is set that is not declared.
    pub fn from_bits(bits: u16) -> (r: Option<CollisionFlag>)
        ensures
            r == (if only_declared_bits(bits as u32, Self::ALL as u32) {
                Some(CollisionFlag { bits })
            } else {
                None
            }),
    {
        if has_only_declared_bits(bits as u32, Self::ALL as u32) {
            Some(CollisionFlag { bits })
        } else {
            None
        }
    }

    /// The field as it was read.
    pub fn bits(&self) -> (r: u16)
        ensures
            r == self.bits,
    {
        self.bits
    }

    /// Whether every bit of `mask` is set.
    pub open spec fn spec_contains(&self, mask: u16) -> bool {
        self.bits & mask == mask
    }

    /// Whether every bit of `mask` is set.
    #[verifier::when_used_as_spec(spec_contains)]
    pub fn contains(&self, mask: u16) -> (r: bool)
        ensures
            r == self.spec_contains(mask),
    {
        self.bits & mask == mask
    }
}

impl Parse for CollisionFlag {
    /// A `u16`, refused with `UnknownBitflags` where it has a bit that is not
    /// declared.
    open spec fn spec_parse(s: Seq<u8>) -> Parsed<CollisionFlag> {
        match spec_flags_u16(s, CollisionFlag::ALL) {
            Err(e) => Err(e),
            Ok((s, bits)) => Ok((s, CollisionFlag { bits })),
        }
    }

    fn parse<'a>(i: &'a [u8]) -> (r: IResult<'a, CollisionFlag>) {
        let (i, bits) = flags_u16(i, CollisionFlag::ALL)?;
        Ok((i, CollisionFlag { bits }))
    }

    proof fn lemma_tail(s: Seq<u8>) {
        broadcast use group_tails;
    }
}

impl CollisionFlag {
    /// Flags that decode are valid: the policy is strict, no undeclared bit
    /// is let through.
    pub proof fn lemma_decoded_is_valid(s: Seq<u8>)
        ensures
            <CollisionFlag as Parse>::spec_parse(s) matches Ok((_, flags)) ==> flags.is_valid(),
    {
    }
}

/// The flags of an entry's event zone.
#[derive(Clone, Copy, Debug, PartialEq, Eq, Structural, Hash)]
pub struct EventZoneFlag {
    pub bits: u16,
}

impl DeepView for EventZoneFlag {
    type V = EventZoneFlag;

    open spec fn deep_view(&self) -> EventZoneFlag {
        *self
    }
}

impl EventZoneFlag {
    pub const UNK0: u16 = 0x1;

    pub const HAS_COLLISION: u16 = 0x100;

    /// Every declared bit.
    pub const ALL: u16 = 0x101;

    /// Whether no bit outside the declared ones is set.
    pub open spec fn is_valid(&self) -> bool {
        only_declared_bits(self.bits as u32, Self::ALL as u32)
    }

    /// The flags that `bits` stand for, unless a bit is set that is not declared.
    pub fn from_bits(bits: u16) -> (r: Option<EventZoneFlag>)
        ensures
            r == (if only_declared_bits(bits as u32, Self::ALL as u32) {
                Some(EventZoneFlag { bits })
            } else {
                None
            }),
    {
        if has_only_declared_bits(bits as u32, Self::ALL as u32) {
            Some(EventZoneFlag { bits })
        } else {
            None
        }
    }

    /// The field as it was read.
    pub fn bits(&self) -> (r: u16)
        ensures
            r == self.bits,
    {
        self.bits
    }

    /// Whether every bit of `mask` is set.
    pub open spec fn spec_contains(&self, mask: u16) -> bool {
        self.bits & mask == mask
    }

    /// Whether every bit of `mask` is set.
    #[verifier::when_used_as_spec(spec_contains)]
    pub fn contains(&self, mask: u16) -> (r: bool)
        ensures
            r == self.spec_contains(mask),
    {
        self.bits & mask == mask
    }
}

impl Parse for EventZoneFlag {
    /// A `u16`, refused with `UnknownBitflags` where it has a bit that is not
    /// declared.
    open spec fn spec_parse(s: Seq<u8>) -> Parsed<EventZoneFlag> {
        match spec_flags_u16(s, EventZoneFlag::ALL) {
            Err(e) => Err(e),
            Ok((s, bits)) => Ok((s, EventZoneFlag { bits })),
        }
    }

    fn parse<'a>(i: &'a [u8]) -> (r: IResult<'a, EventZoneFlag>) {
        let (i, bits) = flags_u16(i, EventZoneFlag::ALL)?;
        Ok((i, EventZoneFlag { bits }))
    }

    proof fn lemma_tail(s: Seq<u8>) {
        broadcast use group_tails;
    }
}

impl EventZoneFlag {
    /// Flags that decode are valid: the policy is strict, no undeclared bit
    /// is let through.
    pub proof fn lemma_decoded_is_valid(s: Seq<u8>)
        ensures
            <EventZoneFlag as Parse>::spec_parse(s) matches Ok((_, flags)) ==> flags.is_valid(),
    {
    }
}

/// One object that stands in the way.
#[derive(Debug, PartialEq, Eq)]
pub struct NavEntry {
    pub id: u32,
    pub position: Vector3,
    pub collision_flag: CollisionFlag,
    pub yaw: F32,
    pub unique_id: u16,
    pub scale: u16,
    pub event_zone_flag: EventZoneFlag,
    pub region_id: u16,
    pub mount_points: Vec<(u8, u8, u8, u8, u8, u8)>,
}

/// The mathematical value of a [`NavEntry`].
pub struct NavEntryView {
    pub id: u32,
    pub position: Vector3,
    pub collision_flag: CollisionFlag,
    pub yaw: F32,
    pub unique_id: u16,
    pub scale: u16,
    pub event_zone_flag: EventZoneFlag,
    pub region_id: u16,
    pub mount_points: Seq<(u8, u8, u8, u8, u8, u8)>,
}

impl DeepView for NavEntry {
    type V = NavEntryView;

    open spec fn deep_view(&self) -> NavEntryView {
        NavEntryView {
            id: self.id,
            position: self.position,
            collision_flag: self.collision_flag,
            yaw: self.yaw,
            unique_id: self.unique_id,
            scale: self.scale,
            event_zone_flag: self.event_zone_flag,
            region_id: self.region_id,
            mount_points: self.mount_points.deep_view(),
        }
    }
}

impl Parse for NavEntry {
    #[verifier::opaque]
    open spec fn spec_parse(s: Seq<u8>) -> Parsed<NavEntryView> {
        match spec_le_u32(s) { Err(e) => Err(e), Ok((s, id)) =>
        match spec_vector3_f32(s) { Err(e) => Err(e), Ok((s, position)) =>
        match CollisionFlag::spec_parse(s) { Err(e) => Err(e), Ok((s, collision_flag)) =>
        match spec_le_f32(s) { Err(e) => Err(e), Ok((s, yaw)) =>
        match spec_le_u16(s) { Err(e) => Err(e), Ok((s, unique_id)) =>
        match spec_le_u16(s) { Err(e) => Err(e), Ok((s, scale)) =>
        match EventZoneFlag::spec_parse(s) { Err(e) => Err(e), Ok((s, event_zone_flag)) =>
        match spec_le_u16(s) { Err(e) => Err(e), Ok((s, region_id)) =>
        match spec_parse_objects(
            CountWidth::U16,
            &Tuple6(Each::<u8>::it(), Each::<u8>::it(), Each::<u8>::it(), Each::<u8>::it(), Each::<u8>::it(), Each::<u8>::it()),
            s,
        ) { Err(e) => Err(e), Ok((s, mount_points)) =>
        Ok((s, NavEntryView {
            id,
            position,
            collision_flag,
            yaw,
            unique_id,
            scale,
            event_zone_flag,
            region_id,
            mount_points,
        }))
        }}}}}}}}}
    }

    fn parse<'a>(i: &'a [u8]) -> (r: IResult<'a, NavEntry>) {
        reveal(<NavEntry as Parse>::spec_parse);
        let (i, id) = le_u32(i)?;
        let (i, position) = vector3_f32(i)?;
        let (i, collision_flag) = CollisionFlag::parse(i)?;
        let (i, yaw) = le_f32(i)?;
        let (i, unique_id) = le_u16(i)?;
        let (i, scale) = le_u16(i)?;
        let (i, event_zone_flag) = EventZoneFlag::parse(i)?;
        let (i, region_id) = le_u16(i)?;
        let (i, mount_points) = parse_objects_u16(
            &Tuple6(Each::<u8>::new(), Each::<u8>::new(), Each::<u8>::new(), Each::<u8>::new(), Each::<u8>::new(), Each::<u8>::new()),
            i,
        )?;
        Ok((i, NavEntry {
            id,
            position,
            collision_flag,
            yaw,
            unique_id,
            scale,
            event_zone_flag,
            region_id,
            mount_points,
        }))
    }

    proof fn lemma_tail(s: Seq<u8>) {
        reveal(<NavEntry as Parse>::spec_parse);
        broadcast use group_tails;
    }
}

#[derive(Debug, PartialEq, Eq)]
pub struct NavCell {
    pub min: Vector2,
    pub max: Vector2,
    pub entries: Vec<u16>,
}

/// The mathematical value of a [`NavCell`].
pub struct NavCellView {
    pub min: Vector2,
    pub max: Vector2,
    pub entries: Seq<u16>,
}

impl DeepView for NavCell {
    type V = NavCellView;

    open spec fn deep_view(&self) -> NavCellView {
        NavCellView {
            min: self.min,
            max: self.max,
            entries: self.entries.deep_view(),
        }
    }
}

impl Parse for NavCell {
    #[verifier::opaque]
    open spec fn spec_parse(s: Seq<u8>) -> Parsed<NavCellView> {
        match spec_vector2_f32(s) { Err(e) => Err(e), Ok((s, min)) =>
        match spec_vector2_f32(s) { Err(e) => Err(e), Ok((s, max)) =>
        match spec_parse_objects(CountWidth::U8, &Each::<u16>::it(), s) { Err(e) => Err(e), Ok((s, entries)) =>
        Ok((s, NavCellView { min, max, entries }))
        }}}
    }

    fn parse<'a>(i: &'a [u8]) -> (r: IResult<'a, NavCell>) {
        reveal(<NavCell as Parse>::spec_parse);
        let (i, min) = vector2_f32(i)?;
        let (i, max) = vector2_f32(i)?;
        let (i, entries) = parse_objects_u8(&Each::<u16>::new(), i)?;
        Ok((i, NavCell { min, max, entries }))
    }

    proof fn lemma_tail(s: Seq<u8>) {
        reveal(<NavCell as Parse>::spec_parse);
        broadcast use group_tails;
    }
}

#[derive(Debug, PartialEq, Eq)]
pub struct NavRegionLink {
    pub min: Vector2,
    pub max: Vector2,
    pub line_flag: u8,
    pub line_source: u8,
    pub line_destination: u8,
    pub cell_source: u16,
    pub cell_destination: u16,
    pub region_source: u16,
    pub region_destination: u16,
}

impl DeepView for NavRegionLink {
    type V = NavRegionLink;

    open spec fn deep_view(&self) -> NavRegionLink {
        *self
    }
}

impl Parse for NavRegionLink {
    #[verifier::opaque]
    open spec fn spec_parse(s: Seq<u8>) -> Parsed<NavRegionLink> {
        match spec_vector2_f32(s) { Err(e) => Err(e), Ok((s, min)) =>
        match spec_vector2_f32(s) { Err(e) => Err(e), Ok((s, max)) =>
        match spec_le_u8(s) { Err(e) => Err(e), Ok((s, line_flag)) =>
        match spec_le_u8(s) { Err(e) => Err(e), Ok((s, line_source)) =>
        match spec_le_u8(s) { Err(e) => Err(e), Ok((s, line_destination)) =>
        match spec_le_u16(s) { Err(e) => Err(e), Ok((s, cell_source)) =>
        match spec_le_u16(s) { Err(e) => Err(e), Ok((s, cell_destination)) =>
        match spec_le_u16(s) { Err(e) => Err(e), Ok((s, region_source)) =>
        match spec_le_u16(s) { Err(e) => Err(e), Ok((s, region_destination)) =>
        Ok((s, NavRegionLink {
            min,
            max,
            line_flag,
            line_source,
            line_destination,
            cell_source,
            cell_destination,
            region_source,
            region_destination,
        }))
        }}}}}}}}}
    }

    fn parse<'a>(i: &'a [u8]) -> (r: IResult<'a, NavRegionLink>) {
        reveal(<NavRegionLink as Parse>::spec_parse);
        let (i, min) = vector2_f32(i)?;
        let (i, max) = vector2_f32(i)?;
        let (i, line_flag) = le_u8(i)?;
        let (i, line_source) = le_u8(i)?;
        let (i, line_destination) = le_u8(i)?;
        let (i, cell_source) = le_u16(i)?;
        let (i, cell_destination) = le_u16(i)?;
        let (i, region_source) = le_u16(i)?;
        let (i, region_destination) = le_u16(i)?;
        Ok((i, NavRegionLink {
            min,
            max,
            line_flag,
            line_source,
            line_destination,
            cell_source,
            cell_destination,
            region_source,
            region_destination,
        }))
    }

    proof fn lemma_tail(s: Seq<u8>) {
        reveal(<NavRegionLink as Parse>::spec_parse);
        broadcast use group_tails;
    }
}

impl NavRegionLink {
    /// On the wire a value of this type is 27 bytes long: it decodes from
    /// every input that holds as many, and from no other.
    pub broadcast proof fn lemma_fixed_size(s: Seq<u8>)
        ensures
            #![trigger <NavRegionLink as Parse>::spec_parse(s)]
            match <NavRegionLink as Parse>::spec_parse(s) {
                Ok((rest, _)) => s.len() >= 27 && rest.len() + 27 == s.len(),
                Err(e) => s.len() < 27 && e == DecodeErrorView::UnexpectedEof,
            },
    {
        reveal(<NavRegionLink as Parse>::spec_parse);
        broadcast use group_tails;
        broadcast use crate::parser_ext::number::group_sizes;
    }
}

#[derive(Debug, PartialEq, Eq)]
pub struct NavCellLink {
    pub min: Vector2,
    pub max: Vector2,
    pub line_flag: u8,
    pub line_source: u8,
    pub line_destination: u8,
    pub cell_source: u16,
    pub cell_destination: u16,
}

impl DeepView for NavCellLink {
    type V = NavCellLink;

    open spec fn deep_view(&self) -> NavCellLink {
        *self
    }
}

impl Parse for NavCellLink {
    #[verifier::opaque]
    open spec fn spec_parse(s: Seq<u8>) -> Parsed<NavCellLink> {
        match spec_vector2_f32(s) { Err(e) => Err(e), Ok((s, min)) =>
        match spec_vector2_f32(s) { Err(e) => Err(e), Ok((s, max)) =>
        match spec_le_u8(s) { Err(e) => Err(e), Ok((s, line_flag)) =>
        match spec_le_u8(s) { Err(e) => Err(e), Ok((s, line_source)) =>
        match spec_le_u8(s) { Err(e) => Err(e), Ok((s, line_destination)) =>
        match spec_le_u16(s) { Err(e) => Err(e), Ok((s, cell_source)) =>
        match spec_le_u16(s) { Err(e) => Err(e), Ok((s, cell_destination)) =>
        Ok((s, NavCellLink {
            min,
            max,
            line_flag,
            line_source,
            line_destination,
            cell_source,
            cell_destination,
        }))
        }}}}}}}
    }

    fn parse<'a>(i: &'a [u8]) -> (r: IResult<'a, NavCellLink>) {
        reveal(<NavCellLink as Parse>::spec_parse);
        let (i, min) = vector2_f32(i)?;
        let (i, max) = vector2_f32(i)?;
        let (i, line_flag) = le_u8(i)?;
        let (i, line_source) = le_u8(i)?;
        let (i, line_destination) = le_u8(i)?;
        let (i, cell_source) = le_u16(i)?;
        let (i, cell_destination) = le_u16(i)?;
        Ok((i, NavCellLink {
            min,
            max,
            line_flag,
            line_source,
            line_destination,
            cell_source,
            cell_destination,
        }))
    }

    proof fn lemma_tail(s: Seq<u8>) {
        reveal(<NavCellLink as Parse>::spec_parse);
        broadcast use group_tails;
    }
}

impl NavCellLink {
    /// On the wire a value of this type is 23 bytes long: it decodes from
    /// every input that holds as many, and from no other.
    pub broadcast proof fn lemma_fixed_size(s: Seq<u8>)
        ensures
            #![trigger <NavCellLink as Parse>::spec_parse(s)]
            match <NavCellLink as Parse>::spec_parse(s) {
                Ok((rest, _)) => s.len() >= 23 && rest.len() + 23 == s.len(),
                Err(e) => s.len() < 23 && e == DecodeErrorView::UnexpectedEof,
            },
    {
        reveal(<NavCellLink as Parse>::spec_parse);
        broadcast use group_tails;
        broadcast use crate::parser_ext::number::group_sizes;
    }
}

/// A navigation file: where one can walk in a region.
#[derive(Debug, PartialEq, Eq)]
pub struct JmxNvm {
    pub nav_entries: Vec<NavEntry>,
    pub nav_extra_count: u32,
    /// As many cells as the count that stands before `nav_extra_count`.
    pub nav_cells: Vec<NavCell>,
    pub nav_region_links: Vec<NavRegionLink>,
    pub nav_cell_links: Vec<NavCellLink>,
    /// 96 by 96 tiles.
    pub texture_map: Vec<(u16, u16, u16, u16)>,
    /// 97 by 97 heights.
    pub height_map: Vec<F32>,
}

/// The mathematical value of a [`JmxNvm`].
pub struct JmxNvmView {
    pub nav_entries: Seq<NavEntryView>,
    pub nav_extra_count: u32,
    pub nav_cells: Seq<NavCellView>,
    pub nav_region_links: Seq<NavRegionLink>,
    pub nav_cell_links: Seq<NavCellLink>,
    pub texture_map: Seq<(u16, u16, u16, u16)>,
    pub height_map: Seq<F32>,
}

impl DeepView for JmxNvm {
    type V = JmxNvmView;

    open spec fn deep_view(&self) -> JmxNvmView {
        JmxNvmView {
            nav_entries: self.nav_entries.deep_view(),
            nav_extra_count: self.nav_extra_count,
            nav_cells: self.nav_cells.deep_view(),
            nav_region_links: self.nav_region_links.deep_view(),
            nav_cell_links: self.nav_cell_links.deep_view(),
            texture_map: self.texture_map.deep_view(),
            height_map: self.height_map.deep_view(),
        }
    }
}

impl Parse for JmxNvm {
    #[verifier::opaque]
    open spec fn spec_parse(s: Seq<u8>) -> Parsed<JmxNvmView> {
        match spec_tag(s, MAGIC@) { Err(e) => Err(e), Ok((s, _)) =>
        match spec_parse_objects(
            CountWidth::U16,
            &Each::<NavEntry>::it(),
            s,
        ) { Err(e) => Err(e), Ok((s, nav_entries)) =>
        match spec_le_u32(s) { Err(e) => Err(e), Ok((s, nav_cell_count)) =>
        match spec_le_u32(s) { Err(e) => Err(e), Ok((s, nav_extra_count)) =>
        match spec_count(
            &Each::<NavCell>::it(),
            s,
            nav_cell_count as nat,
        ) { Err(e) => Err(e), Ok((s, nav_cells)) =>
        match spec_parse_objects(
            CountWidth::U32,
            &Each::<NavRegionLink>::it(),
            s,
        ) { Err(e) => Err(e), Ok((s, nav_region_links)) =>
        match spec_parse_objects(
            CountWidth::U32,
            &Each::<NavCellLink>::it(),
            s,
        ) { Err(e) => Err(e), Ok((s, nav_cell_links)) =>
        match spec_count(
            &Tuple4(Each::<u16>::it(), Each::<u16>::it(), Each::<u16>::it(), Each::<u16>::it()),
            s,
            96 * 96,
        ) { Err(e) => Err(e), Ok((s, texture_map)) =>
        match spec_count(&Each::<F32>::it(), s, 97 * 97) { Err(e) => Err(e), Ok((s, height_map)) =>
        Ok((s, JmxNvmView {
            nav_entries,
            nav_extra_count,
            nav_cells,
            nav_region_links,
            nav_cell_links,
            texture_map,
            height_map,
        }))
        }}}}}}}}}
    }

    fn parse<'a>(i: &'a [u8]) -> (r: IResult<'a, JmxNvm>) {
        reveal(<JmxNvm as Parse>::spec_parse);
        let (i, _) = tag(i, &MAGIC)?;
        let (i, nav_entries) = parse_objects_u16(&Each::<NavEntry>::new(), i)?;
        let (i, nav_cell_count) = le_u32(i)?;
        let (i, nav_extra_count) = le_u32(i)?;
        let (i, nav_cells) = count(&Each::<NavCell>::new(), nav_cell_count as usize, i)?;
        let (i, nav_region_links) = parse_objects_u32(&Each::<NavRegionLink>::new(), i)?;
        let (i, nav_cell_links) = parse_objects_u32(&Each::<NavCellLink>::new(), i)?;
        let (i, texture_map) = count(
            &Tuple4(Each::<u16>::new(), Each::<u16>::new(), Each::<u16>::new(), Each::<u16>::new()),
            96 * 96,
            i,
        )?;
        let (i, height_map) = count(&Each::<F32>::new(), 97 * 97, i)?;
        Ok((i, JmxNvm {
            nav_entries,
            nav_extra_count,
            nav_cells,
            nav_region_links,
            nav_cell_links,
            texture_map,
            height_map,
        }))
    }

    proof fn lemma_tail(s: Seq<u8>) {
        reveal(<JmxNvm as Parse>::spec_parse);
        broadcast use group_tails;
    }
}

impl JmxNvm {
    /// Decodes a navigation file.
    pub fn parse<'a>(i: &'a [u8]) -> (r: IResult<'a, JmxNvm>)
        ensures
            decodes(r, i@, <JmxNvm as Parse>::spec_parse(i@)),
    {
        <JmxNvm as Parse>::parse(i)
    }

    /// An input that does not start with the magic tag is refused with
    /// `TagMismatch`, whatever follows.
    pub proof fn lemma_magic_mismatch(s: Seq<u8>)
        requires
            !MAGIC@.is_prefix_of(s),
        ensures
            <JmxNvm as Parse>::spec_parse(s) == Err::<(Seq<u8>, JmxNvmView), _>(
                DecodeErrorView::TagMismatch,
            ),
    {
        reveal(<JmxNvm as Parse>::spec_parse);
        reveal(spec_tag);
    }
}

} // verus!
