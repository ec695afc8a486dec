//! Compounds (`.cpd`).
use vstd::prelude::*;

use crate::decode::{decodes, Each, group_tails, IResult, lemma_empty_is_tail, Parse, Parsed};
use crate::enums::ResourceType;
use crate::error::DecodeErrorView;
use crate::parser_ext::complete::{end_of, section, spec_section, spec_tag, tag};
use crate::parser_ext::multi::{CountWidth, parse_objects_u32, spec_parse_objects};
use crate::parser_ext::number::{le_u32, spec_le_u32};
use crate::parser_ext::string::{sized_path, sized_string, spec_sized_string};

verus! {

/// The magic tag of a compound file: `JMXVCPD 0101`.
pub const MAGIC: [u8; 12] = [
    0x4A, 0x4D, 0x58, 0x56, 0x43, 0x50, 0x44, 0x20, 0x30, 0x31, 0x30, 0x31,
];

/// The header of a compound file. The first two fields are the offsets of its
/// two sections.
#[derive(Debug, PartialEq, Eq)]
pub struct JmxCompoundHeader {
    pub collision_resources: u32,
    pub resource_list: u32,
    pub unk0: u32,
    pub unk1: u32,
    pub unk2: u32,
    pub unk3: u32,
    pub unk4: u32,
    pub typ: ResourceType,
    pub name: String,
    pub unk5: u32,
    pub unk6: u32,
}

/// The mathematical value of a [`JmxCompoundHeader`].
pub struct JmxCompoundHeaderView {
    pub collision_resources: u32,
    pub resource_list: u32,
    pub unk0: u32,
    pub unk1: u32,
    pub unk2: u32,
    pub unk3: u32,
    pub unk4: u32,
    pub typ: ResourceType,
    pub name: Seq<char>,
    pub unk5: u32,
    pub unk6: u32,
}

impl DeepView for JmxCompoundHeader {
    type V = JmxCompoundHeaderView;

    open spec fn deep_view(&self) -> JmxCompoundHeaderView {
        JmxCompoundHeaderView {
            collision_resources: self.collision_resources,
            resource_list: self.resource_list,
            unk0: self.unk0,
            unk1: self.unk1,
            unk2: self.unk2,
            unk3: self.unk3,
            unk4: self.unk4,
            typ: self.typ,
            name: self.name.deep_view(),
            unk5: self.unk5,
            unk6: self.unk6,
        }
    }
}

impl Parse for JmxCompoundHeader {
    #[verifier::opaque]
    open spec fn spec_parse(s: Seq<u8>) -> Parsed<JmxCompoundHeaderView> {
        match spec_tag(s, MAGIC@) { Err(e) => Err(e), Ok((s, _)) =>
        match spec_le_u32(s) { Err(e) => Err(e), Ok((s, collision_resources)) =>
        match spec_le_u32(s) { Err(e) => Err(e), Ok((s, resource_list)) =>
        match spec_le_u32(s) { Err(e) => Err(e), Ok((s, unk0)) =>
        match spec_le_u32(s) { Err(e) => Err(e), Ok((s, unk1)) =>
        match spec_le_u32(s) { Err(e) => Err(e), Ok((s, unk2)) =>
        match spec_le_u32(s) { Err(e) => Err(e), Ok((s, unk3)) =>
        match spec_le_u32(s) { Err(e) => Err(e), Ok((s, unk4)) =>
        match ResourceType::spec_parse(s) { Err(e) => Err(e), Ok((s, typ)) =>
        match spec_sized_string(s) { Err(e) => Err(e), Ok((s, name)) =>
        match spec_le_u32(s) { Err(e) => Err(e), Ok((s, unk5)) =>
        match spec_le_u32(s) { Err(e) => Err(e), Ok((s, unk6)) =>
        Ok((s, JmxCompoundHeaderView {
            collision_resources,
            resource_list,
            unk0,
            unk1,
            unk2,
            unk3,
            unk4,
            typ,
            name,
            unk5,
            unk6,
        }))
        }}}}}}}}}}}}
    }

    fn parse<'a>(i: &'a [u8]) -> (r: IResult<'a, JmxCompoundHeader>) {
        reveal(<JmxCompoundHeader as Parse>::spec_parse);
        let (i, _) = tag(i, &MAGIC)?;
        let (i, collision_resources) = le_u32(i)?;
        let (i, resource_list) = le_u32(i)?;
        let (i, unk0) = le_u32(i)?;
        let (i, unk1) = le_u32(i)?;
        let (i, unk2) = le_u32(i)?;
        let (i, unk3) = le_u32(i)?;
        let (i, unk4) = le_u32(i)?;
        let (i, typ) = ResourceType::parse(i)?;
        let (i, name) = sized_string(i)?;
        let (i, unk5) = le_u32(i)?;
        let (i, unk6) = le_u32(i)?;
        Ok((i, JmxCompoundHeader {
            collision_resources,
            resource_list,
            unk0,
            unk1,
            unk2,
            unk3,
            unk4,
            typ,
            name,
            unk5,
            unk6,
        }))
    }

    proof fn lemma_tail(s: Seq<u8>) {
        reveal(<JmxCompoundHeader as Parse>::spec_parse);
        broadcast use group_tails;
    }
}

impl JmxCompoundHeader {
    /// Reads the magic tag and the header behind it.
    pub fn parse<'a>(i: &'a [u8]) -> (r: IResult<'a, JmxCompoundHeader>)
        ensures
            decodes(r, i@, <JmxCompoundHeader as Parse>::spec_parse(i@)),
    {
        <JmxCompoundHeader as Parse>::parse(i)
    }

    /// An input that does not start with the magic tag is refused with
    /// `TagMismatch`, whatever follows.
    pub proof fn lemma_magic_mismatch(s: Seq<u8>)
        requires
            !MAGIC@.is_prefix_of(s),
        ensures
            <JmxCompoundHeader as Parse>::spec_parse(s) == Err::<(Seq<u8>, JmxCompoundHeaderView), _>(
                DecodeErrorView::TagMismatch,
            ),
    {
        reveal(<JmxCompoundHeader as Parse>::spec_parse);
        reveal(spec_tag);
    }
}

/// A compound file (`.cpd`): resources that make one object.
#[derive(Debug, PartialEq, Eq)]
pub struct JmxCompound {
    pub header: JmxCompoundHeader,
    pub collision_resource_path: String,
    pub resource_paths: Vec<String>,
}

/// The mathematical value of a [`JmxCompound`].
pub struct JmxCompoundView {
    pub header: JmxCompoundHeaderView,
    pub collision_resource_path: Seq<char>,
    pub resource_paths: Seq<Seq<char>>,
}

impl DeepView for JmxCompound {
    type V = JmxCompoundView;

    open spec fn deep_view(&self) -> JmxCompoundView {
        JmxCompoundView {
            header: self.header.deep_view(),
            collision_resource_path: self.collision_resource_path.deep_view(),
            resource_paths: self.resource_paths.deep_view(),
        }
    }
}

impl Parse for JmxCompound {
    #[verifier::opaque]
    open spec fn spec_parse(s: Seq<u8>) -> Parsed<JmxCompoundView> {
        let buffer = s;
        match JmxCompoundHeader::spec_parse(s) { Err(e) => Err(e), Ok((s, header)) =>
        match spec_section(buffer, header.collision_resources as nat) { Err(e) => Err(e), Ok(s) =>
        match spec_sized_string(s) { Err(e) => Err(e), Ok((s, collision_resource_path)) =>
        match spec_section(buffer, header.resource_list as nat) { Err(e) => Err(e), Ok(s) =>
        match spec_parse_objects(
            CountWidth::U32,
            &Each::<String>::it(),
            s,
        ) { Err(e) => Err(e), Ok((s, resource_paths)) =>
        Ok((Seq::empty(), JmxCompoundView { header, collision_resource_path, resource_paths }))
        }}}}}
    }

    fn parse<'a>(i: &'a [u8]) -> (r: IResult<'a, JmxCompound>) {
        reveal(<JmxCompound as Parse>::spec_parse);
        let buffer = i;
        let (i, header) = JmxCompoundHeader::parse(i)?;
        let i = section(buffer, header.collision_resources)?;
        let (i, collision_resource_path) = sized_path(i)?;
        let i = section(buffer, header.resource_list)?;
        let (i, resource_paths) = parse_objects_u32(&Each::<String>::new(), i)?;
        Ok((end_of(buffer), JmxCompound { header, collision_resource_path, resource_paths }))
    }

    proof fn lemma_tail(s: Seq<u8>) {
        reveal(<JmxCompound as Parse>::spec_parse);
        broadcast use group_tails;
        lemma_empty_is_tail(s);
    }
}

impl JmxCompound {
    /// Decodes a compound file.
    pub fn parse<'a>(i: &'a [u8]) -> (r: IResult<'a, JmxCompound>)
        ensures
            decodes(r, i@, <JmxCompound as Parse>::spec_parse(i@)),
    {
        <JmxCompound as Parse>::parse(i)
    }

    /// A file that does not start with the magic tag is refused with
    /// `TagMismatch`: no section of it is looked at.
    pub proof fn lemma_magic_mismatch(s: Seq<u8>)
        requires
            !MAGIC@.is_prefix_of(s),
        ensures
            <JmxCompound as Parse>::spec_parse(s) == Err::<(Seq<u8>, JmxCompoundView), _>(
                DecodeErrorView::TagMismatch,
            ),
    {
        reveal(<JmxCompound as Parse>::spec_parse);
        JmxCompoundHeader::lemma_magic_mismatch(s);
    }

    /// No section is read from behind the end of the file: where a file
    /// decodes, every offset that was followed lies within it.
    pub proof fn lemma_offsets_in_bounds(s: Seq<u8>)
        requires
            <JmxCompound as Parse>::spec_parse(s) is Ok,
        ensures
            <JmxCompound as Parse>::spec_parse(s)->Ok_0.1.header.collision_resources <= s.len(),
            <JmxCompound as Parse>::spec_parse(s)->Ok_0.1.header.resource_list <= s.len(),
    {
        reveal(<JmxCompound as Parse>::spec_parse);
    }
}

} // verus!
