//! Teleport targets.
use vstd::prelude::*;

use crate::decode::{decodes, Each, group_tails, IResult, Parse, Parsed};
use crate::math::Vector3;
use crate::parser_ext::multi::{CountWidth, parse_objects_u32, spec_parse_objects};
use crate::parser_ext::number::{
    le_u16, le_u32, spec_le_u16, spec_le_u32, spec_vector3_f32, vector3_f32,
};
use crate::parser_ext::string::{sized_string, spec_sized_string};

verus! {

/// One teleport target.
#[derive(Debug, PartialEq, Eq)]
pub struct Gmwpfort {
    pub name: String,
    pub region_id: u16,
    pub pad: u16,
    pub offset: Vector3,
    pub world_id: u32,
}

/// The mathematical value of a [`Gmwpfort`].
pub struct GmwpfortView {
    pub name: Seq<char>,
    pub region_id: u16,
    pub pad: u16,
    pub offset: Vector3,
    pub world_id: u32,
}

impl DeepView for Gmwpfort {
    type V = GmwpfortView;

    open spec fn deep_view(&self) -> GmwpfortView {
        GmwpfortView {
            name: self.name.deep_view(),
            region_id: self.region_id,
            pad: self.pad,
            offset: self.offset,
            world_id: self.world_id,
        }
    }
}

impl Parse for Gmwpfort {
    #[verifier::opaque]
    open spec fn spec_parse(s: Seq<u8>) -> Parsed<GmwpfortView> {
        match spec_sized_string(s) { Err(e) => Err(e), Ok((s, name)) =>
        match spec_le_u16(s) { Err(e) => Err(e), Ok((s, region_id)) =>
        match spec_le_u16(s) { Err(e) => Err(e), Ok((s, pad)) =>
        match spec_vector3_f32(s) { Err(e) => Err(e), Ok((s, offset)) =>
        match spec_le_u32(s) { Err(e) => Err(e), Ok((s, world_id)) =>
        Ok((s, GmwpfortView { name, region_id, pad, offset, world_id }))
        }}}}}
    }

    fn parse<'a>(i: &'a [u8]) -> (r: IResult<'a, Gmwpfort>) {
        reveal(<Gmwpfort as Parse>::spec_parse);
        let (i, name) = sized_string(i)?;
        let (i, region_id) = le_u16(i)?;
        let (i, pad) = le_u16(i)?;
        let (i, offset) = vector3_f32(i)?;
        let (i, world_id) = le_u32(i)?;
        Ok((i, Gmwpfort { name, region_id, pad, offset, world_id }))
    }

    proof fn lemma_tail(s: Seq<u8>) {
        reveal(<Gmwpfort as Parse>::spec_parse);
        broadcast use group_tails;
    }
}

impl Gmwpfort {
    /// A counted sequence of teleport targets.
    pub open spec fn spec_parse_all(s: Seq<u8>) -> Parsed<Seq<GmwpfortView>> {
        spec_parse_objects(CountWidth::U32, &Each::<Gmwpfort>::it(), s)
    }

    /// Decodes a file of teleport targets.
    pub fn parse<'a>(i: &'a [u8]) -> (r: IResult<'a, Vec<Gmwpfort>>)
        ensures
            decodes(r, i@, Self::spec_parse_all(i@)),
    {
        parse_objects_u32(&Each::<Gmwpfort>::new(), i)
    }
}

} // verus!
