//! Decoders made of decoders: one after the other, one or none, a counted
//! run. Each is a value, so that it can be the item of a counted sequence.
use vstd::prelude::*;

use crate::decode::{decodes, Decoder, IResult, Parsed};
use crate::error::{DecodeError, DecodeErrorView};
use crate::parser_ext::complete::cursor_view;
use crate::parser_ext::multi::{count, parse_objects, spec_count, spec_parse_objects, CountWidth};
use crate::parser_ext::number::{le_u32, le_u8, spec_le_u32, spec_le_u8};

verus! {

/// A 32-bit field read as a truth value: zero is `false`.
pub open spec fn spec_bool_u32(s: Seq<u8>) -> Parsed<bool> {
    match spec_le_u32(s) {
        Err(e) => Err(e),
        Ok((s, raw)) => Ok((s, raw != 0)),
    }
}

/// An 8-bit field read as a truth value: zero is `false`.
pub open spec fn spec_bool_u8(s: Seq<u8>) -> Parsed<bool> {
    match spec_le_u8(s) {
        Err(e) => Err(e),
        Ok((s, raw)) => Ok((s, raw != 0)),
    }
}

/// Reads a `u32` and tells whether it is not zero.
pub fn bool_u32<'a>(i: &'a [u8]) -> (r: IResult<'a, bool>)
    ensures
        decodes(r, i@, spec_bool_u32(i@)),
{
    let (rest, raw) = le_u32(i)?;
    Ok((rest, raw != 0))
}

/// Reads a `u8` and tells whether it is not zero.
pub fn bool_u8<'a>(i: &'a [u8]) -> (r: IResult<'a, bool>)
    ensures
        decodes(r, i@, spec_bool_u8(i@)),
{
    let (rest, raw) = le_u8(i)?;
    Ok((rest, raw != 0))
}

/// `A`, then `B` from where `A` ended.
pub struct Pair<A, B>(pub A, pub B);

impl<A: Decoder, B: Decoder> Decoder for Pair<A, B> {
    type Out = (A::Out, B::Out);

    open spec fn spec_decode(&self, s: Seq<u8>) -> Parsed<(<A::Out as DeepView>::V, <B::Out as DeepView>::V)> {
        match self.0.spec_decode(s) {
            Err(e) => Err(e),
            Ok((s, a)) => match self.1.spec_decode(s) {
                Err(e) => Err(e),
                Ok((s, b)) => Ok((s, (a, b))),
            },
        }
    }

    fn decode<'a>(&self, i: &'a [u8]) -> (r: IResult<'a, (A::Out, B::Out)>) {
        let (i, a) = self.0.decode(i)?;
        let (i, b) = self.1.decode(i)?;
        Ok((i, (a, b)))
    }

    proof fn lemma_tail(&self, s: Seq<u8>) {
        broadcast use crate::decode::group_tails;
    }
}

/// `A`, then `B`, then `C`.
pub struct Triple<A, B, C>(pub A, pub B, pub C);

impl<A: Decoder, B: Decoder, C: Decoder> Decoder for Triple<A, B, C> {
    type Out = (A::Out, B::Out, C::Out);

    open spec fn spec_decode(&self, s: Seq<u8>) -> Parsed<
        (<A::Out as DeepView>::V, <B::Out as DeepView>::V, <C::Out as DeepView>::V),
    > {
        match self.0.spec_decode(s) {
            Err(e) => Err(e),
            Ok((s, a)) => match self.1.spec_decode(s) {
                Err(e) => Err(e),
                Ok((s, b)) => match self.2.spec_decode(s) {
                    Err(e) => Err(e),
                    Ok((s, c)) => Ok((s, (a, b, c))),
                },
            },
        }
    }

    fn decode<'a>(&self, i: &'a [u8]) -> (r: IResult<'a, (A::Out, B::Out, C::Out)>) {
        let (i, a) = self.0.decode(i)?;
        let (i, b) = self.1.decode(i)?;
        let (i, c) = self.2.decode(i)?;
        Ok((i, (a, b, c)))
    }

    proof fn lemma_tail(&self, s: Seq<u8>) {
        broadcast use crate::decode::group_tails;
    }
}

/// What `d` decodes where `present` holds; else nothing is read and nothing
/// is there.
pub open spec fn spec_cond<D: Decoder>(present: bool, d: &D, s: Seq<u8>) -> Parsed<Option<<D::Out as DeepView>::V>> {
    if present {
        match d.spec_decode(s) {
            Err(e) => Err(e),
            Ok((s, value)) => Ok((s, Some(value))),
        }
    } else {
        Ok((s, None))
    }
}

/// Runs `d` where `present` holds, and reads nothing where not.
pub fn cond<'a, D: Decoder>(present: bool, d: &D, i: &'a [u8]) -> (r: IResult<'a, Option<D::Out>>)
    ensures
        decodes(r, i@, spec_cond(present, d, i@)),
{
    if present {
        let (i, value) = d.decode(i)?;
        Ok((i, Some(value)))
    } else {
        Ok((i, None))
    }
}

/// `D` where `present` holds; else nothing is read and nothing is there.
pub struct Cond<D> {
    pub present: bool,
    pub inner: D,
}

impl<D: Decoder> Decoder for Cond<D> {
    type Out = Option<D::Out>;

    open spec fn spec_decode(&self, s: Seq<u8>) -> Parsed<Option<<D::Out as DeepView>::V>> {
        spec_cond(self.present, &self.inner, s)
    }

    fn decode<'a>(&self, i: &'a [u8]) -> (r: IResult<'a, Option<D::Out>>) {
        cond(self.present, &self.inner, i)
    }

    proof fn lemma_tail(&self, s: Seq<u8>) {
        broadcast use crate::decode::group_tails;
    }
}

/// A length field of the given width, then that many `D`.
pub struct Counted<D> {
    pub width: CountWidth,
    pub item: D,
}

impl<D: Decoder> Decoder for Counted<D> {
    type Out = Vec<D::Out>;

    open spec fn spec_decode(&self, s: Seq<u8>) -> Parsed<Seq<<D::Out as DeepView>::V>> {
        spec_parse_objects(self.width, &self.item, s)
    }

    fn decode<'a>(&self, i: &'a [u8]) -> (r: IResult<'a, Vec<D::Out>>) {
        parse_objects(self.width, &self.item, i)
    }

    proof fn lemma_tail(&self, s: Seq<u8>) {
        broadcast use crate::decode::group_tails;
    }
}

/// `D`, a given number of times.
pub struct Repeat<D> {
    pub times: usize,
    pub item: D,
}

impl<D: Decoder> Decoder for Repeat<D> {
    type Out = Vec<D::Out>;

    open spec fn spec_decode(&self, s: Seq<u8>) -> Parsed<Seq<<D::Out as DeepView>::V>> {
        spec_count(&self.item, s, self.times as nat)
    }

    fn decode<'a>(&self, i: &'a [u8]) -> (r: IResult<'a, Vec<D::Out>>) {
        count(&self.item, self.times, i)
    }

    proof fn lemma_tail(&self, s: Seq<u8>) {
        broadcast use crate::decode::group_tails;
    }
}

/// Four decoders, one after the other.
pub struct Tuple4<A, B, C, D>(pub A, pub B, pub C, pub D);

impl<A: Decoder, B: Decoder, C: Decoder, D: Decoder> Decoder for Tuple4<A, B, C, D> {
    type Out = (A::Out, B::Out, C::Out, D::Out);

    open spec fn spec_decode(&self, s: Seq<u8>) -> Parsed<
        (<A::Out as DeepView>::V, <B::Out as DeepView>::V, <C::Out as DeepView>::V, <D::Out as DeepView>::V),
    > {
        match self.0.spec_decode(s) {
            Err(e) => Err(e),
            Ok((s, a)) => match self.1.spec_decode(s) {
                Err(e) => Err(e),
                Ok((s, b)) => match self.2.spec_decode(s) {
                    Err(e) => Err(e),
                    Ok((s, c)) => match self.3.spec_decode(s) {
                        Err(e) => Err(e),
                        Ok((s, d)) => Ok((s, (a, b, c, d))),
                    },
                },
            },
        }
    }

    fn decode<'a>(&self, i: &'a [u8]) -> (r: IResult<'a, (A::Out, B::Out, C::Out, D::Out)>) {
        let (i, a) = self.0.decode(i)?;
        let (i, b) = self.1.decode(i)?;
        let (i, c) = self.2.decode(i)?;
        let (i, d) = self.3.decode(i)?;
        Ok((i, (a, b, c, d)))
    }

    proof fn lemma_tail(&self, s: Seq<u8>) {
        broadcast use crate::decode::group_tails;
    }
}

/// Six decoders, one after the other.
pub struct Tuple6<A, B, C, D, E, F>(pub A, pub B, pub C, pub D, pub E, pub F);

impl<A: Decoder, B: Decoder, C: Decoder, D: Decoder, E: Decoder, F: Decoder> Decoder for Tuple6<A, B, C, D, E, F> {
    type Out = (A::Out, B::Out, C::Out, D::Out, E::Out, F::Out);

    open spec fn spec_decode(&self, s: Seq<u8>) -> Parsed<
        (
            <A::Out as DeepView>::V,
            <B::Out as DeepView>::V,
            <C::Out as DeepView>::V,
            <D::Out as DeepView>::V,
            <E::Out as DeepView>::V,
            <F::Out as DeepView>::V,
        ),
    > {
        match self.0.spec_decode(s) { Err(e) => Err(e), Ok((s, a)) =>
        match self.1.spec_decode(s) { Err(e) => Err(e), Ok((s, b)) =>
        match self.2.spec_decode(s) { Err(e) => Err(e), Ok((s, c)) =>
        match self.3.spec_decode(s) { Err(e) => Err(e), Ok((s, d)) =>
        match self.4.spec_decode(s) { Err(e) => Err(e), Ok((s, e)) =>
        match self.5.spec_decode(s) { Err(e) => Err(e), Ok((s, f)) =>
        Ok((s, (a, b, c, d, e, f)))
        }}}}}}
    }

    fn decode<'a>(&self, i: &'a [u8]) -> (r: IResult<'a, (A::Out, B::Out, C::Out, D::Out, E::Out, F::Out)>) {
        let (i, a) = self.0.decode(i)?;
        let (i, b) = self.1.decode(i)?;
        let (i, c) = self.2.decode(i)?;
        let (i, d) = self.3.decode(i)?;
        let (i, e) = self.4.decode(i)?;
        let (i, f) = self.5.decode(i)?;
        Ok((i, (a, b, c, d, e, f)))
    }

    proof fn lemma_tail(&self, s: Seq<u8>) {
        broadcast use crate::decode::group_tails;
    }
}

/// What `d` decodes from a section that may be absent: nothing where the
/// section is absent.
pub open spec fn spec_optional<D: Decoder>(d: &D, cursor: Option<Seq<u8>>) -> Result<
    Option<<D::Out as DeepView>::V>,
    DecodeErrorView,
> {
    match cursor {
        None => Ok(None),
        Some(s) => match d.spec_decode(s) {
            Err(e) => Err(e),
            Ok((_, value)) => Ok(Some(value)),
        },
    }
}

/// Runs `d` on the cursor of a section, where there is one.
pub fn optional<D: Decoder>(d: &D, cursor: Option<&[u8]>) -> (r: Result<Option<D::Out>, DecodeError>)
    ensures
        match r {
            Ok(value) => spec_optional(d, cursor_view(cursor)) == Ok::<_, DecodeErrorView>(value.deep_view()),
            Err(e) => spec_optional(d, cursor_view(cursor)) == Err::<Option<<D::Out as DeepView>::V>, _>(e@),
        },
{
    match cursor {
        None => Ok(None),
        Some(i) => {
            let (_, value) = d.decode(i)?;
            Ok(Some(value))
        },
    }
}

} // verus!
