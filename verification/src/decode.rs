//! What it means to decode: the shape of a specification, the shape of a
//! decoder, and the relation between the two.
use vstd::prelude::*;

use crate::error::{DecodeError, DecodeErrorView};

verus! {

/// What a specification says of an input: the cursor that is left and the
/// value that was read, or the error.
pub type Parsed<V> = Result<(Seq<u8>, V), DecodeErrorView>;

/// What a decoder returns: the cursor that is left and the value that was
/// read, or the error.
pub type IResult<'a, T> = Result<(&'a [u8], T), DecodeError>;

/// The mathematical value of a decoder's result.
pub open spec fn outcome<T: DeepView>(r: IResult<T>) -> Parsed<T::V> {
    match r {
        Ok((rest, value)) => Ok((rest@, value.deep_view())),
        Err(e) => Err(e@),
    }
}

/// `r` is what decoding `input` must give according to `expected`, and the
/// cursor it leaves is no longer than `input`.
pub open spec fn decodes<T: DeepView>(r: IResult<T>, input: Seq<u8>, expected: Parsed<T::V>) -> bool {
    &&& outcome(r) == expected
    &&& r matches Ok((rest, _)) ==> rest@.len() <= input.len()
}

/// `rest` is what is left of `s` when some bytes, or none, are taken off its
/// front.
#[verifier::opaque]
pub open spec fn is_tail(rest: Seq<u8>, s: Seq<u8>) -> bool {
    rest.len() <= s.len() && rest == s.skip(s.len() - rest.len())
}

/// What is left when `n` bytes are skipped is a tail.
pub proof fn lemma_skip_is_tail(s: Seq<u8>, n: int)
    requires
        0 <= n <= s.len(),
    ensures
        is_tail(s.skip(n), s),
{
    reveal(is_tail);
}

/// The empty cursor is a tail of every cursor.
pub proof fn lemma_empty_is_tail(s: Seq<u8>)
    ensures
        is_tail(Seq::empty(), s),
{
    reveal(is_tail);
    assert(Seq::<u8>::empty() =~= s.skip(s.len() as int));
}

/// A tail is no longer than what it is a tail of.
pub broadcast proof fn lemma_tail_len(rest: Seq<u8>, s: Seq<u8>)
    ensures
        #[trigger] is_tail(rest, s) ==> rest.len() <= s.len(),
{
    reveal(is_tail);
}

/// A cursor is a tail of itself.
pub broadcast proof fn lemma_tail_of_itself(s: Seq<u8>)
    ensures
        #[trigger] is_tail(s, s),
{
    reveal(is_tail);
    assert(s.skip(0) =~= s);
}

/// A tail of a tail is a tail.
pub broadcast proof fn lemma_tail_of_tail(a: Seq<u8>, b: Seq<u8>, c: Seq<u8>)
    requires
        is_tail(a, b),
        is_tail(b, c),
    ensures
        #![trigger is_tail(a, b), is_tail(b, c)]
        is_tail(a, c),
{
    reveal(is_tail);
    assert(c.skip(c.len() - b.len()).skip(b.len() - a.len()) =~= c.skip(c.len() - a.len()));
}

/// A decoder held as a value, so that it can carry parameters and be handed
/// to a combinator.
pub trait Decoder {
    /// What the decoder produces.
    type Out: DeepView;

    /// The decoder's specification.
    spec fn spec_decode(&self, s: Seq<u8>) -> Parsed<<Self::Out as DeepView>::V>;

    /// Decodes one value from the front of `i`.
    fn decode<'a>(&self, i: &'a [u8]) -> (r: IResult<'a, Self::Out>)
        ensures
            decodes(r, i@, self.spec_decode(i@)),
    ;

    /// A decoder reads from the front: what it leaves is a tail of what it
    /// was given.
    proof fn lemma_tail(&self, s: Seq<u8>)
        ensures
            self.spec_decode(s) matches Ok((rest, _)) ==> is_tail(rest, s),
    ;
}

/// A type with one wire format of its own.
pub trait Parse: DeepView + Sized {
    /// The format's specification.
    spec fn spec_parse(s: Seq<u8>) -> Parsed<Self::V>;

    /// Decodes one value from the front of `i`.
    fn parse<'a>(i: &'a [u8]) -> (r: IResult<'a, Self>)
        ensures
            decodes(r, i@, Self::spec_parse(i@)),
    ;

    /// A decoder reads from the front: what it leaves is a tail of what it
    /// was given.
    proof fn lemma_tail(s: Seq<u8>)
        ensures
            Self::spec_parse(s) matches Ok((rest, _)) ==> is_tail(rest, s),
    ;
}

/// The decoder of a type that has a wire format of its own.
pub struct Each<T> {
    pub marker: core::marker::PhantomData<T>,
}

impl<T> Each<T> {
    /// The one value of this type.
    pub open spec fn it() -> Self {
        Each { marker: core::marker::PhantomData }
    }

    pub fn new() -> (d: Self)
        ensures
            d == Self::it(),
    {
        Each { marker: core::marker::PhantomData }
    }
}

impl<T: Parse> Decoder for Each<T> {
    type Out = T;

    open spec fn spec_decode(&self, s: Seq<u8>) -> Parsed<T::V> {
        T::spec_parse(s)
    }

    fn decode<'a>(&self, i: &'a [u8]) -> (r: IResult<'a, T>) {
        T::parse(i)
    }

    proof fn lemma_tail(&self, s: Seq<u8>) {
        T::lemma_tail(s);
    }
}

/// Every decoder leaves a tail of the cursor it was given.
pub broadcast proof fn lemma_decoder_tail<D: Decoder>(d: &D, s: Seq<u8>)
    ensures
        #[trigger] d.spec_decode(s) matches Ok((rest, _)) ==> is_tail(rest, s),
{
    d.lemma_tail(s);
}

/// Every format leaves a tail of the cursor it was given.
pub broadcast proof fn lemma_parse_tail<T: Parse>(s: Seq<u8>)
    ensures
        #[trigger] T::spec_parse(s) matches Ok((rest, _)) ==> is_tail(rest, s),
{
    T::lemma_tail(s);
}

/// The cursor that a decoder hands back is a tail of the cursor it was
/// given: a decoder takes bytes off the front and looks at nothing else.
pub proof fn lemma_rest_is_tail<D: Decoder>(d: &D, input: Seq<u8>, r: IResult<D::Out>)
    requires
        decodes(r, input, d.spec_decode(input)),
    ensures
        r matches Ok((rest, _)) ==> is_tail(rest@, input),
{
    d.lemma_tail(input);
}

/// The cursor that a format's decoder hands back is a tail of the cursor it
/// was given.
pub proof fn lemma_parsed_rest_is_tail<T: Parse>(input: Seq<u8>, r: IResult<T>)
    requires
        decodes(r, input, T::spec_parse(input)),
    ensures
        r matches Ok((rest, _)) ==> is_tail(rest@, input),
{
    T::lemma_tail(input);
}

/// Decoding is a function of the input: two runs of a decoder on equal
/// bytes end in the same way, with equal values and equal cursors or with
/// the same error.
pub proof fn lemma_decoding_is_deterministic<D: Decoder>(
    d: &D,
    first_input: Seq<u8>,
    first: IResult<D::Out>,
    second_input: Seq<u8>,
    second: IResult<D::Out>,
)
    requires
        first_input == second_input,
        decodes(first, first_input, d.spec_decode(first_input)),
        decodes(second, second_input, d.spec_decode(second_input)),
    ensures
        outcome(first) == outcome(second),
{
}

/// Decoding is a function of the input: two runs of a format's decoder on
/// equal bytes end in the same way.
pub proof fn lemma_parsing_is_deterministic<T: Parse>(
    first_input: Seq<u8>,
    first: IResult<T>,
    second_input: Seq<u8>,
    second: IResult<T>,
)
    requires
        first_input == second_input,
        decodes(first, first_input, T::spec_parse(first_input)),
        decodes(second, second_input, T::spec_parse(second_input)),
    ensures
        outcome(first) == outcome(second),
{
}

/// How the primitive decoders and the combinators consume their input. With
/// this group in use, that a format made of them leaves a tail of its cursor
/// is proved from its definition alone.
pub broadcast group group_tails {
    lemma_decoder_tail,
    lemma_parse_tail,
    lemma_tail_len,
    lemma_tail_of_itself,
    lemma_tail_of_tail,
    crate::parser_ext::number::lemma_le_u8_consumes,
    crate::parser_ext::number::lemma_le_u16_consumes,
    crate::parser_ext::number::lemma_le_u32_consumes,
    crate::parser_ext::number::lemma_vector2_consumes,
    crate::parser_ext::number::lemma_vector3_consumes,
    crate::parser_ext::number::lemma_vector4_consumes,
    crate::parser_ext::number::lemma_vector6_consumes,
    crate::parser_ext::number::lemma_matrix4x4_consumes,
    crate::parser_ext::complete::lemma_take_consumes,
    crate::parser_ext::complete::lemma_take_fixed_consumes,
    crate::parser_ext::complete::lemma_tag_consumes,
    crate::parser_ext::string::lemma_text_consumes,
    crate::parser_ext::string::lemma_fixed_string_consumes,
    crate::parser_ext::multi::lemma_count_tail,
    crate::parser_ext::multi::lemma_count_indexed_tail,
}

} // verus!
