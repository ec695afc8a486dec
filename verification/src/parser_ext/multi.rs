//! Counted sequences: a decoder run a number of times, first failure final.
use vstd::prelude::*;

use crate::decode::{decodes, is_tail, Decoder, IResult, Parsed};
use crate::error::DecodeErrorView;
use crate::parser_ext::number::{le_u16, le_u32, le_u8, spec_le_u16, spec_le_u32, spec_le_u8};

verus! {

/// `n` values in a row: `n - 1` values, then one more from where they ended.
/// The first failure is the failure of the whole.
pub open spec fn spec_count<D: Decoder>(d: &D, s: Seq<u8>, n: nat) -> Parsed<Seq<<D::Out as DeepView>::V>>
    decreases n,
{
    if n == 0 {
        Ok((s, Seq::empty()))
    } else {
        match spec_count(d, s, (n - 1) as nat) {
            Err(e) => Err(e),
            Ok((s, items)) => match d.spec_decode(s) {
                Err(e) => Err(e),
                Ok((s, item)) => Ok((s, items.push(item))),
            },
        }
    }
}

/// A sequence leaves a tail of the cursor it was given.
pub broadcast proof fn lemma_count_tail<D: Decoder>(d: &D, s: Seq<u8>, n: nat)
    ensures
        #[trigger] spec_count(d, s, n) matches Ok((rest, _)) ==> is_tail(rest, s),
    decreases n,
{
    broadcast use crate::decode::lemma_tail_of_tail, crate::decode::lemma_tail_of_itself;

    if n > 0 {
        lemma_count_tail(d, s, (n - 1) as nat);
        if let Ok((t, _)) = spec_count(d, s, (n - 1) as nat) {
            d.lemma_tail(t);
        }
    }
}

/// A sequence that decodes has as many items as were asked for.
pub proof fn lemma_count_len<D: Decoder>(d: &D, s: Seq<u8>, n: nat)
    ensures
        spec_count(d, s, n) matches Ok((_, items)) ==> items.len() == n,
    decreases n,
{
    if n > 0 {
        lemma_count_len(d, s, (n - 1) as nat);
    }
}

/// Fail-fast: once the first `k` items fail to decode, so does every longer
/// sequence from the same input, with the same error.
pub proof fn lemma_count_fails_fast<D: Decoder>(d: &D, s: Seq<u8>, k: nat, n: nat)
    requires
        k <= n,
        spec_count(d, s, k) is Err,
    ensures
        spec_count(d, s, n) == spec_count(d, s, k),
    decreases n,
{
    if k < n {
        lemma_count_fails_fast(d, s, k, (n - 1) as nat);
    }
}

/// A failure on the item of index `k` is the failure of every sequence that
/// reaches it: none of the items before it is handed out.
pub proof fn lemma_count_item_failure<D: Decoder>(d: &D, s: Seq<u8>, k: nat, n: nat)
    requires
        k < n,
        spec_count(d, s, k) is Ok,
        d.spec_decode(spec_count(d, s, k)->Ok_0.0) is Err,
    ensures
        spec_count(d, s, n) is Err,
        spec_count(d, s, n)->Err_0 == d.spec_decode(spec_count(d, s, k)->Ok_0.0)->Err_0,
{
    assert(spec_count(d, s, k + 1) is Err);
    lemma_count_fails_fast(d, s, k + 1, n);
}

/// A sequence of `n` items consumes what its items consume, one after the
/// other: its first `k` items are the sequence of `k` items from the same
/// input, and the item of index `k` is decoded from where those ended.
pub proof fn lemma_count_prefix<D: Decoder>(d: &D, s: Seq<u8>, k: nat, n: nat)
    requires
        k <= n,
        spec_count(d, s, n) is Ok,
    ensures
        spec_count(d, s, k) is Ok,
        spec_count(d, s, k)->Ok_0.1 == spec_count(d, s, n)->Ok_0.1.take(k as int),
        k < n ==> d.spec_decode(spec_count(d, s, k)->Ok_0.0) == Ok::<_, DecodeErrorView>(
            (spec_count(d, s, k + 1)->Ok_0.0, spec_count(d, s, n)->Ok_0.1[k as int]),
        ),
    decreases n,
{
    lemma_count_len(d, s, n);
    if k < n {
        lemma_count_prefix(d, s, k, (n - 1) as nat);
        lemma_count_len(d, s, (n - 1) as nat);
        let shorter = spec_count(d, s, (n - 1) as nat)->Ok_0.1;
        let all = spec_count(d, s, n)->Ok_0.1;
        assert(all.take(k as int) =~= shorter.take(k as int));
        if k + 1 < n {
            assert(all[k as int] == shorter[k as int]);
        }
    } else {
        assert(spec_count(d, s, n)->Ok_0.1.take(n as int) =~= spec_count(d, s, n)->Ok_0.1);
    }
}

/// A sequence consumes what its items consume and nothing else: the cursor
/// behind the first `k` items is a tail of the input, and the cursor behind
/// all `n` items is a tail of that one.
pub proof fn lemma_count_cursors<D: Decoder>(d: &D, s: Seq<u8>, k: nat, n: nat)
    requires
        k <= n,
        spec_count(d, s, n) is Ok,
    ensures
        spec_count(d, s, k) is Ok,
        is_tail(spec_count(d, s, k)->Ok_0.0, s),
        is_tail(spec_count(d, s, n)->Ok_0.0, spec_count(d, s, k)->Ok_0.0),
    decreases n - k,
{
    broadcast use crate::decode::lemma_tail_of_tail, crate::decode::lemma_tail_of_itself;

    lemma_count_prefix(d, s, k, n);
    lemma_count_tail(d, s, k);
    if k < n {
        lemma_count_cursors(d, s, k + 1, n);
        d.lemma_tail(spec_count(d, s, k)->Ok_0.0);
    }
}

/// Runs `d` exactly `n` times, each time from where the last run ended, and
/// collects what it gave. Stops at the first failure and returns it.
pub fn count<'a, D: Decoder>(d: &D, n: usize, i: &'a [u8]) -> (r: IResult<'a, Vec<D::Out>>)
    ensures
        decodes(r, i@, spec_count(d, i@, n as nat)),
{
    let mut items: Vec<D::Out> = Vec::new();
    let mut cursor = i;
    let mut k: usize = 0;
    assert(items.deep_view() =~= Seq::empty());
    while k < n
        invariant
            k <= n,
            cursor@.len() <= i@.len(),
            spec_count(d, i@, k as nat) == Ok::<_, DecodeErrorView>((cursor@, items.deep_view())),
        decreases n - k,
    {
        match d.decode(cursor) {
            Err(e) => {
                proof {
                    lemma_count_fails_fast(d, i@, (k + 1) as nat, n as nat);
                }
                return Err(e);
            },
            Ok((rest, item)) => {
                let ghost before = items.deep_view();
                items.push(item);
                assert(items.deep_view() =~= before.push(item.deep_view()));
                cursor = rest;
                k += 1;
            },
        }
    }
    Ok((cursor, items))
}

/// The width of the field that holds a sequence's length.
#[derive(Clone, Copy, Debug, PartialEq, Eq, Structural)]
pub enum CountWidth {
    U8,
    U16,
    U32,
}

/// The length field of the given width.
pub open spec fn spec_count_field(width: CountWidth, s: Seq<u8>) -> Parsed<nat> {
    match width {
        CountWidth::U8 => match spec_le_u8(s) {
            Err(e) => Err(e),
            Ok((s, n)) => Ok((s, n as nat)),
        },
        CountWidth::U16 => match spec_le_u16(s) {
            Err(e) => Err(e),
            Ok((s, n)) => Ok((s, n as nat)),
        },
        CountWidth::U32 => match spec_le_u32(s) {
            Err(e) => Err(e),
            Ok((s, n)) => Ok((s, n as nat)),
        },
    }
}

/// A length field, then that many items.
pub open spec fn spec_parse_objects<D: Decoder>(width: CountWidth, d: &D, s: Seq<u8>) -> Parsed<
    Seq<<D::Out as DeepView>::V>,
> {
    match spec_count_field(width, s) {
        Err(e) => Err(e),
        Ok((s, n)) => spec_count(d, s, n),
    }
}

/// Reads the length field of the given width.
pub fn count_field<'a>(width: CountWidth, i: &'a [u8]) -> (r: IResult<'a, usize>)
    ensures
        match r {
            Ok((rest, n)) => spec_count_field(width, i@) == Ok::<_, DecodeErrorView>((rest@, n as nat)),
            Err(e) => spec_count_field(width, i@) == Err::<(Seq<u8>, nat), _>(e@),
        },
        r matches Ok((rest, _)) ==> rest@.len() <= i@.len(),
{
    match width {
        CountWidth::U8 => {
            let (rest, n) = le_u8(i)?;
            Ok((rest, n as usize))
        },
        CountWidth::U16 => {
            let (rest, n) = le_u16(i)?;
            Ok((rest, n as usize))
        },
        CountWidth::U32 => {
            let (rest, n) = le_u32(i)?;
            Ok((rest, n as usize))
        },
    }
}

/// Reads a length field of the given width, then runs `d` that many times.
pub fn parse_objects<'a, D: Decoder>(width: CountWidth, d: &D, i: &'a [u8]) -> (r: IResult<'a, Vec<D::Out>>)
    ensures
        decodes(r, i@, spec_parse_objects(width, d, i@)),
{
    let (rest, n) = count_field(width, i)?;
    count(d, n, rest)
}

/// A counted sequence that is there only where `present` holds. Where it
/// does not, nothing is read and the sequence is empty.
pub open spec fn spec_parse_objects_if<D: Decoder>(present: bool, width: CountWidth, d: &D, s: Seq<u8>) -> Parsed<
    Seq<<D::Out as DeepView>::V>,
> {
    if present {
        spec_parse_objects(width, d, s)
    } else {
        Ok((s, Seq::empty()))
    }
}

/// Reads a counted sequence where `present` holds, and nothing where not.
pub fn parse_objects_if<'a, D: Decoder>(present: bool, width: CountWidth, d: &D, i: &'a [u8]) -> (r: IResult<
    'a,
    Vec<D::Out>,
>)
    ensures
        decodes(r, i@, spec_parse_objects_if(present, width, d, i@)),
{
    if present {
        parse_objects(width, d, i)
    } else {
        let items: Vec<D::Out> = Vec::new();
        assert(items.deep_view() =~= Seq::empty());
        Ok((i, items))
    }
}

/// Reads a `u32` and then runs `d` that many times.
pub fn parse_objects_u32<'a, D: Decoder>(d: &D, i: &'a [u8]) -> (r: IResult<'a, Vec<D::Out>>)
    ensures
        decodes(r, i@, spec_parse_objects(CountWidth::U32, d, i@)),
{
    parse_objects(CountWidth::U32, d, i)
}

/// Reads a `u16` and then runs `d` that many times.
pub fn parse_objects_u16<'a, D: Decoder>(d: &D, i: &'a [u8]) -> (r: IResult<'a, Vec<D::Out>>)
    ensures
        decodes(r, i@, spec_parse_objects(CountWidth::U16, d, i@)),
{
    parse_objects(CountWidth::U16, d, i)
}

/// Reads a `u8` and then runs `d` that many times.
pub fn parse_objects_u8<'a, D: Decoder>(d: &D, i: &'a [u8]) -> (r: IResult<'a, Vec<D::Out>>)
    ensures
        decodes(r, i@, spec_parse_objects(CountWidth::U8, d, i@)),
{
    parse_objects(CountWidth::U8, d, i)
}

/// A decoder whose format depends on the position of the item it decodes.
pub trait IndexedDecoder {
    /// What the decoder produces.
    type Out: DeepView;

    /// The specification of the item at position `idx`.
    spec fn spec_decode_at(&self, idx: nat, s: Seq<u8>) -> Parsed<<Self::Out as DeepView>::V>;

    /// Decodes the item at position `idx` from the front of `i`.
    fn decode_at<'a>(&self, idx: usize, i: &'a [u8]) -> (r: IResult<'a, Self::Out>)
        ensures
            decodes(r, i@, self.spec_decode_at(idx as nat, i@)),
    ;

    /// What is left is a tail of what was given.
    proof fn lemma_tail_at(&self, idx: nat, s: Seq<u8>)
        ensures
            self.spec_decode_at(idx, s) matches Ok((rest, _)) ==> is_tail(rest, s),
    ;
}

/// `n` values in a row, each decoded by the format of its position.
pub open spec fn spec_count_indexed<D: IndexedDecoder>(d: &D, s: Seq<u8>, n: nat) -> Parsed<
    Seq<<D::Out as DeepView>::V>,
>
    decreases n,
{
    if n == 0 {
        Ok((s, Seq::empty()))
    } else {
        match spec_count_indexed(d, s, (n - 1) as nat) {
            Err(e) => Err(e),
            Ok((s, items)) => match d.spec_decode_at((n - 1) as nat, s) {
                Err(e) => Err(e),
                Ok((s, item)) => Ok((s, items.push(item))),
            },
        }
    }
}

/// A sequence leaves a tail of the cursor it was given.
pub broadcast proof fn lemma_count_indexed_tail<D: IndexedDecoder>(d: &D, s: Seq<u8>, n: nat)
    ensures
        #[trigger] spec_count_indexed(d, s, n) matches Ok((rest, _)) ==> is_tail(rest, s),
    decreases n,
{
    broadcast use crate::decode::lemma_tail_of_tail, crate::decode::lemma_tail_of_itself;

    if n > 0 {
        lemma_count_indexed_tail(d, s, (n - 1) as nat);
        if let Ok((t, _)) = spec_count_indexed(d, s, (n - 1) as nat) {
            d.lemma_tail_at((n - 1) as nat, t);
        }
    }
}

/// Once the first `k` items fail to decode, so does every longer sequence.
pub proof fn lemma_count_indexed_fails_fast<D: IndexedDecoder>(d: &D, s: Seq<u8>, k: nat, n: nat)
    requires
        k <= n,
        spec_count_indexed(d, s, k) is Err,
    ensures
        spec_count_indexed(d, s, n) == spec_count_indexed(d, s, k),
    decreases n,
{
    if k < n {
        lemma_count_indexed_fails_fast(d, s, k, (n - 1) as nat);
    }
}

/// Runs `d` exactly `n` times and tells it each time which item it is at.
pub fn count_indexed<'a, D: IndexedDecoder>(d: &D, n: usize, i: &'a [u8]) -> (r: IResult<'a, Vec<D::Out>>)
    ensures
        decodes(r, i@, spec_count_indexed(d, i@, n as nat)),
{
    let mut items: Vec<D::Out> = Vec::new();
    let mut cursor = i;
    let mut k: usize = 0;
    assert(items.deep_view() =~= Seq::empty());
    while k < n
        invariant
            k <= n,
            cursor@.len() <= i@.len(),
            spec_count_indexed(d, i@, k as nat) == Ok::<_, DecodeErrorView>((cursor@, items.deep_view())),
        decreases n - k,
    {
        match d.decode_at(k, cursor) {
            Err(e) => {
                proof {
                    lemma_count_indexed_fails_fast(d, i@, (k + 1) as nat, n as nat);
                }
                return Err(e);
            },
            Ok((rest, item)) => {
                let ghost before = items.deep_view();
                items.push(item);
                assert(items.deep_view() =~= before.push(item.deep_view()));
                cursor = rest;
                k += 1;
            },
        }
    }
    Ok((cursor, items))
}

} // verus!
