//! The division table: the divisions of the game's servers, and the gateways
//! of each.
use vstd::prelude::*;
use vstd::string::StringSliceAdditionalSpecFns;

use crate::decode::{decodes, group_tails, is_tail, lemma_skip_is_tail, Each, IResult, Parse, Parsed};
use crate::error::{DecodeError, DecodeErrorView};
use crate::parser_ext::multi::{parse_objects_u8, spec_parse_objects, CountWidth};
use crate::parser_ext::number::{le_u8, spec_le_u8};
use crate::parser_ext::string::{sized_string, spec_sized_string};
use crate::parser_ext::text::{ascii_char, read_number, spec_char, spec_number};

verus! {

/// One number of an address: decimal, at most 255, and written without a
/// zero before it.
pub open spec fn spec_octet(s: Seq<u8>) -> Option<(Seq<u8>, u8)> {
    match spec_number(s, 10, 255) {
        Err(_) => None,
        Ok((rest, value)) => if s[0] == 0x30 && s.len() - rest.len() > 1 {
            None
        } else {
            Some((rest, value as u8))
        },
    }
}

/// An address in dotted decimal: four numbers with a dot between them, and
/// nothing before or behind them.
pub open spec fn spec_ipv4(s: Seq<u8>) -> Option<Seq<u8>> {
    match spec_octet(s) { None => None, Some((s, a)) =>
    match spec_char(s, 0x2E) { Err(_) => None, Ok((s, _)) =>
    match spec_octet(s) { None => None, Some((s, b)) =>
    match spec_char(s, 0x2E) { Err(_) => None, Ok((s, _)) =>
    match spec_octet(s) { None => None, Some((s, c)) =>
    match spec_char(s, 0x2E) { Err(_) => None, Ok((s, _)) =>
    match spec_octet(s) { None => None, Some((s, d)) =>
    if s.len() == 0 {
        Some(seq![a, b, c, d])
    } else {
        None
    }
    }}}}}}}
}

/// Reads one number of an address.
pub fn octet<'a>(input: &'a str) -> (r: Option<(&'a str, u8)>)
    ensures
        match r {
            Some((rest, value)) => spec_octet(input.spec_bytes()) == Some((rest.spec_bytes(), value)),
            None => spec_octet(input.spec_bytes()) is None,
        },
{
    match read_number(input, false, 255) {
        Err(_) => None,
        Ok((rest, value)) => {
            let bytes = input.as_bytes();
            if bytes[0] == 0x30 && bytes.len() - rest.as_bytes().len() > 1 {
                None
            } else {
                Some((rest, value as u8))
            }
        },
    }
}

/// Reads an address in dotted decimal.
pub fn parse_ipv4(text: &str) -> (r: Option<[u8; 4]>)
    ensures
        match r {
            Some(ip) => spec_ipv4(text.spec_bytes()) == Some(ip@),
            None => spec_ipv4(text.spec_bytes()) is None,
        },
{
    let (rest, a) = octet(text)?;
    let rest = match ascii_char(rest, 0x2E) {
        Ok((rest, _)) => rest,
        Err(_) => {
            return None;
        },
    };
    let (rest, b) = octet(rest)?;
    let rest = match ascii_char(rest, 0x2E) {
        Ok((rest, _)) => rest,
        Err(_) => {
            return None;
        },
    };
    let (rest, c) = octet(rest)?;
    let rest = match ascii_char(rest, 0x2E) {
        Ok((rest, _)) => rest,
        Err(_) => {
            return None;
        },
    };
    let (rest, d) = octet(rest)?;
    if rest.as_bytes().len() == 0 {
        let ip = [a, b, c, d];
        assert(ip@ =~= seq![a, b, c, d]);
        Some(ip)
    } else {
        None
    }
}

/// A zero byte that ends a field.
pub open spec fn spec_terminator(s: Seq<u8>) -> Parsed<()> {
    if s.len() > 0 && s[0] == 0 {
        Ok((s.skip(1), ()))
    } else {
        Err(DecodeErrorView::Malformed)
    }
}

/// A terminator is one byte long.
pub broadcast proof fn lemma_terminator_consumes(s: Seq<u8>)
    ensures
        #[trigger] spec_terminator(s) matches Ok((rest, _)) ==> is_tail(rest, s) && rest.len() + 1 == s.len(),
{
    if s.len() >= 1 {
        lemma_skip_is_tail(s, 1);
    }
}

/// Consumes the zero byte that ends a field.
pub fn terminator<'a>(i: &'a [u8]) -> (r: IResult<'a, ()>)
    ensures
        decodes(r, i@, spec_terminator(i@)),
{
    if i.len() > 0 && i[0] == 0 {
        Ok((vstd::slice::slice_subrange(i, 1, i.len()), ()))
    } else {
        Err(DecodeError::Malformed)
    }
}

/// A gateway: where a client connects to.
#[derive(Debug, PartialEq, Eq)]
pub struct Gateway {
    /// The four numbers of the gateway's address.
    pub ip: [u8; 4],
}

impl DeepView for Gateway {
    type V = Seq<u8>;

    open spec fn deep_view(&self) -> Seq<u8> {
        self.ip@
    }
}

impl Parse for Gateway {
    /// A sized string that holds an address in dotted decimal, and a zero
    /// byte behind it. A string that is no address fails with `Malformed`.
    #[verifier::opaque]
    open spec fn spec_parse(s: Seq<u8>) -> Parsed<Seq<u8>> {
        match spec_sized_string(s) { Err(e) => Err(e), Ok((s, address)) =>
        match spec_ipv4(vstd::utf8::encode_utf8(address)) { None => Err(DecodeErrorView::Malformed), Some(ip) =>
        match spec_terminator(s) { Err(e) => Err(e), Ok((s, _)) =>
        Ok((s, ip))
        }}}
    }

    fn parse<'a>(i: &'a [u8]) -> (r: IResult<'a, Gateway>) {
        reveal(<Gateway as Parse>::spec_parse);
        let (i, address) = sized_string(i)?;
        let ip = match parse_ipv4(address.as_str()) {
            Some(ip) => ip,
            None => {
                return Err(DecodeError::Malformed);
            },
        };
        let (i, _) = terminator(i)?;
        Ok((i, Gateway { ip }))
    }

    proof fn lemma_tail(s: Seq<u8>) {
        reveal(<Gateway as Parse>::spec_parse);
        broadcast use group_tails;
        broadcast use lemma_terminator_consumes;
    }
}

/// A division: a group of servers with its gateways.
#[derive(Debug, PartialEq, Eq)]
pub struct Division {
    pub name: String,
    pub gateways: Vec<Gateway>,
}

/// The mathematical value of a [`Division`].
pub struct DivisionView {
    pub name: Seq<char>,
    pub gateways: Seq<Seq<u8>>,
}

impl DeepView for Division {
    type V = DivisionView;

    open spec fn deep_view(&self) -> DivisionView {
        DivisionView { name: self.name.deep_view(), gateways: self.gateways.deep_view() }
    }
}

impl Parse for Division {
    /// The name with a zero byte behind it, then the gateways, counted by a
    /// byte.
    #[verifier::opaque]
    open spec fn spec_parse(s: Seq<u8>) -> Parsed<DivisionView> {
        match spec_sized_string(s) { Err(e) => Err(e), Ok((s, name)) =>
        match spec_terminator(s) { Err(e) => Err(e), Ok((s, _)) =>
        match spec_parse_objects(CountWidth::U8, &Each::<Gateway>::it(), s) { Err(e) => Err(e), Ok((s, gateways)) =>
        Ok((s, DivisionView { name, gateways }))
        }}}
    }

    fn parse<'a>(i: &'a [u8]) -> (r: IResult<'a, Division>) {
        reveal(<Division as Parse>::spec_parse);
        let (i, name) = sized_string(i)?;
        let (i, _) = terminator(i)?;
        let (i, gateways) = parse_objects_u8(&Each::<Gateway>::new(), i)?;
        Ok((i, Division { name, gateways }))
    }

    proof fn lemma_tail(s: Seq<u8>) {
        reveal(<Division as Parse>::spec_parse);
        broadcast use group_tails;
        broadcast use lemma_terminator_consumes;
    }
}

/// The division table.
#[derive(Debug, PartialEq, Eq)]
pub struct DivisionInfo {
    pub content_id: u8,
    pub divisions: Vec<Division>,
}

/// The mathematical value of a [`DivisionInfo`].
pub struct DivisionInfoView {
    pub content_id: u8,
    pub divisions: Seq<DivisionView>,
}

impl DeepView for DivisionInfo {
    type V = DivisionInfoView;

    open spec fn deep_view(&self) -> DivisionInfoView {
        DivisionInfoView { content_id: self.content_id, divisions: self.divisions.deep_view() }
    }
}

impl Parse for DivisionInfo {
    /// A byte, then the divisions, counted by a byte.
    #[verifier::opaque]
    open spec fn spec_parse(s: Seq<u8>) -> Parsed<DivisionInfoView> {
        match spec_le_u8(s) { Err(e) => Err(e), Ok((s, content_id)) =>
        match spec_parse_objects(CountWidth::U8, &Each::<Division>::it(), s) { Err(e) => Err(e), Ok((s, divisions)) =>
        Ok((s, DivisionInfoView { content_id, divisions }))
        }}
    }

    fn parse<'a>(i: &'a [u8]) -> (r: IResult<'a, DivisionInfo>) {
        reveal(<DivisionInfo as Parse>::spec_parse);
        let (i, content_id) = le_u8(i)?;
        let (i, divisions) = parse_objects_u8(&Each::<Division>::new(), i)?;
        Ok((i, DivisionInfo { content_id, divisions }))
    }

    proof fn lemma_tail(s: Seq<u8>) {
        reveal(<DivisionInfo as Parse>::spec_parse);
        broadcast use group_tails;
        broadcast use lemma_terminator_consumes;
    }
}

impl DivisionInfo {
    /// Decodes the division table.
    pub fn parse<'a>(i: &'a [u8]) -> (r: IResult<'a, DivisionInfo>)
        ensures
            decodes(r, i@, <DivisionInfo as Parse>::spec_parse(i@)),
    {
        <DivisionInfo as Parse>::parse(i)
    }
}

} // verus!
