//! The elements of the user interface.
use vstd::prelude::*;

use crate::decode::{decodes, Each, group_tails, IResult, Parse, Parsed};
use crate::enums::NewInterfaceType;
use crate::math::F32;
use crate::parser_ext::combinator::{bool_u32, spec_bool_u32};
use crate::parser_ext::flags::{
    flags_u32, has_only_declared_bits, only_declared_bits, spec_flags_u32,
};
use crate::parser_ext::multi::{CountWidth, parse_objects_u32, spec_parse_objects};
use crate::parser_ext::number::{le_f32, le_u32, spec_le_f32, spec_le_u32};
use crate::parser_ext::string::{fixed_path, fixed_string, spec_fixed_string};

verus! {

/// How the text of an interface element is laid out.
#[derive(Clone, Copy, Debug, PartialEq, Eq, Structural, Hash)]
pub struct NewInterfaceStyle {
    pub bits: u32,
}

impl DeepView for NewInterfaceStyle {
    type V = NewInterfaceStyle;

    open spec fn deep_view(&self) -> NewInterfaceStyle {
        *self
    }
}

impl NewInterfaceStyle {
    pub const CENTER: u32 = 0x100;

    pub const RIGHT: u32 = 0x200;

    pub const LINECENTER: u32 = 0x10000;

    /// Every declared bit.
    pub const ALL: u32 = 0x10300;

    /// Whether no bit outside the declared ones is set.
    pub open spec fn is_valid(&self) -> bool {
        only_declared_bits(self.bits, Self::ALL)
    }

    /// The flags that `bits` stand for, unless a bit is set that is not declared.
    pub fn from_bits(bits: u32) -> (r: Option<NewInterfaceStyle>)
        ensures
            r == (if only_declared_bits(bits, Self::ALL) {
                Some(NewInterfaceStyle { bits })
            } else {
                None
            }),
    {
        if has_only_declared_bits(bits, Self::ALL) {
            Some(NewInterfaceStyle { bits })
        } else {
            None
        }
    }

    /// The field as it was read.
    pub fn bits(&self) -> (r: u32)
        ensures
            r == self.bits,
    {
        self.bits
    }

    /// Whether every bit of `mask` is set.
    pub open spec fn spec_contains(&self, mask: u32) -> bool {
        self.bits & mask == mask
    }

    /// Whether every bit of `mask` is set.
    #[verifier::when_used_as_spec(spec_contains)]
    pub fn contains(&self, mask: u32) -> (r: bool)
        ensures
            r == self.spec_contains(mask),
    {
        self.bits & mask == mask
    }
}

impl Parse for NewInterfaceStyle {
    /// A `u32`, refused with `UnknownBitflags` where it has a bit that is not
    /// declared.
    open spec fn spec_parse(s: Seq<u8>) -> Parsed<NewInterfaceStyle> {
        match spec_flags_u32(s, NewInterfaceStyle::ALL) {
            Err(e) => Err(e),
            Ok((s, bits)) => Ok((s, NewInterfaceStyle { bits })),
        }
    }

    fn parse<'a>(i: &'a [u8]) -> (r: IResult<'a, NewInterfaceStyle>) {
        let (i, bits) = flags_u32(i, NewInterfaceStyle::ALL)?;
        Ok((i, NewInterfaceStyle { bits }))
    }

    proof fn lemma_tail(s: Seq<u8>) {
        broadcast use group_tails;
    }
}

impl NewInterfaceStyle {
    /// Flags that decode are valid: the policy is strict, no undeclared bit
    /// is let through.
    pub proof fn lemma_decoded_is_valid(s: Seq<u8>)
        ensures
            <NewInterfaceStyle as Parse>::spec_parse(s) matches Ok((_, flags)) ==> flags.is_valid(),
    {
    }
}

/// One element of the user interface.
#[derive(Debug, PartialEq, Eq)]
pub struct NewInterface {
    pub name: String,
    pub image: String,
    pub background: String,
    pub text: String,
    pub description: String,
    pub prototype: String,
    pub ty: NewInterfaceType,
    pub id: u32,
    pub parent_id: u32,
    pub grand_parent_id: u32,
    pub unk00: u32,
    pub unk01: u32,
    /// Red, green, blue, alpha.
    pub color: u32,
    pub client_rectangle_x: u32,
    pub client_rectangle_y: u32,
    pub client_rectangle_width: u32,
    pub client_rectangle_height: u32,
    pub uv_top_left_x: F32,
    pub uv_top_left_y: F32,
    pub uv_top_right_x: F32,
    pub uv_top_right_y: F32,
    pub uv_bot_left_x: F32,
    pub uv_bot_left_y: F32,
    pub uv_bot_right_x: F32,
    pub uv_bot_right_y: F32,
    pub unk02: u32,
    /// On a tab button: the frame that it shows.
    pub content_id: u32,
    pub is_root: bool,
    pub unk03: u32,
    pub unk04: u32,
    pub unk05: u32,
    pub unk06: u32,
    pub unk07: u32,
    pub unk08: u32,
    pub unk09: u32,
    pub unk10: u32,
    pub unk11: u32,
    pub unk12: u32,
    pub unk13: u32,
    pub unk14: u32,
    pub unk15: u32,
    pub style: NewInterfaceStyle,
}

/// The mathematical value of a [`NewInterface`].
pub struct NewInterfaceView {
    pub name: Seq<char>,
    pub image: Seq<char>,
    pub background: Seq<char>,
    pub text: Seq<char>,
    pub description: Seq<char>,
    pub prototype: Seq<char>,
    pub ty: NewInterfaceType,
    pub id: u32,
    pub parent_id: u32,
    pub grand_parent_id: u32,
    pub unk00: u32,
    pub unk01: u32,
    pub color: u32,
    pub client_rectangle_x: u32,
    pub client_rectangle_y: u32,
    pub client_rectangle_width: u32,
    pub client_rectangle_height: u32,
    pub uv_top_left_x: F32,
    pub uv_top_left_y: F32,
    pub uv_top_right_x: F32,
    pub uv_top_right_y: F32,
    pub uv_bot_left_x: F32,
    pub uv_bot_left_y: F32,
    pub uv_bot_right_x: F32,
    pub uv_bot_right_y: F32,
    pub unk02: u32,
    pub content_id: u32,
    pub is_root: bool,
    pub unk03: u32,
    pub unk04: u32,
    pub unk05: u32,
    pub unk06: u32,
    pub unk07: u32,
    pub unk08: u32,
    pub unk09: u32,
    pub unk10: u32,
    pub unk11: u32,
    pub unk12: u32,
    pub unk13: u32,
    pub unk14: u32,
    pub unk15: u32,
    pub style: NewInterfaceStyle,
}

impl DeepView for NewInterface {
    type V = NewInterfaceView;

    open spec fn deep_view(&self) -> NewInterfaceView {
        NewInterfaceView {
            name: self.name.deep_view(),
            image: self.image.deep_view(),
            background: self.background.deep_view(),
            text: self.text.deep_view(),
            description: self.description.deep_view(),
            prototype: self.prototype.deep_view(),
            ty: self.ty,
            id: self.id,
            parent_id: self.parent_id,
            grand_parent_id: self.grand_parent_id,
            unk00: self.unk00,
            unk01: self.unk01,
            color: self.color,
            client_rectangle_x: self.client_rectangle_x,
            client_rectangle_y: self.client_rectangle_y,
            client_rectangle_width: self.client_rectangle_width,
            client_rectangle_height: self.client_rectangle_height,
            uv_top_left_x: self.uv_top_left_x,
            uv_top_left_y: self.uv_top_left_y,
            uv_top_right_x: self.uv_top_right_x,
            uv_top_right_y: self.uv_top_right_y,
            uv_bot_left_x: self.uv_bot_left_x,
            uv_bot_left_y: self.uv_bot_left_y,
            uv_bot_right_x: self.uv_bot_right_x,
            uv_bot_right_y: self.uv_bot_right_y,
            unk02: self.unk02,
            content_id: self.content_id,
            is_root: self.is_root,
            unk03: self.unk03,
            unk04: self.unk04,
            unk05: self.unk05,
            unk06: self.unk06,
            unk07: self.unk07,
            unk08: self.unk08,
            unk09: self.unk09,
            unk10: self.unk10,
            unk11: self.unk11,
            unk12: self.unk12,
            unk13: self.unk13,
            unk14: self.unk14,
            unk15: self.unk15,
            style: self.style,
        }
    }
}

impl Parse for NewInterface {
    #[verifier::opaque]
    open spec fn spec_parse(s: Seq<u8>) -> Parsed<NewInterfaceView> {
        match spec_fixed_string(s, 64) { Err(e) => Err(e), Ok((s, name)) =>
        match spec_fixed_string(s, 256) { Err(e) => Err(e), Ok((s, image)) =>
        match spec_fixed_string(s, 256) { Err(e) => Err(e), Ok((s, background)) =>
        match spec_fixed_string(s, 128) { Err(e) => Err(e), Ok((s, text)) =>
        match spec_fixed_string(s, 64) { Err(e) => Err(e), Ok((s, description)) =>
        match spec_fixed_string(s, 64) { Err(e) => Err(e), Ok((s, prototype)) =>
        match NewInterfaceType::spec_parse(s) { Err(e) => Err(e), Ok((s, ty)) =>
        match spec_le_u32(s) { Err(e) => Err(e), Ok((s, id)) =>
        match spec_le_u32(s) { Err(e) => Err(e), Ok((s, parent_id)) =>
        match spec_le_u32(s) { Err(e) => Err(e), Ok((s, grand_parent_id)) =>
        match spec_le_u32(s) { Err(e) => Err(e), Ok((s, unk00)) =>
        match spec_le_u32(s) { Err(e) => Err(e), Ok((s, unk01)) =>
        match spec_le_u32(s) { Err(e) => Err(e), Ok((s, color)) =>
        match spec_le_u32(s) { Err(e) => Err(e), Ok((s, client_rectangle_x)) =>
        match spec_le_u32(s) { Err(e) => Err(e), Ok((s, client_rectangle_y)) =>
        match spec_le_u32(s) { Err(e) => Err(e), Ok((s, client_rectangle_width)) =>
        match spec_le_u32(s) { Err(e) => Err(e), Ok((s, client_rectangle_height)) =>
        match spec_le_f32(s) { Err(e) => Err(e), Ok((s, uv_top_left_x)) =>
        match spec_le_f32(s) { Err(e) => Err(e), Ok((s, uv_top_left_y)) =>
        match spec_le_f32(s) { Err(e) => Err(e), Ok((s, uv_top_right_x)) =>
        match spec_le_f32(s) { Err(e) => Err(e), Ok((s, uv_top_right_y)) =>
        match spec_le_f32(s) { Err(e) => Err(e), Ok((s, uv_bot_left_x)) =>
        match spec_le_f32(s) { Err(e) => Err(e), Ok((s, uv_bot_left_y)) =>
        match spec_le_f32(s) { Err(e) => Err(e), Ok((s, uv_bot_right_x)) =>
        match spec_le_f32(s) { Err(e) => Err(e), Ok((s, uv_bot_right_y)) =>
        match spec_le_u32(s) { Err(e) => Err(e), Ok((s, unk02)) =>
        match spec_le_u32(s) { Err(e) => Err(e), Ok((s, content_id)) =>
        match spec_bool_u32(s) { Err(e) => Err(e), Ok((s, is_root)) =>
        match spec_le_u32(s) { Err(e) => Err(e), Ok((s, unk03)) =>
        match spec_le_u32(s) { Err(e) => Err(e), Ok((s, unk04)) =>
        match spec_le_u32(s) { Err(e) => Err(e), Ok((s, unk05)) =>
        match spec_le_u32(s) { Err(e) => Err(e), Ok((s, unk06)) =>
        match spec_le_u32(s) { Err(e) => Err(e), Ok((s, unk07)) =>
        match spec_le_u32(s) { Err(e) => Err(e), Ok((s, unk08)) =>
        match spec_le_u32(s) { Err(e) => Err(e), Ok((s, unk09)) =>
        match spec_le_u32(s) { Err(e) => Err(e), Ok((s, unk10)) =>
        match spec_le_u32(s) { Err(e) => Err(e), Ok((s, unk11)) =>
        match spec_le_u32(s) { Err(e) => Err(e), Ok((s, unk12)) =>
        match spec_le_u32(s) { Err(e) => Err(e), Ok((s, unk13)) =>
        match spec_le_u32(s) { Err(e) => Err(e), Ok((s, unk14)) =>
        match spec_le_u32(s) { Err(e) => Err(e), Ok((s, unk15)) =>
        match NewInterfaceStyle::spec_parse(s) { Err(e) => Err(e), Ok((s, style)) =>
        Ok((s, NewInterfaceView {
            name,
            image,
            background,
            text,
            description,
            prototype,
            ty,
            id,
            parent_id,
            grand_parent_id,
            unk00,
            unk01,
            color,
            client_rectangle_x,
            client_rectangle_y,
            client_rectangle_width,
            client_rectangle_height,
            uv_top_left_x,
            uv_top_left_y,
            uv_top_right_x,
            uv_top_right_y,
            uv_bot_left_x,
            uv_bot_left_y,
            uv_bot_right_x,
            uv_bot_right_y,
            unk02,
            content_id,
            is_root,
            unk03,
            unk04,
            unk05,
            unk06,
            unk07,
            unk08,
            unk09,
            unk10,
            unk11,
            unk12,
            unk13,
            unk14,
            unk15,
            style,
        }))
        }}}}}}}}}}}}}}}}}}}}}}}}}}}}}}}}}}}}}}}}}}
    }

    fn parse<'a>(i: &'a [u8]) -> (r: IResult<'a, NewInterface>) {
        reveal(<NewInterface as Parse>::spec_parse);
        let (i, name) = fixed_string::<64>(i)?;
        let (i, image) = fixed_path::<256>(i)?;
        let (i, background) = fixed_path::<256>(i)?;
        let (i, text) = fixed_path::<128>(i)?;
        let (i, description) = fixed_string::<64>(i)?;
        let (i, prototype) = fixed_string::<64>(i)?;
        let (i, ty) = NewInterfaceType::parse(i)?;
        let (i, id) = le_u32(i)?;
        let (i, parent_id) = le_u32(i)?;
        let (i, grand_parent_id) = le_u32(i)?;
        let (i, unk00) = le_u32(i)?;
        let (i, unk01) = le_u32(i)?;
        let (i, color) = le_u32(i)?;
        let (i, client_rectangle_x) = le_u32(i)?;
        let (i, client_rectangle_y) = le_u32(i)?;
        let (i, client_rectangle_width) = le_u32(i)?;
        let (i, client_rectangle_height) = le_u32(i)?;
        let (i, uv_top_left_x) = le_f32(i)?;
        let (i, uv_top_left_y) = le_f32(i)?;
        let (i, uv_top_right_x) = le_f32(i)?;
        let (i, uv_top_right_y) = le_f32(i)?;
        let (i, uv_bot_left_x) = le_f32(i)?;
        let (i, uv_bot_left_y) = le_f32(i)?;
        let (i, uv_bot_right_x) = le_f32(i)?;
        let (i, uv_bot_right_y) = le_f32(i)?;
        let (i, unk02) = le_u32(i)?;
        let (i, content_id) = le_u32(i)?;
        let (i, is_root) = bool_u32(i)?;
        let (i, unk03) = le_u32(i)?;
        let (i, unk04) = le_u32(i)?;
        let (i, unk05) = le_u32(i)?;
        let (i, unk06) = le_u32(i)?;
        let (i, unk07) = le_u32(i)?;
        let (i, unk08) = le_u32(i)?;
        let (i, unk09) = le_u32(i)?;
        let (i, unk10) = le_u32(i)?;
        let (i, unk11) = le_u32(i)?;
        let (i, unk12) = le_u32(i)?;
        let (i, unk13) = le_u32(i)?;
        let (i, unk14) = le_u32(i)?;
        let (i, unk15) = le_u32(i)?;
        let (i, style) = NewInterfaceStyle::parse(i)?;
        Ok((i, NewInterface {
            name,
            image,
            background,
            text,
            description,
            prototype,
            ty,
            id,
            parent_id,
            grand_parent_id,
            unk00,
            unk01,
            color,
            client_rectangle_x,
            client_rectangle_y,
            client_rectangle_width,
            client_rectangle_height,
            uv_top_left_x,
            uv_top_left_y,
            uv_top_right_x,
            uv_top_right_y,
            uv_bot_left_x,
            uv_bot_left_y,
            uv_bot_right_x,
            uv_bot_right_y,
            unk02,
            content_id,
            is_root,
            unk03,
            unk04,
            unk05,
            unk06,
            unk07,
            unk08,
            unk09,
            unk10,
            unk11,
            unk12,
            unk13,
            unk14,
            unk15,
            style,
        }))
    }

    proof fn lemma_tail(s: Seq<u8>) {
        reveal(<NewInterface as Parse>::spec_parse);
        broadcast use group_tails;
    }
}

impl NewInterface {
    /// A counted sequence of interface elements.
    pub open spec fn spec_parse_all(s: Seq<u8>) -> Parsed<Seq<NewInterfaceView>> {
        spec_parse_objects(CountWidth::U32, &Each::<NewInterface>::it(), s)
    }

    /// Decodes a file of interface elements.
    pub fn parse<'a>(i: &'a [u8]) -> (r: IResult<'a, Vec<NewInterface>>)
        ensures
            decodes(r, i@, Self::spec_parse_all(i@)),
    {
        parse_objects_u32(&Each::<NewInterface>::new(), i)
    }

    /// Decodes one interface element.
    pub fn parse_single<'a>(i: &'a [u8]) -> (r: IResult<'a, NewInterface>)
        ensures
            decodes(r, i@, <NewInterface as Parse>::spec_parse(i@)),
    {
        <NewInterface as Parse>::parse(i)
    }
}

} // verus!
