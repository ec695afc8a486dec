//! The enumerations that several formats share. Each is a 32-bit number on
//! the wire.
use vstd::prelude::*;

use crate::decode::{decodes, group_tails, IResult, Parse, Parsed};
use crate::error::{DecodeError, DecodeErrorView};
use crate::parser_ext::number::{le_u32, spec_le_u32};

verus! {

/// What a tile sounds like under foot.
#[derive(Clone, Copy, Debug, PartialEq, Eq, Structural, Hash)]
pub enum TileSound {
    Dirt,
    Sand,
    Ashfield,
    Stone,
    Metal,
    Wood,
    Mud,
    Water,
    DeepWater,
    Snow,
    Grass,
    LongGrass,
    Forest,
    Cloud,
}

impl DeepView for TileSound {
    type V = TileSound;

    open spec fn deep_view(&self) -> TileSound {
        *self
    }
}

/// A number that stands for no [`TileSound`].
#[derive(Clone, Copy, Debug, PartialEq, Eq, Structural)]
pub struct UnknownTileSound(pub u32);

impl UnknownTileSound {
    /// The number that was found.
    pub fn value(&self) -> (r: u32)
        ensures
            r == self.0,
    {
        self.0
    }
}

impl TileSound {
    /// The number that stands for the variant on the wire.
    pub open spec fn spec_value(self) -> u32 {
        match self {
            TileSound::Dirt => 0x00,
            TileSound::Sand => 0x01,
            TileSound::Ashfield => 0x02,
            TileSound::Stone => 0x03,
            TileSound::Metal => 0x04,
            TileSound::Wood => 0x05,
            TileSound::Mud => 0x06,
            TileSound::Water => 0x07,
            TileSound::DeepWater => 0x08,
            TileSound::Snow => 0x09,
            TileSound::Grass => 0x0A,
            TileSound::LongGrass => 0x0B,
            TileSound::Forest => 0x0C,
            TileSound::Cloud => 0x0D,
        }
    }

    /// The number that stands for the variant on the wire.
    #[verifier::when_used_as_spec(spec_value)]
    pub fn value(self) -> (r: u32)
        ensures
            r == self.spec_value(),
    {
        match self {
            TileSound::Dirt => 0x00,
            TileSound::Sand => 0x01,
            TileSound::Ashfield => 0x02,
            TileSound::Stone => 0x03,
            TileSound::Metal => 0x04,
            TileSound::Wood => 0x05,
            TileSound::Mud => 0x06,
            TileSound::Water => 0x07,
            TileSound::DeepWater => 0x08,
            TileSound::Snow => 0x09,
            TileSound::Grass => 0x0A,
            TileSound::LongGrass => 0x0B,
            TileSound::Forest => 0x0C,
            TileSound::Cloud => 0x0D,
        }
    }

    /// The variant that `val` stands for, or `val` itself as the error.
    pub open spec fn spec_try_from(val: u32) -> Result<TileSound, UnknownTileSound> {
        if val == 0x00 {
            Ok(TileSound::Dirt)
        } else if val == 0x01 {
            Ok(TileSound::Sand)
        } else if val == 0x02 {
            Ok(TileSound::Ashfield)
        } else if val == 0x03 {
            Ok(TileSound::Stone)
        } else if val == 0x04 {
            Ok(TileSound::Metal)
        } else if val == 0x05 {
            Ok(TileSound::Wood)
        } else if val == 0x06 {
            Ok(TileSound::Mud)
        } else if val == 0x07 {
            Ok(TileSound::Water)
        } else if val == 0x08 {
            Ok(TileSound::DeepWater)
        } else if val == 0x09 {
            Ok(TileSound::Snow)
        } else if val == 0x0A {
            Ok(TileSound::Grass)
        } else if val == 0x0B {
            Ok(TileSound::LongGrass)
        } else if val == 0x0C {
            Ok(TileSound::Forest)
        } else if val == 0x0D {
            Ok(TileSound::Cloud)
        } else {
            Err(UnknownTileSound(val))
        }
    }

    /// The variant that `val` stands for.
    pub fn try_from(val: u32) -> (r: Result<TileSound, UnknownTileSound>)
        ensures
            r == Self::spec_try_from(val),
    {
        match val {
            0x00 => Ok(TileSound::Dirt),
            0x01 => Ok(TileSound::Sand),
            0x02 => Ok(TileSound::Ashfield),
            0x03 => Ok(TileSound::Stone),
            0x04 => Ok(TileSound::Metal),
            0x05 => Ok(TileSound::Wood),
            0x06 => Ok(TileSound::Mud),
            0x07 => Ok(TileSound::Water),
            0x08 => Ok(TileSound::DeepWater),
            0x09 => Ok(TileSound::Snow),
            0x0A => Ok(TileSound::Grass),
            0x0B => Ok(TileSound::LongGrass),
            0x0C => Ok(TileSound::Forest),
            0x0D => Ok(TileSound::Cloud),
            val => Err(UnknownTileSound(val)),
        }
    }

    /// Every variant is found again from its number.
    pub proof fn lemma_value_round_trip(x: TileSound)
        ensures
            Self::spec_try_from(x.spec_value()) == Ok::<_, UnknownTileSound>(x),
    {
    }

    /// A number stands for the variant whose number it is; any other
    /// number is handed back as the error.
    pub proof fn lemma_try_from_value(val: u32)
        ensures
            match Self::spec_try_from(val) {
                Ok(x) => x.spec_value() == val,
                Err(e) => e.0 == val,
            },
    {
    }
}

/// The kind of a user-interface element.
#[derive(Clone, Copy, Debug, PartialEq, Eq, Structural, Hash)]
pub enum NewInterfaceType {
    CNIFMainFrame,
    CNIFrame,
    CNIFNormaltile,
    CNIFStretch,
    CNIFButton,
    CNIFStatic,
    CNIFEdit,
    CNIFTextBox,
    CNIFSlot,
    CNIFLattice,
    CNIFGauge,
    CNIFCheckBox,
    CNIFComboBox,
    CNIFVirticalScroll,
    CNIFPageManager,
    CNIFBarWnd,
    CNIFTabButton,
    CNIFBothSidesGauge,
    CNIFWnd,
    CNIFSlideCtrl,
    CNIFSpinButtonCtrl,
}

impl DeepView for NewInterfaceType {
    type V = NewInterfaceType;

    open spec fn deep_view(&self) -> NewInterfaceType {
        *self
    }
}

/// A number that stands for no [`NewInterfaceType`].
#[derive(Clone, Copy, Debug, PartialEq, Eq, Structural)]
pub struct UnknownNewInterfaceType(pub u32);

impl UnknownNewInterfaceType {
    /// The number that was found.
    pub fn value(&self) -> (r: u32)
        ensures
            r == self.0,
    {
        self.0
    }
}

impl NewInterfaceType {
    /// The number that stands for the variant on the wire.
    pub open spec fn spec_value(self) -> u32 {
        match self {
            NewInterfaceType::CNIFMainFrame => 0x00,
            NewInterfaceType::CNIFrame => 0x01,
            NewInterfaceType::CNIFNormaltile => 0x02,
            NewInterfaceType::CNIFStretch => 0x03,
            NewInterfaceType::CNIFButton => 0x04,
            NewInterfaceType::CNIFStatic => 0x05,
            NewInterfaceType::CNIFEdit => 0x06,
            NewInterfaceType::CNIFTextBox => 0x07,
            NewInterfaceType::CNIFSlot => 0x08,
            NewInterfaceType::CNIFLattice => 0x09,
            NewInterfaceType::CNIFGauge => 0x0A,
            NewInterfaceType::CNIFCheckBox => 0x0B,
            NewInterfaceType::CNIFComboBox => 0x0C,
            NewInterfaceType::CNIFVirticalScroll => 0x0D,
            NewInterfaceType::CNIFPageManager => 0x0E,
            NewInterfaceType::CNIFBarWnd => 0x0F,
            NewInterfaceType::CNIFTabButton => 0x10,
            NewInterfaceType::CNIFBothSidesGauge => 0x11,
            NewInterfaceType::CNIFWnd => 0x12,
            NewInterfaceType::CNIFSlideCtrl => 0x13,
            NewInterfaceType::CNIFSpinButtonCtrl => 0x14,
        }
    }

    /// The number that stands for the variant on the wire.
    #[verifier::when_used_as_spec(spec_value)]
    pub fn value(self) -> (r: u32)
        ensures
            r == self.spec_value(),
    {
        match self {
            NewInterfaceType::CNIFMainFrame => 0x00,
            NewInterfaceType::CNIFrame => 0x01,
            NewInterfaceType::CNIFNormaltile => 0x02,
            NewInterfaceType::CNIFStretch => 0x03,
            NewInterfaceType::CNIFButton => 0x04,
            NewInterfaceType::CNIFStatic => 0x05,
            NewInterfaceType::CNIFEdit => 0x06,
            NewInterfaceType::CNIFTextBox => 0x07,
            NewInterfaceType::CNIFSlot => 0x08,
            NewInterfaceType::CNIFLattice => 0x09,
            NewInterfaceType::CNIFGauge => 0x0A,
            NewInterfaceType::CNIFCheckBox => 0x0B,
            NewInterfaceType::CNIFComboBox => 0x0C,
            NewInterfaceType::CNIFVirticalScroll => 0x0D,
            NewInterfaceType::CNIFPageManager => 0x0E,
            NewInterfaceType::CNIFBarWnd => 0x0F,
            NewInterfaceType::CNIFTabButton => 0x10,
            NewInterfaceType::CNIFBothSidesGauge => 0x11,
            NewInterfaceType::CNIFWnd => 0x12,
            NewInterfaceType::CNIFSlideCtrl => 0x13,
            NewInterfaceType::CNIFSpinButtonCtrl => 0x14,
        }
    }

    /// The variant that `val` stands for, or `val` itself as the error.
    pub open spec fn spec_try_from(val: u32) -> Result<NewInterfaceType, UnknownNewInterfaceType> {
        if val == 0x00 {
            Ok(NewInterfaceType::CNIFMainFrame)
        } else if val == 0x01 {
            Ok(NewInterfaceType::CNIFrame)
        } else if val == 0x02 {
            Ok(NewInterfaceType::CNIFNormaltile)
        } else if val == 0x03 {
            Ok(NewInterfaceType::CNIFStretch)
        } else if val == 0x04 {
            Ok(NewInterfaceType::CNIFButton)
        } else if val == 0x05 {
            Ok(NewInterfaceType::CNIFStatic)
        } else if val == 0x06 {
            Ok(NewInterfaceType::CNIFEdit)
        } else if val == 0x07 {
            Ok(NewInterfaceType::CNIFTextBox)
        } else if val == 0x08 {
            Ok(NewInterfaceType::CNIFSlot)
        } else if val == 0x09 {
            Ok(NewInterfaceType::CNIFLattice)
        } else if val == 0x0A {
            Ok(NewInterfaceType::CNIFGauge)
        } else if val == 0x0B {
            Ok(NewInterfaceType::CNIFCheckBox)
        } else if val == 0x0C {
            Ok(NewInterfaceType::CNIFComboBox)
        } else if val == 0x0D {
            Ok(NewInterfaceType::CNIFVirticalScroll)
        } else if val == 0x0E {
            Ok(NewInterfaceType::CNIFPageManager)
        } else if val == 0x0F {
            Ok(NewInterfaceType::CNIFBarWnd)
        } else if val == 0x10 {
            Ok(NewInterfaceType::CNIFTabButton)
        } else if val == 0x11 {
            Ok(NewInterfaceType::CNIFBothSidesGauge)
        } else if val == 0x12 {
            Ok(NewInterfaceType::CNIFWnd)
        } else if val == 0x13 {
            Ok(NewInterfaceType::CNIFSlideCtrl)
        } else if val == 0x14 {
            Ok(NewInterfaceType::CNIFSpinButtonCtrl)
        } else {
            Err(UnknownNewInterfaceType(val))
        }
    }

    /// The variant that `val` stands for.
    pub fn try_from(val: u32) -> (r: Result<NewInterfaceType, UnknownNewInterfaceType>)
        ensures
            r == Self::spec_try_from(val),
    {
        match val {
            0x00 => Ok(NewInterfaceType::CNIFMainFrame),
            0x01 => Ok(NewInterfaceType::CNIFrame),
            0x02 => Ok(NewInterfaceType::CNIFNormaltile),
            0x03 => Ok(NewInterfaceType::CNIFStretch),
            0x04 => Ok(NewInterfaceType::CNIFButton),
            0x05 => Ok(NewInterfaceType::CNIFStatic),
            0x06 => Ok(NewInterfaceType::CNIFEdit),
            0x07 => Ok(NewInterfaceType::CNIFTextBox),
            0x08 => Ok(NewInterfaceType::CNIFSlot),
            0x09 => Ok(NewInterfaceType::CNIFLattice),
            0x0A => Ok(NewInterfaceType::CNIFGauge),
            0x0B => Ok(NewInterfaceType::CNIFCheckBox),
            0x0C => Ok(NewInterfaceType::CNIFComboBox),
            0x0D => Ok(NewInterfaceType::CNIFVirticalScroll),
            0x0E => Ok(NewInterfaceType::CNIFPageManager),
            0x0F => Ok(NewInterfaceType::CNIFBarWnd),
            0x10 => Ok(NewInterfaceType::CNIFTabButton),
            0x11 => Ok(NewInterfaceType::CNIFBothSidesGauge),
            0x12 => Ok(NewInterfaceType::CNIFWnd),
            0x13 => Ok(NewInterfaceType::CNIFSlideCtrl),
            0x14 => Ok(NewInterfaceType::CNIFSpinButtonCtrl),
            val => Err(UnknownNewInterfaceType(val)),
        }
    }

    /// Every variant is found again from its number.
    pub proof fn lemma_value_round_trip(x: NewInterfaceType)
        ensures
            Self::spec_try_from(x.spec_value()) == Ok::<_, UnknownNewInterfaceType>(x),
    {
    }

    /// A number stands for the variant whose number it is; any other
    /// number is handed back as the error.
    pub proof fn lemma_try_from_value(val: u32)
        ensures
            match Self::spec_try_from(val) {
                Ok(x) => x.spec_value() == val,
                Err(e) => e.0 == val,
            },
    {
    }
}

impl Parse for NewInterfaceType {
    /// A `u32`, refused with `UnknownDiscriminant` where it stands for no
    /// variant.
    open spec fn spec_parse(s: Seq<u8>) -> Parsed<NewInterfaceType> {
        match spec_le_u32(s) {
            Err(e) => Err(e),
            Ok((s, val)) => match NewInterfaceType::spec_try_from(val) {
                Ok(x) => Ok((s, x)),
                Err(_) => Err(DecodeErrorView::UnknownDiscriminant(val)),
            },
        }
    }

    fn parse<'a>(i: &'a [u8]) -> (r: IResult<'a, NewInterfaceType>) {
        let (i, val) = le_u32(i)?;
        match NewInterfaceType::try_from(val) {
            Ok(x) => Ok((i, x)),
            Err(_) => Err(DecodeError::UnknownDiscriminant(val)),
        }
    }

    proof fn lemma_tail(s: Seq<u8>) {
        broadcast use group_tails;
    }
}

impl NewInterfaceType {
    /// Reads a `u32` and takes it as a kind of interface element.
    pub fn parse<'a>(i: &'a [u8]) -> (r: IResult<'a, NewInterfaceType>)
        ensures
            decodes(r, i@, <NewInterfaceType as Parse>::spec_parse(i@)),
    {
        <NewInterfaceType as Parse>::parse(i)
    }
}

/// What a resource is a model of.
#[derive(Clone, Copy, Debug, PartialEq, Eq, Structural, Hash)]
pub enum ResourceType {
    /// Characters of all races (EU, CH)
    Character,
    /// NPCs, Monsters, COS
    Npc,
    /// Walls, Houses, Fences
    Building,
    /// Static Map-Objects that are not buildings (carriage, bones, etc.)
    Artifact,
    /// Trees, Plants, Flowers, Bushes
    Nature,
    /// All Items-Props
    Item,
    /// Drops, Marks
    Other,
    /// Compound of character and items he is wearing.
    CompoundCharacter,
    /// Compound of multiple buildings, artifacts or nature objects.
    CompoundObject,
}

impl DeepView for ResourceType {
    type V = ResourceType;

    open spec fn deep_view(&self) -> ResourceType {
        *self
    }
}

/// A number that stands for no [`ResourceType`].
#[derive(Clone, Copy, Debug, PartialEq, Eq, Structural)]
pub struct UnknownResourceType(pub u32);

impl UnknownResourceType {
    /// The number that was found.
    pub fn value(&self) -> (r: u32)
        ensures
            r == self.0,
    {
        self.0
    }
}

impl ResourceType {
    /// The number that stands for the variant on the wire.
    pub open spec fn spec_value(self) -> u32 {
        match self {
            ResourceType::Character => 0x20000,
            ResourceType::Npc => 0x20001,
            ResourceType::Building => 0x20002,
            ResourceType::Artifact => 0x20003,
            ResourceType::Nature => 0x20004,
            ResourceType::Item => 0x20005,
            ResourceType::Other => 0x20006,
            ResourceType::CompoundCharacter => 0x30000,
            ResourceType::CompoundObject => 0x30002,
        }
    }

    /// The number that stands for the variant on the wire.
    #[verifier::when_used_as_spec(spec_value)]
    pub fn value(self) -> (r: u32)
        ensures
            r == self.spec_value(),
    {
        match self {
            ResourceType::Character => 0x20000,
            ResourceType::Npc => 0x20001,
            ResourceType::Building => 0x20002,
            ResourceType::Artifact => 0x20003,
            ResourceType::Nature => 0x20004,
            ResourceType::Item => 0x20005,
            ResourceType::Other => 0x20006,
            ResourceType::CompoundCharacter => 0x30000,
            ResourceType::CompoundObject => 0x30002,
        }
    }

    /// The variant that `val` stands for, or `val` itself as the error.
    pub open spec fn spec_try_from(val: u32) -> Result<ResourceType, UnknownResourceType> {
        if val == 0x20000 {
            Ok(ResourceType::Character)
        } else if val == 0x20001 {
            Ok(ResourceType::Npc)
        } else if val == 0x20002 {
            Ok(ResourceType::Building)
        } else if val == 0x20003 {
            Ok(ResourceType::Artifact)
        } else if val == 0x20004 {
            Ok(ResourceType::Nature)
        } else if val == 0x20005 {
            Ok(ResourceType::Item)
        } else if val == 0x20006 {
            Ok(ResourceType::Other)
        } else if val == 0x30000 {
            Ok(ResourceType::CompoundCharacter)
        } else if val == 0x30002 {
            Ok(ResourceType::CompoundObject)
        } else {
            Err(UnknownResourceType(val))
        }
    }

    /// The variant that `val` stands for.
    pub fn try_from(val: u32) -> (r: Result<ResourceType, UnknownResourceType>)
        ensures
            r == Self::spec_try_from(val),
    {
        match val {
            0x20000 => Ok(ResourceType::Character),
            0x20001 => Ok(ResourceType::Npc),
            0x20002 => Ok(ResourceType::Building),
            0x20003 => Ok(ResourceType::Artifact),
            0x20004 => Ok(ResourceType::Nature),
            0x20005 => Ok(ResourceType::Item),
            0x20006 => Ok(ResourceType::Other),
            0x30000 => Ok(ResourceType::CompoundCharacter),
            0x30002 => Ok(ResourceType::CompoundObject),
            val => Err(UnknownResourceType(val)),
        }
    }

    /// Every variant is found again from its number.
    pub proof fn lemma_value_round_trip(x: ResourceType)
        ensures
            Self::spec_try_from(x.spec_value()) == Ok::<_, UnknownResourceType>(x),
    {
    }

    /// A number stands for the variant whose number it is; any other
    /// number is handed back as the error.
    pub proof fn lemma_try_from_value(val: u32)
        ensures
            match Self::spec_try_from(val) {
                Ok(x) => x.spec_value() == val,
                Err(e) => e.0 == val,
            },
    {
    }
}

impl Parse for ResourceType {
    /// A `u32`, refused with `UnknownDiscriminant` where it stands for no
    /// variant.
    open spec fn spec_parse(s: Seq<u8>) -> Parsed<ResourceType> {
        match spec_le_u32(s) {
            Err(e) => Err(e),
            Ok((s, val)) => match ResourceType::spec_try_from(val) {
                Ok(x) => Ok((s, x)),
                Err(_) => Err(DecodeErrorView::UnknownDiscriminant(val)),
            },
        }
    }

    fn parse<'a>(i: &'a [u8]) -> (r: IResult<'a, ResourceType>) {
        let (i, val) = le_u32(i)?;
        match ResourceType::try_from(val) {
            Ok(x) => Ok((i, x)),
            Err(_) => Err(DecodeError::UnknownDiscriminant(val)),
        }
    }

    proof fn lemma_tail(s: Seq<u8>) {
        broadcast use group_tails;
    }
}

impl ResourceType {
    /// Reads a `u32` and takes it as a resource type.
    pub fn parse<'a>(i: &'a [u8]) -> (r: IResult<'a, ResourceType>)
        ensures
            decodes(r, i@, <ResourceType as Parse>::spec_parse(i@)),
    {
        <ResourceType as Parse>::parse(i)
    }
}

/// What an animation of a resource shows. Older files write `0x08` for
/// `Stand2`; both numbers are read as `Stand2`.
#[derive(Clone, Copy, Debug, PartialEq, Eq, Structural, Hash)]
pub enum ResourceAnimationType {
    Pose,
    Stand1,
    Stand2,
    Stand3,
    Stand4,
    AttReady,
    TurnL,
    TurnR,
    SitDown,
    Sit,
    StandUp,
    Defence,
    Walk,
    WalkBack,
    Run,
    Attack1,
    Attack2,
    Attack3,
    Attack4,
    Attack5,
    Attack6,
    Attack7,
    Attack8,
    Attack9,
    Revolution,
    Skill1,
    Skill2,
    Skill3,
    Skill4,
    Skill5,
    Skill6,
    Skill7,
    Skill8,
    Skill9,
    Skill10,
    Skill11,
    Skill12,
    Skill13,
    Skill14,
    Skill15,
    Skill16,
    Skill17,
    Skill18,
    Skill19,
    Skill20,
    Skill21,
    Skill22,
    Skill23,
    Skill24,
    Skill25,
    Skill26,
    Skill27,
    Skill28,
    Skill29,
    Skill30,
    Skill31,
    Skill32,
    Skill33,
    Skill34,
    Skill35,
    Skill36,
    Skill37,
    Skill38,
    Skill39,
    Skill40,
    Skill41,
    Skill42,
    Skill43,
    Skill44,
    Skill45,
    Skill46,
    Skill47,
    Skill48,
    Skill49,
    Skill50,
    Skill51,
    Skill52,
    Skill53,
    Skill54,
    Skill55,
    Skill56,
    Skill57,
    Skill58,
    Skill59,
    Skill60,
    Skill61,
    Skill62,
    Skill63,
    Skill64,
    Skill65,
    Skill66,
    Skill67,
    Skill68,
    Skill69,
    Skill70,
    Skill71,
    Skill72,
    Skill73,
    Skill74,
    Skill75,
    Skill76,
    Skill77,
    Skill78,
    Skill79,
    Skill80,
    Skill81,
    Skill82,
    Skill83,
    Skill84,
    Skill85,
    Skill86,
    Skill87,
    Skill88,
    Skill89,
    Skill90,
    Skill91,
    Skill92,
    Skill93,
    Skill94,
    Skill95,
    Skill96,
    Skill97,
    Skill98,
    Skill99,
    Skill100,
    Ready1,
    Ready2,
    Ready3,
    Ready4,
    Ready5,
    Wait1,
    Wait2,
    Wait3,
    Wait4,
    Wait5,
    Hammer,
    HandLoof,
    Throw,
    MgSSelf,
    MgSOther,
    Damage1,
    Damage2,
    Help,
    Find,
    Stun,
    Die1,
    Die1Rm,
    Die2,
    Die2Rm,
    Revival,
    Down,
    DownRm,
    DownDamage,
    DownUp,
    DownDie,
    Pick,
    Click,
    CbYeonhwan,
    Cb2,
    EtBye,
    Emotion01,
    Emotion02,
    Emotion03,
    Emotion04,
    Emotion05,
    Emotion06,
    Emotion07,
    Emotion08,
    Emotion09,
    Emotion10,
    Vendor01,
    Shot,
}

impl DeepView for ResourceAnimationType {
    type V = ResourceAnimationType;

    open spec fn deep_view(&self) -> ResourceAnimationType {
        *self
    }
}

/// A number that stands for no [`ResourceAnimationType`].
#[derive(Clone, Copy, Debug, PartialEq, Eq, Structural)]
pub struct UnknownResourceAnimationType(pub u32);

impl UnknownResourceAnimationType {
    /// The number that was found.
    pub fn value(&self) -> (r: u32)
        ensures
            r == self.0,
    {
        self.0
    }
}

impl ResourceAnimationType {
    /// The number that stands for the variant on the wire.
    pub open spec fn spec_value(self) -> u32 {
        match self {
            ResourceAnimationType::Pose => 0x3C,
            ResourceAnimationType::Stand1 => 0x00,
            ResourceAnimationType::Stand2 => 0x7A,
            ResourceAnimationType::Stand3 => 0x3D,
            ResourceAnimationType::Stand4 => 0x51,
            ResourceAnimationType::AttReady => 0x06,
            ResourceAnimationType::TurnL => 0x18,
            ResourceAnimationType::TurnR => 0x19,
            ResourceAnimationType::SitDown => 0x0D,
            ResourceAnimationType::Sit => 0x0E,
            ResourceAnimationType::StandUp => 0x0F,
            ResourceAnimationType::Defence => 0x16,
            ResourceAnimationType::Walk => 0x01,
            ResourceAnimationType::WalkBack => 0x17,
            ResourceAnimationType::Run => 0x07,
            ResourceAnimationType::Attack1 => 0x02,
            ResourceAnimationType::Attack2 => 0x05,
            ResourceAnimationType::Attack3 => 0x10,
            ResourceAnimationType::Attack4 => 0x11,
            ResourceAnimationType::Attack5 => 0xB7,
            ResourceAnimationType::Attack6 => 0xB8,
            ResourceAnimationType::Attack7 => 0xB9,
            ResourceAnimationType::Attack8 => 0xBA,
            ResourceAnimationType::Attack9 => 0xBE,
            ResourceAnimationType::Revolution => 0x27,
            ResourceAnimationType::Skill1 => 0x1A,
            ResourceAnimationType::Skill2 => 0x1B,
            ResourceAnimationType::Skill3 => 0x1C,
            ResourceAnimationType::Skill4 => 0x1D,
            ResourceAnimationType::Skill5 => 0x1E,
            ResourceAnimationType::Skill6 => 0x1F,
            ResourceAnimationType::Skill7 => 0x20,
            ResourceAnimationType::Skill8 => 0x21,
            ResourceAnimationType::Skill9 => 0x22,
            ResourceAnimationType::Skill10 => 0x23,
            ResourceAnimationType::Skill11 => 0x44,
            ResourceAnimationType::Skill12 => 0x45,
            ResourceAnimationType::Skill13 => 0x46,
            ResourceAnimationType::Skill14 => 0x47,
            ResourceAnimationType::Skill15 => 0x48,
            ResourceAnimationType::Skill16 => 0x49,
            ResourceAnimationType::Skill17 => 0x4A,
            ResourceAnimationType::Skill18 => 0x4B,
            ResourceAnimationType::Skill19 => 0x4C,
            ResourceAnimationType::Skill20 => 0x4D,
            ResourceAnimationType::Skill21 => 0x65,
            ResourceAnimationType::Skill22 => 0x66,
            ResourceAnimationType::Skill23 => 0x67,
            ResourceAnimationType::Skill24 => 0x68,
            ResourceAnimationType::Skill25 => 0x69,
            ResourceAnimationType::Skill26 => 0x6A,
            ResourceAnimationType::Skill27 => 0x6B,
            ResourceAnimationType::Skill28 => 0x6C,
            ResourceAnimationType::Skill29 => 0x6D,
            ResourceAnimationType::Skill30 => 0x6E,
            ResourceAnimationType::Skill31 => 0x6F,
            ResourceAnimationType::Skill32 => 0x70,
            ResourceAnimationType::Skill33 => 0x71,
            ResourceAnimationType::Skill34 => 0x72,
            ResourceAnimationType::Skill35 => 0x73,
            ResourceAnimationType::Skill36 => 0x74,
            ResourceAnimationType::Skill37 => 0x75,
            ResourceAnimationType::Skill38 => 0x76,
            ResourceAnimationType::Skill39 => 0x77,
            ResourceAnimationType::Skill40 => 0x78,
            ResourceAnimationType::Skill41 => 0x7B,
            ResourceAnimationType::Skill42 => 0x7C,
            ResourceAnimationType::Skill43 => 0x7D,
            ResourceAnimationType::Skill44 => 0x7E,
            ResourceAnimationType::Skill45 => 0x7F,
            ResourceAnimationType::Skill46 => 0x80,
            ResourceAnimationType::Skill47 => 0x81,
            ResourceAnimationType::Skill48 => 0x82,
            ResourceAnimationType::Skill49 => 0x83,
            ResourceAnimationType::Skill50 => 0x84,
            ResourceAnimationType::Skill51 => 0x85,
            ResourceAnimationType::Skill52 => 0x86,
            ResourceAnimationType::Skill53 => 0x87,
            ResourceAnimationType::Skill54 => 0x88,
            ResourceAnimationType::Skill55 => 0x89,
            ResourceAnimationType::Skill56 => 0x8A,
            ResourceAnimationType::Skill57 => 0x8B,
            ResourceAnimationType::Skill58 => 0x8C,
            ResourceAnimationType::Skill59 => 0x8D,
            ResourceAnimationType::Skill60 => 0x8E,
            ResourceAnimationType::Skill61 => 0x8F,
            ResourceAnimationType::Skill62 => 0x90,
            ResourceAnimationType::Skill63 => 0x91,
            ResourceAnimationType::Skill64 => 0x92,
            ResourceAnimationType::Skill65 => 0x93,
            ResourceAnimationType::Skill66 => 0x94,
            ResourceAnimationType::Skill67 => 0x95,
            ResourceAnimationType::Skill68 => 0x96,
            ResourceAnimationType::Skill69 => 0x97,
            ResourceAnimationType::Skill70 => 0x98,
            ResourceAnimationType::Skill71 => 0x99,
            ResourceAnimationType::Skill72 => 0x9A,
            ResourceAnimationType::Skill73 => 0x9B,
            ResourceAnimationType::Skill74 => 0x9C,
            ResourceAnimationType::Skill75 => 0x9D,
            ResourceAnimationType::Skill76 => 0x9E,
            ResourceAnimationType::Skill77 => 0x9F,
            ResourceAnimationType::Skill78 => 0xA0,
            ResourceAnimationType::Skill79 => 0xA1,
            ResourceAnimationType::Skill80 => 0xA2,
            ResourceAnimationType::Skill81 => 0xA3,
            ResourceAnimationType::Skill82 => 0xA4,
            ResourceAnimationType::Skill83 => 0xA5,
            ResourceAnimationType::Skill84 => 0xA6,
            ResourceAnimationType::Skill85 => 0xA7,
            ResourceAnimationType::Skill86 => 0xA8,
            ResourceAnimationType::Skill87 => 0xA9,
            ResourceAnimationType::Skill88 => 0xAA,
            ResourceAnimationType::Skill89 => 0xAB,
            ResourceAnimationType::Skill90 => 0xAC,
            ResourceAnimationType::Skill91 => 0xAD,
            ResourceAnimationType::Skill92 => 0xAE,
            ResourceAnimationType::Skill93 => 0xAF,
            ResourceAnimationType::Skill94 => 0xB0,
            ResourceAnimationType::Skill95 => 0xB1,
            ResourceAnimationType::Skill96 => 0xB2,
            ResourceAnimationType::Skill97 => 0xB3,
            ResourceAnimationType::Skill98 => 0xB4,
            ResourceAnimationType::Skill99 => 0xB5,
            ResourceAnimationType::Skill100 => 0xB6,
            ResourceAnimationType::Ready1 => 0x28,
            ResourceAnimationType::Ready2 => 0x29,
            ResourceAnimationType::Ready3 => 0x2A,
            ResourceAnimationType::Ready4 => 0x2B,
            ResourceAnimationType::Ready5 => 0x2C,
            ResourceAnimationType::Wait1 => 0x5B,
            ResourceAnimationType::Wait2 => 0x5C,
            ResourceAnimationType::Wait3 => 0x5D,
            ResourceAnimationType::Wait4 => 0x5E,
            ResourceAnimationType::Wait5 => 0x5F,
            ResourceAnimationType::Hammer => 0xBB,
            ResourceAnimationType::HandLoof => 0xBC,
            ResourceAnimationType::Throw => 0xBD,
            ResourceAnimationType::MgSSelf => 0x13,
            ResourceAnimationType::MgSOther => 0x14,
            ResourceAnimationType::Damage1 => 0x03,
            ResourceAnimationType::Damage2 => 0x09,
            ResourceAnimationType::Help => 0x43,
            ResourceAnimationType::Find => 0x4E,
            ResourceAnimationType::Stun => 0x4F,
            ResourceAnimationType::Die1 => 0x04,
            ResourceAnimationType::Die1Rm => 0x24,
            ResourceAnimationType::Die2 => 0x12,
            ResourceAnimationType::Die2Rm => 0x25,
            ResourceAnimationType::Revival => 0x79,
            ResourceAnimationType::Down => 0x3E,
            ResourceAnimationType::DownRm => 0x3F,
            ResourceAnimationType::DownDamage => 0x40,
            ResourceAnimationType::DownUp => 0x41,
            ResourceAnimationType::DownDie => 0x42,
            ResourceAnimationType::Pick => 0x26,
            ResourceAnimationType::Click => 0x0A,
            ResourceAnimationType::CbYeonhwan => 0x0B,
            ResourceAnimationType::Cb2 => 0x0C,
            ResourceAnimationType::EtBye => 0x15,
            ResourceAnimationType::Emotion01 => 0x32,
            ResourceAnimationType::Emotion02 => 0x33,
            ResourceAnimationType::Emotion03 => 0x34,
            ResourceAnimationType::Emotion04 => 0x35,
            ResourceAnimationType::Emotion05 => 0x36,
            ResourceAnimationType::Emotion06 => 0x37,
            ResourceAnimationType::Emotion07 => 0x38,
            ResourceAnimationType::Emotion08 => 0x39,
            ResourceAnimationType::Emotion09 => 0x3A,
            ResourceAnimationType::Emotion10 => 0x3B,
            ResourceAnimationType::Vendor01 => 0x50,
            ResourceAnimationType::Shot => 0xBF,
        }
    }

    /// The number that stands for the variant on the wire.
    #[verifier::when_used_as_spec(spec_value)]
    pub fn value(self) -> (r: u32)
        ensures
            r == self.spec_value(),
    {
        match self {
            ResourceAnimationType::Pose => 0x3C,
            ResourceAnimationType::Stand1 => 0x00,
            ResourceAnimationType::Stand2 => 0x7A,
            ResourceAnimationType::Stand3 => 0x3D,
            ResourceAnimationType::Stand4 => 0x51,
            ResourceAnimationType::AttReady => 0x06,
            ResourceAnimationType::TurnL => 0x18,
            ResourceAnimationType::TurnR => 0x19,
            ResourceAnimationType::SitDown => 0x0D,
            ResourceAnimationType::Sit => 0x0E,
            ResourceAnimationType::StandUp => 0x0F,
            ResourceAnimationType::Defence => 0x16,
            ResourceAnimationType::Walk => 0x01,
            ResourceAnimationType::WalkBack => 0x17,
            ResourceAnimationType::Run => 0x07,
            ResourceAnimationType::Attack1 => 0x02,
            ResourceAnimationType::Attack2 => 0x05,
            ResourceAnimationType::Attack3 => 0x10,
            ResourceAnimationType::Attack4 => 0x11,
            ResourceAnimationType::Attack5 => 0xB7,
            ResourceAnimationType::Attack6 => 0xB8,
            ResourceAnimationType::Attack7 => 0xB9,
            ResourceAnimationType::Attack8 => 0xBA,
            ResourceAnimationType::Attack9 => 0xBE,
            ResourceAnimationType::Revolution => 0x27,
            ResourceAnimationType::Skill1 => 0x1A,
            ResourceAnimationType::Skill2 => 0x1B,
            ResourceAnimationType::Skill3 => 0x1C,
            ResourceAnimationType::Skill4 => 0x1D,
            ResourceAnimationType::Skill5 => 0x1E,
            ResourceAnimationType::Skill6 => 0x1F,
            ResourceAnimationType::Skill7 => 0x20,
            ResourceAnimationType::Skill8 => 0x21,
            ResourceAnimationType::Skill9 => 0x22,
            ResourceAnimationType::Skill10 => 0x23,
            ResourceAnimationType::Skill11 => 0x44,
            ResourceAnimationType::Skill12 => 0x45,
            ResourceAnimationType::Skill13 => 0x46,
            ResourceAnimationType::Skill14 => 0x47,
            ResourceAnimationType::Skill15 => 0x48,
            ResourceAnimationType::Skill16 => 0x49,
            ResourceAnimationType::Skill17 => 0x4A,
            ResourceAnimationType::Skill18 => 0x4B,
            ResourceAnimationType::Skill19 => 0x4C,
            ResourceAnimationType::Skill20 => 0x4D,
            ResourceAnimationType::Skill21 => 0x65,
            ResourceAnimationType::Skill22 => 0x66,
            ResourceAnimationType::Skill23 => 0x67,
            ResourceAnimationType::Skill24 => 0x68,
            ResourceAnimationType::Skill25 => 0x69,
            ResourceAnimationType::Skill26 => 0x6A,
            ResourceAnimationType::Skill27 => 0x6B,
            ResourceAnimationType::Skill28 => 0x6C,
            ResourceAnimationType::Skill29 => 0x6D,
            ResourceAnimationType::Skill30 => 0x6E,
            ResourceAnimationType::Skill31 => 0x6F,
            ResourceAnimationType::Skill32 => 0x70,
            ResourceAnimationType::Skill33 => 0x71,
            ResourceAnimationType::Skill34 => 0x72,
            ResourceAnimationType::Skill35 => 0x73,
            ResourceAnimationType::Skill36 => 0x74,
            ResourceAnimationType::Skill37 => 0x75,
            ResourceAnimationType::Skill38 => 0x76,
            ResourceAnimationType::Skill39 => 0x77,
            ResourceAnimationType::Skill40 => 0x78,
            ResourceAnimationType::Skill41 => 0x7B,
            ResourceAnimationType::Skill42 => 0x7C,
            ResourceAnimationType::Skill43 => 0x7D,
            ResourceAnimationType::Skill44 => 0x7E,
            ResourceAnimationType::Skill45 => 0x7F,
            ResourceAnimationType::Skill46 => 0x80,
            ResourceAnimationType::Skill47 => 0x81,
            ResourceAnimationType::Skill48 => 0x82,
            ResourceAnimationType::Skill49 => 0x83,
            ResourceAnimationType::Skill50 => 0x84,
            ResourceAnimationType::Skill51 => 0x85,
            ResourceAnimationType::Skill52 => 0x86,
            ResourceAnimationType::Skill53 => 0x87,
            ResourceAnimationType::Skill54 => 0x88,
            ResourceAnimationType::Skill55 => 0x89,
            ResourceAnimationType::Skill56 => 0x8A,
            ResourceAnimationType::Skill57 => 0x8B,
            ResourceAnimationType::Skill58 => 0x8C,
            ResourceAnimationType::Skill59 => 0x8D,
            ResourceAnimationType::Skill60 => 0x8E,
            ResourceAnimationType::Skill61 => 0x8F,
            ResourceAnimationType::Skill62 => 0x90,
            ResourceAnimationType::Skill63 => 0x91,
            ResourceAnimationType::Skill64 => 0x92,
            ResourceAnimationType::Skill65 => 0x93,
            ResourceAnimationType::Skill66 => 0x94,
            ResourceAnimationType::Skill67 => 0x95,
            ResourceAnimationType::Skill68 => 0x96,
            ResourceAnimationType::Skill69 => 0x97,
            ResourceAnimationType::Skill70 => 0x98,
            ResourceAnimationType::Skill71 => 0x99,
            ResourceAnimationType::Skill72 => 0x9A,
            ResourceAnimationType::Skill73 => 0x9B,
            ResourceAnimationType::Skill74 => 0x9C,
            ResourceAnimationType::Skill75 => 0x9D,
            ResourceAnimationType::Skill76 => 0x9E,
            ResourceAnimationType::Skill77 => 0x9F,
            ResourceAnimationType::Skill78 => 0xA0,
            ResourceAnimationType::Skill79 => 0xA1,
            ResourceAnimationType::Skill80 => 0xA2,
            ResourceAnimationType::Skill81 => 0xA3,
            ResourceAnimationType::Skill82 => 0xA4,
            ResourceAnimationType::Skill83 => 0xA5,
            ResourceAnimationType::Skill84 => 0xA6,
            ResourceAnimationType::Skill85 => 0xA7,
            ResourceAnimationType::Skill86 => 0xA8,
            ResourceAnimationType::Skill87 => 0xA9,
            ResourceAnimationType::Skill88 => 0xAA,
            ResourceAnimationType::Skill89 => 0xAB,
            ResourceAnimationType::Skill90 => 0xAC,
            ResourceAnimationType::Skill91 => 0xAD,
            ResourceAnimationType::Skill92 => 0xAE,
            ResourceAnimationType::Skill93 => 0xAF,
            ResourceAnimationType::Skill94 => 0xB0,
            ResourceAnimationType::Skill95 => 0xB1,
            ResourceAnimationType::Skill96 => 0xB2,
            ResourceAnimationType::Skill97 => 0xB3,
            ResourceAnimationType::Skill98 => 0xB4,
            ResourceAnimationType::Skill99 => 0xB5,
            ResourceAnimationType::Skill100 => 0xB6,
            ResourceAnimationType::Ready1 => 0x28,
            ResourceAnimationType::Ready2 => 0x29,
            ResourceAnimationType::Ready3 => 0x2A,
            ResourceAnimationType::Ready4 => 0x2B,
            ResourceAnimationType::Ready5 => 0x2C,
            ResourceAnimationType::Wait1 => 0x5B,
            ResourceAnimationType::Wait2 => 0x5C,
            ResourceAnimationType::Wait3 => 0x5D,
            ResourceAnimationType::Wait4 => 0x5E,
            ResourceAnimationType::Wait5 => 0x5F,
            ResourceAnimationType::Hammer => 0xBB,
            ResourceAnimationType::HandLoof => 0xBC,
            ResourceAnimationType::Throw => 0xBD,
            ResourceAnimationType::MgSSelf => 0x13,
            ResourceAnimationType::MgSOther => 0x14,
            ResourceAnimationType::Damage1 => 0x03,
            ResourceAnimationType::Damage2 => 0x09,
            ResourceAnimationType::Help => 0x43,
            ResourceAnimationType::Find => 0x4E,
            ResourceAnimationType::Stun => 0x4F,
            ResourceAnimationType::Die1 => 0x04,
            ResourceAnimationType::Die1Rm => 0x24,
            ResourceAnimationType::Die2 => 0x12,
            ResourceAnimationType::Die2Rm => 0x25,
            ResourceAnimationType::Revival => 0x79,
            ResourceAnimationType::Down => 0x3E,
            ResourceAnimationType::DownRm => 0x3F,
            ResourceAnimationType::DownDamage => 0x40,
            ResourceAnimationType::DownUp => 0x41,
            ResourceAnimationType::DownDie => 0x42,
            ResourceAnimationType::Pick => 0x26,
            ResourceAnimationType::Click => 0x0A,
            ResourceAnimationType::CbYeonhwan => 0x0B,
            ResourceAnimationType::Cb2 => 0x0C,
            ResourceAnimationType::EtBye => 0x15,
            ResourceAnimationType::Emotion01 => 0x32,
            ResourceAnimationType::Emotion02 => 0x33,
            ResourceAnimationType::Emotion03 => 0x34,
            ResourceAnimationType::Emotion04 => 0x35,
            ResourceAnimationType::Emotion05 => 0x36,
            ResourceAnimationType::Emotion06 => 0x37,
            ResourceAnimationType::Emotion07 => 0x38,
            ResourceAnimationType::Emotion08 => 0x39,
            ResourceAnimationType::Emotion09 => 0x3A,
            ResourceAnimationType::Emotion10 => 0x3B,
            ResourceAnimationType::Vendor01 => 0x50,
            ResourceAnimationType::Shot => 0xBF,
        }
    }

    /// The variant that `val` stands for, or `val` itself as the error.
    pub open spec fn spec_try_from(val: u32) -> Result<ResourceAnimationType, UnknownResourceAnimationType> {
        if val == 0x3C {
            Ok(ResourceAnimationType::Pose)
        } else if val == 0x00 {
            Ok(ResourceAnimationType::Stand1)
        } else if val == 0x7A {
            Ok(ResourceAnimationType::Stand2)
        } else if val == 0x3D {
            Ok(ResourceAnimationType::Stand3)
        } else if val == 0x51 {
            Ok(ResourceAnimationType::Stand4)
        } else if val == 0x06 {
            Ok(ResourceAnimationType::AttReady)
        } else if val == 0x18 {
            Ok(ResourceAnimationType::TurnL)
        } else if val == 0x19 {
            Ok(ResourceAnimationType::TurnR)
        } else if val == 0x0D {
            Ok(ResourceAnimationType::SitDown)
        } else if val == 0x0E {
            Ok(ResourceAnimationType::Sit)
        } else if val == 0x0F {
            Ok(ResourceAnimationType::StandUp)
        } else if val == 0x16 {
            Ok(ResourceAnimationType::Defence)
        } else if val == 0x01 {
            Ok(ResourceAnimationType::Walk)
        } else if val == 0x17 {
            Ok(ResourceAnimationType::WalkBack)
        } else if val == 0x07 {
            Ok(ResourceAnimationType::Run)
        } else if val == 0x02 {
            Ok(ResourceAnimationType::Attack1)
        } else if val == 0x05 {
            Ok(ResourceAnimationType::Attack2)
        } else if val == 0x10 {
            Ok(ResourceAnimationType::Attack3)
        } else if val == 0x11 {
            Ok(ResourceAnimationType::Attack4)
        } else if val == 0xB7 {
            Ok(ResourceAnimationType::Attack5)
        } else if val == 0xB8 {
            Ok(ResourceAnimationType::Attack6)
        } else if val == 0xB9 {
            Ok(ResourceAnimationType::Attack7)
        } else if val == 0xBA {
            Ok(ResourceAnimationType::Attack8)
        } else if val == 0xBE {
            Ok(ResourceAnimationType::Attack9)
        } else if val == 0x27 {
            Ok(ResourceAnimationType::Revolution)
        } else if val == 0x1A {
            Ok(ResourceAnimationType::Skill1)
        } else if val == 0x1B {
            Ok(ResourceAnimationType::Skill2)
        } else if val == 0x1C {
            Ok(ResourceAnimationType::Skill3)
        } else if val == 0x1D {
            Ok(ResourceAnimationType::Skill4)
        } else if val == 0x1E {
            Ok(ResourceAnimationType::Skill5)
        } else if val == 0x1F {
            Ok(ResourceAnimationType::Skill6)
        } else if val == 0x20 {
            Ok(ResourceAnimationType::Skill7)
        } else if val == 0x21 {
            Ok(ResourceAnimationType::Skill8)
        } else if val == 0x22 {
            Ok(ResourceAnimationType::Skill9)
        } else if val == 0x23 {
            Ok(ResourceAnimationType::Skill10)
        } else if val == 0x44 {
            Ok(ResourceAnimationType::Skill11)
        } else if val == 0x45 {
            Ok(ResourceAnimationType::Skill12)
        } else if val == 0x46 {
            Ok(ResourceAnimationType::Skill13)
        } else if val == 0x47 {
            Ok(ResourceAnimationType::Skill14)
        } else if val == 0x48 {
            Ok(ResourceAnimationType::Skill15)
        } else if val == 0x49 {
            Ok(ResourceAnimationType::Skill16)
        } else if val == 0x4A {
            Ok(ResourceAnimationType::Skill17)
        } else if val == 0x4B {
            Ok(ResourceAnimationType::Skill18)
        } else if val == 0x4C {
            Ok(ResourceAnimationType::Skill19)
        } else if val == 0x4D {
            Ok(ResourceAnimationType::Skill20)
        } else if val == 0x65 {
            Ok(ResourceAnimationType::Skill21)
        } else if val == 0x66 {
            Ok(ResourceAnimationType::Skill22)
        } else if val == 0x67 {
            Ok(ResourceAnimationType::Skill23)
        } else if val == 0x68 {
            Ok(ResourceAnimationType::Skill24)
        } else if val == 0x69 {
            Ok(ResourceAnimationType::Skill25)
        } else if val == 0x6A {
            Ok(ResourceAnimationType::Skill26)
        } else if val == 0x6B {
            Ok(ResourceAnimationType::Skill27)
        } else if val == 0x6C {
            Ok(ResourceAnimationType::Skill28)
        } else if val == 0x6D {
            Ok(ResourceAnimationType::Skill29)
        } else if val == 0x6E {
            Ok(ResourceAnimationType::Skill30)
        } else if val == 0x6F {
            Ok(ResourceAnimationType::Skill31)
        } else if val == 0x70 {
            Ok(ResourceAnimationType::Skill32)
        } else if val == 0x71 {
            Ok(ResourceAnimationType::Skill33)
        } else if val == 0x72 {
            Ok(ResourceAnimationType::Skill34)
        } else if val == 0x73 {
            Ok(ResourceAnimationType::Skill35)
        } else if val == 0x74 {
            Ok(ResourceAnimationType::Skill36)
        } else if val == 0x75 {
            Ok(ResourceAnimationType::Skill37)
        } else if val == 0x76 {
            Ok(ResourceAnimationType::Skill38)
        } else if val == 0x77 {
            Ok(ResourceAnimationType::Skill39)
        } else if val == 0x78 {
            Ok(ResourceAnimationType::Skill40)
        } else if val == 0x7B {
            Ok(ResourceAnimationType::Skill41)
        } else if val == 0x7C {
            Ok(ResourceAnimationType::Skill42)
        } else if val == 0x7D {
            Ok(ResourceAnimationType::Skill43)
        } else if val == 0x7E {
            Ok(ResourceAnimationType::Skill44)
        } else if val == 0x7F {
            Ok(ResourceAnimationType::Skill45)
        } else if val == 0x80 {
            Ok(ResourceAnimationType::Skill46)
        } else if val == 0x81 {
            Ok(ResourceAnimationType::Skill47)
        } else if val == 0x82 {
            Ok(ResourceAnimationType::Skill48)
        } else if val == 0x83 {
            Ok(ResourceAnimationType::Skill49)
        } else if val == 0x84 {
            Ok(ResourceAnimationType::Skill50)
        } else if val == 0x85 {
            Ok(ResourceAnimationType::Skill51)
        } else if val == 0x86 {
            Ok(ResourceAnimationType::Skill52)
        } else if val == 0x87 {
            Ok(ResourceAnimationType::Skill53)
        } else if val == 0x88 {
            Ok(ResourceAnimationType::Skill54)
        } else if val == 0x89 {
            Ok(ResourceAnimationType::Skill55)
        } else if val == 0x8A {
            Ok(ResourceAnimationType::Skill56)
        } else if val == 0x8B {
            Ok(ResourceAnimationType::Skill57)
        } else if val == 0x8C {
            Ok(ResourceAnimationType::Skill58)
        } else if val == 0x8D {
            Ok(ResourceAnimationType::Skill59)
        } else if val == 0x8E {
            Ok(ResourceAnimationType::Skill60)
        } else if val == 0x8F {
            Ok(ResourceAnimationType::Skill61)
        } else if val == 0x90 {
            Ok(ResourceAnimationType::Skill62)
        } else if val == 0x91 {
            Ok(ResourceAnimationType::Skill63)
        } else if val == 0x92 {
            Ok(ResourceAnimationType::Skill64)
        } else if val == 0x93 {
            Ok(ResourceAnimationType::Skill65)
        } else if val == 0x94 {
            Ok(ResourceAnimationType::Skill66)
        } else if val == 0x95 {
            Ok(ResourceAnimationType::Skill67)
        } else if val == 0x96 {
            Ok(ResourceAnimationType::Skill68)
        } else if val == 0x97 {
            Ok(ResourceAnimationType::Skill69)
        } else if val == 0x98 {
            Ok(ResourceAnimationType::Skill70)
        } else if val == 0x99 {
            Ok(ResourceAnimationType::Skill71)
        } else if val == 0x9A {
            Ok(ResourceAnimationType::Skill72)
        } else if val == 0x9B {
            Ok(ResourceAnimationType::Skill73)
        } else if val == 0x9C {
            Ok(ResourceAnimationType::Skill74)
        } else if val == 0x9D {
            Ok(ResourceAnimationType::Skill75)
        } else if val == 0x9E {
            Ok(ResourceAnimationType::Skill76)
        } else if val == 0x9F {
            Ok(ResourceAnimationType::Skill77)
        } else if val == 0xA0 {
            Ok(ResourceAnimationType::Skill78)
        } else if val == 0xA1 {
            Ok(ResourceAnimationType::Skill79)
        } else if val == 0xA2 {
            Ok(ResourceAnimationType::Skill80)
        } else if val == 0xA3 {
            Ok(ResourceAnimationType::Skill81)
        } else if val == 0xA4 {
            Ok(ResourceAnimationType::Skill82)
        } else if val == 0xA5 {
            Ok(ResourceAnimationType::Skill83)
        } else if val == 0xA6 {
            Ok(ResourceAnimationType::Skill84)
        } else if val == 0xA7 {
            Ok(ResourceAnimationType::Skill85)
        } else if val == 0xA8 {
            Ok(ResourceAnimationType::Skill86)
        } else if val == 0xA9 {
            Ok(ResourceAnimationType::Skill87)
        } else if val == 0xAA {
            Ok(ResourceAnimationType::Skill88)
        } else if val == 0xAB {
            Ok(ResourceAnimationType::Skill89)
        } else if val == 0xAC {
            Ok(ResourceAnimationType::Skill90)
        } else if val == 0xAD {
            Ok(ResourceAnimationType::Skill91)
        } else if val == 0xAE {
            Ok(ResourceAnimationType::Skill92)
        } else if val == 0xAF {
            Ok(ResourceAnimationType::Skill93)
        } else if val == 0xB0 {
            Ok(ResourceAnimationType::Skill94)
        } else if val == 0xB1 {
            Ok(ResourceAnimationType::Skill95)
        } else if val == 0xB2 {
            Ok(ResourceAnimationType::Skill96)
        } else if val == 0xB3 {
            Ok(ResourceAnimationType::Skill97)
        } else if val == 0xB4 {
            Ok(ResourceAnimationType::Skill98)
        } else if val == 0xB5 {
            Ok(ResourceAnimationType::Skill99)
        } else if val == 0xB6 {
            Ok(ResourceAnimationType::Skill100)
        } else if val == 0x28 {
            Ok(ResourceAnimationType::Ready1)
        } else if val == 0x29 {
            Ok(ResourceAnimationType::Ready2)
        } else if val == 0x2A {
            Ok(ResourceAnimationType::Ready3)
        } else if val == 0x2B {
            Ok(ResourceAnimationType::Ready4)
        } else if val == 0x2C {
            Ok(ResourceAnimationType::Ready5)
        } else if val == 0x5B {
            Ok(ResourceAnimationType::Wait1)
        } else if val == 0x5C {
            Ok(ResourceAnimationType::Wait2)
        } else if val == 0x5D {
            Ok(ResourceAnimationType::Wait3)
        } else if val == 0x5E {
            Ok(ResourceAnimationType::Wait4)
        } else if val == 0x5F {
            Ok(ResourceAnimationType::Wait5)
        } else if val == 0xBB {
            Ok(ResourceAnimationType::Hammer)
        } else if val == 0xBC {
            Ok(ResourceAnimationType::HandLoof)
        } else if val == 0xBD {
            Ok(ResourceAnimationType::Throw)
        } else if val == 0x13 {
            Ok(ResourceAnimationType::MgSSelf)
        } else if val == 0x14 {
            Ok(ResourceAnimationType::MgSOther)
        } else if val == 0x03 {
            Ok(ResourceAnimationType::Damage1)
        } else if val == 0x09 {
            Ok(ResourceAnimationType::Damage2)
        } else if val == 0x43 {
            Ok(ResourceAnimationType::Help)
        } else if val == 0x4E {
            Ok(ResourceAnimationType::Find)
        } else if val == 0x4F {
            Ok(ResourceAnimationType::Stun)
        } else if val == 0x04 {
            Ok(ResourceAnimationType::Die1)
        } else if val == 0x24 {
            Ok(ResourceAnimationType::Die1Rm)
        } else if val == 0x12 {
            Ok(ResourceAnimationType::Die2)
        } else if val == 0x25 {
            Ok(ResourceAnimationType::Die2Rm)
        } else if val == 0x79 {
            Ok(ResourceAnimationType::Revival)
        } else if val == 0x3E {
            Ok(ResourceAnimationType::Down)
        } else if val == 0x3F {
            Ok(ResourceAnimationType::DownRm)
        } else if val == 0x40 {
            Ok(ResourceAnimationType::DownDamage)
        } else if val == 0x41 {
            Ok(ResourceAnimationType::DownUp)
        } else if val == 0x42 {
            Ok(ResourceAnimationType::DownDie)
        } else if val == 0x26 {
            Ok(ResourceAnimationType::Pick)
        } else if val == 0x0A {
            Ok(ResourceAnimationType::Click)
        } else if val == 0x0B {
            Ok(ResourceAnimationType::CbYeonhwan)
        } else if val == 0x0C {
            Ok(ResourceAnimationType::Cb2)
        } else if val == 0x15 {
            Ok(ResourceAnimationType::EtBye)
        } else if val == 0x32 {
            Ok(ResourceAnimationType::Emotion01)
        } else if val == 0x33 {
            Ok(ResourceAnimationType::Emotion02)
        } else if val == 0x34 {
            Ok(ResourceAnimationType::Emotion03)
        } else if val == 0x35 {
            Ok(ResourceAnimationType::Emotion04)
        } else if val == 0x36 {
            Ok(ResourceAnimationType::Emotion05)
        } else if val == 0x37 {
            Ok(ResourceAnimationType::Emotion06)
        } else if val == 0x38 {
            Ok(ResourceAnimationType::Emotion07)
        } else if val == 0x39 {
            Ok(ResourceAnimationType::Emotion08)
        } else if val == 0x3A {
            Ok(ResourceAnimationType::Emotion09)
        } else if val == 0x3B {
            Ok(ResourceAnimationType::Emotion10)
        } else if val == 0x50 {
            Ok(ResourceAnimationType::Vendor01)
        } else if val == 0xBF {
            Ok(ResourceAnimationType::Shot)
        } else if val == 0x08 {
            Ok(ResourceAnimationType::Stand2)
        } else {
            Err(UnknownResourceAnimationType(val))
        }
    }

    /// The variant that `val` stands for.
    pub fn try_from(val: u32) -> (r: Result<ResourceAnimationType, UnknownResourceAnimationType>)
        ensures
            r == Self::spec_try_from(val),
    {
        match val {
            0x3C => Ok(ResourceAnimationType::Pose),
            0x00 => Ok(ResourceAnimationType::Stand1),
            0x7A => Ok(ResourceAnimationType::Stand2),
            0x3D => Ok(ResourceAnimationType::Stand3),
            0x51 => Ok(ResourceAnimationType::Stand4),
            0x06 => Ok(ResourceAnimationType::AttReady),
            0x18 => Ok(ResourceAnimationType::TurnL),
            0x19 => Ok(ResourceAnimationType::TurnR),
            0x0D => Ok(ResourceAnimationType::SitDown),
            0x0E => Ok(ResourceAnimationType::Sit),
            0x0F => Ok(ResourceAnimationType::StandUp),
            0x16 => Ok(ResourceAnimationType::Defence),
            0x01 => Ok(ResourceAnimationType::Walk),
            0x17 => Ok(ResourceAnimationType::WalkBack),
            0x07 => Ok(ResourceAnimationType::Run),
            0x02 => Ok(ResourceAnimationType::Attack1),
            0x05 => Ok(ResourceAnimationType::Attack2),
            0x10 => Ok(ResourceAnimationType::Attack3),
            0x11 => Ok(ResourceAnimationType::Attack4),
            0xB7 => Ok(ResourceAnimationType::Attack5),
            0xB8 => Ok(ResourceAnimationType::Attack6),
            0xB9 => Ok(ResourceAnimationType::Attack7),
            0xBA => Ok(ResourceAnimationType::Attack8),
            0xBE => Ok(ResourceAnimationType::Attack9),
            0x27 => Ok(ResourceAnimationType::Revolution),
            0x1A => Ok(ResourceAnimationType::Skill1),
            0x1B => Ok(ResourceAnimationType::Skill2),
            0x1C => Ok(ResourceAnimationType::Skill3),
            0x1D => Ok(ResourceAnimationType::Skill4),
            0x1E => Ok(ResourceAnimationType::Skill5),
            0x1F => Ok(ResourceAnimationType::Skill6),
            0x20 => Ok(ResourceAnimationType::Skill7),
            0x21 => Ok(ResourceAnimationType::Skill8),
            0x22 => Ok(ResourceAnimationType::Skill9),
            0x23 => Ok(ResourceAnimationType::Skill10),
            0x44 => Ok(ResourceAnimationType::Skill11),
            0x45 => Ok(ResourceAnimationType::Skill12),
            0x46 => Ok(ResourceAnimationType::Skill13),
            0x47 => Ok(ResourceAnimationType::Skill14),
            0x48 => Ok(ResourceAnimationType::Skill15),
            0x49 => Ok(ResourceAnimationType::Skill16),
            0x4A => Ok(ResourceAnimationType::Skill17),
            0x4B => Ok(ResourceAnimationType::Skill18),
            0x4C => Ok(ResourceAnimationType::Skill19),
            0x4D => Ok(ResourceAnimationType::Skill20),
            0x65 => Ok(ResourceAnimationType::Skill21),
            0x66 => Ok(ResourceAnimationType::Skill22),
            0x67 => Ok(ResourceAnimationType::Skill23),
            0x68 => Ok(ResourceAnimationType::Skill24),
            0x69 => Ok(ResourceAnimationType::Skill25),
            0x6A => Ok(ResourceAnimationType::Skill26),
            0x6B => Ok(ResourceAnimationType::Skill27),
            0x6C => Ok(ResourceAnimationType::Skill28),
            0x6D => Ok(ResourceAnimationType::Skill29),
            0x6E => Ok(ResourceAnimationType::Skill30),
            0x6F => Ok(ResourceAnimationType::Skill31),
            0x70 => Ok(ResourceAnimationType::Skill32),
            0x71 => Ok(ResourceAnimationType::Skill33),
            0x72 => Ok(ResourceAnimationType::Skill34),
            0x73 => Ok(ResourceAnimationType::Skill35),
            0x74 => Ok(ResourceAnimationType::Skill36),
            0x75 => Ok(ResourceAnimationType::Skill37),
            0x76 => Ok(ResourceAnimationType::Skill38),
            0x77 => Ok(ResourceAnimationType::Skill39),
            0x78 => Ok(ResourceAnimationType::Skill40),
            0x7B => Ok(ResourceAnimationType::Skill41),
            0x7C => Ok(ResourceAnimationType::Skill42),
            0x7D => Ok(ResourceAnimationType::Skill43),
            0x7E => Ok(ResourceAnimationType::Skill44),
            0x7F => Ok(ResourceAnimationType::Skill45),
            0x80 => Ok(ResourceAnimationType::Skill46),
            0x81 => Ok(ResourceAnimationType::Skill47),
            0x82 => Ok(ResourceAnimationType::Skill48),
            0x83 => Ok(ResourceAnimationType::Skill49),
            0x84 => Ok(ResourceAnimationType::Skill50),
            0x85 => Ok(ResourceAnimationType::Skill51),
            0x86 => Ok(ResourceAnimationType::Skill52),
            0x87 => Ok(ResourceAnimationType::Skill53),
            0x88 => Ok(ResourceAnimationType::Skill54),
            0x89 => Ok(ResourceAnimationType::Skill55),
            0x8A => Ok(ResourceAnimationType::Skill56),
            0x8B => Ok(ResourceAnimationType::Skill57),
            0x8C => Ok(ResourceAnimationType::Skill58),
            0x8D => Ok(ResourceAnimationType::Skill59),
            0x8E => Ok(ResourceAnimationType::Skill60),
            0x8F => Ok(ResourceAnimationType::Skill61),
            0x90 => Ok(ResourceAnimationType::Skill62),
            0x91 => Ok(ResourceAnimationType::Skill63),
            0x92 => Ok(ResourceAnimationType::Skill64),
            0x93 => Ok(ResourceAnimationType::Skill65),
            0x94 => Ok(ResourceAnimationType::Skill66),
            0x95 => Ok(ResourceAnimationType::Skill67),
            0x96 => Ok(ResourceAnimationType::Skill68),
            0x97 => Ok(ResourceAnimationType::Skill69),
            0x98 => Ok(ResourceAnimationType::Skill70),
            0x99 => Ok(ResourceAnimationType::Skill71),
            0x9A => Ok(ResourceAnimationType::Skill72),
            0x9B => Ok(ResourceAnimationType::Skill73),
            0x9C => Ok(ResourceAnimationType::Skill74),
            0x9D => Ok(ResourceAnimationType::Skill75),
            0x9E => Ok(ResourceAnimationType::Skill76),
            0x9F => Ok(ResourceAnimationType::Skill77),
            0xA0 => Ok(ResourceAnimationType::Skill78),
            0xA1 => Ok(ResourceAnimationType::Skill79),
            0xA2 => Ok(ResourceAnimationType::Skill80),
            0xA3 => Ok(ResourceAnimationType::Skill81),
            0xA4 => Ok(ResourceAnimationType::Skill82),
            0xA5 => Ok(ResourceAnimationType::Skill83),
            0xA6 => Ok(ResourceAnimationType::Skill84),
            0xA7 => Ok(ResourceAnimationType::Skill85),
            0xA8 => Ok(ResourceAnimationType::Skill86),
            0xA9 => Ok(ResourceAnimationType::Skill87),
            0xAA => Ok(ResourceAnimationType::Skill88),
            0xAB => Ok(ResourceAnimationType::Skill89),
            0xAC => Ok(ResourceAnimationType::Skill90),
            0xAD => Ok(ResourceAnimationType::Skill91),
            0xAE => Ok(ResourceAnimationType::Skill92),
            0xAF => Ok(ResourceAnimationType::Skill93),
            0xB0 => Ok(ResourceAnimationType::Skill94),
            0xB1 => Ok(ResourceAnimationType::Skill95),
            0xB2 => Ok(ResourceAnimationType::Skill96),
            0xB3 => Ok(ResourceAnimationType::Skill97),
            0xB4 => Ok(ResourceAnimationType::Skill98),
            0xB5 => Ok(ResourceAnimationType::Skill99),
            0xB6 => Ok(ResourceAnimationType::Skill100),
            0x28 => Ok(ResourceAnimationType::Ready1),
            0x29 => Ok(ResourceAnimationType::Ready2),
            0x2A => Ok(ResourceAnimationType::Ready3),
            0x2B => Ok(ResourceAnimationType::Ready4),
            0x2C => Ok(ResourceAnimationType::Ready5),
            0x5B => Ok(ResourceAnimationType::Wait1),
            0x5C => Ok(ResourceAnimationType::Wait2),
            0x5D => Ok(ResourceAnimationType::Wait3),
            0x5E => Ok(ResourceAnimationType::Wait4),
            0x5F => Ok(ResourceAnimationType::Wait5),
            0xBB => Ok(ResourceAnimationType::Hammer),
            0xBC => Ok(ResourceAnimationType::HandLoof),
            0xBD => Ok(ResourceAnimationType::Throw),
            0x13 => Ok(ResourceAnimationType::MgSSelf),
            0x14 => Ok(ResourceAnimationType::MgSOther),
            0x03 => Ok(ResourceAnimationType::Damage1),
            0x09 => Ok(ResourceAnimationType::Damage2),
            0x43 => Ok(ResourceAnimationType::Help),
            0x4E => Ok(ResourceAnimationType::Find),
            0x4F => Ok(ResourceAnimationType::Stun),
            0x04 => Ok(ResourceAnimationType::Die1),
            0x24 => Ok(ResourceAnimationType::Die1Rm),
            0x12 => Ok(ResourceAnimationType::Die2),
            0x25 => Ok(ResourceAnimationType::Die2Rm),
            0x79 => Ok(ResourceAnimationType::Revival),
            0x3E => Ok(ResourceAnimationType::Down),
            0x3F => Ok(ResourceAnimationType::DownRm),
            0x40 => Ok(ResourceAnimationType::DownDamage),
            0x41 => Ok(ResourceAnimationType::DownUp),
            0x42 => Ok(ResourceAnimationType::DownDie),
            0x26 => Ok(ResourceAnimationType::Pick),
            0x0A => Ok(ResourceAnimationType::Click),
            0x0B => Ok(ResourceAnimationType::CbYeonhwan),
            0x0C => Ok(ResourceAnimationType::Cb2),
            0x15 => Ok(ResourceAnimationType::EtBye),
            0x32 => Ok(ResourceAnimationType::Emotion01),
            0x33 => Ok(ResourceAnimationType::Emotion02),
            0x34 => Ok(ResourceAnimationType::Emotion03),
            0x35 => Ok(ResourceAnimationType::Emotion04),
            0x36 => Ok(ResourceAnimationType::Emotion05),
            0x37 => Ok(ResourceAnimationType::Emotion06),
            0x38 => Ok(ResourceAnimationType::Emotion07),
            0x39 => Ok(ResourceAnimationType::Emotion08),
            0x3A => Ok(ResourceAnimationType::Emotion09),
            0x3B => Ok(ResourceAnimationType::Emotion10),
            0x50 => Ok(ResourceAnimationType::Vendor01),
            0xBF => Ok(ResourceAnimationType::Shot),
            0x08 => Ok(ResourceAnimationType::Stand2),
            val => Err(UnknownResourceAnimationType(val)),
        }
    }

    /// Every variant is found again from its number.
    pub proof fn lemma_value_round_trip(x: ResourceAnimationType)
        ensures
            Self::spec_try_from(x.spec_value()) == Ok::<_, UnknownResourceAnimationType>(x),
    {
    }

    /// A number stands for the variant whose number it is, or is one of the
    /// numbers that older files write; any other
    /// number is handed back as the error.
    pub proof fn lemma_try_from_value(val: u32)
        ensures
            match Self::spec_try_from(val) {
                Ok(x) => x.spec_value() == val || val == 0x08,
                Err(e) => e.0 == val,
            },
    {
    }
}

impl Parse for ResourceAnimationType {
    /// A `u32`, refused with `UnknownDiscriminant` where it stands for no
    /// variant.
    open spec fn spec_parse(s: Seq<u8>) -> Parsed<ResourceAnimationType> {
        match spec_le_u32(s) {
            Err(e) => Err(e),
            Ok((s, val)) => match ResourceAnimationType::spec_try_from(val) {
                Ok(x) => Ok((s, x)),
                Err(_) => Err(DecodeErrorView::UnknownDiscriminant(val)),
            },
        }
    }

    fn parse<'a>(i: &'a [u8]) -> (r: IResult<'a, ResourceAnimationType>) {
        let (i, val) = le_u32(i)?;
        match ResourceAnimationType::try_from(val) {
            Ok(x) => Ok((i, x)),
            Err(_) => Err(DecodeError::UnknownDiscriminant(val)),
        }
    }

    proof fn lemma_tail(s: Seq<u8>) {
        broadcast use group_tails;
    }
}

impl ResourceAnimationType {
    /// Reads a `u32` and takes it as a animation type.
    pub fn parse<'a>(i: &'a [u8]) -> (r: IResult<'a, ResourceAnimationType>)
        ensures
            decodes(r, i@, <ResourceAnimationType as Parse>::spec_parse(i@)),
    {
        <ResourceAnimationType as Parse>::parse(i)
    }
}

} // verus!
