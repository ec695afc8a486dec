use sr_formats::decode::Parse;
use sr_formats::enums::{
    NewInterfaceType, ResourceAnimationType, ResourceType, TileSound, UnknownNewInterfaceType,
    UnknownResourceAnimationType, UnknownResourceType, UnknownTileSound,
};
use sr_formats::jmxvbms::{NavFlags, VertexFlags};
use sr_formats::jmxvbmt::MaterialFlags;
use sr_formats::jmxvnvm::{CollisionFlag, EventZoneFlag};
use sr_formats::newinterface::NewInterfaceStyle;
use sr_formats::parser_ext::flags::{flags_u16, flags_u32, has_only_declared_bits};
use sr_formats::DecodeError;

#[test]
fn flags_of_declared_bits_decode() {
    // the declared set {0x1, 0x2}
    let (rest, value) = flags_u32(&[0x03, 0, 0, 0, 7], 0x3).unwrap();
    assert_eq!(value, 0x3);
    assert_eq!(value & 0x1, 0x1);
    assert_eq!(value & 0x2, 0x2);
    assert_eq!(rest, &[7u8][..]);
    assert_eq!(flags_u16(&[0x03, 0], 0x3).unwrap().1, 0x3);
    assert_eq!(flags_u32(&[0, 0, 0, 0], 0x3).unwrap().1, 0);
}

#[test]
fn flags_with_an_undeclared_bit_are_refused() {
    assert_eq!(flags_u32(&[0x05, 0, 0, 0], 0x3), Err(DecodeError::UnknownBitflags(0x5)));
    assert_eq!(flags_u16(&[0x05, 0], 0x3), Err(DecodeError::UnknownBitflags(0x5)));
    assert_eq!(flags_u32(&[0, 0, 0, 0x80], 0x3), Err(DecodeError::UnknownBitflags(0x8000_0000)));
    assert_eq!(flags_u16(&[0, 0x80], 0x7FFF), Err(DecodeError::UnknownBitflags(0x8000)));
    assert_eq!(flags_u32(&[1, 0, 0, 0], 0), Err(DecodeError::UnknownBitflags(1)));
}

#[test]
fn flags_that_are_cut_short_are_eof() {
    assert_eq!(flags_u32(&[0x01, 0, 0], 0x3), Err(DecodeError::UnexpectedEof));
    assert_eq!(flags_u16(&[0x01], 0x3), Err(DecodeError::UnexpectedEof));
}

#[test]
fn declared_bits_are_tested_bit_by_bit() {
    assert!(has_only_declared_bits(0, 0));
    assert!(has_only_declared_bits(0x3, 0x3));
    assert!(has_only_declared_bits(0x1, 0x3));
    assert!(!has_only_declared_bits(0x4, 0x3));
    assert!(!has_only_declared_bits(0x5, 0x3));
    assert!(has_only_declared_bits(u32::MAX, u32::MAX));
}

#[test]
fn nav_flags_know_their_bits() {
    assert_eq!(NavFlags::ALL, 0xF);
    let flags = NavFlags::from_bits(0x5).unwrap();
    assert_eq!(flags.bits(), 0x5);
    assert!(flags.contains(NavFlags::UNK0));
    assert!(!flags.contains(NavFlags::UNK1));
    assert!(flags.contains(NavFlags::UNK2));
    assert!(flags.contains(NavFlags::UNK0 | NavFlags::UNK2));
    assert!(!flags.contains(NavFlags::UNK0 | NavFlags::UNK3));
    assert!(flags.contains(0));
    assert_eq!(NavFlags::from_bits(0x10), None);
    assert_eq!(NavFlags::from_bits(0), Some(NavFlags { bits: 0 }));
}

#[test]
fn flag_types_decode_strictly() {
    assert_eq!(NavFlags::parse(&[0x0F, 0, 0, 0]).unwrap().1, NavFlags { bits: 0xF });
    assert_eq!(NavFlags::parse(&[0x1F, 0, 0, 0]), Err(DecodeError::UnknownBitflags(0x1F)));
    assert_eq!(VertexFlags::ALL, 0x1C00);
    assert_eq!(VertexFlags::parse(&[0x00, 0x04, 0, 0]).unwrap().1.bits, VertexFlags::HAS_LIGHT_MAP);
    assert_eq!(VertexFlags::parse(&[0x01, 0x04, 0, 0]), Err(DecodeError::UnknownBitflags(0x401)));
    assert_eq!(MaterialFlags::ALL, 0x3FFF);
    assert_eq!(MaterialFlags::parse(&[0xFF, 0x3F, 0, 0]).unwrap().1.bits, 0x3FFF);
    assert_eq!(MaterialFlags::parse(&[0x00, 0x40, 0, 0]), Err(DecodeError::UnknownBitflags(0x4000)));
    assert_eq!(NewInterfaceStyle::ALL, 256 | 512 | 65536);
    assert_eq!(NewInterfaceStyle::parse(&[0, 3, 1, 0]).unwrap().1.bits, 0x10300);
    assert_eq!(NewInterfaceStyle::parse(&[1, 0, 0, 0]), Err(DecodeError::UnknownBitflags(1)));
    assert_eq!(EventZoneFlag::ALL, 0x101);
    assert_eq!(EventZoneFlag::parse(&[1, 1]).unwrap().1.bits, 0x101);
    assert_eq!(EventZoneFlag::parse(&[2, 0]), Err(DecodeError::UnknownBitflags(2)));
    assert_eq!(EventZoneFlag::from_bits(0x100).unwrap().contains(EventZoneFlag::HAS_COLLISION), true);
}

#[test]
fn a_collision_flag_declares_every_bit() {
    assert_eq!(CollisionFlag::ALL, 0xFFFF);
    assert_eq!(CollisionFlag::parse(&[0x34, 0x12]).unwrap().1.bits, 0x1234);
    assert!(CollisionFlag::from_bits(0xFFFF).unwrap().contains(CollisionFlag::HAS_COLLISION));
    assert!(!CollisionFlag::from_bits(0x7FFF).unwrap().contains(CollisionFlag::HAS_COLLISION));
    assert_eq!(CollisionFlag::parse(&[0x34]), Err(DecodeError::UnexpectedEof));
}

#[test]
fn tile_sounds_by_number() {
    assert_eq!(TileSound::try_from(0), Ok(TileSound::Dirt));
    assert_eq!(TileSound::try_from(7), Ok(TileSound::Water));
    assert_eq!(TileSound::try_from(13), Ok(TileSound::Cloud));
    assert_eq!(TileSound::try_from(14), Err(UnknownTileSound(14)));
    assert_eq!(TileSound::try_from(14).unwrap_err().value(), 14);
    assert_eq!(TileSound::Grass.value(), 10);
    for n in 0..14 {
        assert_eq!(TileSound::try_from(n).unwrap().value(), n);
    }
}

#[test]
fn interface_types_by_number() {
    assert_eq!(NewInterfaceType::try_from(0), Ok(NewInterfaceType::CNIFMainFrame));
    assert_eq!(NewInterfaceType::try_from(20), Ok(NewInterfaceType::CNIFSpinButtonCtrl));
    assert_eq!(NewInterfaceType::try_from(21), Err(UnknownNewInterfaceType(21)));
    for n in 0..21 {
        assert_eq!(NewInterfaceType::try_from(n).unwrap().value(), n);
    }
    assert_eq!(NewInterfaceType::parse(&[4, 0, 0, 0, 9]).unwrap(), (&[9u8][..], NewInterfaceType::CNIFButton));
    assert_eq!(NewInterfaceType::parse(&[21, 0, 0, 0]), Err(DecodeError::UnknownDiscriminant(21)));
    assert_eq!(NewInterfaceType::parse(&[4, 0, 0]), Err(DecodeError::UnexpectedEof));
}

#[test]
fn resource_types_by_number() {
    assert_eq!(ResourceType::try_from(0x20000), Ok(ResourceType::Character));
    assert_eq!(ResourceType::try_from(0x20006), Ok(ResourceType::Other));
    assert_eq!(ResourceType::try_from(0x30000), Ok(ResourceType::CompoundCharacter));
    assert_eq!(ResourceType::try_from(0x30002), Ok(ResourceType::CompoundObject));
    assert_eq!(ResourceType::try_from(0x30001), Err(UnknownResourceType(0x30001)));
    assert_eq!(ResourceType::try_from(0), Err(UnknownResourceType(0)));
    assert_eq!(ResourceType::Building.value(), 0x20002);
    assert_eq!(ResourceType::parse(&[0x03, 0x00, 0x02, 0x00]).unwrap().1, ResourceType::Artifact);
    assert_eq!(ResourceType::parse(&[0x07, 0x00, 0x02, 0x00]), Err(DecodeError::UnknownDiscriminant(0x20007)));
}

#[test]
fn animation_types_by_number() {
    assert_eq!(ResourceAnimationType::try_from(0x3C), Ok(ResourceAnimationType::Pose));
    assert_eq!(ResourceAnimationType::try_from(0x00), Ok(ResourceAnimationType::Stand1));
    assert_eq!(ResourceAnimationType::try_from(0x7A), Ok(ResourceAnimationType::Stand2));
    assert_eq!(ResourceAnimationType::try_from(0xB6), Ok(ResourceAnimationType::Skill100));
    assert_eq!(ResourceAnimationType::try_from(0xBF), Ok(ResourceAnimationType::Shot));
    assert_eq!(ResourceAnimationType::try_from(0x50), Ok(ResourceAnimationType::Vendor01));
    assert_eq!(ResourceAnimationType::try_from(0xC0), Err(UnknownResourceAnimationType(0xC0)));
    assert_eq!(ResourceAnimationType::try_from(0x2D), Err(UnknownResourceAnimationType(0x2D)));
    assert_eq!(ResourceAnimationType::Stand2.value(), 0x7A);
    assert_eq!(ResourceAnimationType::parse(&[0x01, 0, 0, 0]).unwrap().1, ResourceAnimationType::Walk);
    assert_eq!(ResourceAnimationType::parse(&[0xC0, 0, 0, 0]), Err(DecodeError::UnknownDiscriminant(0xC0)));
}

#[test]
fn older_files_write_eight_for_stand2() {
    assert_eq!(ResourceAnimationType::try_from(0x08), Ok(ResourceAnimationType::Stand2));
    assert_eq!(ResourceAnimationType::parse(&[0x08, 0, 0, 0]).unwrap().1, ResourceAnimationType::Stand2);
}

#[test]
fn every_animation_type_is_found_again_from_its_number() {
    let mut known = 0;
    for n in 0..=0xFFu32 {
        if let Ok(x) = ResourceAnimationType::try_from(n) {
            known += 1;
            if n != 0x08 {
                assert_eq!(x.value(), n);
            }
            assert_eq!(ResourceAnimationType::try_from(x.value()), Ok(x));
        }
    }
    assert_eq!(known, 173);
}
