use sr_formats::math::{RowMatrix4, Vector2, Vector3, Vector4, F32};
use sr_formats::parser_ext::combinator::{bool_u32, bool_u8};
use sr_formats::parser_ext::complete::{
    bytes_eq, end_of, optional_section, section, starts_with, tag, take, take_fixed, version,
};
use sr_formats::parser_ext::number::{
    le_f32, le_i32, le_u16, le_u32, le_u8, matrix4x4, vector2_f32, vector3_f32, vector4_f32, vector6_f32,
};
use sr_formats::DecodeError;

fn floats(values: &[f32]) -> Vec<u8> {
    let mut bytes = Vec::new();
    for v in values {
        bytes.extend_from_slice(&v.to_le_bytes());
    }
    bytes
}

fn f(value: f32) -> F32 {
    F32 { bits: value.to_bits() }
}

#[test]
fn le_u8_reads_one_byte() {
    let (rest, value) = le_u8(&[0xAB, 0x01]).unwrap();
    assert_eq!(value, 0xAB);
    assert_eq!(rest, &[0x01u8][..]);
    assert_eq!(le_u8(&[]), Err(DecodeError::UnexpectedEof));
}

#[test]
fn le_u16_reads_low_byte_first() {
    let (rest, value) = le_u16(&[0x34, 0x12, 0xFF]).unwrap();
    assert_eq!(value, 0x1234);
    assert_eq!(rest, &[0xFFu8][..]);
    assert_eq!(le_u16(&[0xFF, 0xFF]).unwrap().1, u16::MAX);
}

#[test]
fn le_u16_on_one_byte_is_eof() {
    assert_eq!(le_u16(&[1u8]), Err(DecodeError::UnexpectedEof));
}

#[test]
fn le_u32_reads_low_byte_first() {
    let input = [0x78u8, 0x56, 0x34, 0x12, 0xFF];
    let (rest, value) = le_u32(&input).unwrap();
    assert_eq!(value, 0x1234_5678);
    assert_eq!(rest, &[0xFFu8][..]);
    assert_eq!(le_u32(&[0xFF; 4]).unwrap().1, u32::MAX);
    assert_eq!(le_u32(&[0, 0, 0]), Err(DecodeError::UnexpectedEof));
}

#[test]
fn le_i32_is_twos_complement() {
    assert_eq!(le_i32(&[0xFF, 0xFF, 0xFF, 0xFF]).unwrap().1, -1);
    assert_eq!(le_i32(&[0x00, 0x00, 0x00, 0x80]).unwrap().1, i32::MIN);
    assert_eq!(le_i32(&[0xFF, 0xFF, 0xFF, 0x7F]).unwrap().1, i32::MAX);
    assert_eq!(le_i32(&[0xFE, 0xFF, 0xFF, 0xFF]).unwrap().1, -2);
    assert_eq!(le_i32(&[5, 0, 0, 0]).unwrap().1, 5);
    assert_eq!(le_i32(&[5, 0, 0]), Err(DecodeError::UnexpectedEof));
}

#[test]
fn le_f32_keeps_the_bits() {
    let bytes = 1.5f32.to_le_bytes();
    let (rest, value) = le_f32(&bytes).unwrap();
    assert!(rest.is_empty());
    assert_eq!(value.bits, 0x3FC0_0000);
    assert_eq!(f32::from_bits(value.bits), 1.5);
    let nan = le_f32(&[0x01, 0x00, 0xC0, 0x7F]).unwrap().1;
    assert_eq!(nan.bits, 0x7FC0_0001);
}

#[test]
fn numbers_agree_with_nom() {
    let inputs: [&[u8]; 6] = [
        &[],
        &[0x01],
        &[0x01, 0x02, 0x03],
        &[0x01, 0x02, 0x03, 0x04],
        &[0xFF, 0xFE, 0xFD, 0xFC, 0xFB],
        &[0x00, 0x00, 0x80, 0x3F, 0x00, 0x00, 0x00, 0x80],
    ];
    for input in inputs {
        let theirs = nom::number::complete::le_u32::<_, nom::error::Error<&[u8]>>(input).ok();
        assert_eq!(le_u32(input).ok(), theirs);
        let theirs = nom::number::complete::le_u16::<_, nom::error::Error<&[u8]>>(input).ok();
        assert_eq!(le_u16(input).ok(), theirs);
        let theirs = nom::number::complete::le_u8::<_, nom::error::Error<&[u8]>>(input).ok();
        assert_eq!(le_u8(input).ok(), theirs);
        let theirs = nom::number::complete::le_i32::<_, nom::error::Error<&[u8]>>(input).ok();
        assert_eq!(le_i32(input).ok(), theirs);
        let theirs = nom::number::complete::le_f32::<_, nom::error::Error<&[u8]>>(input)
            .ok()
            .map(|(rest, v)| (rest, v.to_bits()));
        assert_eq!(le_f32(input).ok().map(|(rest, v)| (rest, v.bits)), theirs);
    }
}

#[test]
fn vectors_read_their_numbers_in_order() {
    let bytes = floats(&[1.0, 2.0, 3.0, 4.0, 5.0]);
    let (rest, v2) = vector2_f32(&bytes).unwrap();
    assert_eq!(v2, Vector2 { x: f(1.0), y: f(2.0) });
    assert_eq!(rest.len(), 12);
    let (rest, v3) = vector3_f32(&bytes).unwrap();
    assert_eq!(v3, Vector3 { x: f(1.0), y: f(2.0), z: f(3.0) });
    assert_eq!(rest.len(), 8);
    let (rest, v4) = vector4_f32(&bytes).unwrap();
    assert_eq!(v4, Vector4 { x: f(1.0), y: f(2.0), z: f(3.0), w: f(4.0) });
    assert_eq!(rest.len(), 4);
    assert_eq!(vector6_f32(&bytes), Err(DecodeError::UnexpectedEof));
    assert_eq!(vector3_f32(&bytes[..11]), Err(DecodeError::UnexpectedEof));
}

#[test]
fn vector6_reads_six_numbers() {
    let bytes = floats(&[1.0, 2.0, 3.0, 4.0, 5.0, 6.0, 7.0]);
    let (rest, v6) = vector6_f32(&bytes).unwrap();
    assert_eq!(v6, [f(1.0), f(2.0), f(3.0), f(4.0), f(5.0), f(6.0)]);
    assert_eq!(rest.len(), 4);
}

#[test]
fn matrix_is_read_row_by_row() {
    let values: Vec<f32> = (0..16).map(|n| n as f32).collect();
    let bytes = floats(&values);
    let (rest, m) = matrix4x4(&bytes).unwrap();
    assert!(rest.is_empty());
    let row = |n: f32| Vector4 { x: f(n), y: f(n + 1.0), z: f(n + 2.0), w: f(n + 3.0) };
    assert_eq!(m, RowMatrix4 { x: row(0.0), y: row(4.0), z: row(8.0), w: row(12.0) });
    assert_eq!(matrix4x4(&bytes[..63]), Err(DecodeError::UnexpectedEof));
}

#[test]
fn take_splits_the_cursor() {
    let input = [1u8, 2, 3, 4, 5];
    let (rest, taken) = take(&input, 2).unwrap();
    assert_eq!(taken, &[1u8, 2][..]);
    assert_eq!(rest, &[3u8, 4, 5][..]);
    let (rest, taken) = take(&input, 0).unwrap();
    assert!(taken.is_empty());
    assert_eq!(rest.len(), 5);
    let (rest, taken) = take(&input, 5).unwrap();
    assert_eq!(taken.len(), 5);
    assert!(rest.is_empty());
    assert_eq!(take(&input, 6), Err(DecodeError::UnexpectedEof));
}

#[test]
fn take_fixed_copies_a_block() {
    let input = *b"0013rest";
    let (rest, block) = take_fixed::<4>(&input).unwrap();
    assert_eq!(&block, b"0013");
    assert_eq!(rest, b"rest");
    assert_eq!(take_fixed::<4>(b"001"), Err(DecodeError::UnexpectedEof));
    let (rest, block) = take_fixed::<0>(&input).unwrap();
    assert_eq!(block.len(), 0);
    assert_eq!(rest.len(), 8);
}

#[test]
fn tag_consumes_the_literal_or_nothing() {
    let (rest, ()) = tag(b"JMXVEFF 0010", b"JMXVEFF ").unwrap();
    assert_eq!(rest, b"0010");
    assert_eq!(tag(b"JMXVEFX 0010", b"JMXVEFF "), Err(DecodeError::TagMismatch));
    assert_eq!(tag(b"JMXV", b"JMXVEFF "), Err(DecodeError::TagMismatch));
    assert_eq!(tag(b"", b"J"), Err(DecodeError::TagMismatch));
    assert_eq!(tag(b"abc", b"").unwrap().0, b"abc");
}

#[test]
fn starts_with_and_bytes_eq() {
    assert!(starts_with(b"abc", b"ab"));
    assert!(starts_with(b"abc", b""));
    assert!(!starts_with(b"abc", b"abcd"));
    assert!(!starts_with(b"abc", b"ac"));
    assert!(bytes_eq(b"abc", b"abc"));
    assert!(bytes_eq(b"", b""));
    assert!(!bytes_eq(b"abc", b"abd"));
    assert!(!bytes_eq(b"abc", b"ab"));
}

#[test]
fn version_tells_short_from_wrong() {
    assert_eq!(version(b"0102rest", b"0102").unwrap().0, b"rest");
    assert_eq!(version(b"0101rest", b"0102"), Err(DecodeError::TagMismatch));
    assert_eq!(version(b"010", b"0102"), Err(DecodeError::UnexpectedEof));
}

#[test]
fn section_starts_at_the_absolute_offset() {
    let buffer = [10u8, 11, 12, 13, 14];
    assert_eq!(section(&buffer, 0).unwrap(), &buffer[..]);
    assert_eq!(section(&buffer, 3).unwrap(), &[13u8, 14][..]);
    assert!(section(&buffer, 5).unwrap().is_empty());
}

#[test]
fn section_behind_the_end_is_out_of_bounds() {
    let buffer = [10u8, 11, 12, 13, 14];
    assert_eq!(section(&buffer, 6), Err(DecodeError::OffsetOutOfBounds));
    assert_eq!(section(&buffer, u32::MAX), Err(DecodeError::OffsetOutOfBounds));
    assert_eq!(section(&[], 1), Err(DecodeError::OffsetOutOfBounds));
}

#[test]
fn optional_section_at_zero_is_absent() {
    let buffer = [10u8, 11, 12];
    assert_eq!(optional_section(&buffer, 0).unwrap(), None);
    assert_eq!(optional_section(&[], 0).unwrap(), None);
    assert_eq!(optional_section(&buffer, 1).unwrap(), Some(&[11u8, 12][..]));
    assert_eq!(optional_section(&buffer, 3).unwrap(), Some(&[][..]));
    assert_eq!(optional_section(&buffer, 4), Err(DecodeError::OffsetOutOfBounds));
}

#[test]
fn end_of_is_empty() {
    assert!(end_of(&[1u8, 2, 3]).is_empty());
    assert!(end_of(&[]).is_empty());
}

#[test]
fn truth_values_are_zero_or_not() {
    assert_eq!(bool_u32(&[0, 0, 0, 0]).unwrap().1, false);
    assert_eq!(bool_u32(&[0, 1, 0, 0]).unwrap().1, true);
    assert_eq!(bool_u32(&[0, 0, 0]), Err(DecodeError::UnexpectedEof));
    assert_eq!(bool_u8(&[0]).unwrap().1, false);
    assert_eq!(bool_u8(&[2]).unwrap().1, true);
    assert_eq!(bool_u8(&[]), Err(DecodeError::UnexpectedEof));
}

#[test]
fn errors_describe_themselves() {
    assert_eq!(DecodeError::UnexpectedEof.describe(), "unexpected end of input");
    assert_eq!(DecodeError::TagMismatch.describe(), "unsupported magic tag or version");
    assert_eq!(DecodeError::UnknownVariant("x".to_string()).describe(), "unknown variant name");
    assert_eq!(DecodeError::UnknownBitflags(4).describe(), "unknown bits in a flags field");
    assert_eq!(DecodeError::OffsetOutOfBounds.describe(), "section offset out of bounds");
    assert_eq!(DecodeError::UnknownDiscriminant(9).describe(), "unknown discriminant");
}
