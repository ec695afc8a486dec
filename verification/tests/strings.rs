use sr_formats::parser_ext::string::{
    fixed_path, fixed_string, fixed_string_128, fixed_string_256, fixed_string_64, is_transcodable, legacy_text,
    nul_position, sized_path, sized_string, small_sized_path, small_sized_string, text, text_eq,
};
use sr_formats::DecodeError;

#[test]
fn sized_string_of_four_letters() {
    let input = [0x04, 0x00, 0x00, 0x00, b'T', b'E', b'S', b'T'];
    let (rest, value) = sized_string(&input).unwrap();
    assert_eq!(value, "TEST");
    assert_eq!(value.chars().count(), 4);
    assert!(rest.is_empty());
}

#[test]
fn sized_string_leaves_what_follows() {
    let input = [0x02, 0x00, 0x00, 0x00, b'a', b'b', b'c', b'd'];
    let (rest, value) = sized_string(&input).unwrap();
    assert_eq!(value, "ab");
    assert_eq!(rest, b"cd");
}

#[test]
fn sized_string_of_length_zero_is_empty() {
    let (rest, value) = sized_string(&[0, 0, 0, 0, 9]).unwrap();
    assert_eq!(value, "");
    assert_eq!(rest, &[9u8][..]);
}

#[test]
fn sized_string_that_is_cut_short_is_eof() {
    assert_eq!(sized_string(&[0x05, 0, 0, 0, b'T', b'E', b'S', b'T']), Err(DecodeError::UnexpectedEof));
    assert_eq!(sized_string(&[0x05, 0, 0]), Err(DecodeError::UnexpectedEof));
    assert_eq!(sized_string(&[0xFF, 0xFF, 0xFF, 0xFF, b'a']), Err(DecodeError::UnexpectedEof));
}

#[test]
fn small_sized_string_has_a_length_of_two_bytes() {
    let input = [0x03, 0x00, b'a', b'b', b'c', b'd'];
    let (rest, value) = small_sized_string(&input).unwrap();
    assert_eq!(value, "abc");
    assert_eq!(rest, b"d");
    assert_eq!(small_sized_string(&[0x03, 0x00, b'a']), Err(DecodeError::UnexpectedEof));
    assert_eq!(small_sized_string(&[0x03]), Err(DecodeError::UnexpectedEof));
}

#[test]
fn paths_are_read_like_strings() {
    let input = [0x05, 0, 0, 0, b'a', b'\\', b'b', b'.', b'c', 0xFF];
    assert_eq!(sized_path(&input).unwrap(), (&[0xFFu8][..], "a\\b.c".to_string()));
    assert_eq!(sized_path(&input), sized_string(&input));
    let small = [0x03, 0, b'a', b'/', b'b'];
    assert_eq!(small_sized_path(&small).unwrap().1, "a/b");
    assert_eq!(small_sized_path(&small), small_sized_string(&small));
}

#[test]
fn text_is_transcoded_from_euc_kr() {
    // "한글" in EUC-KR
    let korean = [0xC7, 0xD1, 0xB1, 0xDB];
    assert_eq!(legacy_text(&korean).unwrap(), "한글");
    let mut input = vec![0x04, 0, 0, 0];
    input.extend_from_slice(&korean);
    let (rest, value) = sized_string(&input).unwrap();
    assert_eq!(value, "한글");
    assert_eq!(value.chars().count(), 2);
    assert!(rest.is_empty());
}

#[test]
fn malformed_text_is_replaced_not_refused() {
    // a lead byte with nothing behind it
    assert_eq!(legacy_text(&[b'a', 0xC7]).unwrap(), "a\u{FFFD}");
    // 0xFF is no lead byte
    assert_eq!(legacy_text(&[0xFF, b'b']).unwrap(), "\u{FFFD}b");
    let input = [0x02, 0, 0, 0, 0xFF, b'b'];
    assert_eq!(sized_string(&input).unwrap().1, "\u{FFFD}b");
}

#[test]
fn ascii_text_is_kept_as_it_is() {
    let all: Vec<u8> = (0u8..0x80).collect();
    let expected: String = all.iter().map(|b| *b as char).collect();
    assert_eq!(legacy_text(&all).unwrap(), expected);
    assert_eq!(legacy_text(&[]).unwrap(), "");
}

#[test]
fn text_reads_exactly_its_length() {
    assert_eq!(text(b"abcdef", 3).unwrap(), (&b"def"[..], "abc".to_string()));
    assert_eq!(text(b"abc", 4), Err(DecodeError::UnexpectedEof));
    assert_eq!(text(b"abc", 0).unwrap(), (&b"abc"[..], String::new()));
}

#[test]
fn every_length_of_a_32_bit_field_can_be_transcoded_here() {
    assert!(is_transcodable(0));
    assert!(is_transcodable(u32::MAX as usize));
    assert!(!is_transcodable(usize::MAX));
    assert!(is_transcodable(usize::MAX / 12));
    assert!(!is_transcodable(usize::MAX / 12 + 1));
}

#[test]
fn nul_position_is_the_first_zero() {
    assert_eq!(nul_position(b"abc\0def\0"), 3);
    assert_eq!(nul_position(b"\0abc"), 0);
    assert_eq!(nul_position(b"abc"), 3);
    assert_eq!(nul_position(b""), 0);
}

#[test]
fn fixed_string_ends_at_the_first_zero() {
    let input = *b"abc\0xyz\0rest";
    let (rest, value) = fixed_string::<8>(&input).unwrap();
    assert_eq!(value, "abc");
    assert_eq!(rest, b"rest");
}

#[test]
fn fixed_string_without_a_zero_is_the_whole_block() {
    let (rest, value) = fixed_string::<4>(b"abcdef").unwrap();
    assert_eq!(value, "abcd");
    assert_eq!(rest, b"ef");
    let (rest, value) = fixed_string::<0>(b"abc").unwrap();
    assert_eq!(value, "");
    assert_eq!(rest, b"abc");
}

#[test]
fn fixed_string_needs_its_whole_block() {
    assert_eq!(fixed_string::<8>(b"abc\0"), Err(DecodeError::UnexpectedEof));
    assert_eq!(fixed_path::<8>(b"abc\0"), Err(DecodeError::UnexpectedEof));
}

#[test]
fn fixed_strings_of_the_usual_widths() {
    let mut block = vec![0u8; 300];
    block[..5].copy_from_slice(b"hello");
    assert_eq!(fixed_string_64(&block).unwrap(), (&block[64..], "hello".to_string()));
    assert_eq!(fixed_string_128(&block).unwrap(), (&block[128..], "hello".to_string()));
    assert_eq!(fixed_string_256(&block).unwrap(), (&block[256..], "hello".to_string()));
    assert_eq!(fixed_path::<256>(&block).unwrap(), (&block[256..], "hello".to_string()));
    assert_eq!(fixed_string_64(&block[..63]), Err(DecodeError::UnexpectedEof));
    assert_eq!(fixed_string_128(&block[..127]), Err(DecodeError::UnexpectedEof));
    assert_eq!(fixed_string_256(&block[..255]), Err(DecodeError::UnexpectedEof));
}

#[test]
fn fixed_string_is_transcoded_too() {
    let block = [0xC7, 0xD1, 0x00, 0xB1, 0xDB, 0x00];
    assert_eq!(fixed_string::<6>(&block).unwrap().1, "한");
}

#[test]
fn text_eq_compares_whole_and_with_case() {
    assert!(text_eq("Force", "Force"));
    assert!(!text_eq("Force", "force"));
    assert!(!text_eq("Force", "Forc"));
    assert!(!text_eq("Force", "Forces"));
    assert!(text_eq("", ""));
    assert!(text_eq("한글", "한글"));
    assert!(!text_eq("한글", "한국"));
}
