use sr_formats::divisioninfo::{octet, parse_ipv4, terminator, Division, DivisionInfo, Gateway};
use sr_formats::jmxv2dti::{pair, pairs, TileInfo2D};
use sr_formats::jmxvobji::{parse_f32_hex_dumped_str, ObjectIfo, ObjectStringIfo};
use sr_formats::math::F32;
use sr_formats::parser_ext::text::{
    accepts_digit, line_ending, lines, multispace1, parse_quoted_path_buf, parse_quoted_str, parse_quoted_string,
    parse_u16_str, parse_u32_hex_str, parse_u8_str, read_number, ParseLine,
};
use sr_formats::DecodeError;

#[test]
fn objifo_single() {
    assert_eq!(
        ObjectIfo::parse_single(
            "01057 0x00000000 \"res\\bldg\\oasis\\karakorm\\kara-obj-new\\oas_kara_obj02.bsr\"\r\n",
        ),
        Ok((
            "",
            ObjectIfo {
                index: 1057,
                flag: 0x0,
                path: "res\\bldg\\oasis\\karakorm\\kara-obj-new\\oas_kara_obj02.bsr".to_string(),
            }
        ))
    );
}

#[test]
fn decimal_numbers() {
    assert_eq!(parse_u8_str("255 rest"), Ok((" rest", 255)));
    assert_eq!(parse_u8_str("0"), Ok(("", 0)));
    assert_eq!(parse_u8_str("007x"), Ok(("x", 7)));
    assert_eq!(parse_u8_str("256"), Err(DecodeError::Malformed));
    assert_eq!(parse_u8_str("1000000000000000000000000"), Err(DecodeError::Malformed));
    assert_eq!(parse_u8_str(""), Err(DecodeError::Malformed));
    assert_eq!(parse_u8_str("x1"), Err(DecodeError::Malformed));
    assert_eq!(parse_u8_str("-1"), Err(DecodeError::Malformed));
    assert_eq!(parse_u8_str("+1"), Err(DecodeError::Malformed));
    assert_eq!(parse_u16_str("65535,"), Ok((",", 65535)));
    assert_eq!(parse_u16_str("01057 "), Ok((" ", 1057)));
    assert_eq!(parse_u16_str("65536"), Err(DecodeError::Malformed));
    assert_eq!(parse_u16_str("00000000000000000000065535"), Ok(("", 65535)));
    assert_eq!(parse_u16_str("12é"), Ok(("é", 12)));
}

#[test]
fn decimal_numbers_agree_with_std() {
    for text in ["0", "7", "42", "255", "256", "999", "65535", "65536", "0000", "4294967295", "4294967296"] {
        assert_eq!(parse_u8_str(text).ok().map(|r| r.1), text.parse::<u8>().ok(), "{}", text);
        assert_eq!(parse_u16_str(text).ok().map(|r| r.1), text.parse::<u16>().ok(), "{}", text);
        assert_eq!(read_number(text, false, u32::MAX).ok().map(|r| r.1), text.parse::<u32>().ok(), "{}", text);
    }
}

#[test]
fn hexadecimal_numbers() {
    assert_eq!(parse_u32_hex_str("0x00000000 "), Ok((" ", 0)));
    assert_eq!(parse_u32_hex_str("0xFFFFFFFF"), Ok(("", u32::MAX)));
    assert_eq!(parse_u32_hex_str("0xdeadBEEF\""), Ok(("\"", 0xDEADBEEF)));
    assert_eq!(parse_u32_hex_str("0x1g"), Ok(("g", 1)));
    assert_eq!(parse_u32_hex_str("0x0000000001"), Ok(("", 1)));
    assert_eq!(parse_u32_hex_str("0x100000000"), Err(DecodeError::Malformed));
    assert_eq!(parse_u32_hex_str("0X10"), Err(DecodeError::Malformed));
    assert_eq!(parse_u32_hex_str("10"), Err(DecodeError::Malformed));
    assert_eq!(parse_u32_hex_str("0x"), Err(DecodeError::Malformed));
    assert_eq!(parse_u32_hex_str("0xg"), Err(DecodeError::Malformed));
    assert_eq!(parse_u32_hex_str(""), Err(DecodeError::Malformed));
    for text in ["0", "a", "A", "ff", "FfFf", "12345678", "ffffffff", "100000000"] {
        let written = format!("0x{}", text);
        assert_eq!(
            parse_u32_hex_str(&written).ok().map(|r| r.1),
            u32::from_str_radix(text, 16).ok(),
            "{}",
            text
        );
    }
}

#[test]
fn digits_and_their_values() {
    for b in 0..=255u8 {
        let c = b as char;
        assert_eq!(accepts_digit(b, false), c.is_ascii_digit());
        assert_eq!(accepts_digit(b, true), c.is_ascii_hexdigit());
        if c.is_ascii_hexdigit() {
            let digit = [b'0', b'x', b];
            let written = std::str::from_utf8(&digit).unwrap();
            assert_eq!(parse_u32_hex_str(written), Ok(("", c.to_digit(16).unwrap())));
        }
    }
}

#[test]
fn a_number_dumped_as_its_bits() {
    assert_eq!(parse_f32_hex_dumped_str("0x3F800000 "), Ok((" ", F32 { bits: 0x3F80_0000 })));
    assert_eq!(f32::from_bits(parse_f32_hex_dumped_str("0x3F800000").unwrap().1.bits), 1.0);
    assert_eq!(f32::from_bits(parse_f32_hex_dumped_str("0xC2F60000").unwrap().1.bits), -123.0);
    assert_eq!(parse_f32_hex_dumped_str("1.0"), Err(DecodeError::Malformed));
}

#[test]
fn quoted_strings_end_at_the_next_quote() {
    assert_eq!(parse_quoted_str("\"abc\" rest"), Ok((" rest", "abc")));
    assert_eq!(parse_quoted_str("\"\""), Ok(("", "")));
    assert_eq!(parse_quoted_str("\"a\\\"b\""), Ok(("b\"", "a\\")));
    assert_eq!(parse_quoted_str("\"한글\"x"), Ok(("x", "한글")));
    assert_eq!(parse_quoted_str("\"abc"), Err(DecodeError::Malformed));
    assert_eq!(parse_quoted_str("\""), Err(DecodeError::Malformed));
    assert_eq!(parse_quoted_str("abc\""), Err(DecodeError::Malformed));
    assert_eq!(parse_quoted_str(""), Err(DecodeError::Malformed));
    assert_eq!(parse_quoted_string("\"abc\" rest"), Ok((" rest", "abc".to_string())));
    assert_eq!(parse_quoted_path_buf("\"a\\b.bsr\"\r\n"), Ok(("\r\n", "a\\b.bsr".to_string())));
    assert_eq!(parse_quoted_string("'abc'"), Err(DecodeError::Malformed));
}

#[test]
fn white_space_and_line_ends() {
    assert_eq!(multispace1(" \t\r\n x"), Ok(("x", ())));
    assert_eq!(multispace1(" "), Ok(("", ())));
    assert_eq!(multispace1("x "), Err(DecodeError::Malformed));
    assert_eq!(multispace1(""), Err(DecodeError::Malformed));
    assert_eq!(multispace1("\u{a0}x"), Err(DecodeError::Malformed));
    assert_eq!(line_ending("\nx"), Ok(("x", ())));
    assert_eq!(line_ending("\r\nx"), Ok(("x", ())));
    assert_eq!(line_ending("\rx"), Err(DecodeError::Malformed));
    assert_eq!(line_ending("\r"), Err(DecodeError::Malformed));
    assert_eq!(line_ending(" \n"), Err(DecodeError::Malformed));
    assert_eq!(line_ending(""), Err(DecodeError::Malformed));
    assert_eq!(line_ending("\n\n"), Ok(("\n", ())));
}

#[test]
fn an_object_table() {
    let text = "JMXVOBJI1000\n2\n00000 0x00000000 \"a.bsr\"\n00001 0x00010000 \"dir\\b.bsr\"\r\nrest";
    let (rest, objects) = ObjectIfo::parse(text).unwrap();
    assert_eq!(rest, "rest");
    assert_eq!(
        objects,
        vec![
            ObjectIfo { index: 0, flag: 0, path: "a.bsr".to_string() },
            ObjectIfo { index: 1, flag: 0x10000, path: "dir\\b.bsr".to_string() },
        ]
    );
    assert_eq!(ObjectIfo::parse("JMXVOBJI1000\n0\n"), Ok(("", vec![])));
    assert_eq!(ObjectIfo::parse("JMXVOBJI1000\n0\nrest"), Ok(("rest", vec![])));
    // fewer lines than the count says
    assert_eq!(ObjectIfo::parse("JMXVOBJI1000\n2\n00000 0x00000000 \"a.bsr\"\n"), Err(DecodeError::Malformed));
    // the magic line ends with a line feed alone
    assert_eq!(ObjectIfo::parse("JMXVOBJI1000\r\n0\r\n"), Err(DecodeError::TagMismatch));
    assert_eq!(ObjectIfo::parse("JMXVOBJI1001\n0\n"), Err(DecodeError::TagMismatch));
    assert_eq!(ObjectIfo::parse(""), Err(DecodeError::TagMismatch));
    assert_eq!(ObjectIfo::parse("JMXVOBJI1000\nx\n"), Err(DecodeError::Malformed));
    assert_eq!(ObjectIfo::parse("JMXVOBJI1000\n70000\n"), Err(DecodeError::Malformed));
    assert_eq!(ObjectIfo::parse("JMXVOBJI1000\n1"), Err(DecodeError::Malformed));
}

#[test]
fn a_line_of_the_object_table_must_be_whole() {
    let line = "01057 0x00000000 \"a.bsr\"\r\n";
    assert!(ObjectIfo::parse_single(line).is_ok());
    for end in 0..line.len() {
        assert_eq!(ObjectIfo::parse_single(&line[..end]), Err(DecodeError::Malformed), "cut at {}", end);
    }
    assert_eq!(ObjectIfo::parse_single("01057,0x00000000 \"a.bsr\"\n"), Err(DecodeError::Malformed));
    assert_eq!(ObjectIfo::parse_single("01057 00000000 \"a.bsr\"\n"), Err(DecodeError::Malformed));
    assert_eq!(ObjectIfo::parse_single("01057 0x00000000 a.bsr\n"), Err(DecodeError::Malformed));
    assert_eq!(ObjectIfo::parse_single("01057 0x00000000 \"a.bsr\" \n"), Err(DecodeError::Malformed));
    assert_eq!(ObjectIfo::parse_single("99999 0x00000000 \"a.bsr\"\n"), Err(DecodeError::Malformed));
    // any white space stands between the fields
    assert_eq!(
        ObjectIfo::parse_single("1\t\t0x2 \n \"p\"\n"),
        Ok(("", ObjectIfo { index: 1, flag: 2, path: "p".to_string() }))
    );
}

#[test]
fn an_object_string_table() {
    let line = "0x00000010 0x00000001 168 97 0x3F800000 0x40000000 0xC0400000 0x00000000 \"gate\"\n";
    let expected = ObjectStringIfo {
        index: 0x10,
        flag: 1,
        x_sec: 168,
        y_sec: 97,
        x_offset: F32 { bits: 1.0f32.to_bits() },
        y_offset: F32 { bits: 2.0f32.to_bits() },
        z_offset: F32 { bits: (-3.0f32).to_bits() },
        yaw: F32 { bits: 0 },
        string: "gate".to_string(),
    };
    assert_eq!(ObjectStringIfo::parse_single(line), Ok(("", expected)));
    let text = format!("JMXVOBJI1000\n2\r\n{}{}rest", line, line);
    let (rest, objects) = ObjectStringIfo::parse(&text).unwrap();
    assert_eq!(rest, "rest");
    assert_eq!(objects.len(), 2);
    assert_eq!(objects[1].string, "gate");
    assert_eq!(
        ObjectStringIfo::parse_single(
            "0x00000010 0x00000001 256 97 0x3F800000 0x40000000 0xC0400000 0x00000000 \"gate\"\n"
        ),
        Err(DecodeError::Malformed)
    );
    assert_eq!(
        ObjectStringIfo::parse_single("0x00000010 0x00000001 168 97 1.0 2.0 -3.0 0.0 \"gate\"\n"),
        Err(DecodeError::Malformed)
    );
    for end in 0..line.len() {
        assert_eq!(ObjectStringIfo::parse_single(&line[..end]), Err(DecodeError::Malformed), "cut at {}", end);
    }
}

#[test]
fn a_tile_table() {
    let text = "JMXV2DTI1001\n3\n00000 0x00000000 \"grass\" \"grass.ddj\"\n00001 0x00000003 \"stone\" \"stone.ddj\" {12,3} {7,1}\r\n00002 0x0000000A \"\" \"\"  {0,0}\n";
    let (rest, tiles) = TileInfo2D::parse(text).unwrap();
    assert_eq!(rest, "");
    assert_eq!(
        tiles,
        vec![
            TileInfo2D {
                index: 0,
                flag: 0,
                category: "grass".to_string(),
                file: "grass.ddj".to_string(),
                extra: vec![],
            },
            TileInfo2D {
                index: 1,
                flag: 3,
                category: "stone".to_string(),
                file: "stone.ddj".to_string(),
                extra: vec![(12, 3), (7, 1)],
            },
            TileInfo2D { index: 2, flag: 10, category: String::new(), file: String::new(), extra: vec![(0, 0)] },
        ]
    );
    assert_eq!(TileInfo2D::parse("JMXV2DTI1000\n0\n"), Err(DecodeError::TagMismatch));
    assert_eq!(TileInfo2D::parse("JMXVOBJI1000\n0\n"), Err(DecodeError::TagMismatch));
    assert_eq!(TileInfo2D::parse("JMXV2DTI1001\n1\n"), Err(DecodeError::Malformed));
}

#[test]
fn the_pairs_of_a_tile_end_where_the_next_one_fails() {
    assert_eq!(pair(" {12,3}x"), Ok(("x", (12, 3))));
    assert_eq!(pair("{12,3}"), Err(DecodeError::Malformed));
    assert_eq!(pair(" {12;3}"), Err(DecodeError::Malformed));
    assert_eq!(pair(" {12,3"), Err(DecodeError::Malformed));
    assert_eq!(pair(" {70000,3}"), Err(DecodeError::Malformed));
    assert_eq!(pairs(" {1,2}\t{3,4}\n"), ("\n", vec![(1, 2), (3, 4)]));
    assert_eq!(pairs(""), ("", vec![]));
    assert_eq!(pairs("\n"), ("\n", vec![]));
    // what fails is not consumed, not even its white space
    assert_eq!(pairs(" {1,2} {3,4"), (" {3,4", vec![(1, 2)]));
    assert_eq!(pairs(" {1,2} \n"), (" \n", vec![(1, 2)]));
    // so white space before the end of a line is an error
    assert_eq!(TileInfo2D::parse_single("1 0x0 \"a\" \"b\" {1,2} \n"), Err(DecodeError::Malformed));
    assert_eq!(TileInfo2D::parse_single("1 0x0 \"a\" \"b\" {1,2} {3,4\n"), Err(DecodeError::Malformed));
    assert_eq!(
        TileInfo2D::parse_single("1 0x0 \"a\" \"b\" {1,2}\nnext"),
        Ok((
            "next",
            TileInfo2D { index: 1, flag: 0, category: "a".to_string(), file: "b".to_string(), extra: vec![(1, 2)] }
        ))
    );
}

#[test]
fn lines_are_counted() {
    let text = "1 0x0 \"a\"\n2 0x0 \"b\"\n3 0x0 \"c\"\n";
    let (rest, two) = lines::<ObjectIfo>(text, 2).unwrap();
    assert_eq!(rest, "3 0x0 \"c\"\n");
    assert_eq!(two.len(), 2);
    assert_eq!(lines::<ObjectIfo>(text, 0), Ok((text, vec![])));
    assert_eq!(lines::<ObjectIfo>(text, 4), Err(DecodeError::Malformed));
    let file = format!("JMXVOBJI1000\n3\n{}", text);
    assert_eq!(ObjectIfo::parse(&file).unwrap().1.len(), 3);
}

#[test]
fn addresses_in_dotted_decimal() {
    assert_eq!(parse_ipv4("127.0.0.1"), Some([127, 0, 0, 1]));
    assert_eq!(parse_ipv4("0.0.0.0"), Some([0, 0, 0, 0]));
    assert_eq!(parse_ipv4("255.255.255.255"), Some([255, 255, 255, 255]));
    assert_eq!(parse_ipv4("192.168.1.10"), Some([192, 168, 1, 10]));
    for bad in [
        "", "1", "1.2.3", "1.2.3.", "1.2.3.4.", "1.2.3.4.5", ".1.2.3", "1..2.3", "256.0.0.1", "1.2.3.256",
        "01.2.3.4", "1.2.3.04", "1.2.3.00", "1.2.3.4 ", " 1.2.3.4", "1.2.3.4\n", "a.b.c.d", "1,2,3,4", "0x1.2.3.4",
        "1.2.3.-4", "1.2.3.+4", "1000.2.3.4", "1.2.3.0000", "１.2.3.4",
    ] {
        assert_eq!(parse_ipv4(bad), None, "{:?}", bad);
    }
    assert_eq!(octet("12.3"), Some((".3", 12)));
    assert_eq!(octet("0.3"), Some((".3", 0)));
    assert_eq!(octet("00.3"), None);
    assert_eq!(octet("256"), None);
    assert_eq!(octet(""), None);
}

fn sized(text: &str) -> Vec<u8> {
    let mut bytes = (text.len() as u32).to_le_bytes().to_vec();
    bytes.extend_from_slice(text.as_bytes());
    bytes
}

fn gateway(address: &str) -> Vec<u8> {
    let mut b = sized(address);
    b.push(0);
    b
}

fn division(name: &str, gateways: &[&str]) -> Vec<u8> {
    let mut b = sized(name);
    b.push(0);
    b.push(gateways.len() as u8);
    for g in gateways {
        b.extend_from_slice(&gateway(g));
    }
    b
}

#[test]
fn a_division_table() {
    let mut bytes = vec![22u8, 2];
    bytes.extend_from_slice(&division("DIV01", &["10.0.0.1", "10.0.0.2"]));
    bytes.extend_from_slice(&division("DIV02", &[]));
    bytes.push(0xEE);
    let (rest, info) = DivisionInfo::parse(&bytes).unwrap();
    assert_eq!(rest, &[0xEEu8][..]);
    assert_eq!(
        info,
        DivisionInfo {
            content_id: 22,
            divisions: vec![
                Division {
                    name: "DIV01".to_string(),
                    gateways: vec![Gateway { ip: [10, 0, 0, 1] }, Gateway { ip: [10, 0, 0, 2] }],
                },
                Division { name: "DIV02".to_string(), gateways: vec![] },
            ],
        }
    );
    for end in 0..bytes.len() - 1 {
        assert!(DivisionInfo::parse(&bytes[..end]).is_err(), "cut at {}", end);
    }
    assert_eq!(DivisionInfo::parse(&[]), Err(DecodeError::UnexpectedEof));
    assert_eq!(DivisionInfo::parse(&[1, 0]).unwrap().1, DivisionInfo { content_id: 1, divisions: vec![] });
}

#[test]
fn a_gateway_that_is_no_address_is_malformed() {
    let mut bytes = vec![22u8, 1];
    bytes.extend_from_slice(&division("DIV01", &["10.0.0.1", "gateway.example"]));
    assert_eq!(DivisionInfo::parse(&bytes), Err(DecodeError::Malformed));
    let mut bytes = vec![22u8, 1];
    bytes.extend_from_slice(&division("DIV01", &["10.0.0.256"]));
    assert_eq!(DivisionInfo::parse(&bytes), Err(DecodeError::Malformed));
    // the zero byte behind a name or an address
    let mut bytes = vec![22u8, 1];
    let mut d = division("DIV01", &["10.0.0.1"]);
    let last = d.len() - 1;
    d[last] = 1;
    bytes.extend_from_slice(&d);
    assert_eq!(DivisionInfo::parse(&bytes), Err(DecodeError::Malformed));
    assert_eq!(terminator(&[0, 5]), Ok((&[5u8][..], ())));
    assert_eq!(terminator(&[5]), Err(DecodeError::Malformed));
    assert_eq!(terminator(&[]), Err(DecodeError::Malformed));
    assert_eq!(DecodeError::Malformed.describe(), "malformed text");
}
