use sr_formats::decode::{Decoder, Each, Parse};
use sr_formats::jmxvbms::NavFlags;
use sr_formats::jmxvenvi::{Curves, GraphPoint};
use sr_formats::math::{Vector3, F32};
use sr_formats::parser_ext::combinator::{cond, optional, Cond, Counted, Pair, Repeat, Triple, Tuple4, Tuple6};
use sr_formats::parser_ext::multi::{
    count, count_field, count_indexed, parse_objects, parse_objects_if, parse_objects_u16, parse_objects_u32,
    parse_objects_u8, CountWidth,
};
use sr_formats::DecodeError;

fn f(value: f32) -> F32 {
    F32 { bits: value.to_bits() }
}

#[test]
fn count_runs_the_decoder_that_many_times() {
    let input = [1u8, 0, 2, 0, 3, 0, 4];
    let (rest, items) = count(&Each::<u16>::new(), 3, &input).unwrap();
    assert_eq!(items, vec![1, 2, 3]);
    assert_eq!(rest, &[4u8][..]);
}

#[test]
fn count_of_zero_reads_nothing() {
    let input = [1u8, 2];
    let (rest, items) = count(&Each::<u32>::new(), 0, &input).unwrap();
    assert!(items.is_empty());
    assert_eq!(rest, &input[..]);
    let (rest, items) = count(&Each::<u32>::new(), 0, &[]).unwrap();
    assert!(items.is_empty());
    assert!(rest.is_empty());
}

#[test]
fn count_consumes_what_its_items_consume() {
    // three sized strings of different lengths
    let mut input = Vec::new();
    for s in ["a", "", "xyz"] {
        input.extend_from_slice(&(s.len() as u32).to_le_bytes());
        input.extend_from_slice(s.as_bytes());
    }
    input.push(0xEE);
    let (rest, items) = count(&Each::<String>::new(), 3, &input).unwrap();
    assert_eq!(items, vec!["a".to_string(), String::new(), "xyz".to_string()]);
    assert_eq!(rest, &[0xEEu8][..]);
    // the same bytes, item by item
    let (after_one, first) = String::parse(&input).unwrap();
    let (after_two, second) = String::parse(after_one).unwrap();
    let (after_three, third) = String::parse(after_two).unwrap();
    assert_eq!(vec![first, second, third], items);
    assert_eq!(after_three, rest);
    // and every prefix of the sequence ends where the next item starts
    assert_eq!(count(&Each::<String>::new(), 1, &input).unwrap().0, after_one);
    assert_eq!(count(&Each::<String>::new(), 2, &input).unwrap().0, after_two);
}

#[test]
fn count_fails_with_the_first_failure() {
    // two numbers and a half: the third fails
    let input = [1u8, 0, 2, 0, 3];
    assert_eq!(count(&Each::<u16>::new(), 3, &input), Err(DecodeError::UnexpectedEof));
    assert_eq!(count(&Each::<u16>::new(), 100, &input), Err(DecodeError::UnexpectedEof));
    assert_eq!(count(&Each::<u16>::new(), usize::MAX, &input), Err(DecodeError::UnexpectedEof));
    assert_eq!(count(&Each::<u16>::new(), 2, &input).unwrap().1, vec![1, 2]);
}

#[test]
fn count_hands_on_the_error_of_its_item() {
    // the second item has an undeclared bit
    let input = [0x01u8, 0, 0, 0, 0x10, 0, 0, 0, 0x02, 0, 0, 0];
    assert_eq!(count(&Each::<NavFlags>::new(), 3, &input), Err(DecodeError::UnknownBitflags(0x10)));
    assert_eq!(count(&Each::<NavFlags>::new(), 1, &input).unwrap().1, vec![NavFlags { bits: 1 }]);
}

#[test]
fn count_field_of_each_width() {
    let input = [0x02u8, 0x01, 0x00, 0x00, 0xAA];
    assert_eq!(count_field(CountWidth::U8, &input).unwrap(), (&input[1..], 2));
    assert_eq!(count_field(CountWidth::U16, &input).unwrap(), (&input[2..], 0x102));
    assert_eq!(count_field(CountWidth::U32, &input).unwrap(), (&input[4..], 0x102));
    assert_eq!(count_field(CountWidth::U8, &[]), Err(DecodeError::UnexpectedEof));
    assert_eq!(count_field(CountWidth::U16, &[1]), Err(DecodeError::UnexpectedEof));
    assert_eq!(count_field(CountWidth::U32, &[1, 0, 0]), Err(DecodeError::UnexpectedEof));
}

#[test]
fn parse_objects_reads_its_count_first() {
    let input = [0x02u8, 0x00, 0x00, 0x00, 0x0A, 0x0B, 0x0C];
    assert_eq!(parse_objects_u32(&Each::<u8>::new(), &input).unwrap(), (&[0x0Cu8][..], vec![0x0A, 0x0B]));
    assert_eq!(parse_objects_u16(&Each::<u8>::new(), &input).unwrap(), (&input[4..], vec![0, 0]));
    assert_eq!(parse_objects_u8(&Each::<u8>::new(), &input).unwrap(), (&input[3..], vec![0, 0]));
    assert_eq!(parse_objects(CountWidth::U32, &Each::<u8>::new(), &input), parse_objects_u32(&Each::<u8>::new(), &input));
    assert_eq!(parse_objects(CountWidth::U16, &Each::<u8>::new(), &input), parse_objects_u16(&Each::<u8>::new(), &input));
    assert_eq!(parse_objects(CountWidth::U8, &Each::<u8>::new(), &input), parse_objects_u8(&Each::<u8>::new(), &input));
}

#[test]
fn parse_objects_with_too_few_items_is_eof() {
    let input = [0x03u8, 0x00, 0x00, 0x00, 0x0A, 0x0B];
    assert_eq!(parse_objects_u32(&Each::<u8>::new(), &input), Err(DecodeError::UnexpectedEof));
    assert_eq!(parse_objects_u32(&Each::<u8>::new(), &input[..3]), Err(DecodeError::UnexpectedEof));
    let huge = [0xFFu8, 0xFF, 0xFF, 0xFF, 1, 2, 3];
    assert_eq!(parse_objects_u32(&Each::<u8>::new(), &huge), Err(DecodeError::UnexpectedEof));
}

#[test]
fn parse_objects_if_reads_nothing_where_absent() {
    let input = [0x01u8, 0x00, 0x00, 0x00, 0x0A];
    assert_eq!(
        parse_objects_if(true, CountWidth::U32, &Each::<u8>::new(), &input).unwrap(),
        (&input[5..], vec![0x0A])
    );
    assert_eq!(
        parse_objects_if(false, CountWidth::U32, &Each::<u8>::new(), &input).unwrap(),
        (&input[..], vec![])
    );
}

#[test]
fn pair_and_triple_run_in_order() {
    let input = [1u8, 2, 0, 3, 0, 0, 0, 9];
    let (rest, value) = Pair(Each::<u8>::new(), Each::<u16>::new()).decode(&input).unwrap();
    assert_eq!(value, (1, 2));
    assert_eq!(rest.len(), 5);
    let (rest, value) = Triple(Each::<u8>::new(), Each::<u16>::new(), Each::<u32>::new()).decode(&input).unwrap();
    assert_eq!(value, (1, 2, 3));
    assert_eq!(rest, &[9u8][..]);
    assert_eq!(
        Triple(Each::<u32>::new(), Each::<u32>::new(), Each::<u8>::new()).decode(&input),
        Err(DecodeError::UnexpectedEof)
    );
}

#[test]
fn tuples_of_four_and_six() {
    let input = [1u8, 2, 3, 4, 5, 6, 7];
    let four = Tuple4(Each::<u8>::new(), Each::<u8>::new(), Each::<u8>::new(), Each::<u8>::new());
    assert_eq!(four.decode(&input).unwrap(), (&input[4..], (1, 2, 3, 4)));
    assert_eq!(four.decode(&input[..3]), Err(DecodeError::UnexpectedEof));
    let six = Tuple6(
        Each::<u8>::new(),
        Each::<u8>::new(),
        Each::<u8>::new(),
        Each::<u8>::new(),
        Each::<u8>::new(),
        Each::<u8>::new(),
    );
    assert_eq!(six.decode(&input).unwrap(), (&input[6..], (1, 2, 3, 4, 5, 6)));
    assert_eq!(six.decode(&input[..5]), Err(DecodeError::UnexpectedEof));
}

#[test]
fn cond_reads_only_where_present() {
    let input = [7u8, 8];
    assert_eq!(cond(true, &Each::<u8>::new(), &input).unwrap(), (&input[1..], Some(7)));
    assert_eq!(cond(false, &Each::<u8>::new(), &input).unwrap(), (&input[..], None));
    assert_eq!(cond(true, &Each::<u8>::new(), &[]), Err(DecodeError::UnexpectedEof));
    assert_eq!(cond(false, &Each::<u8>::new(), &[]).unwrap(), (&[][..], None));
    let d = Cond { present: true, inner: Each::<u16>::new() };
    assert_eq!(d.decode(&input).unwrap(), (&[][..], Some(0x0807)));
}

#[test]
fn counted_and_repeat_as_items() {
    // two lists: [1, 2] and []
    let input = [2u8, 0, 0, 0, 2, 1, 2, 0, 0xEE];
    let lists = Counted { width: CountWidth::U8, item: Each::<u8>::new() };
    assert_eq!(
        parse_objects_u32(&lists, &input).unwrap(),
        (&[0xEEu8][..], vec![vec![1u8, 2], vec![]])
    );
    let pairs = Repeat { times: 2, item: Each::<u16>::new() };
    assert_eq!(pairs.decode(&[1, 0, 2, 0, 3]).unwrap(), (&[3u8][..], vec![1, 2]));
    assert_eq!(pairs.decode(&[1, 0, 2]), Err(DecodeError::UnexpectedEof));
}

#[test]
fn optional_runs_on_a_section_that_is_there() {
    let section = [5u8, 6];
    assert_eq!(optional(&Each::<u8>::new(), Some(&section)).unwrap(), Some(5));
    assert_eq!(optional(&Each::<u8>::new(), None).unwrap(), None);
    assert_eq!(optional(&Each::<u32>::new(), Some(&section)), Err(DecodeError::UnexpectedEof));
}

#[test]
fn count_indexed_tells_the_decoder_its_position() {
    // sixteen curves with one point each: a number at 7, 8, 10, 11, 12 and 15, a vector elsewhere
    let mut input = Vec::new();
    for idx in 0..16u32 {
        input.extend_from_slice(&1u32.to_le_bytes());
        let is_float = [7, 8, 10, 11, 12, 15].contains(&idx);
        let numbers = if is_float { 1 } else { 3 };
        for _ in 0..numbers {
            input.extend_from_slice(&(idx as f32).to_le_bytes());
        }
        input.extend_from_slice(&0.5f32.to_le_bytes());
    }
    input.push(0xEE);
    let (rest, curves) = count_indexed(&Curves, 16, &input).unwrap();
    assert_eq!(rest, &[0xEEu8][..]);
    assert_eq!(curves.len(), 16);
    for (idx, curve) in curves.iter().enumerate() {
        let n = f(idx as f32);
        let expected = if [7, 8, 10, 11, 12, 15].contains(&idx) {
            GraphPoint::Float { value: n, pos_on_graph: f(0.5) }
        } else {
            GraphPoint::Vector { value: Vector3 { x: n, y: n, z: n }, pos_on_graph: f(0.5) }
        };
        assert_eq!(curve, &vec![expected]);
    }
    assert_eq!(count_indexed(&Curves, 17, &input), Err(DecodeError::UnexpectedEof));
    assert_eq!(count_indexed(&Curves, 0, &input).unwrap(), (&input[..], vec![]));
}

#[test]
fn float_curves_are_six() {
    let floats: Vec<usize> = (0..32).filter(|idx| GraphPoint::is_float_curve(*idx)).collect();
    assert_eq!(floats, vec![7, 8, 10, 11, 12, 15]);
}
