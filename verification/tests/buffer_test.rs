use process_monitor::buffer::AsciiString;
use process_monitor::error::{BufError, Error};

#[test]
fn test_insert_ascii_ch() {
    let mut ascii_string = AsciiString::default();

    ascii_string.insert_ascii_ch('h').unwrap();
    ascii_string.insert_ascii_ch('e').unwrap();
    ascii_string.insert_ascii_ch('l').unwrap();
    ascii_string.insert_ascii_ch('l').unwrap();
    ascii_string.insert_ascii_ch('o').unwrap();
    ascii_string.insert_ascii_ch(' ').unwrap();
    ascii_string.insert_ascii_ch('w').unwrap();
    ascii_string.insert_ascii_ch('o').unwrap();
    ascii_string.insert_ascii_ch('r').unwrap();
    ascii_string.insert_ascii_ch('l').unwrap();
    ascii_string.insert_ascii_ch('d').unwrap();
    ascii_string.insert_ascii_ch('!').unwrap();

    assert_eq!(ascii_string.as_str(), "hello world!");

    assert_eq!(ascii_string.cursor(), ascii_string.as_str().len());
}

#[test]
fn test_remove_ch() {
    let mut ascii_string = AsciiString::default();

    // BVA
    assert!(ascii_string.is_empty());

    assert_eq!(ascii_string.cursor(), 0);

    ascii_string.remove_ch();

    assert!(ascii_string.is_empty());

    assert_eq!(ascii_string.cursor(), 0);
}

#[test]
fn test_insert_ascii_str() {
    let mut ascii_string = AsciiString::default();

    assert!(ascii_string.is_empty());

    ascii_string.insert_ascii_str("hello world!").unwrap();

    assert!(!ascii_string.is_empty());

    assert_eq!(ascii_string.as_str(), "hello world!");

    assert_eq!(ascii_string.cursor(), ascii_string.as_str().len());
}

#[test]
fn test_dec_cursor() {
    let mut ascii_string = AsciiString::default();

    assert!(ascii_string.is_empty());

    assert_eq!(ascii_string.cursor(), 0);

    // BVA
    for _ in 0..1 {
        ascii_string.dec_cursor();
    }

    assert_eq!(ascii_string.cursor(), 0);
}

#[test]
fn test_inc_cursor() {
    let mut ascii_string = AsciiString::default();
    assert!(ascii_string.is_empty());
    assert_eq!(ascii_string.cursor(), 0);

    // BVA
    for _ in 0..1 {
        ascii_string.inc_cursor();
    }

    assert_eq!(ascii_string.cursor(), 0);
}

#[test]
fn insert_then_remove_restores_text_and_cursor() {
    let mut s = AsciiString::default();
    s.insert_ascii_str("abc").unwrap();
    s.dec_cursor();
    s.insert_ascii_ch('x').unwrap();
    assert_eq!(s.as_str(), "abxc");
    assert_eq!(s.cursor(), 3);
    s.remove_ch();
    assert_eq!(s.as_str(), "abc");
    assert_eq!(s.cursor(), 2);
}

#[test]
fn non_ascii_input_is_refused_and_changes_nothing() {
    let mut s = AsciiString::default();
    s.insert_ascii_str("ab").unwrap();
    match s.insert_ascii_ch('é') {
        Err(BufError::NonAsciiInsertCh(c)) => assert_eq!(c, 'é'),
        _ => panic!("expected a refusal"),
    }
    match s.insert_ascii_str("héllo") {
        Err(BufError::NonAsciiInsertStr(t)) => assert_eq!(t, "héllo"),
        _ => panic!("expected a refusal"),
    }
    assert_eq!(s.as_str(), "ab");
    assert_eq!(s.cursor(), 2);
}

#[test]
fn clear_empties_and_resets_cursor() {
    let mut s = AsciiString::default();
    s.insert_ascii_str("filter").unwrap();
    s.clear();
    assert!(s.is_empty());
    assert_eq!(s.cursor(), 0);
    assert_eq!(s.capacity(), 100);
}

#[test]
fn cursor_moves_stay_within_text() {
    let mut s = AsciiString::default();
    s.insert_ascii_str("ab").unwrap();
    s.inc_cursor();
    assert_eq!(s.cursor(), 2);
    s.dec_cursor();
    s.dec_cursor();
    s.dec_cursor();
    assert_eq!(s.cursor(), 0);
    s.inc_cursor();
    assert_eq!(s.cursor(), 1);
}

#[test]
fn stored_parts_are_checked_in_order() {
    let ok = AsciiString::try_from_parts("abc".to_string(), 3, 10).unwrap();
    assert!(ok.validate_deserialization().is_ok());
    assert_eq!(ok.as_str(), "abc");

    match AsciiString::try_from_parts("abc".to_string(), 0, 101) {
        Err(Error::BufferError(BufError::BadCapacity(101))) => {}
        _ => panic!("capacity above the default is refused"),
    }
    match AsciiString::try_from_parts("abcdef".to_string(), 0, 3) {
        Err(Error::BufferError(BufError::BadCapacity(3))) => {}
        _ => panic!("a text longer than the capacity is refused"),
    }
    match AsciiString::try_from_parts("é".to_string(), 0, 10) {
        Err(Error::BufferError(BufError::NonAsciiInsertStr(t))) => assert_eq!(t, "é"),
        _ => panic!("non-ASCII text is refused"),
    }
    match AsciiString::try_from_parts("ab".to_string(), 3, 10) {
        Err(Error::BufferError(BufError::InsertPositionOutOfBounds(3))) => {}
        _ => panic!("a cursor past the text is refused"),
    }
}

#[test]
fn insertion_stops_at_the_capacity() {
    let mut s = AsciiString::try_from_parts(String::new(), 0, 3).unwrap();
    s.insert_ascii_ch('a').unwrap();
    s.insert_ascii_ch('b').unwrap();
    s.insert_ascii_ch('c').unwrap();
    s.insert_ascii_ch('d').unwrap();
    assert_eq!(s.as_str(), "abc");
    assert_eq!(s.cursor(), 3);
    assert!(s.as_str().len() <= s.capacity());
}

#[test]
fn a_text_that_exactly_fits_is_inserted_and_one_too_long_is_not() {
    let mut s = AsciiString::try_from_parts(String::from("ab"), 1, 5).unwrap();
    s.insert_ascii_str("xyz").unwrap();
    assert_eq!(s.as_str(), "axyzb");
    assert_eq!(s.cursor(), 4);
    s.insert_ascii_str("q").unwrap();
    assert_eq!(s.as_str(), "axyzb");
    assert_eq!(s.cursor(), 4);
}
