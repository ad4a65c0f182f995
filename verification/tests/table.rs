use alto::error::AltoError;
use alto::table::{closes_table, parse_enum_spec, split_entries, table_end};

#[test]
fn table_of_only_the_terminator_is_empty() {
    let entries = parse_enum_spec(&[0, 0]).unwrap();
    assert!(entries.is_empty());
}

#[test]
fn table_of_two_entries() {
    let entries = parse_enum_spec(&[b'A', 0, b'B', b'C', 0, 0, 0]).unwrap();
    assert_eq!(entries, vec![b"A".to_vec(), b"BC".to_vec()]);
}

#[test]
fn table_keeps_native_order() {
    let entries = parse_enum_spec(b"zeta\0alpha\0mid\0\0").unwrap();
    assert_eq!(entries, vec![b"zeta".to_vec(), b"alpha".to_vec(), b"mid".to_vec()]);
}

#[test]
fn table_of_one_entry() {
    let entries = parse_enum_spec(b"OpenAL Soft\0\0").unwrap();
    assert_eq!(entries, vec![b"OpenAL Soft".to_vec()]);
}

#[test]
fn bytes_after_the_terminator_are_not_read() {
    let entries = parse_enum_spec(b"A\0\0B\0C\0\0").unwrap();
    assert_eq!(entries, vec![b"A".to_vec()]);
}

#[test]
fn table_that_opens_with_one_zero_has_an_empty_first_entry() {
    let entries = parse_enum_spec(b"\0A\0\0").unwrap();
    assert_eq!(entries, vec![Vec::new(), b"A".to_vec()]);
}

#[test]
fn bytes_without_terminator_are_refused() {
    assert_eq!(parse_enum_spec(b"A\0B"), Err(AltoError::AlcInvalidValue));
    assert_eq!(parse_enum_spec(b""), Err(AltoError::AlcInvalidValue));
    assert_eq!(parse_enum_spec(&[0]), Err(AltoError::AlcInvalidValue));
    assert_eq!(parse_enum_spec(b"A\0B\0"), Err(AltoError::AlcInvalidValue));
}

#[test]
fn table_end_is_the_first_pair_of_zeros() {
    assert_eq!(table_end(&[0, 0]), Some(0));
    assert_eq!(table_end(&[b'A', 0, b'B', b'C', 0, 0, 0]), Some(4));
    assert_eq!(table_end(&[b'A', 0, 0, 0, 0]), Some(1));
    assert_eq!(table_end(&[b'A', 0, b'B']), None);
    assert_eq!(table_end(&[]), None);
}

#[test]
fn split_separates_at_every_zero() {
    assert_eq!(split_entries(b""), vec![Vec::<u8>::new()]);
    assert_eq!(split_entries(b"A"), vec![b"A".to_vec()]);
    assert_eq!(split_entries(b"A\0BC"), vec![b"A".to_vec(), b"BC".to_vec()]);
    assert_eq!(split_entries(b"A\0"), vec![b"A".to_vec(), Vec::new()]);
    assert_eq!(split_entries(b"\0\0"), vec![Vec::<u8>::new(), Vec::new(), Vec::new()]);
}

#[test]
fn split_entries_hold_no_zero_and_join_back() {
    let body = b"one\0two\0\0three\0";
    let entries = split_entries(body);
    assert!(entries.iter().all(|e| !e.contains(&0)));
    assert_eq!(entries.join(&0u8), body.to_vec());
}

#[test]
fn a_read_closes_the_table_at_two_trailing_zeros() {
    assert!(!closes_table(&[]));
    assert!(!closes_table(&[0]));
    assert!(closes_table(&[0, 0]));
    assert!(!closes_table(&[b'A', 0]));
    assert!(closes_table(&[b'A', 0, 0]));
    assert!(!closes_table(&[0, 0, b'A']));
}

#[test]
fn reading_byte_by_byte_stops_at_the_terminator() {
    let memory = b"A\0BC\0\0tail\0\0";
    let mut read: Vec<u8> = Vec::new();
    let mut next = 0;
    while !closes_table(&read) {
        read.push(memory[next]);
        next += 1;
    }
    assert_eq!(next, 6);
    assert_eq!(parse_enum_spec(&read).unwrap(), vec![b"A".to_vec(), b"BC".to_vec()]);
}
