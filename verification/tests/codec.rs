//! Exact byte-level checks of the record codec, including a cross-check
//! against the borsh wire format the records follow.

use student_intro::state::{
    decode_counter, decode_review, encode_counter, encode_review, StudentIntroCommentCounter,
    StudentIntroState,
};

#[test]
fn test_counter_record_exact_bytes() {
    let rec = StudentIntroCommentCounter {
        discriminator: b"counter".to_vec(),
        is_initialized: true,
        counter: 5,
    };
    let bytes = encode_counter(&rec);
    let expected: Vec<u8> = vec![
        7, 0, 0, 0, b'c', b'o', b'u', b'n', b't', b'e', b'r', 1, 5, 0, 0, 0, 0, 0, 0, 0,
    ];
    assert_eq!(bytes, expected);
    assert_eq!(bytes.len(), 20);
}

#[test]
fn test_zeroed_cell_decodes_as_uninitialized() {
    let cell = vec![0u8; 1000];
    let rec = decode_review(&cell).expect("an all-zero cell is not a decode error");
    assert!(!rec.is_initialized);
    assert_eq!(rec.discriminator, Vec::<u8>::new());
    assert_eq!(rec.name, Vec::<u8>::new());
    let counter = decode_counter(&vec![0u8; 20]).unwrap();
    assert!(!counter.is_initialized);
    assert_eq!(counter.counter, 0);
}

#[test]
fn test_truncated_cell_fails_to_decode() {
    assert!(decode_counter(&vec![0u8; 3]).is_none());
    // Declared discriminator length reaches past the end of the cell.
    let mut cell = vec![0u8; 20];
    cell[0] = 200;
    assert!(decode_counter(&cell).is_none());
}

#[test]
fn test_review_record_matches_borsh_wire_format() {
    let author = [2u8; 32];
    let rec = StudentIntroState {
        discriminator: b"intro".to_vec(),
        is_initialized: true,
        reviewer: author.to_vec(),
        name: b"hi".to_vec(),
        message: b"hello".to_vec(),
    };
    let ours = encode_review(&rec);
    let reference = borsh::to_vec(&(
        "intro".to_string(),
        true,
        author,
        "hi".to_string(),
        "hello".to_string(),
    ))
    .unwrap();
    assert_eq!(ours, reference);
}

#[test]
fn test_review_round_trip_ignores_trailing_bytes() {
    let rec = StudentIntroState {
        discriminator: b"intro".to_vec(),
        is_initialized: true,
        reviewer: [9u8; 32].to_vec(),
        name: b"a name".to_vec(),
        message: b"a message".to_vec(),
    };
    let mut cell = encode_review(&rec);
    cell.resize(1000, 0);
    let back = decode_review(&cell).unwrap();
    assert_eq!(back.discriminator, rec.discriminator);
    assert_eq!(back.is_initialized, rec.is_initialized);
    assert_eq!(back.reviewer, rec.reviewer);
    assert_eq!(back.name, rec.name);
    assert_eq!(back.message, rec.message);
}
