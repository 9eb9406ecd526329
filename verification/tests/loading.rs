use malbolge::crazy_op;
use malbolge::init;
use malbolge::InitError;

#[test]
fn empty_source_is_too_short() {
    let src: Vec<u8> = Vec::new();
    assert_eq!(init(&src), Err(InitError::SourceTooShort));
}

#[test]
fn one_byte_source_is_too_short() {
    let src: Vec<u8> = b"(".to_vec();
    assert_eq!(init(&src), Err(InitError::SourceTooShort));
}

#[test]
fn whitespace_only_source_is_too_short() {
    let src: Vec<u8> = b" \t\r\n ".to_vec();
    assert_eq!(init(&src), Err(InitError::SourceTooShort));
}

#[test]
fn invalid_first_character_is_reported_with_offset() {
    let src: Vec<u8> = b"Ab".to_vec();
    assert_eq!(init(&src), Err(InitError::InvalidChar('A', 0)));
}

#[test]
fn invalid_character_offset_counts_skipped_whitespace() {
    let src: Vec<u8> = b" \nAb".to_vec();
    assert_eq!(init(&src), Err(InitError::InvalidChar('A', 2)));
}

#[test]
fn invalid_second_character_is_reported() {
    let src: Vec<u8> = b"(A".to_vec();
    assert_eq!(init(&src), Err(InitError::InvalidChar('A', 1)));
}

#[test]
fn source_longer_than_memory_is_rejected() {
    // A byte outside the printable range is stored without decoding,
    // so a run of them exercises the capacity check alone.
    let src: Vec<u8> = vec![200u8; 59050];
    assert_eq!(init(&src), Err(InitError::SourceTooLong));
}

#[test]
fn source_filling_memory_exactly_is_accepted() {
    let src: Vec<u8> = vec![200u8; 59049];
    let mem = init(&src).unwrap();
    assert_eq!(mem.len(), 59049);
    assert_eq!(mem[0], 200);
    assert_eq!(mem[59048], 200);
}

#[test]
fn minimal_program_fill_follows_recurrence() {
    let src: Vec<u8> = b"(b".to_vec();
    let mem = init(&src).unwrap();
    assert_eq!(mem.len(), 59049);
    assert_eq!(&mem[0..8], &[40, 98, 29438, 94, 29438, 98, 29434, 98]);
    for n in 2..59049 {
        assert_eq!(mem[n], crazy_op(mem[n - 1], mem[n - 2]));
    }
}

#[test]
fn whitespace_is_skipped_not_stored() {
    let spaced: Vec<u8> = b"( \n b".to_vec();
    let plain: Vec<u8> = b"(b".to_vec();
    assert_eq!(init(&spaced).unwrap(), init(&plain).unwrap());
}

#[test]
fn non_printable_bytes_are_stored_without_validation() {
    let src: Vec<u8> = vec![40, 5, 97];
    let mem = init(&src).unwrap();
    assert_eq!(&mem[0..6], &[40, 5, 97, 29438, 95, 29437]);
}

#[test]
fn high_whitespace_bytes_are_skipped() {
    // 0x85 (next line) and 0xA0 (no-break space) are whitespace as
    // characters, so they are skipped rather than stored.
    let spaced: Vec<u8> = vec![40, 133, 160, 98];
    let plain: Vec<u8> = b"(b".to_vec();
    assert_eq!(init(&spaced).unwrap(), init(&plain).unwrap());
}

#[test]
fn loading_is_deterministic() {
    let src: Vec<u8> = b"(b".to_vec();
    let first = init(&src).unwrap();
    let second = init(&src).unwrap();
    assert_eq!(first, second);
}
