use flipperzero::storage::escape_message;

#[test]
fn escape_keeps_printable_ascii() {
    assert_eq!(escape_message(b"OK"), b"OK".to_vec());
    assert_eq!(
        escape_message(b"filesystem not ready"),
        b"filesystem not ready".to_vec()
    );
    assert_eq!(escape_message(b" ~"), b" ~".to_vec());
}

#[test]
fn escape_of_empty_is_empty() {
    assert_eq!(escape_message(b""), Vec::<u8>::new());
}

#[test]
fn escape_named_control_characters() {
    assert_eq!(escape_message(b"a\tb"), b"a\\tb".to_vec());
    assert_eq!(escape_message(b"a\rb"), b"a\\rb".to_vec());
    assert_eq!(escape_message(b"a\nb"), b"a\\nb".to_vec());
}

#[test]
fn escape_backslash_and_quotes() {
    assert_eq!(escape_message(b"a\\b"), b"a\\\\b".to_vec());
    assert_eq!(escape_message(b"a'b"), b"a\\'b".to_vec());
    assert_eq!(escape_message(b"a\"b"), b"a\\\"b".to_vec());
}

#[test]
fn escape_other_bytes_as_lowercase_hex() {
    assert_eq!(escape_message(&[0x00]), b"\\x00".to_vec());
    assert_eq!(escape_message(&[0x1b]), b"\\x1b".to_vec());
    assert_eq!(escape_message(&[0x7f]), b"\\x7f".to_vec());
    assert_eq!(escape_message(&[0xab]), b"\\xab".to_vec());
    assert_eq!(escape_message(&[0xff]), b"\\xff".to_vec());
}

#[test]
fn escape_output_is_printable_ascii() {
    let raw: Vec<u8> = (0u8..=255).collect();
    for b in escape_message(&raw) {
        assert!((32..=126).contains(&b));
    }
}

#[test]
fn escape_matches_core_escape_ascii() {
    let raw: Vec<u8> = (0u8..=255).collect();
    let expected: Vec<u8> = raw.iter().flat_map(|b| b.escape_ascii()).collect();
    assert_eq!(escape_message(&raw), expected);
}
