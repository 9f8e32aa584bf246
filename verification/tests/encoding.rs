use cmdipass::encoding::{decimal, decode, encode, random_bytes, same_text, text_lossy, text_strict};

#[test]
fn base64_of_known_text() {
    assert_eq!(encode(b"hello world"), "aGVsbG8gd29ybGQ=");
    assert_eq!(encode(b""), "");
    assert_eq!(encode(&[0xfb, 0xff]), "+/8=");
}

#[test]
fn base64_is_undone() {
    assert_eq!(decode("aGVsbG8gd29ybGQ="), Some(b"hello world".to_vec()));
    assert_eq!(decode(""), Some(vec![]));
    let bytes: Vec<u8> = (0u8..=255).collect();
    assert_eq!(decode(&encode(&bytes)), Some(bytes));
}

#[test]
fn what_is_not_base64_is_refused() {
    assert_eq!(decode("not base64!"), None);
    assert_eq!(decode("a"), None);
}

#[test]
fn random_bytes_have_the_length_asked_for() {
    assert_eq!(random_bytes(0).unwrap().len(), 0);
    assert_eq!(random_bytes(16).unwrap().len(), 16);
    let first = random_bytes(32).unwrap();
    let second = random_bytes(32).unwrap();
    assert_eq!(first.len(), 32);
    assert_ne!(first, second);
    assert_ne!(first, vec![0u8; 32]);
}

#[test]
fn lossy_text_replaces_what_is_not_utf8() {
    assert_eq!(text_lossy(b"plain"), "plain");
    assert_eq!(text_lossy("gr\u{fc}n".as_bytes()), "gr\u{fc}n");
    assert_eq!(text_lossy(&[b'a', 0xff, b'b']), "a\u{fffd}b");
}

#[test]
fn strict_text_refuses_what_is_not_utf8() {
    assert_eq!(text_strict(b"plain".to_vec()), Some("plain".to_string()));
    assert_eq!(text_strict(vec![b'a', 0xff, b'b']), None);
}

#[test]
fn same_text_compares_characters() {
    assert!(same_text("abc", "abc"));
    assert!(!same_text("abc", "abd"));
    assert!(!same_text("abc", "ab"));
    assert!(same_text("", ""));
}

#[test]
fn numbers_are_written_in_decimal() {
    assert_eq!(decimal(0), "0");
    assert_eq!(decimal(9), "9");
    assert_eq!(decimal(10), "10");
    assert_eq!(decimal(4096), "4096");
    assert_eq!(decimal(u64::MAX), "18446744073709551615");
}
