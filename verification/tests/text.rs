use redirector::text::{decode_text, header_text, same_text};

#[test]
fn decode_text_accepts_utf8() {
    assert_eq!(decode_text(Vec::new()), Some(String::new()));
    assert_eq!(decode_text(b"https://x/y.svg".to_vec()), Some("https://x/y.svg".to_string()));
    assert_eq!(decode_text(vec![0xc3, 0xa9]), Some("\u{e9}".to_string()));
    assert_eq!(decode_text(vec![0xe4, 0xb8, 0xad]), Some("\u{4e2d}".to_string()));
    assert_eq!(decode_text(vec![0xf0, 0x9f, 0x98, 0x80]), Some("\u{1f600}".to_string()));
    assert_eq!(decode_text(vec![0]), Some("\0".to_string()));
}

#[test]
fn decode_text_refuses_what_is_not_utf8() {
    assert_eq!(decode_text(vec![0xff]), None);
    assert_eq!(decode_text(vec![0x80]), None);
    assert_eq!(decode_text(vec![b'a', 0xc3]), None);
    assert_eq!(decode_text(vec![0xc0, 0x80]), None);
    assert_eq!(decode_text(vec![0xe0, 0x80, 0x80]), None);
    assert_eq!(decode_text(vec![0xed, 0xa0, 0x80]), None);
    assert_eq!(decode_text(vec![0xf4, 0x90, 0x80, 0x80]), None);
    assert_eq!(decode_text(vec![0xf8, 0x88, 0x80, 0x80, 0x80]), None);
}

#[test]
fn same_text_compares_character_by_character() {
    assert!(same_text("", ""));
    assert!(same_text("GET", "GET"));
    assert!(!same_text("GET", "GET "));
    assert!(!same_text("GET", "get"));
    assert!(!same_text("GET", "PUT"));
    assert!(!same_text("", "/"));
    assert!(same_text("\u{e9}\u{4e2d}", "\u{e9}\u{4e2d}"));
    assert!(!same_text("\u{e9}", "e"));
}

#[test]
fn header_text_reads_printable_ascii_and_tabs() {
    assert_eq!(header_text(b""), Some(String::new()));
    assert_eq!(header_text(b"Bearer secret123"), Some("Bearer secret123".to_string()));
    assert_eq!(header_text(b" a\tb ~"), Some(" a\tb ~".to_string()));
}

#[test]
fn header_text_refuses_other_bytes() {
    assert_eq!(header_text(b"Bearer \xff"), None);
    assert_eq!(header_text(b"Bearer \x80"), None);
    assert_eq!(header_text(b"Bearer \x7f"), None);
    assert_eq!(header_text(b"Bearer \x00"), None);
    assert_eq!(header_text(b"Bearer \r\n"), None);
    assert_eq!(header_text("Bearer \u{e9}".as_bytes()), None);
}

#[test]
fn header_text_of_each_single_byte() {
    for b in 0..=255u8 {
        let expected = if b == 9 || (32..127).contains(&b) {
            Some((b as char).to_string())
        } else {
            None
        };
        assert_eq!(header_text(&[b]), expected);
        assert_eq!(header_text(&[b'x', b, b'y']).is_some(), expected.is_some());
    }
}

#[test]
fn decode_text_of_each_single_byte() {
    for b in 0..=255u8 {
        let expected = if b < 128 { Some((b as char).to_string()) } else { None };
        assert_eq!(decode_text(vec![b]), expected);
    }
}

#[test]
fn decoded_text_has_the_given_bytes() {
    for bytes in [
        b"https://example.com/badge.svg\n".to_vec(),
        "\u{7f}\u{80}\u{7ff}\u{800}\u{d7ff}\u{e000}\u{ffff}\u{10000}\u{10ffff}".as_bytes().to_vec(),
    ] {
        let text = decode_text(bytes.clone());
        assert_eq!(text.map(|s| s.into_bytes()), Some(bytes));
    }
}
