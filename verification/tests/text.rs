use txwatch::text::{decimal_text, is_blank, is_white_space, same_text};

#[test]
fn white_space_is_what_trimming_removes() {
    for n in 0u32..=0x10FFFF {
        if let Some(c) = char::from_u32(n) {
            assert_eq!(is_white_space(c), c.is_whitespace(), "{:#x}", n);
        }
    }
}

#[test]
fn blank_is_what_trims_to_nothing() {
    for s in ["", " ", "\t\r\n", "\u{a0}\u{2003}", " a", "a ", "\u{200b}", "\u{3000}x"] {
        assert_eq!(is_blank(s), s.trim().is_empty(), "{:?}", s);
    }
}

#[test]
fn decimals_are_numerals() {
    for n in [0, 1, 9, 10, 11, 99, 100, 101, 3600, 1234567890, u64::MAX] {
        assert_eq!(decimal_text(n), n.to_string());
    }
}

#[test]
fn same_text_compares_characters() {
    assert!(same_text("", ""));
    assert!(same_text("http", "http"));
    assert!(!same_text("http", "https"));
    assert!(!same_text("HTTP", "http"));
}
