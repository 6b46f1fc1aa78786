use auto_ocr::text::{is_whitespace, trim};

#[test]
fn whitespace_is_unicode_white_space() {
    for code in 0u32..=0x10FFFF {
        if let Some(c) = char::from_u32(code) {
            assert_eq!(is_whitespace(c), c.is_whitespace(), "U+{:04X}", code);
        }
    }
}

#[test]
fn trim_removes_whitespace_at_both_ends() {
    assert_eq!(trim("  Hello World\n"), "Hello World");
    assert_eq!(trim("\t\r\n x \u{3000}\u{2003}"), "x");
    assert_eq!(trim("a"), "a");
    assert_eq!(trim("a b"), "a b");
    assert_eq!(trim(" a"), "a");
    assert_eq!(trim("a "), "a");
}

#[test]
fn trim_keeps_inner_whitespace() {
    assert_eq!(trim(" line one\n\n  line two \n"), "line one\n\n  line two");
}

#[test]
fn trim_of_blank_text_is_empty() {
    assert_eq!(trim(""), "");
    assert_eq!(trim(" "), "");
    assert_eq!(trim(" \n\t\r\u{0B}\u{0C}\u{85}\u{A0}\u{1680}\u{2028}\u{2029}\u{202F}\u{205F}"), "");
}

#[test]
fn trim_counts_characters_not_bytes() {
    assert_eq!(trim("\u{2000}Zażółć gęślą jaźń\u{200A}"), "Zażółć gęślą jaźń");
    assert_eq!(trim(" हिन्दी "), "हिन्दी");
    assert_eq!(trim("\u{200B}x\u{200B}"), "\u{200B}x\u{200B}");
}

#[test]
fn trim_agrees_with_std() {
    let samples = [
        "", " ", "x", "  x  ", "\n\nabc\n\n", "\u{A0}a\u{A0}b\u{A0}", "\u{FEFF}a", " \u{1F600} ",
        "Привет, мир \r\n",
    ];
    for s in samples {
        assert_eq!(trim(s), s.trim());
    }
}
