use ai_copilot::text::{char_is_whitespace, decimal_text, push_decimal, text_is_blank, trim_text};

#[test]
fn whitespace_is_what_std_calls_whitespace() {
    let mut code = 0u32;
    while code <= 0x10FFFF {
        if let Some(c) = char::from_u32(code) {
            assert_eq!(char_is_whitespace(c), c.is_whitespace(), "U+{:04X}", code);
        }
        code += 1;
    }
}

#[test]
fn blank_texts() {
    assert!(text_is_blank(""));
    assert!(text_is_blank(" \t\r\n"));
    assert!(text_is_blank("\u{3000}\u{2003}"));
    assert!(!text_is_blank(" a "));
    assert!(!text_is_blank("\u{200B}"));
}

#[test]
fn trim_removes_both_ends_only() {
    assert_eq!(trim_text("  hello world \n"), "hello world");
    assert_eq!(trim_text("hello"), "hello");
    assert_eq!(trim_text("\u{00A0}a  b\u{2028}"), "a  b");
    assert_eq!(trim_text(""), "");
    assert_eq!(trim_text(" \t "), "");
}

#[test]
fn trim_agrees_with_std() {
    for text in ["", " ", "x", " x", "x ", "  é ü  ", "\n\n{\"a\": 1}\r\n", "\u{1680}z\u{205F}"] {
        assert_eq!(trim_text(text), text.trim());
    }
}

#[test]
fn decimal_of_small_and_large_numbers() {
    assert_eq!(decimal_text(0), "0");
    assert_eq!(decimal_text(7), "7");
    assert_eq!(decimal_text(10), "10");
    assert_eq!(decimal_text(1280), "1280");
    assert_eq!(decimal_text(1_000_000), "1000000");
    assert_eq!(decimal_text(u128::MAX), u128::MAX.to_string());
}

#[test]
fn decimal_is_appended() {
    let mut text = String::from("capture-");
    push_decimal(&mut text, 1700000000123);
    assert_eq!(text, "capture-1700000000123");
}
