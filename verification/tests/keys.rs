use cu::keys::{is_whitespace, named_key, parse_key, trim, Key};
use cu::protocol::ErrorCode;

#[test]
fn names_ignore_case_and_white_space() {
    assert_eq!(parse_key("Ctrl").unwrap(), Key::Control);
    assert_eq!(parse_key(" PageDown\n").unwrap(), Key::PageDown);
    assert_eq!(parse_key("pageup").unwrap(), Key::PageUp);
    assert_eq!(parse_key("f12").unwrap(), Key::Function(12));
    assert_eq!(named_key("nothing"), None);
}

#[test]
fn single_characters_are_keys() {
    assert_eq!(parse_key("C").unwrap(), Key::Character('c'));
    assert_eq!(parse_key("你").unwrap(), Key::Character('你'));
}

#[test]
fn unknown_names_are_quoted() {
    let error = parse_key("no\"t\n").unwrap_err();
    assert_eq!(error.code, ErrorCode::UnsupportedInput);
    assert_eq!(error.message, format!("unsupported key name {:?}", "no\"t\n"));
}

#[test]
fn white_space_is_that_of_the_standard_library() {
    for code in 0..=0x3100_u32 {
        if let Some(c) = char::from_u32(code) {
            assert_eq!(is_whitespace(c), c.is_whitespace(), "{code:#x}");
        }
    }
    for text in ["", "  ", " a b\u{3000}", "\u{85}x\t", "none"] {
        assert_eq!(trim(text), text.trim());
    }
}
