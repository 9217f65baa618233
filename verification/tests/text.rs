use devops_ai_api::text::{is_blank_text, is_whitespace, same_header_name, same_text};

#[test]
fn white_space_is_what_the_standard_library_takes_for_it() {
    for code in 0u32..=0x10FFFF {
        if let Some(c) = char::from_u32(code) {
            assert_eq!(is_whitespace(c), c.is_whitespace(), "U+{:04X}", code);
        }
    }
}

#[test]
fn white_space_characters() {
    for c in [' ', '\t', '\n', '\r', '\u{0B}', '\u{0C}', '\u{85}', '\u{A0}', '\u{1680}',
        '\u{2000}', '\u{200A}', '\u{2028}', '\u{2029}', '\u{202F}', '\u{205F}', '\u{3000}']
    {
        assert!(is_whitespace(c), "U+{:04X}", c as u32);
    }
}

#[test]
fn other_characters() {
    for c in ['a', '0', '.', '\0', '\u{08}', '\u{0E}', '\u{1F}', '\u{180E}', '\u{200B}',
        '\u{200C}', '\u{2060}', '\u{FEFF}', '\u{10FFFF}']
    {
        assert!(!is_whitespace(c), "U+{:04X}", c as u32);
    }
}

#[test]
fn blank_texts() {
    assert!(is_blank_text(""));
    assert!(is_blank_text(" "));
    assert!(is_blank_text("   \t\r\n  "));
    assert!(is_blank_text("\u{3000}\u{A0}\u{2003}"));
}

#[test]
fn texts_that_are_not_blank() {
    assert!(!is_blank_text("hi"));
    assert!(!is_blank_text("  hi  "));
    assert!(!is_blank_text("\n\n.\n"));
    assert!(!is_blank_text("\u{200B}"));
    assert!(!is_blank_text("                                                  x"));
}

#[test]
fn blank_is_empty_once_trimmed() {
    for text in ["", " ", "\t\n", "a", " a ", "\u{85}", "\u{FEFF}", " \u{3000} ", "0 0"] {
        assert_eq!(is_blank_text(text), text.trim().is_empty(), "{:?}", text);
    }
}

#[test]
fn same_text_compares_the_characters() {
    assert!(same_text("github-setup", "github-setup"));
    assert!(same_text("", ""));
    assert!(!same_text("github-setup", "github-setup "));
    assert!(!same_text("a", "A"));
    assert!(!same_text("", " "));
}

#[test]
fn header_names_do_not_tell_capitals_from_small_letters() {
    assert!(same_header_name("Content-Type", "Content-Type"));
    assert!(same_header_name("Content-Type", "content-type"));
    assert!(same_header_name("CONTENT-TYPE", "content-Type"));
    assert!(same_header_name("", ""));
    assert!(same_header_name("Az", "aZ"));
}

#[test]
fn header_names_that_differ() {
    assert!(!same_header_name("Content-Type", "Content-Typ"));
    assert!(!same_header_name("Content-Type", "Content_Type"));
    assert!(!same_header_name("Access-Control-Allow-Methods", "Access-Control-Allow-Headers"));
    assert!(!same_header_name("@", "`"));
    assert!(!same_header_name("[", "{"));
    assert!(!same_header_name("a", ""));
}

#[test]
fn header_names_are_compared_as_the_standard_library_does() {
    let names = ["Vary", "vary", "VARY", "Var", "Very", "X-A", "x-a", "x_a", "@[`{", "`{@["];
    for a in names {
        for b in names {
            assert_eq!(same_header_name(a, b), a.eq_ignore_ascii_case(b), "{} {}", a, b);
        }
    }
}
