use literate::text::{blank, hidden_name, normalize, same_text, white_space};

#[test]
fn white_space_follows_the_unicode_property() {
    for c in [
        '\t', '\n', '\u{b}', '\u{c}', '\r', ' ', '\u{85}', '\u{a0}', '\u{1680}', '\u{2000}',
        '\u{2005}', '\u{200a}', '\u{2028}', '\u{2029}', '\u{202f}', '\u{205f}', '\u{3000}',
    ] {
        assert!(white_space(c));
        assert!(c.is_whitespace());
    }
    for c in ['a', '.', '\u{8}', '\u{e}', '\u{1f}', '\u{200b}', '\u{180e}', '\u{feff}', '\u{3001}'] {
        assert!(!white_space(c));
        assert!(!c.is_whitespace());
    }
}

#[test]
fn white_space_agrees_with_the_standard_library_everywhere() {
    let mut code: u32 = 0;
    while code <= 0x10ffff {
        if let Some(c) = char::from_u32(code) {
            assert_eq!(white_space(c), c.is_whitespace());
        }
        code += 1;
    }
}

#[test]
fn blank_text_is_empty_or_white_space() {
    assert!(blank(""));
    assert!(blank(" "));
    assert!(blank(" \t\r\n\u{a0}\u{3000}"));
    assert!(!blank("rust"));
    assert!(!blank("  rust  "));
    assert!(!blank(" \u{200b} "));
}

#[test]
fn blank_agrees_with_trimming() {
    for text in ["", " ", "\n\n", " a ", "a", "\u{2003}", "\u{2003}x", "\t.\t"] {
        assert_eq!(blank(text), text.trim().is_empty());
    }
}

#[test]
fn normalize_hides_blank_text_only() {
    assert_eq!(normalize(""), None);
    assert_eq!(normalize("   "), None);
    assert_eq!(normalize("\n"), None);
    assert_eq!(normalize("rust"), Some("rust"));
    assert_eq!(normalize(" rust "), Some(" rust "));
}

#[test]
fn same_text_compares_every_character() {
    assert!(same_text("", ""));
    assert!(same_text("rust", "rust"));
    assert!(!same_text("rust", "rusT"));
    assert!(!same_text("rust", "rus"));
    assert!(!same_text("", "a"));
    assert!(same_text("caf\u{e9}", "caf\u{e9}"));
    assert!(!same_text("caf\u{e9}", "cafe\u{301}"));
}

#[test]
fn hidden_names_begin_with_a_dot() {
    assert!(hidden_name(".git"));
    assert!(hidden_name("."));
    assert!(hidden_name(".."));
    assert!(!hidden_name(""));
    assert!(!hidden_name("a.b"));
    assert!(!hidden_name("\u{2e3c}x"));
}
