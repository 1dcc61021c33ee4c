use tasks::text::{decimal_string, is_white_space, take_chars, trim, trim_end_matches};

#[test]
fn white_space_agrees_with_std_on_every_character() {
    for code in 0..0x110000u32 {
        if let Some(c) = char::from_u32(code) {
            assert_eq!(is_white_space(c), c.is_whitespace(), "{:x}", code);
        }
    }
}

#[test]
fn trim_agrees_with_std() {
    let samples = [
        "", " ", "\t\n", "a", " a", "a ", "  a b\u{a0}", "\u{3000}key\u{2009}\r\n", "é \u{85}ü",
        "\u{180e}x\u{200b}",
    ];
    for s in samples {
        assert_eq!(trim(s), s.trim());
    }
}

#[test]
fn trimming_again_changes_nothing() {
    let once = trim(" \u{2028} sk-123 \t");
    assert_eq!(once, "sk-123");
    assert_eq!(trim(&once), once);
}

#[test]
fn trailing_characters_go() {
    assert_eq!(trim_end_matches("https://a.b///", '/'), "https://a.b");
    assert_eq!(trim_end_matches("https://a.b", '/'), "https://a.b");
    assert_eq!(trim_end_matches("///", '/'), "");
    assert_eq!(trim_end_matches("", '/'), "");
    assert_eq!(trim_end_matches("/é/x/", '/'), "/é/x");
}

#[test]
fn prefixes_count_characters() {
    assert_eq!(take_chars("äöüß", 2), "äö");
    assert_eq!(take_chars("äöüß", 4), "äöüß");
    assert_eq!(take_chars("äöüß", 9), "äöüß");
    assert_eq!(take_chars("abc", 0), "");
}

#[test]
fn decimal_numbers() {
    for n in 0..=u16::MAX {
        assert_eq!(decimal_string(n), format!("{}", n));
    }
}
