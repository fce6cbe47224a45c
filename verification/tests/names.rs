use observatory::names::{is_name_char, is_valid};

#[test]
fn names_hold_letters_numbers_underscores_and_hyphens() {
    for u in 0..=0x10ffffu32 {
        if let Some(c) = char::from_u32(u) {
            let expect = c.is_alphanumeric() || c == '_' || c == '-';
            assert_eq!(is_name_char(c), expect, "U+{u:04X}");
        }
    }
}

#[test]
fn valid_names() {
    for s in ["api", "my-service_2", "", "größe", "日本"] {
        assert!(is_valid(s), "{s:?}");
    }
    for s in ["../etc/passwd", "a b", "a.b", "a/b", "a;b", "$x", "a\n", "a\u{0}", "🦀", ".."] {
        assert!(!is_valid(s), "{s:?}");
    }
}
