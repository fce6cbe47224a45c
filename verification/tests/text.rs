use observatory::text::{
    chars_of, is_white_space, joined, lines_of, pad_right, part, repeat_char, same_text,
    split_once, strip_prefix, trimmed,
};

#[test]
fn white_space_is_the_unicode_property() {
    for u in 0..=0x10ffffu32 {
        if let Some(c) = char::from_u32(u) {
            assert_eq!(is_white_space(c), c.is_whitespace(), "U+{u:04X}");
        }
    }
}

#[test]
fn lines_end_at_line_feeds() {
    assert_eq!(lines_of("a\r\nb\n\nc"), ["a", "b", "", "c"]);
    for s in [
        "", "\n", "a", "a\n", "a\r\nb\r", "\r\n\n", "\r", "a\nb\n\nc", "a\r\r\n", "é\n→\r\n",
    ] {
        let expect: Vec<String> = s.lines().map(|l| l.to_string()).collect();
        assert_eq!(lines_of(s), expect, "{s:?}");
    }
}

#[test]
fn written_lines_are_read_back() {
    let all = ["one", "", "three: 3", "vier"];
    let mut text = String::new();
    for line in all {
        text.push_str(line);
        text.push('\n');
    }
    assert_eq!(lines_of(&text), all);
}

#[test]
fn white_space_is_trimmed_on_both_sides() {
    assert_eq!(trimmed("  42 \n"), "42");
    for s in ["", " ", "x", " x y ", "\u{3000}x\u{a0}", "\t\r\n", "x\u{85}", "\u{200b}x"] {
        assert_eq!(trimmed(s), s.trim(), "{s:?}");
        assert_eq!(trimmed(&trimmed(s)), trimmed(s));
    }
}

#[test]
fn prefixes_are_stripped() {
    assert_eq!(strip_prefix("DISK:42", "DISK:"), Some("42".to_string()));
    assert_eq!(strip_prefix("DISK:", "DISK:"), Some(String::new()));
    assert_eq!(strip_prefix("DIS", "DISK:"), None);
    assert_eq!(strip_prefix("disk:42", "DISK:"), None);
    assert_eq!(strip_prefix("→x", "→"), Some("x".to_string()));
}

#[test]
fn text_is_split_at_the_first_separator() {
    assert_eq!(split_once("a:b:c", ':'), Some(("a".to_string(), "b:c".to_string())));
    assert_eq!(split_once(":", ':'), Some((String::new(), String::new())));
    assert_eq!(split_once("abc", ':'), None);
    assert_eq!(split_once("", ':'), None);
}

#[test]
fn parts_are_joined() {
    assert_eq!(joined(&vec![], "; "), "");
    assert_eq!(joined(&vec!["a".to_string()], "; "), "a");
    let three = vec!["a".to_string(), String::new(), "c".to_string()];
    assert_eq!(joined(&three, "; "), "a; ; c");
}

#[test]
fn text_is_padded_by_characters() {
    assert_eq!(pad_right("ab", 4), "ab  ");
    assert_eq!(pad_right("abcde", 4), "abcde");
    assert_eq!(pad_right("é", 3), format!("{:<3}", "é"));
    assert_eq!(repeat_char("█", 3), "███");
    assert_eq!(repeat_char("x", 0), "");
}

#[test]
fn characters_and_parts() {
    assert_eq!(chars_of("aé→"), ['a', 'é', '→']);
    assert_eq!(part("aé→b", 1, 3), "é→");
    assert!(same_text("x", "x"));
    assert!(!same_text("x", "X"));
}
