//! The string operations everything else is made of.

use roommute::text::{
    chars_of, drop_white_space, find, has, is_ascii_digit, is_white_space, join_words, push_range,
    same_text, skip_white_space, to_ascii_lower, to_decimal, to_hex8, to_lower,
};

#[test]
fn characters_are_classified_as_the_standard_library_does() {
    for c in '\0'..=char::MAX {
        assert_eq!(is_white_space(c), c.is_whitespace(), "{c:?}");
        assert_eq!(is_ascii_digit(c), c.is_ascii_digit(), "{c:?}");
        assert_eq!(to_ascii_lower(c), c.to_ascii_lowercase(), "{c:?}");
    }
}

fn trimmed(s: &str) -> String {
    let chars = chars_of(s);
    let from = skip_white_space(&chars, 0, chars.len());
    let to = drop_white_space(&chars, from, chars.len());
    let mut out = String::new();
    push_range(&mut out, &chars, from, to);
    out
}

#[test]
fn text_is_trimmed_as_the_standard_library_does() {
    for s in ["", " ", "a", " a ", "\t\u{a0}a b\u{3000}\n", "\u{200b}a"] {
        assert_eq!(trimmed(s), s.trim(), "{s:?}");
    }
}

#[test]
fn patterns_are_found_where_they_stand_first() {
    let s = chars_of("abcabc");
    assert_eq!(find(&s, &chars_of("bc"), 0), Some(1));
    assert_eq!(find(&s, &chars_of("bc"), 2), Some(4));
    assert_eq!(find(&s, &chars_of("bc"), 5), None);
    assert_eq!(find(&s, &chars_of(""), 6), Some(6));
    assert_eq!(find(&s, &chars_of("abcabca"), 0), None);
    assert!(has(&s, "cab") && !has(&s, "cba"));
}

#[test]
fn texts_compare_by_their_characters() {
    assert!(same_text("é", "é") && same_text("", ""));
    assert!(!same_text("a", "ab") && !same_text("a", "b"));
    let lower: String = to_lower("ÄBC é Z").into_iter().collect();
    assert_eq!(lower, "ÄBC é Z".to_ascii_lowercase());
}

#[test]
fn numbers_are_written_out() {
    for n in [0usize, 9, 10, 99, 100, 1234567890, usize::MAX] {
        assert_eq!(to_decimal(n), n.to_string());
    }
    for n in [0u32, 0xF, 0x8889_0004, 0xABCD_EF01, u32::MAX] {
        assert_eq!(to_hex8(n), format!("{n:08X}"));
    }
}

#[test]
fn words_are_joined() {
    assert_eq!(join_words(&vec![], ", "), "");
    assert_eq!(join_words(&vec!["a"], ", "), "a");
    assert_eq!(join_words(&vec!["a", "", "c"], ", "), "a, , c");
}
