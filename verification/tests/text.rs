use agent_session_search::text::{
    blank, chars_of, contains, lower_ascii, push_decimal, starts_with, string_of, trimmed,
};

#[test]
fn trimming_follows_str_trim() {
    for s in ["", "  a b  ", "\u{3000}x\u{2028}", "\t\n", "no-space", " \u{85}y\u{a0}"] {
        let t = string_of(&trimmed(&chars_of(s)));
        assert_eq!(t, s.trim(), "{s:?}");
        assert_eq!(blank(s), s.trim().is_empty());
    }
}

#[test]
fn lowering_follows_ascii_lowercase() {
    let s = "MiXeD-ÄÖ-123";
    assert_eq!(string_of(&lower_ascii(&chars_of(s))), s.to_ascii_lowercase());
}

#[test]
fn prefixes_and_substrings() {
    let s = chars_of("local-key");
    assert!(starts_with(&s, &chars_of("local-")));
    assert!(!starts_with(&s, &chars_of("key")));
    assert!(contains(&s, &chars_of("l-k")));
    assert!(contains(&s, &chars_of("")));
    assert!(!contains(&s, &chars_of("keys")));
}

#[test]
fn decimals_follow_to_string() {
    for x in [0i64, 7, -7, 10, 1_234_567, i64::MAX, i64::MIN] {
        let mut s = String::new();
        push_decimal(&mut s, x);
        assert_eq!(s, x.to_string());
    }
}
