use forum::text::{all_slug_chars, all_username_chars, ascii_alphanumeric, chars_of, trim};
use forum::utils::{before_last_segment, last_segment, random_string};

#[test]
fn trim_removes_unicode_white_space() {
    assert_eq!(trim("\u{3000}\u{a0} text \u{2003}\n"), "text");
    assert_eq!(trim("   "), "");
    assert_eq!(trim(""), "");
    assert_eq!(trim("a"), "a");
    assert_eq!(trim(" a b "), "a b");
}

#[test]
fn trim_is_idempotent() {
    for s in ["  x  ", "\n\ty z\t", "", "   ", "abc"] {
        let once = trim(s);
        assert_eq!(trim(&once), once);
        assert_eq!(once, s.trim());
    }
}

#[test]
fn character_classes() {
    assert!(ascii_alphanumeric('a') && ascii_alphanumeric('Z') && ascii_alphanumeric('7'));
    assert!(!ascii_alphanumeric('_') && !ascii_alphanumeric('-') && !ascii_alphanumeric('é'));
    assert!(all_username_chars("a_B9"));
    assert!(!all_username_chars("a-b"));
    assert!(all_slug_chars("a-B9"));
    assert!(!all_slug_chars("a_b"));
    assert!(all_slug_chars(""));
    assert_eq!(chars_of("añb"), vec!['a', 'ñ', 'b']);
}

#[test]
fn last_segment_follows_last_hyphen() {
    assert_eq!(last_segment("a-b-c"), "c");
    assert_eq!(last_segment("abc"), "abc");
    assert_eq!(last_segment("abc-"), "");
    assert_eq!(last_segment("-x"), "x");
    assert_eq!(last_segment(""), "");
}

#[test]
fn before_last_segment_is_rsplit_once() {
    assert_eq!(before_last_segment("a-b-c"), Some("a-b".to_string()));
    assert_eq!(before_last_segment("abc"), None);
    assert_eq!(before_last_segment("-x"), Some(String::new()));
}

#[test]
fn random_string_is_twelve_hex_digits() {
    let a = random_string();
    let b = random_string();
    assert_eq!(a.len(), 12);
    assert!(a.chars().all(|c| c.is_ascii_digit() || ('a'..='f').contains(&c)), "{a}");
    assert_ne!(a, b);
}
