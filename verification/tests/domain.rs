use forum::domain::post::content::{Content, ContentError};
use forum::domain::post::slug::{Slug, SlugError};
use forum::domain::post::title::{Title, TitleError};
use forum::domain::user::password::{Password, PasswordError};
use forum::domain::user::username::{Username, UsernameError};
use forum::models::user::display_name::{DisplayName, DisplayNameError};

fn is_token(t: &str) -> bool {
    t.len() == 12 && t.chars().all(|c| c.is_ascii_digit() || ('a'..='f').contains(&c))
}

#[test]
fn content_is_trimmed() {
    let c = Content::try_from("  hello world \n".to_string()).ok().unwrap();
    assert_eq!(c.as_ref(), "hello world");
}

#[test]
fn content_keeps_inner_white_space() {
    let c = Content::try_from("\tline one\n\nline two ".to_string()).ok().unwrap();
    assert_eq!(c.as_ref(), "line one\n\nline two");
}

#[test]
fn content_rejects_blank_text() {
    assert!(matches!(Content::try_from("".to_string()), Err(ContentError::Empty)));
    assert!(matches!(Content::try_from(" \t\r\n\u{a0}\u{3000}".to_string()), Err(ContentError::Empty)));
}

#[test]
fn content_text_checks_again_to_itself() {
    let c = Content::try_from("  body  ".to_string()).ok().unwrap();
    let again = Content::try_from(c.as_ref().to_string()).ok().unwrap();
    assert_eq!(again.as_ref(), c.as_ref());
}

#[test]
fn title_is_trimmed() {
    let t = Title::try_from("   My First Post  ".to_string()).unwrap();
    assert_eq!(t.as_ref(), "My First Post");
}

#[test]
fn title_rejects_blank_text() {
    assert_eq!(Title::try_from("".to_string()).unwrap_err(), TitleError::Empty);
    assert_eq!(Title::try_from("  \n ".to_string()).unwrap_err(), TitleError::Empty);
}

#[test]
fn title_length_limit_counts_graphemes() {
    assert!(Title::try_from("a".repeat(128)).is_ok());
    assert_eq!(Title::try_from("a".repeat(129)).unwrap_err(), TitleError::LengthExceeded);
    // An `e` with a combining accent is two characters but one grapheme.
    let accented = "e\u{301}".repeat(128);
    assert_eq!(accented.chars().count(), 256);
    assert!(Title::try_from(accented).is_ok());
    assert_eq!(
        Title::try_from("e\u{301}".repeat(129)).unwrap_err(),
        TitleError::LengthExceeded
    );
}

#[test]
fn title_is_trimmed_before_it_is_measured() {
    let padded = format!("   {}   ", "x".repeat(128));
    let t = Title::try_from(padded).unwrap();
    assert_eq!(t.as_ref().len(), 128);
}

#[test]
fn username_accepts_letters_digits_underscore() {
    let u = Username::try_from("alice_01".to_string()).unwrap();
    assert_eq!(u.as_ref(), "alice_01");
}

#[test]
fn username_rejects_blank_text() {
    assert_eq!(Username::try_from("".to_string()).unwrap_err(), UsernameError::Empty);
    assert_eq!(Username::try_from("    ".to_string()).unwrap_err(), UsernameError::Empty);
}

#[test]
fn username_length_limit() {
    assert!(Username::try_from("a".repeat(64)).is_ok());
    assert_eq!(
        Username::try_from("a".repeat(65)).unwrap_err(),
        UsernameError::LengthExceeded
    );
}

#[test]
fn username_rejects_other_characters() {
    for bad in ["bob smith", " bob", "bob-smith", "jürgen", "a.b", "x\u{301}"] {
        assert_eq!(
            Username::try_from(bad.to_string()).unwrap_err(),
            UsernameError::InvalidCharacters,
            "{bad}"
        );
    }
}

#[test]
fn username_checks_come_in_order() {
    // Too long and with bad characters: the length is reported.
    assert_eq!(
        Username::try_from("-".repeat(70)).unwrap_err(),
        UsernameError::LengthExceeded
    );
}

#[test]
fn password_accepts_and_keeps_text() {
    let p = Password::try_from("  correct horse  ".to_string()).ok().unwrap();
    assert_eq!(p.as_bytes(), "  correct horse  ".as_bytes());
}

#[test]
fn password_bytes_are_utf8() {
    let p = Password::try_from("pässwörd!".to_string()).ok().unwrap();
    assert_eq!(p.as_bytes(), "pässwörd!".as_bytes());
    assert_eq!(p.as_bytes().len(), 11);
}

#[test]
fn password_errors() {
    assert!(matches!(Password::try_from("        ".to_string()), Err(PasswordError::Empty)));
    assert!(matches!(Password::try_from("".to_string()), Err(PasswordError::Empty)));
    assert!(matches!(Password::try_from("short".to_string()), Err(PasswordError::LengthTooShort)));
    assert!(matches!(Password::try_from("1234567".to_string()), Err(PasswordError::LengthTooShort)));
    assert!(Password::try_from("12345678".to_string()).is_ok());
    assert!(Password::try_from("p".repeat(128)).is_ok());
    assert!(matches!(Password::try_from("p".repeat(129)), Err(PasswordError::LengthExceeded)));
}

#[test]
fn display_name_is_trimmed_and_limited() {
    let d = DisplayName::try_from("  Alice Liddell ".to_string()).ok().unwrap();
    assert_eq!(d.as_ref(), "Alice Liddell");
    assert!(DisplayName::try_from(format!(" {} ", "z".repeat(64))).is_ok());
    assert!(matches!(
        DisplayName::try_from("z".repeat(65)),
        Err(DisplayNameError::LengthExceeded)
    ));
    assert!(matches!(DisplayName::try_from(" \t ".to_string()), Err(DisplayNameError::Empty)));
}

#[test]
fn slug_try_from() {
    assert_eq!(Slug::try_from("hello-world-1".to_string()).unwrap().as_ref(), "hello-world-1");
    assert_eq!(Slug::try_from("ABC".to_string()).unwrap().as_ref(), "ABC");
    assert_eq!(Slug::try_from("".to_string()).unwrap_err(), SlugError::Empty);
    for bad in ["a_b", "a b", "a/b", "ä"] {
        assert_eq!(
            Slug::try_from(bad.to_string()).unwrap_err(),
            SlugError::InvalidCharacter,
            "{bad}"
        );
    }
}

#[test]
fn slug_from_title_is_slugified_title_and_token() {
    let title = Title::try_from("Hello, World!".to_string()).unwrap();
    let slug = Slug::from(&title);
    let text = slug.as_ref().to_string();
    assert!(text.starts_with("hello-world-"), "{text}");
    assert!(is_token(&text["hello-world-".len()..]), "{text}");
    assert!(Slug::try_from(text).is_ok());
}

#[test]
fn slug_from_title_without_slug_characters() {
    let title = Title::try_from("!!!".to_string()).unwrap();
    let slug = Slug::from(&title);
    let text = slug.as_ref();
    assert_eq!(text.len(), 13);
    assert!(text.starts_with('-'));
    assert!(is_token(&text[1..]));
}

#[test]
fn slug_randomize_keeps_stem() {
    let mut slug = Slug::try_from("my-post-0123456789ab".to_string()).unwrap();
    slug.randomize();
    let text = slug.as_ref();
    assert!(text.starts_with("my-post-"), "{text}");
    assert!(is_token(&text["my-post-".len()..]));
    let before = text.to_string();
    slug.randomize();
    assert!(slug.as_ref().starts_with("my-post-"));
    assert_ne!(slug.as_ref(), before);
}

#[test]
fn slug_randomize_without_hyphen_appends_token() {
    let mut slug = Slug::try_from("post".to_string()).unwrap();
    slug.randomize();
    let text = slug.as_ref();
    assert!(text.starts_with("post-"));
    assert!(is_token(&text[5..]));
}

#[test]
fn models_slug_parts() {
    let title = Title::try_from("Rust & Verus".to_string()).unwrap();
    let mut slug = forum::models::post::slug::Slug::from(&title);
    let first = slug.to_string();
    assert!(first.starts_with("rust-verus-"), "{first}");
    assert!(is_token(&first["rust-verus-".len()..]));
    slug.randomize();
    let second = slug.to_string();
    assert!(second.starts_with("rust-verus-"));
    assert!(is_token(&second["rust-verus-".len()..]));
    assert_ne!(first, second);
}

#[test]
fn checked_texts_check_again_to_themselves() {
    let t = Title::try_from(" \u{2003}Spaced  out\u{a0}".to_string()).unwrap();
    assert_eq!(t.as_ref(), "Spaced  out");
    assert_eq!(Title::try_from(t.as_ref().to_string()).unwrap().as_ref(), t.as_ref());
    let d = DisplayName::try_from("\tBob\n".to_string()).ok().unwrap();
    assert_eq!(DisplayName::try_from(d.as_ref().to_string()).ok().unwrap().as_ref(), "Bob");
    let u = Username::try_from("carol_9".to_string()).unwrap();
    assert_eq!(Username::try_from(u.as_ref().to_string()).unwrap().as_ref(), "carol_9");
    let s = Slug::try_from("x-1".to_string()).unwrap();
    assert_eq!(Slug::try_from(s.as_ref().to_string()).unwrap().as_ref(), "x-1");
}
