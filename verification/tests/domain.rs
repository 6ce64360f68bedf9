use pastebin::domain::{Paste, PasteError, MAX_CONTENT_BYTES, MAX_SLUG_BYTES};

#[test]
fn small_content_constructs_and_round_trips() {
    let paste = Paste::new("hello".to_string(), None).expect("small content must construct");
    assert_eq!(paste.get_content(), "hello");
    assert!(paste.get_slug().is_none());
}

#[test]
fn content_at_limit_constructs() {
    let content = "a".repeat(MAX_CONTENT_BYTES);
    let paste = Paste::new(content.clone(), None).expect("content at the limit must construct");
    assert_eq!(paste.get_content(), content);
}

#[test]
fn content_over_limit_is_rejected() {
    let content = "a".repeat(MAX_CONTENT_BYTES + 1);
    let err = Paste::new(content, None).expect_err("oversized content must be rejected");
    assert_eq!(err, PasteError::ContentTooLarge);
}

#[test]
fn multibyte_content_is_measured_in_bytes() {
    // 'é' takes two bytes in UTF-8, so half the limit in characters plus one
    // more character crosses the byte limit.
    let content = "é".repeat(MAX_CONTENT_BYTES / 2) + "x";
    let err = Paste::new(content, None).expect_err("byte length, not character count, decides");
    assert_eq!(err, PasteError::ContentTooLarge);
}

#[test]
fn slug_at_limit_constructs() {
    let slug = "s".repeat(MAX_SLUG_BYTES);
    let paste = Paste::new("body".to_string(), Some(slug.clone())).expect("slug at the limit");
    assert_eq!(paste.get_slug(), Some(slug.as_str()));
    assert_eq!(paste.get_content(), "body");
}

#[test]
fn slug_over_limit_is_rejected() {
    let slug = "s".repeat(MAX_SLUG_BYTES + 1);
    let err = Paste::new("body".to_string(), Some(slug)).expect_err("oversized slug");
    assert_eq!(err, PasteError::SlugTooLarge);
}

#[test]
fn oversized_slug_reported_before_oversized_content() {
    let slug = "s".repeat(MAX_SLUG_BYTES + 1);
    let content = "a".repeat(MAX_CONTENT_BYTES + 1);
    let err = Paste::new(content, Some(slug)).expect_err("both limits violated");
    assert_eq!(err, PasteError::SlugTooLarge);
}

#[test]
fn into_content_hands_back_the_exact_content() {
    let paste = Paste::new("exact bytes \u{1F980} kept".to_string(), None).unwrap();
    assert_eq!(paste.into_content(), "exact bytes \u{1F980} kept");
}
