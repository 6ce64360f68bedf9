use pastebin::domain::MAX_CONTENT_BYTES;
use pastebin::service::{DeleteResult, InMemoryPasteService, PasteService, PasteServiceError};

#[test]
fn round_trip_create_get_delete() {
    let mut service = InMemoryPasteService::new();
    let slug = service
        .create_paste("hello world".to_string())
        .expect("create of small content must succeed");
    assert_eq!(slug.len(), 5);
    assert!(slug.chars().all(|c| c.is_ascii_alphanumeric()));
    let got = service.get_paste(&slug).expect("get must not error");
    assert_eq!(got, Some("hello world".to_string()));
    let deleted = service.delete_paste(&slug).expect("delete must not error");
    assert!(matches!(deleted, DeleteResult::Present));
    let gone = service.get_paste(&slug).expect("get must not error");
    assert_eq!(gone, None);
}

#[test]
fn delete_is_idempotent() {
    let mut service = InMemoryPasteService::new();
    let slug = service.create_paste("to be deleted".to_string()).unwrap();
    assert!(matches!(service.delete_paste(&slug), Ok(DeleteResult::Present)));
    assert!(matches!(service.delete_paste(&slug), Ok(DeleteResult::NotPresent)));
    assert!(matches!(service.delete_paste(&slug), Ok(DeleteResult::NotPresent)));
}

#[test]
fn many_creates_issue_distinct_slugs() {
    let mut service = InMemoryPasteService::new();
    let mut slugs: Vec<String> = Vec::new();
    for i in 0..50 {
        let content = format!("content number {}", i);
        let slug = service.create_paste(content).expect("create must succeed");
        slugs.push(slug);
    }
    for i in 0..slugs.len() {
        for j in (i + 1)..slugs.len() {
            assert_ne!(slugs[i], slugs[j], "slugs must be pairwise distinct");
        }
    }
    for (i, slug) in slugs.iter().enumerate() {
        let got = service.get_paste(slug).expect("get must not error");
        assert_eq!(got, Some(format!("content number {}", i)));
    }
}

#[test]
fn absent_slug_is_none_not_an_error() {
    let service = InMemoryPasteService::new();
    let got = service.get_paste("doesnotexist").expect("absence is not an error");
    assert_eq!(got, None);
}

#[test]
fn oversized_create_fails_and_leaves_the_store_unchanged() {
    let mut service = InMemoryPasteService::new();
    let kept = service.create_paste("kept".to_string()).unwrap();
    let big = "a".repeat(MAX_CONTENT_BYTES + 1);
    let err = service.create_paste(big).expect_err("oversized content must fail");
    assert_eq!(err, PasteServiceError::ContentTooLarge);
    let got = service.get_paste(&kept).expect("get must not error");
    assert_eq!(got, Some("kept".to_string()), "earlier entries survive a failed create");
}

#[test]
fn create_at_limit_succeeds() {
    let mut service = InMemoryPasteService::new();
    let content = "a".repeat(MAX_CONTENT_BYTES);
    let slug = service.create_paste(content.clone()).expect("content at the limit");
    let got = service.get_paste(&slug).expect("get must not error");
    assert_eq!(got, Some(content));
}

#[test]
fn error_messages_are_fixed_per_variant() {
    assert_eq!(PasteServiceError::ContentTooLarge.message(), "content was too long");
    assert_eq!(PasteServiceError::InvalidSlug.message(), "invalid slug provided");
    assert_eq!(PasteServiceError::InternalError.message(), "internal error occurred");
}
