use pastebin::domain::Paste;
use pastebin::repo::{PasteRepository, PostgresRepository, RepositoryError};
use pastebin::service::{PasteService, PasteServiceError, RepoBackedPasteService};

#[test]
fn postgres_stub_reports_the_medium_unreachable() {
    let mut repo = PostgresRepository {};
    assert!(matches!(repo.get_paste("abc"), Err(RepositoryError::UnknownError)));
    let paste = Paste::new("body".to_string(), None).unwrap();
    assert!(matches!(repo.save_paste(&paste), Err(RepositoryError::UnknownError)));
    assert!(matches!(repo.delete_paste("abc"), Err(RepositoryError::UnknownError)));
    assert!(matches!(repo.generate_slug(), Err(RepositoryError::UnknownError)));
}

#[test]
fn backend_failures_surface_as_internal_errors() {
    let mut service = RepoBackedPasteService::new(PostgresRepository {});
    assert_eq!(service.get_paste("abc"), Err(PasteServiceError::InternalError));
    assert_eq!(
        service.create_paste("body".to_string()),
        Err(PasteServiceError::InternalError)
    );
    assert_eq!(service.delete_paste("abc"), Err(PasteServiceError::InternalError));
}

#[test]
fn oversized_content_is_rejected_before_the_backend_is_asked() {
    let mut service = RepoBackedPasteService::new(PostgresRepository {});
    let big = "a".repeat(pastebin::domain::MAX_CONTENT_BYTES + 1);
    assert_eq!(service.create_paste(big), Err(PasteServiceError::ContentTooLarge));
}
