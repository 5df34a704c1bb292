use camera_ftp_companion::mediastore::MediaStoreError;
use camera_ftp_companion::retry_policy::{after_attempt, RetryDecision};

#[test]
fn media_store_error_texts() {
    assert_eq!(
        MediaStoreError::OpenFdFailed("x".to_string()).message(),
        "Failed to open file descriptor: x"
    );
    assert_eq!(
        MediaStoreError::InsertFailed("x".to_string()).message(),
        "Failed to insert into MediaStore: x"
    );
    assert_eq!(MediaStoreError::QueryFailed("q".to_string()).message(), "Failed to query MediaStore: q");
    assert_eq!(
        MediaStoreError::DeleteFailed("d".to_string()).message(),
        "Failed to delete from MediaStore: d"
    );
    assert_eq!(MediaStoreError::NotFound("/a.jpg".to_string()).message(), "File not found: /a.jpg");
    assert_eq!(MediaStoreError::InvalidPath("p".to_string()).message(), "Invalid path: p");
    assert_eq!(MediaStoreError::PermissionDenied("p".to_string()).message(), "Permission denied: p");
    assert_eq!(MediaStoreError::IoError("e".to_string()).message(), "IO error: e");
    assert_eq!(MediaStoreError::BridgeError("b".to_string()).message(), "Bridge error: b");
    assert_eq!(MediaStoreError::Cancelled.message(), "Operation cancelled");
}

#[test]
fn retry_succeeds_at_once_on_success() {
    assert_eq!(after_attempt(1, true, 3), RetryDecision::Succeeded);
    assert_eq!(after_attempt(4, true, 3), RetryDecision::Succeeded);
}

#[test]
fn retry_retries_failures_until_max_retries() {
    assert_eq!(after_attempt(1, false, 3), RetryDecision::RetryAfterDelay);
    assert_eq!(after_attempt(3, false, 3), RetryDecision::RetryAfterDelay);
    assert_eq!(after_attempt(4, false, 3), RetryDecision::GiveUp);
}

#[test]
fn retry_with_no_retries_gives_up_after_first_failure() {
    assert_eq!(after_attempt(1, false, 0), RetryDecision::GiveUp);
}
