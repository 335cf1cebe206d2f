use music_uploader_server::model::MusicUploaderError;
use music_uploader_server::path_utils::ValidateDirectoryError;

#[test]
fn test_error_prints_boxed_error() {
    let err = MusicUploaderError::ValidateDirectoryError(Box::new(
        ValidateDirectoryError::FileAlreadyExists,
    ));
    assert_eq!(
        "issue parsing the directory: File already exists".to_string(),
        err.message()
    );
}

#[test]
fn test_constraint_violation_message() {
    let err = MusicUploaderError::ConstraintViolation("malformed hash".to_string());
    assert_eq!("Constraint violation: malformed hash".to_string(), err.message());
}

#[test]
fn test_plex_complaint_message_renders_status() {
    let err = MusicUploaderError::PlexComplaint(404);
    assert_eq!(
        "plex is complaining with status: (404)".to_string(),
        err.message()
    );
}

#[test]
fn test_internal_server_error_message() {
    let err = MusicUploaderError::InternalServerError("db gone".to_string());
    assert_eq!(
        "There was an internal server that was not a customer issue. Reason: db gone".to_string(),
        err.message()
    );
}
