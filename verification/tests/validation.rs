use music_uploader_server::check_conn;
use music_uploader_server::model::map_validate_directory_error;
use music_uploader_server::path_utils::ValidateDirectoryError;
use music_uploader_server::upload::soften_already_exists;
use music_uploader_server::data_validation::{check_hash, sha256_hex};
use music_uploader_server::model::MusicUploaderError;
use music_uploader_server::storage::FileStore;
use music_uploader_server::upload::{upload_inner, UploadHeaders};

#[test]
fn test_sha256_hex_matches_known_digest() {
    // the digest must be computed, not echoed back
    let r = sha256_hex(b"hello");
    assert_eq!(
        "2cf24dba5fb0a30e26e83b2ac5b9e29e1b161e5c1fa7425e73043362938b9824",
        r
    );
}

#[test]
fn test_check_hash_accepts_matching_digest() {
    let expected =
        "2cf24dba5fb0a30e26e83b2ac5b9e29e1b161e5c1fa7425e73043362938b9824".to_string();
    assert!(check_hash(&expected, b"hello").is_ok());
}

#[test]
fn test_check_hash_rejects_wrong_digest() {
    let expected = "feed".to_string();
    let r = check_hash(&expected, b"hello");
    match r {
        Err(MusicUploaderError::ConstraintViolation(m)) => assert_eq!("Hash check failed", m),
        _ => panic!("expected a constraint violation"),
    }
}

#[test]
fn test_check_conn_answers() {
    assert_eq!("hello", check_conn());
}

fn upload_headers(bytes: &[u8]) -> UploadHeaders {
    UploadHeaders {
        hash: sha256::digest(bytes),
        file_name: "track.mp3".to_string(),
        album: "a".to_string(),
        artist: "b".to_string(),
    }
}

#[test]
fn test_upload_inner_commits_once() {
    let mut dest = FileStore::new();
    let dir = "artist/album/track.mp3".to_string();
    let body = b"music bytes";
    let r = upload_inner(&mut dest, &upload_headers(body), &dir, body.to_vec()).unwrap();
    assert_eq!("uploaded file: track.mp3", r);
    assert_eq!(body.to_vec(), dest.read_file(&dir).unwrap());

    // a second write of the same destination must fail, not overwrite
    let r = upload_inner(&mut dest, &upload_headers(body), &dir, body.to_vec());
    match r {
        Err(MusicUploaderError::InternalServerError(m)) => assert_eq!("file already exists", m),
        _ => panic!("expected an internal error"),
    }
}

#[test]
fn test_upload_inner_rejects_wrong_hash() {
    let mut dest = FileStore::new();
    let dir = "artist/album/track.mp3".to_string();
    let mut headers = upload_headers(b"music bytes");
    headers.hash = sha256::digest(b"other bytes");
    let r = upload_inner(&mut dest, &headers, &dir, b"music bytes".to_vec());
    match r {
        Err(MusicUploaderError::ConstraintViolation(m)) => assert_eq!("Hash check failed", m),
        _ => panic!("expected a constraint violation"),
    }
    assert!(!dest.exists_file(&dir));
}

#[test]
fn test_soften_already_exists_turns_duplicate_into_success() {
    let r = soften_already_exists(Err(MusicUploaderError::SongAlreadyExists));
    assert_eq!(Ok("Song already exists".to_string()), r.map_err(|e| e.message()));
    let r = soften_already_exists(Err(MusicUploaderError::UploaderDataIncomplete));
    assert!(matches!(r, Err(MusicUploaderError::UploaderDataIncomplete)));
    let r = soften_already_exists(Ok("done".to_string()));
    assert_eq!(Ok("done".to_string()), r.map_err(|e| e.message()));
}

#[test]
fn test_map_validate_directory_error_marks_existing_song() {
    let r = map_validate_directory_error(ValidateDirectoryError::FileAlreadyExists);
    assert!(matches!(r, MusicUploaderError::SongAlreadyExists));
    let r = map_validate_directory_error(ValidateDirectoryError::InvalidExtension);
    assert!(matches!(
        r,
        MusicUploaderError::ValidateDirectoryError(b) if matches!(*b, ValidateDirectoryError::InvalidExtension)
    ));
}
