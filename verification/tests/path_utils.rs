use music_uploader_server::path_utils::{clean_dir_segment, clean_file_name, validate_file_type};
use music_uploader_server::path_utils::ValidateDirectoryError;

#[test]
fn test_file_names_that_should_not_change() {
    let examples = vec!["Jakub Zytecki - Remind Me - 02 Remind Me.mp3"];
    for example in examples {
        assert_eq!(
            example.to_string(),
            clean_file_name(&example.to_string()).unwrap()
        );
    }
}

#[test]
fn test_dir_names_that_should_not_change() {
    let examples = vec![
        "Fearless (Taylor's Version)",
        "Charli XCX",
        "Death's Dynamic Shroud",
    ];
    for example in examples {
        assert_eq!(example.to_string(), clean_dir_segment(&example.to_string()));
    }
}

#[test]
fn test_dir_names_that_should_change() {
    let examples = vec!["death’s dynamic shroud"];
    for example in examples {
        assert_ne!(example.to_string(), clean_dir_segment(&example.to_string()));
    }
}

#[test]
fn test_strings_are_stripped() {
    assert_eq!(
        "_test_wav.mp3".to_string(),
        clean_file_name(&"  .test.wav.mp3   ".to_string()).unwrap()
    );
    assert_eq!(
        "thin_gy".to_string(),
        clean_dir_segment(&"   thin*gy    ".to_string())
    )
}

#[test]
fn test_strings_are_escaped() {
    assert_eq!(
        "__urmums_secret files_test_wav.mp3",
        clean_file_name(&"  ~/urmums/secret files/test.wav.mp3   ".to_string()).unwrap()
    );
    assert_eq!("thin_gy", clean_dir_segment(&"   thin*gy    ".to_string()))
}

#[test]
fn test_add_hash_to_high_replace_strings() {
    assert_eq!(
        "artist_album___________ec181730.mp3",
        clean_file_name(&"artist/album/^^^^^^^^^^.mp3".to_string()).unwrap(),
    );
    assert_eq!(
        "artist_album___________3faf76b4.mp3",
        clean_file_name(&"artist/album/&&&&&&&&&&.mp3".to_string()).unwrap(),
    );
}

#[test]
fn test_validate_file_type_accepts_known_extension() {
    let valid = vec!["mp3".to_string(), "flac".to_string()];
    assert!(validate_file_type(&valid, &"song.mp3".to_string()).is_ok());
}

#[test]
fn test_validate_file_type_rejects_unknown_extension() {
    let valid = vec!["mp3".to_string()];
    let r = validate_file_type(&valid, &"song.wav".to_string());
    assert!(matches!(r, Err(ValidateDirectoryError::InvalidExtension)));
}

#[test]
fn test_validate_file_type_rejects_missing_extension() {
    let valid = vec!["mp3".to_string()];
    let r = validate_file_type(&valid, &"song".to_string());
    assert!(matches!(r, Err(ValidateDirectoryError::NoFileExtension)));
}
