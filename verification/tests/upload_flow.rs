use music_uploader_server::declare_upload::{declare_upload_inner, DeclareUploadHeaders};
use music_uploader_server::finalize_part_upload::finalize_part_upload;
use music_uploader_server::model::{DeclareUploadResponse, MusicUploaderError};
use music_uploader_server::operational_data::UploadLedger;
use music_uploader_server::storage::FileStore;
use music_uploader_server::upload_part::{upload_part_inner, UploadPartHeaders};

fn headers_for(bytes: &[u8], part_size: u32) -> DeclareUploadHeaders {
    DeclareUploadHeaders {
        hash: sha256::digest(bytes),
        file_name: "song.mp3".to_string(),
        album: "album".to_string(),
        artist: "artist".to_string(),
        declared_size_bytes: bytes.len() as u32,
        part_size_bytes: part_size,
    }
}

fn declare(
    ledger: &mut UploadLedger,
    temp: &mut FileStore,
    dest: &mut FileStore,
    headers: DeclareUploadHeaders,
) -> Result<DeclareUploadResponse, MusicUploaderError> {
    declare_upload_inner(ledger, temp, dest, headers, "dest/song.mp3".to_string())
}

fn send_part(
    ledger: &mut UploadLedger,
    temp: &mut FileStore,
    key: &str,
    index: u8,
    bytes: &[u8],
) -> Result<(), MusicUploaderError> {
    let headers = UploadPartHeaders {
        key: key.to_string(),
        part_hash: sha256::digest(bytes),
        index,
    };
    upload_part_inner(ledger, temp, &headers, &bytes.to_vec())
}

fn incomplete_key(resp: &DeclareUploadResponse) -> String {
    match resp {
        DeclareUploadResponse::Incomplete { key, .. } => key.clone(),
        DeclareUploadResponse::Complete => panic!("expected an incomplete response"),
    }
}

#[test]
fn test_declare_twice_returns_same_key_without_second_row() {
    let mut ledger = UploadLedger::new();
    let mut temp = FileStore::new();
    let mut dest = FileStore::new();
    let data = b"0123456789";
    let r1 = declare(&mut ledger, &mut temp, &mut dest, headers_for(data, 4)).unwrap();
    let k1 = incomplete_key(&r1);
    assert_eq!(1, ledger.num_declarations());
    let r2 = declare(&mut ledger, &mut temp, &mut dest, headers_for(data, 4)).unwrap();
    let k2 = incomplete_key(&r2);
    assert_eq!(k1, k2);
    assert_eq!(1, ledger.num_declarations());
}

#[test]
fn test_declare_rejects_size_smaller_than_part() {
    let mut ledger = UploadLedger::new();
    let mut temp = FileStore::new();
    let mut dest = FileStore::new();
    let mut h = headers_for(b"abc", 4);
    h.declared_size_bytes = 3;
    let r = declare(&mut ledger, &mut temp, &mut dest, h);
    match r {
        Err(MusicUploaderError::ConstraintViolation(m)) => {
            assert_eq!("declared file size is smaller than part size", m)
        },
        _ => panic!("expected a constraint violation"),
    }
    assert_eq!(0, ledger.num_declarations());
}

#[test]
fn test_declare_rejects_malformed_hash() {
    let mut ledger = UploadLedger::new();
    let mut temp = FileStore::new();
    let mut dest = FileStore::new();
    let mut h = headers_for(b"0123456789", 4);
    h.hash = "deadbeef".to_string();
    let r = declare(&mut ledger, &mut temp, &mut dest, h);
    match r {
        Err(MusicUploaderError::ConstraintViolation(m)) => assert_eq!("malformed hash", m),
        _ => panic!("expected a constraint violation"),
    }
}

#[test]
fn test_ingest_same_part_twice_is_rejected_and_part_unchanged() {
    let mut ledger = UploadLedger::new();
    let mut temp = FileStore::new();
    let mut dest = FileStore::new();
    let data = b"0123456789";
    let r = declare(&mut ledger, &mut temp, &mut dest, headers_for(data, 4)).unwrap();
    let key = incomplete_key(&r);
    send_part(&mut ledger, &mut temp, &key, 0, &data[0..4]).unwrap();
    let parts_before = ledger.get_parts(&key).unwrap();
    let second = send_part(&mut ledger, &mut temp, &key, 0, &data[0..4]);
    match second {
        Err(MusicUploaderError::ConstraintViolation(m)) => {
            assert_eq!("part has already been uploaded", m)
        },
        _ => panic!("expected a constraint violation"),
    }
    let parts_after = ledger.get_parts(&key).unwrap();
    assert_eq!(1, parts_after.len());
    assert_eq!(parts_before[0].part_hash, parts_after[0].part_hash);
    assert_eq!(parts_before[0].timestamp, parts_after[0].timestamp);
}

#[test]
fn test_ingest_wrong_size_is_rejected_before_persisting() {
    let mut ledger = UploadLedger::new();
    let mut temp = FileStore::new();
    let mut dest = FileStore::new();
    let data = b"0123456789";
    let r = declare(&mut ledger, &mut temp, &mut dest, headers_for(data, 4)).unwrap();
    let key = incomplete_key(&r);
    // part 0 owes four bytes; send three
    let r = send_part(&mut ledger, &mut temp, &key, 0, &data[0..3]);
    match r {
        Err(MusicUploaderError::ConstraintViolation(m)) => {
            assert_eq!("uploaded part is not expected size", m)
        },
        _ => panic!("expected a constraint violation"),
    }
    assert_eq!(0, ledger.num_parts());
    assert!(!temp.exists_file(&format!("{key}-0")));
}

#[test]
fn test_ingest_wrong_digest_is_rejected_before_persisting() {
    let mut ledger = UploadLedger::new();
    let mut temp = FileStore::new();
    let mut dest = FileStore::new();
    let data = b"0123456789";
    let r = declare(&mut ledger, &mut temp, &mut dest, headers_for(data, 4)).unwrap();
    let key = incomplete_key(&r);
    let headers = UploadPartHeaders {
        key: key.clone(),
        part_hash: sha256::digest(&data[4..8]), // digest of a different chunk
        index: 0,
    };
    let r = upload_part_inner(&mut ledger, &mut temp, &headers, &data[0..4].to_vec());
    match r {
        Err(MusicUploaderError::ConstraintViolation(m)) => assert_eq!("Hash check failed", m),
        _ => panic!("expected a constraint violation"),
    }
    assert_eq!(0, ledger.num_parts());
    assert!(!temp.exists_file(&format!("{key}-0")));
}

#[test]
fn test_ingest_rejects_out_of_range_index() {
    let mut ledger = UploadLedger::new();
    let mut temp = FileStore::new();
    let mut dest = FileStore::new();
    let data = b"0123456789";
    let r = declare(&mut ledger, &mut temp, &mut dest, headers_for(data, 4)).unwrap();
    let key = incomplete_key(&r);
    let r = send_part(&mut ledger, &mut temp, &key, 3, &data[0..4]);
    match r {
        Err(MusicUploaderError::ConstraintViolation(m)) => assert_eq!("invalid part index", m),
        _ => panic!("expected a constraint violation"),
    }
}

#[test]
fn test_ingest_without_declaration_is_rejected() {
    let mut ledger = UploadLedger::new();
    let mut temp = FileStore::new();
    let r = send_part(&mut ledger, &mut temp, "nobody home", 0, b"abcd");
    match r {
        Err(MusicUploaderError::ConstraintViolation(m)) => {
            assert_eq!("No upload declaration for file part", m)
        },
        _ => panic!("expected a constraint violation"),
    }
}

#[test]
fn test_end_to_end_two_part_upload() {
    let mut ledger = UploadLedger::new();
    let mut temp = FileStore::new();
    let mut dest = FileStore::new();
    let data = b"0123456";
    assert_eq!(7, data.len());

    // declare a 7-byte file with part size 4: two expected parts
    let r = declare(&mut ledger, &mut temp, &mut dest, headers_for(data, 4)).unwrap();
    let key = match &r {
        DeclareUploadResponse::Incomplete {
            key,
            declared_size,
            part_size,
            received_parts,
        } => {
            assert_eq!(7, *declared_size);
            assert_eq!(4, *part_size);
            assert!(received_parts.is_empty());
            key.clone()
        },
        DeclareUploadResponse::Complete => panic!("nothing was uploaded yet"),
    };

    // part 0: four bytes
    send_part(&mut ledger, &mut temp, &key, 0, &data[0..4]).unwrap();
    let r = declare(&mut ledger, &mut temp, &mut dest, headers_for(data, 4)).unwrap();
    match &r {
        DeclareUploadResponse::Incomplete { received_parts, .. } => {
            assert_eq!(&vec![0u8], received_parts)
        },
        DeclareUploadResponse::Complete => panic!("one part is still missing"),
    }

    // part 1: the remaining three bytes; the next declare finalizes
    send_part(&mut ledger, &mut temp, &key, 1, &data[4..7]).unwrap();
    let r = declare(&mut ledger, &mut temp, &mut dest, headers_for(data, 4)).unwrap();
    assert!(matches!(r, DeclareUploadResponse::Complete));

    // the destination holds the bytes in order, and they match the hash
    let written = dest.read_file(&"dest/song.mp3".to_string()).unwrap();
    assert_eq!(data.to_vec(), written);
    assert_eq!(sha256::digest(data), sha256::digest(&written));

    // ledger rows and temporary blobs are gone
    assert!(ledger.get_upload_declaration(&key).is_none());
    assert_eq!(0, ledger.num_declarations());
    assert_eq!(0, ledger.num_parts());
    assert!(!temp.exists_file(&format!("{key}-0")));
    assert!(!temp.exists_file(&format!("{key}-1")));
}

#[test]
fn test_finalize_aborts_on_wrong_total_size_and_keeps_ledger() {
    let mut ledger = UploadLedger::new();
    let mut temp = FileStore::new();
    let mut dest = FileStore::new();
    let data = b"0123456";
    let r = declare(&mut ledger, &mut temp, &mut dest, headers_for(data, 4)).unwrap();
    let key = incomplete_key(&r);
    send_part(&mut ledger, &mut temp, &key, 0, &data[0..4]).unwrap();
    send_part(&mut ledger, &mut temp, &key, 1, &data[4..7]).unwrap();

    // a part's blob is replaced out-of-band with fewer bytes
    assert!(temp.remove_file(&format!("{key}-1")));
    assert!(temp.write_new(&format!("{key}-1"), b"45".to_vec()).is_ok());

    let declaration = ledger.get_upload_declaration(&key).unwrap();
    let r = finalize_part_upload(&declaration, &mut ledger, &mut temp, &mut dest);
    match r {
        Err(MusicUploaderError::ConstraintViolation(m)) => {
            assert_eq!("total file is not the expected size", m)
        },
        _ => panic!("expected a constraint violation"),
    }
    // the ledger is untouched, so the upload stays retryable
    assert_eq!(1, ledger.num_declarations());
    assert_eq!(2, ledger.num_parts());
    assert!(!dest.exists_file(&"dest/song.mp3".to_string()));
}

#[test]
fn test_finalize_onto_existing_destination_fails_without_corruption() {
    let mut ledger = UploadLedger::new();
    let mut temp = FileStore::new();
    let mut dest = FileStore::new();
    let data = b"0123456";
    let r = declare(&mut ledger, &mut temp, &mut dest, headers_for(data, 4)).unwrap();
    let key = incomplete_key(&r);
    send_part(&mut ledger, &mut temp, &key, 0, &data[0..4]).unwrap();
    send_part(&mut ledger, &mut temp, &key, 1, &data[4..7]).unwrap();

    // the destination already holds the file, as after a crash between
    // the final write and the ledger cleanup
    assert!(dest.write_new(&"dest/song.mp3".to_string(), data.to_vec()).is_ok());

    let declaration = ledger.get_upload_declaration(&key).unwrap();
    let r = finalize_part_upload(&declaration, &mut ledger, &mut temp, &mut dest);
    match r {
        Err(MusicUploaderError::InternalServerError(m)) => assert_eq!("file already exists", m),
        _ => panic!("expected an internal error"),
    }
    // the committed bytes are untouched and the ledger rows remain
    assert_eq!(data.to_vec(), dest.read_file(&"dest/song.mp3".to_string()).unwrap());
    assert_eq!(1, ledger.num_declarations());
    assert_eq!(2, ledger.num_parts());
}

#[test]
fn test_declare_reports_unencodable_part_indices() {
    let mut ledger = UploadLedger::new();
    let mut temp = FileStore::new();
    let mut dest = FileStore::new();
    let data = vec![7u8; 2000];
    let h = DeclareUploadHeaders {
        hash: sha256::digest(&data),
        file_name: "song.mp3".to_string(),
        album: "album".to_string(),
        artist: "artist".to_string(),
        declared_size_bytes: 2000,
        part_size_bytes: 2,
    };
    let key = UploadLedger::build_key(&h.hash);
    // a row whose index cannot be rendered in the wire format
    assert!(ledger.add_part(&key, 300, &"x".to_string(), 0).is_some());
    let r = declare(&mut ledger, &mut temp, &mut dest, h);
    match r {
        Err(MusicUploaderError::InternalServerError(m)) => {
            assert_eq!("Failed to parse received parts: TooLargeOfIndices", m)
        },
        _ => panic!("expected an internal error"),
    }
}
