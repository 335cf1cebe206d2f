use music_uploader_server::operational_data::{
    sort_parts_by_index, UploadDeclarationItem, UploadLedger, UploadPartItem,
};
use music_uploader_server::time_utils::get_now_timestamp;

fn build_dummy_part(key: String, index: u32) -> UploadPartItem {
    let fake_hash = "fake hash".to_string();
    UploadPartItem {
        parent_key: key,
        index,
        part_hash: fake_hash,
        timestamp: get_now_timestamp(),
    }
}

#[test]
fn test_sort_works() {
    let key = "dummy key";
    let indices: Vec<u32> = vec![1, 6, 5, 3, 2, 0, 4];
    let thing = indices
        .into_iter()
        .map(|index| build_dummy_part(key.to_string(), index))
        .collect::<Vec<_>>();
    let sorted = sort_parts_by_index(&thing);
    let sorted_indices = sorted.into_iter().map(|item| item.index).collect::<Vec<_>>();
    assert_eq!(sorted_indices, vec![0, 1, 2, 3, 4, 5, 6]);
}

fn declaration(declared_size: u32, part_size: u32) -> UploadDeclarationItem {
    UploadDeclarationItem {
        key: "k".to_string(),
        hash: "h".to_string(),
        declared_size,
        part_size,
        path: "p".to_string(),
        timestamp: 0,
    }
}

#[test]
fn test_expected_num_parts_rounds_up() {
    assert_eq!(4, declaration(10, 3).get_expected_num_parts());
    assert_eq!(1, declaration(4, 4).get_expected_num_parts());
    assert_eq!(2, declaration(7, 4).get_expected_num_parts());
    assert_eq!(3, declaration(12, 4).get_expected_num_parts());
}

#[test]
fn test_expected_index_sizes_sum_to_declared_size() {
    let d = declaration(10, 3);
    let sizes: Vec<u32> = (0..4).map(|i| d.get_expected_index_size(i)).collect();
    assert_eq!(sizes, vec![3, 3, 3, 1]);
    assert_eq!(10u32, sizes.iter().sum::<u32>());
    // indices past the end owe nothing
    assert_eq!(0, d.get_expected_index_size(4));
}

#[test]
fn test_part_file_name_joins_key_and_index() {
    let part = build_dummy_part("abc".to_string(), 17);
    assert_eq!("abc-17".to_string(), part.part_file_name());
}

#[test]
fn test_build_key_is_hash_prefix() {
    let hash = "0123456789012345678901234567890123456789".to_string();
    assert_eq!("012345678901234567890123456789", UploadLedger::build_key(&hash));
    let short = "0123".to_string();
    assert_eq!("0123", UploadLedger::build_key(&short));
}

#[test]
fn test_add_part_rejects_duplicate_identity() {
    let mut ledger = UploadLedger::new();
    let key = "some key".to_string();
    let h = "ph".to_string();
    assert!(ledger.add_part(&key, 0, &h, 1).is_some());
    assert!(ledger.add_part(&key, 0, &h, 2).is_none());
    assert!(ledger.add_part(&key, 1, &h, 3).is_some());
    assert_eq!(2, ledger.num_parts());
}

#[test]
fn test_cleanup_upload_deletes_only_that_key() {
    let mut ledger = UploadLedger::new();
    let ha = "a".repeat(64);
    let hb = "b".repeat(64);
    ledger
        .declare_or_get_previous_upload(ha.clone(), 8, 4, "pa".to_string(), 0)
        .unwrap();
    ledger
        .declare_or_get_previous_upload(hb.clone(), 8, 4, "pb".to_string(), 0)
        .unwrap();
    let ka = UploadLedger::build_key(&ha);
    let kb = UploadLedger::build_key(&hb);
    ledger.add_part(&ka, 0, &"x".to_string(), 0).unwrap();
    ledger.add_part(&ka, 1, &"y".to_string(), 0).unwrap();
    ledger.add_part(&kb, 0, &"z".to_string(), 0).unwrap();
    let removed = ledger.cleanup_upload(&ka);
    assert_eq!(2, removed);
    assert_eq!(1, ledger.num_declarations());
    assert_eq!(1, ledger.num_parts());
    assert!(ledger.get_upload_declaration(&ka).is_none());
    assert!(ledger.get_upload_declaration(&kb).is_some());
}
