use blockdrive::ids::{FileId, Handle};
use blockdrive::vault_index::{
    IndexEntry, IndexError, UserVaultIndex, MAX_INDEX_ENTRIES,
};

fn handle(tag: u8) -> Handle {
    Handle { bytes: [tag; 32] }
}

fn file_id(n: u16) -> FileId {
    let mut id = [0u8; 16];
    id[0] = (n >> 8) as u8;
    id[1] = n as u8;
    id[15] = 0xAA;
    id
}

fn fresh_index() -> UserVaultIndex {
    let mut index = UserVaultIndex::default();
    index.initialize(handle(1), handle(2), 1_000);
    index
}

#[test]
fn initialize_empties_the_index() {
    let index = fresh_index();
    assert_eq!(index.vault_master, handle(1));
    assert_eq!(index.owner, handle(2));
    assert_eq!(index.entry_count, 0);
    assert!(index.entries.is_empty());
    assert!(index.has_capacity());
}

#[test]
fn entry_constructor_and_empty_sentinel() {
    let entry = IndexEntry::new(file_id(3), 4, 5);
    assert_eq!(entry.file_id, file_id(3));
    assert_eq!(entry.shard_index, 4);
    assert_eq!(entry.slot_index, 5);
    assert!(!entry.is_empty());
    let blank = IndexEntry::new([0u8; 16], 0, 0);
    assert!(blank.is_empty());
}

#[test]
fn add_then_find_round_trips() {
    let mut index = fresh_index();
    index.add_entry(file_id(7), 2, 33, 2_000).unwrap();
    assert_eq!(index.find_entry(&file_id(7)), Some((2, 33)));
    assert_eq!(index.entry_count, 1);
}

#[test]
fn duplicate_identifiers_are_rejected() {
    let mut index = fresh_index();
    index.add_entry(file_id(7), 0, 0, 2_000).unwrap();
    let err = index.add_entry(file_id(7), 1, 5, 2_001).unwrap_err();
    assert_eq!(err, IndexError::DuplicateFileId);
    assert_eq!(index.entry_count, 1);
    assert_eq!(index.find_entry(&file_id(7)), Some((0, 0)));
}

#[test]
fn the_index_holds_at_most_a_thousand_entries() {
    let mut index = fresh_index();
    for n in 0..MAX_INDEX_ENTRIES as u16 {
        index.add_entry(file_id(n), (n % 10) as u8, (n % 100) as u8, 2_000).unwrap();
    }
    assert_eq!(index.entry_count as usize, MAX_INDEX_ENTRIES);
    assert!(!index.has_capacity());
    let err = index.add_entry(file_id(5_000), 0, 0, 2_001).unwrap_err();
    assert_eq!(err, IndexError::IndexFull);
    assert_eq!(index.entry_count as usize, MAX_INDEX_ENTRIES);
}

#[test]
fn swap_remove_drops_exactly_the_named_identifier() {
    let mut index = fresh_index();
    for n in 0..10u16 {
        index.add_entry(file_id(n), 0, n as u8, 2_000).unwrap();
    }
    index.remove_entry(&file_id(4), 2_001).unwrap();
    assert_eq!(index.entry_count, 9);
    assert_eq!(index.entries.len(), 9);
    assert_eq!(index.find_entry(&file_id(4)), None);
    // The multiset of stored identifiers is the old one minus the removed
    // identifier, exactly once.
    let mut remaining: Vec<FileId> = index.entries.iter().map(|e| e.file_id).collect();
    remaining.sort();
    let mut expected: Vec<FileId> =
        (0..10u16).filter(|n| *n != 4).map(file_id).collect();
    expected.sort();
    assert_eq!(remaining, expected);
    // Every surviving entry still resolves to its stored location.
    for n in (0..10u16).filter(|n| *n != 4) {
        assert_eq!(index.find_entry(&file_id(n)), Some((0, n as u8)));
    }
    let err = index.remove_entry(&file_id(4), 2_002).unwrap_err();
    assert_eq!(err, IndexError::FileNotFound);
}

#[test]
fn removing_the_last_entry_works() {
    let mut index = fresh_index();
    index.add_entry(file_id(1), 0, 0, 2_000).unwrap();
    index.remove_entry(&file_id(1), 2_001).unwrap();
    assert_eq!(index.entry_count, 0);
    assert!(index.entries.is_empty());
}

#[test]
fn update_entry_moves_a_location_in_place() {
    let mut index = fresh_index();
    index.add_entry(file_id(1), 0, 0, 2_000).unwrap();
    index.add_entry(file_id(2), 0, 1, 2_001).unwrap();
    index.update_entry(&file_id(1), 3, 7, 2_002).unwrap();
    assert_eq!(index.find_entry(&file_id(1)), Some((3, 7)));
    assert_eq!(index.find_entry(&file_id(2)), Some((0, 1)));
    assert_eq!(index.entry_count, 2);
    let err = index.update_entry(&file_id(9), 1, 1, 2_003).unwrap_err();
    assert_eq!(err, IndexError::FileNotFound);
}

#[test]
fn per_shard_filters_count_and_list() {
    let mut index = fresh_index();
    index.add_entry(file_id(1), 0, 0, 2_000).unwrap();
    index.add_entry(file_id(2), 1, 0, 2_001).unwrap();
    index.add_entry(file_id(3), 0, 1, 2_002).unwrap();
    assert_eq!(index.count_files_in_shard(0), 2);
    assert_eq!(index.count_files_in_shard(1), 1);
    assert_eq!(index.count_files_in_shard(2), 0);
    let for_zero = index.get_entries_for_shard(0);
    assert_eq!(for_zero.len(), 2);
    assert_eq!(for_zero[0].file_id, file_id(1));
    assert_eq!(for_zero[1].file_id, file_id(3));
}
