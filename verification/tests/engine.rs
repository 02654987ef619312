use blockdrive::errors::BlockDriveError;
use blockdrive::ids::{FileId, Handle};
use blockdrive::sharding::ShardedVault;
use blockdrive::user_vault_shard::ShardStatus;

fn handle(tag: u8) -> Handle {
    Handle { bytes: [tag; 32] }
}

fn file_id(n: u16) -> FileId {
    let mut id = [0u8; 16];
    id[0] = (n >> 8) as u8;
    id[1] = n as u8;
    id
}

fn record_handle(n: u16) -> Handle {
    let mut bytes = [0xCCu8; 32];
    bytes[0] = (n >> 8) as u8;
    bytes[1] = n as u8;
    Handle { bytes }
}

fn fresh_vault() -> ShardedVault {
    ShardedVault::initialize_vault_master(handle(1), handle(2), 1_000)
}

fn register(
    vault: &mut ShardedVault,
    n: u16,
    shard_index: u8,
    size: u64,
) -> Result<(u8, blockdrive::file_record::FileRecord), BlockDriveError> {
    vault.register_file_sharded(
        file_id(n),
        shard_index,
        [0x11; 32],
        size,
        size + 16,
        [0x22; 32],
        0,
        [0x33; 32],
        [0x44; 32],
        [0x55; 64],
        record_handle(n),
        2_000 + n as i64,
    )
}

fn assert_counters_agree(vault: &ShardedVault) {
    let shard_sum: u64 = vault.shards.iter().map(|s| s.file_count as u64).sum();
    assert_eq!(vault.master.total_file_count, shard_sum);
    assert_eq!(vault.master.total_file_count, vault.index.entry_count as u64);
}

#[test]
fn sequential_creation_up_to_ten_then_max_reached() {
    let mut vault = fresh_vault();
    for i in 0..10u8 {
        let assigned = vault.create_shard(i, handle(100 + i), 1_500).unwrap();
        assert_eq!(assigned, i);
        assert_eq!(vault.master.total_shards, i + 1);
        assert_eq!(vault.master.active_shard_index, i);
    }
    let err = vault.create_shard(10, handle(110), 1_501).unwrap_err();
    assert_eq!(err, BlockDriveError::MaxShardsReached);
    assert_eq!(vault.master.total_shards, 10);
}

#[test]
fn out_of_order_creation_changes_nothing() {
    let mut vault = fresh_vault();
    vault.create_shard(0, handle(100), 1_500).unwrap();
    let before_updated_at = vault.master.updated_at;
    for wrong in [2u8, 5, 9] {
        let err = vault.create_shard(wrong, handle(101), 1_600).unwrap_err();
        assert_eq!(err, BlockDriveError::InvalidShardIndex);
    }
    assert_eq!(vault.master.total_shards, 1);
    assert_eq!(vault.master.active_shard_index, 0);
    assert_eq!(vault.master.updated_at, before_updated_at);
    assert_eq!(vault.shards.len(), 1);
}

#[test]
fn fill_one_partition_and_reject_the_101st() {
    let mut vault = fresh_vault();
    vault.create_shard(0, handle(100), 1_500).unwrap();
    for n in 0..100u16 {
        let (slot, _record) = register(&mut vault, n, 0, 10).unwrap();
        assert_eq!(slot as u16, n);
    }
    assert_eq!(vault.shards[0].status, ShardStatus::Full);
    let entries_before = vault.index.entry_count;
    let total_before = vault.master.total_file_count;
    let storage_before = vault.master.total_storage;
    let err = register(&mut vault, 100, 0, 10).unwrap_err();
    assert_eq!(err, BlockDriveError::ShardFull);
    assert_eq!(vault.index.entry_count, entries_before);
    assert_eq!(vault.master.total_file_count, total_before);
    assert_eq!(vault.master.total_storage, storage_before);
    assert_eq!(vault.query_file_location(&file_id(100)).unwrap_err(), BlockDriveError::FileNotFound);
    assert_counters_agree(&vault);
}

#[test]
fn duplicate_identifiers_fail_even_across_partitions() {
    let mut vault = fresh_vault();
    vault.create_shard(0, handle(100), 1_500).unwrap();
    vault.create_shard(1, handle(101), 1_501).unwrap();
    register(&mut vault, 7, 0, 10).unwrap();
    let entries_before = vault.index.entry_count;
    let err = register(&mut vault, 7, 1, 10).unwrap_err();
    assert_eq!(err, BlockDriveError::DuplicateFileId);
    assert_eq!(vault.index.entry_count, entries_before);
    assert_eq!(vault.shards[1].file_count, 0);
    assert_counters_agree(&vault);
}

#[test]
fn invalid_inputs_are_rejected_without_effect() {
    let mut vault = fresh_vault();
    vault.create_shard(0, handle(100), 1_500).unwrap();
    let err = register(&mut vault, 1, 3, 10).unwrap_err();
    assert_eq!(err, BlockDriveError::InvalidShardIndex);
    let err = vault
        .register_file_sharded(
            file_id(1),
            0,
            [0; 32],
            10,
            26,
            [0; 32],
            3,
            [0; 32],
            [0; 32],
            [0; 64],
            record_handle(1),
            1_600,
        )
        .unwrap_err();
    assert_eq!(err, BlockDriveError::InvalidSecurityLevel);
    assert_eq!(vault.master.total_file_count, 0);
    assert_eq!(vault.index.entry_count, 0);
    assert_eq!(vault.shards[0].file_count, 0);
}

#[test]
fn registration_materializes_the_record() {
    let mut vault = fresh_vault();
    vault.create_shard(0, handle(100), 1_500).unwrap();
    let (slot, record) = register(&mut vault, 3, 0, 640).unwrap();
    assert_eq!(slot, 0);
    assert_eq!(record.vault, handle(2));
    assert_eq!(record.owner, handle(1));
    assert_eq!(record.file_id, file_id(3));
    assert_eq!(record.file_size, 640);
    assert_eq!(record.encrypted_size, 656);
    assert_eq!(record.provider_count, 1);
    assert_eq!(record.redundancy_cid, [0u8; 64]);
    assert!(!record.is_shared);
    assert!(record.is_active());
    // The partition slot holds the record's handle.
    assert_eq!(vault.shards[0].get_file(0), Some(record_handle(3)));
    assert_eq!(vault.shards[0].find_file_slot(&record_handle(3)), Some(0));
}

#[test]
fn removal_reverses_a_registration_everywhere() {
    let mut vault = fresh_vault();
    vault.create_shard(0, handle(100), 1_500).unwrap();
    for n in 0..5u16 {
        register(&mut vault, n, 0, 100).unwrap();
    }
    let location = vault.remove_file_sharded(&file_id(2), 100, 3_000).unwrap();
    assert_eq!(location, (0, 2));
    assert_eq!(vault.master.total_file_count, 4);
    assert_eq!(vault.index.entry_count, 4);
    assert_eq!(vault.shards[0].file_count, 4);
    assert_eq!(vault.shards[0].get_file(2), None);
    assert_eq!(vault.query_file_location(&file_id(2)).unwrap_err(), BlockDriveError::FileNotFound);
    assert_counters_agree(&vault);
    let err = vault.remove_file_sharded(&file_id(2), 100, 3_001).unwrap_err();
    assert_eq!(err, BlockDriveError::FileNotFound);
}

#[test]
fn freed_slots_fragment_capacity_and_can_orphan_an_entry() {
    let mut vault = fresh_vault();
    vault.create_shard(0, handle(100), 1_500).unwrap();
    for n in 0..5u16 {
        register(&mut vault, n, 0, 10).unwrap();
    }
    // Freeing an interior slot never hands it back to the allocator: the
    // next insert still targets slot `file_count`, which overwrites the
    // handle stored at slot 4 while file 4's index entry keeps pointing
    // there.
    vault.remove_file_sharded(&file_id(2), 10, 3_000).unwrap();
    let (slot, _record) = register(&mut vault, 5, 0, 10).unwrap();
    assert_eq!(slot, 4);
    assert_eq!(vault.query_file_location(&file_id(4)).unwrap(), (0, 4));
    assert_eq!(vault.query_file_location(&file_id(5)).unwrap(), (0, 4));
    assert_eq!(vault.shards[0].get_file(4), Some(record_handle(5)));
    // Removing file 4 clears the shared slot; file 5's entry then points at
    // an empty slot, and removing file 5 reports exactly that, changing
    // nothing.
    vault.remove_file_sharded(&file_id(4), 10, 3_001).unwrap();
    let entries_before = vault.index.entry_count;
    let err = vault.remove_file_sharded(&file_id(5), 10, 3_002).unwrap_err();
    assert_eq!(err, BlockDriveError::SlotAlreadyEmpty);
    assert_eq!(vault.index.entry_count, entries_before);
    assert_counters_agree(&vault);
}

#[test]
fn counters_agree_over_a_mixed_history() {
    let mut vault = fresh_vault();
    vault.create_shard(0, handle(100), 1_500).unwrap();
    vault.create_shard(1, handle(101), 1_501).unwrap();
    for n in 0..30u16 {
        register(&mut vault, n, (n % 2) as u8, 10 + n as u64).unwrap();
        assert_counters_agree(&vault);
    }
    for n in [0u16, 5, 12, 13, 28] {
        vault
            .remove_file_sharded(&file_id(n), 10 + n as u64, 4_000 + n as i64)
            .unwrap();
        assert_counters_agree(&vault);
    }
    for n in 100..110u16 {
        register(&mut vault, n, 1, 7).unwrap();
        assert_counters_agree(&vault);
    }
    assert_eq!(vault.master.total_file_count, 35);
}

#[test]
fn full_partition_scenario_overflows_into_the_next() {
    // Initialize controller and index for one owner.
    let mut vault = fresh_vault();
    // Create partition 0 and fill it with 100 files.
    vault.create_shard(0, handle(100), 1_500).unwrap();
    for n in 0..100u16 {
        register(&mut vault, n, 0, 10).unwrap();
    }
    assert_eq!(vault.shards[0].status, ShardStatus::Full);
    // The 101st file does not fit into partition 0.
    let err = register(&mut vault, 100, 0, 10).unwrap_err();
    assert_eq!(err, BlockDriveError::ShardFull);
    // Create partition 1 and register it there instead.
    let assigned = vault.create_shard(1, handle(101), 1_600).unwrap();
    assert_eq!(assigned, 1);
    let (slot, _record) = register(&mut vault, 100, 1, 10).unwrap();
    assert_eq!(slot, 0);
    assert_eq!(vault.master.total_file_count, 101);
    assert_counters_agree(&vault);
}

#[test]
fn query_returns_exact_coordinates() {
    let mut vault = fresh_vault();
    vault.create_shard(0, handle(100), 1_500).unwrap();
    vault.create_shard(1, handle(101), 1_501).unwrap();
    register(&mut vault, 1, 0, 10).unwrap();
    register(&mut vault, 2, 1, 10).unwrap();
    register(&mut vault, 3, 1, 10).unwrap();
    assert_eq!(vault.query_file_location(&file_id(1)).unwrap(), (0, 0));
    assert_eq!(vault.query_file_location(&file_id(2)).unwrap(), (1, 0));
    assert_eq!(vault.query_file_location(&file_id(3)).unwrap(), (1, 1));
    assert_eq!(vault.query_file_location(&file_id(4)).unwrap_err(), BlockDriveError::FileNotFound);
}
