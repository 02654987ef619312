use blockdrive::ids::Handle;
use blockdrive::user_vault_master::{ErrorCode, UserVaultMaster, FILES_PER_SHARD, MAX_SHARDS};

fn handle(tag: u8) -> Handle {
    Handle { bytes: [tag; 32] }
}

fn fresh_master(owner_tag: u8) -> UserVaultMaster {
    let mut master = UserVaultMaster::default();
    master.initialize(handle(owner_tag), 1_000);
    master
}

#[test]
fn initialize_zeroes_everything() {
    let master = fresh_master(7);
    assert_eq!(master.owner, handle(7));
    assert_eq!(master.total_file_count, 0);
    assert_eq!(master.total_shards, 0);
    assert_eq!(master.active_shard_index, 0);
    assert_eq!(master.total_storage, 0);
    assert_eq!(master.created_at, 1_000);
    assert_eq!(master.updated_at, 1_000);
    assert_eq!(master.shard_pointers.len(), MAX_SHARDS);
    assert!(master.shard_pointers.iter().all(|slot| slot.is_none()));
}

#[test]
fn register_shard_assigns_sequential_indices() {
    let mut master = fresh_master(1);
    for expected in 0..MAX_SHARDS as u8 {
        assert!(master.can_create_shard());
        let assigned = master.register_shard(handle(expected + 10), 2_000).unwrap();
        assert_eq!(assigned, expected);
        assert_eq!(master.total_shards, expected + 1);
        assert_eq!(master.active_shard_index, expected);
    }
    assert!(!master.can_create_shard());
    let err = master.register_shard(handle(99), 2_001).unwrap_err();
    assert_eq!(err, ErrorCode::MaxShardsReached);
    assert_eq!(master.total_shards, MAX_SHARDS as u8);
}

#[test]
fn get_shard_respects_bounds_and_order() {
    let mut master = fresh_master(1);
    master.register_shard(handle(10), 2_000).unwrap();
    master.register_shard(handle(11), 2_001).unwrap();
    assert_eq!(master.get_shard(0), Some(handle(10)));
    assert_eq!(master.get_shard(1), Some(handle(11)));
    assert_eq!(master.get_shard(2), None);
    assert_eq!(master.get_active_shard(), Some(handle(11)));
}

#[test]
fn get_active_shard_is_none_before_any_shard() {
    let master = fresh_master(1);
    assert_eq!(master.get_active_shard(), None);
}

#[test]
fn needs_new_shard_at_start_and_at_capacity() {
    let mut master = fresh_master(1);
    assert!(master.needs_new_shard(0));
    master.register_shard(handle(10), 2_000).unwrap();
    assert!(!master.needs_new_shard(50));
    assert!(master.needs_new_shard(FILES_PER_SHARD));
}

#[test]
fn advance_active_shard_needs_a_later_shard() {
    let mut master = fresh_master(1);
    master.register_shard(handle(10), 2_000).unwrap();
    let err = master.advance_active_shard(2_001).unwrap_err();
    assert_eq!(err, ErrorCode::NoAvailableShard);
    master.register_shard(handle(11), 2_002).unwrap();
    // Registering moved the active index to the newest shard already.
    assert_eq!(master.active_shard_index, 1);
    master.active_shard_index = 0;
    master.advance_active_shard(2_003).unwrap();
    assert_eq!(master.active_shard_index, 1);
}

#[test]
fn file_counters_move_and_saturate() {
    let mut master = fresh_master(1);
    master.add_file(500, 2_000);
    master.add_file(200, 2_001);
    assert_eq!(master.total_file_count, 2);
    assert_eq!(master.total_storage, 700);
    master.remove_file(200, 2_002);
    assert_eq!(master.total_file_count, 1);
    assert_eq!(master.total_storage, 500);
    assert_eq!(master.updated_at, 2_002);

    master.total_storage = u64::MAX - 10;
    master.add_file(100, 2_003);
    assert_eq!(master.total_storage, u64::MAX);

    master.total_file_count = 0;
    master.remove_file(u64::MAX, 2_004);
    assert_eq!(master.total_file_count, 0);
    assert_eq!(master.total_storage, 0);
}
