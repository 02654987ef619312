//! A partitioned, capacity-bounded storage engine for per-owner file metadata.
//!
//! A root controller ([`user_vault_master::UserVaultMaster`]) owns an ordered
//! list of up to ten fixed-capacity partitions
//! ([`user_vault_shard::UserVaultShard`], 100 slots each) and keeps aggregate
//! counters.  A lookup table ([`vault_index::UserVaultIndex`]) maps each
//! 16-byte file identifier to its (partition, slot) coordinates.  The
//! [`sharding::ShardedVault`] store ties the three structures together and
//! keeps them mutually consistent across registrations and removals.

pub mod errors;
pub mod file_record;
pub mod ids;
pub mod sharding;
pub mod user_vault_master;
pub mod user_vault_shard;
pub mod vault_index;
