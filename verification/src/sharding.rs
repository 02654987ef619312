//! Orchestration over the keyed store of one owner's structures.
//!
//! [`ShardedVault`] holds the root controller, the lookup index and the
//! created partitions of one owner, standing in for the host's durable
//! per-structure storage.  Each orchestrated operation validates everything
//! first and only then mutates, so a failed operation leaves no partial
//! state, and every operation preserves the global invariant that the
//! controller's file total, the sum of the partitions' counts and the index's
//! entry count agree.

use vstd::prelude::*;

use crate::errors::BlockDriveError;
use crate::file_record::FileRecord;
use crate::file_record::FileStatus;
use crate::file_record::SecurityLevel;
use crate::ids::FileId;
use crate::ids::Handle;
use crate::user_vault_master::MAX_SHARDS;
use crate::user_vault_master::UserVaultMaster;
use crate::user_vault_shard::MAX_FILES_PER_SHARD;
use crate::user_vault_shard::ShardStatus;
use crate::user_vault_shard::UserVaultShard;
use crate::vault_index::MAX_INDEX_ENTRIES;
use crate::vault_index::IndexEntry;
use crate::vault_index::UserVaultIndex;
use crate::vault_index::contains_id;
use crate::vault_index::entry_ids;
use crate::vault_index::lemma_find_from_result;
use crate::vault_index::lemma_spec_find_contains;
use crate::vault_index::spec_find;

verus! {

/// The number of files the partitions hold altogether.
pub open spec fn sum_file_counts(s: Seq<UserVaultShard>) -> int
    decreases s.len(),
{
    if s.len() == 0 {
        0
    } else {
        sum_file_counts(s.drop_last()) + s.last().file_count
    }
}

/// Appending a partition adds its count to the total.
pub proof fn lemma_sum_push(s: Seq<UserVaultShard>, x: UserVaultShard)
    ensures
        sum_file_counts(s.push(x)) == sum_file_counts(s) + x.file_count,
{
    assert(s.push(x).drop_last() =~= s);
}

/// Replacing one partition shifts the total by the difference of the two
/// counts.
pub proof fn lemma_sum_update(s: Seq<UserVaultShard>, i: int, x: UserVaultShard)
    requires
        0 <= i < s.len(),
    ensures
        sum_file_counts(s.update(i, x)) == sum_file_counts(s) - s[i].file_count + x.file_count,
    decreases s.len(),
{
    if i == s.len() - 1 {
        assert(s.update(i, x).drop_last() =~= s.drop_last());
    } else {
        assert(s.update(i, x).drop_last() =~= s.drop_last().update(i, x));
        lemma_sum_update(s.drop_last(), i, x);
    }
}

/// What a wire security level of 0, 1 or 2 decodes to.
pub open spec fn decode_security_level(value: u8) -> SecurityLevel {
    if value == 0 {
        SecurityLevel::Standard
    } else if value == 1 {
        SecurityLevel::Enhanced
    } else {
        SecurityLevel::Maximum
    }
}

/// The keyed store of one owner's structures: controller, index, and the
/// partitions created so far, in index order.
pub struct ShardedVault {
    /// The root controller.
    pub master: UserVaultMaster,
    /// The lookup index.
    pub index: UserVaultIndex,
    /// The partitions, `shards[i]` carrying `shard_index == i`.
    pub shards: Vec<UserVaultShard>,
}

impl ShardedVault {
    /// The global cross-structure agreement: the controller's file total,
    /// the sum of the partitions' counts and the index's entry count are one
    /// number.
    pub open spec fn consistent(self) -> bool {
        &&& self.master.total_file_count == self.index.entries@.len()
        &&& sum_file_counts(self.shards@) == self.index.entries@.len()
    }

    /// Validity of the whole store: each structure is valid on its own, the
    /// partition list mirrors the controller, ownership and parent links
    /// agree, every index entry points inside the created partitions, and
    /// the three counters agree.
    pub open spec fn wf(self) -> bool {
        &&& self.master.wf()
        &&& self.index.wf()
        &&& self.shards@.len() == self.master.total_shards
        &&& forall|i: int| 0 <= i < self.shards@.len() ==> (#[trigger] self.shards@[i]).wf()
        &&& forall|i: int|
            0 <= i < self.shards@.len() ==> (#[trigger] self.shards@[i]).shard_index == i
        &&& forall|i: int|
            0 <= i < self.shards@.len() ==> (#[trigger] self.shards@[i]).owner == self.master.owner
        &&& forall|i: int|
            0 <= i < self.shards@.len() ==> (#[trigger] self.shards@[i]).vault_master
                == self.index.vault_master
        &&& self.index.owner == self.master.owner
        &&& forall|k: int|
            0 <= k < self.index.entries@.len() ==> (#[trigger] self.index.entries@[k]).shard_index
                < self.master.total_shards
        &&& forall|k: int|
            0 <= k < self.index.entries@.len() ==> (#[trigger] self.index.entries@[k]).slot_index
                < MAX_FILES_PER_SHARD
        &&& self.consistent()
    }

    /// Set up an owner's store: a zeroed controller and an empty index, no
    /// partitions yet.
    ///
    /// `vault_master` is the host-derived handle of the controller, recorded
    /// as the index's parent link and later as each partition's.
    pub fn initialize_vault_master(owner: Handle, vault_master: Handle, timestamp: i64) -> (v:
        ShardedVault)
        ensures
            v.wf(),
            v.master.owner == owner,
            v.master.total_file_count == 0,
            v.master.total_shards == 0,
            v.master.active_shard_index == 0,
            v.master.total_storage == 0,
            v.master.created_at == timestamp,
            v.master.updated_at == timestamp,
            v.index.vault_master == vault_master,
            v.index.owner == owner,
            v.index.entry_count == 0,
            v.index.entries@ == Seq::<IndexEntry>::empty(),
            v.index.created_at == timestamp,
            v.index.updated_at == timestamp,
            v.shards@ == Seq::<UserVaultShard>::empty(),
    {
        let mut master = UserVaultMaster::default();
        master.initialize(owner, timestamp);
        let mut index = UserVaultIndex::default();
        index.initialize(vault_master, owner, timestamp);
        let vault = ShardedVault { master, index, shards: Vec::new() };
        proof {
            assert(vault.shards@ =~= Seq::<UserVaultShard>::empty());
        }
        vault
    }

    /// Create the next partition.
    ///
    /// Creation is strictly sequential: the caller must pass `shard_index ==
    /// total_shards`, and at most ten partitions can exist.  `shard_handle`
    /// is the host-derived handle of the new partition, recorded in the
    /// controller.  On failure the store is unchanged.
    pub fn create_shard(&mut self, shard_index: u8, shard_handle: Handle, timestamp: i64) -> (r:
        Result<u8, BlockDriveError>)
        requires
            old(self).wf(),
        ensures
            final(self).wf(),
            shard_index != old(self).master.total_shards ==> {
                &&& r == Err::<u8, BlockDriveError>(BlockDriveError::InvalidShardIndex)
                &&& *final(self) == *old(self)
            },
            (shard_index == old(self).master.total_shards && old(self).master.total_shards
                >= MAX_SHARDS) ==> {
                &&& r == Err::<u8, BlockDriveError>(BlockDriveError::MaxShardsReached)
                &&& *final(self) == *old(self)
            },
            (shard_index == old(self).master.total_shards && old(self).master.total_shards
                < MAX_SHARDS) ==> {
                &&& r == Ok::<u8, BlockDriveError>(shard_index)
                &&& final(self).master.total_shards == old(self).master.total_shards + 1
                &&& final(self).master.active_shard_index == shard_index
                &&& final(self).master.shard_pointers@ == old(self).master.shard_pointers@.update(
                    shard_index as int,
                    Some(shard_handle),
                )
                &&& final(self).master.total_file_count == old(self).master.total_file_count
                &&& final(self).master.total_storage == old(self).master.total_storage
                &&& final(self).master.owner == old(self).master.owner
                &&& final(self).master.created_at == old(self).master.created_at
                &&& final(self).master.updated_at == timestamp
                &&& final(self).index == old(self).index
                &&& final(self).shards@.len() == old(self).shards@.len() + 1
                &&& forall|j: int|
                    0 <= j < old(self).shards@.len() ==> final(self).shards@[j] == old(self).shards@[j]
                &&& final(self).shards@.last().shard_index == shard_index
                &&& final(self).shards@.last().file_count == 0
                &&& final(self).shards@.last().status == ShardStatus::Active
                &&& final(self).shards@.last().file_records@ == Seq::new(
                    MAX_FILES_PER_SHARD as nat,
                    |i: int| None::<Handle>,
                )
                &&& final(self).shards@.last().owner == old(self).master.owner
                &&& final(self).shards@.last().vault_master == old(self).index.vault_master
                &&& final(self).shards@.last().created_at == timestamp
                &&& final(self).shards@.last().updated_at == timestamp
            },
    {
        if shard_index != self.master.total_shards {
            return Err(BlockDriveError::InvalidShardIndex);
        }
        if !self.master.can_create_shard() {
            return Err(BlockDriveError::MaxShardsReached);
        }
        let mut shard = UserVaultShard::default();
        shard.initialize(self.index.vault_master, self.master.owner, shard_index, timestamp);
        match self.master.register_shard(shard_handle, timestamp) {
            Ok(_assigned) => {},
            Err(_) => {
                proof {
                    assert(false);
                }
                return Err(BlockDriveError::MaxShardsReached);
            },
        }
        proof {
            lemma_sum_push(self.shards@, shard);
        }
        self.shards.push(shard);
        Ok(shard_index)
    }

    /// Register a file into the given partition: materialize its record,
    /// store the record handle in the partition, index the identifier, and
    /// update the controller's totals — as one unit.
    ///
    /// All validations run before any structure is mutated, so a failure
    /// leaves no partial state.  Failures, in order of precedence: the
    /// partition must exist (`InvalidShardIndex`), have capacity
    /// (`ShardFull`); the security level must decode
    /// (`InvalidSecurityLevel`); the index must have room (`IndexFull`) and
    /// not already hold the identifier (`DuplicateFileId`).
    ///
    /// Returns the slot the record handle was stored in, and the
    /// materialized record for the host to persist under
    /// `file_record_pubkey`.
    pub fn register_file_sharded(
        &mut self,
        file_id: FileId,
        shard_index: u8,
        filename_hash: [u8; 32],
        file_size: u64,
        encrypted_size: u64,
        mime_type_hash: [u8; 32],
        security_level: u8,
        encryption_commitment: [u8; 32],
        critical_bytes_commitment: [u8; 32],
        primary_cid: [u8; 64],
        file_record_pubkey: Handle,
        timestamp: i64,
    ) -> (r: Result<(u8, FileRecord), BlockDriveError>)
        requires
            old(self).wf(),
        ensures
            final(self).wf(),
            !old(self).can_register(file_id, shard_index, security_level) ==> {
                &&& r == Err::<(u8, FileRecord), BlockDriveError>(
                    old(self).register_error(file_id, shard_index, security_level),
                )
                &&& final(self).master == old(self).master
                &&& final(self).index == old(self).index
                &&& final(self).shards@ == old(self).shards@
            },
            old(self).can_register(file_id, shard_index, security_level) ==> {
                let slot = old(self).shards@[shard_index as int].file_count;
                &&& r matches Ok(pair) && {
                    &&& pair.0 == slot
                    &&& pair.1.vault == old(self).index.vault_master
                    &&& pair.1.owner == old(self).master.owner
                    &&& pair.1.file_id == file_id
                    &&& pair.1.filename_hash == filename_hash
                    &&& pair.1.file_size == file_size
                    &&& pair.1.encrypted_size == encrypted_size
                    &&& pair.1.mime_type_hash == mime_type_hash
                    &&& pair.1.security_level == decode_security_level(security_level)
                    &&& pair.1.encryption_commitment == encryption_commitment
                    &&& pair.1.critical_bytes_commitment == critical_bytes_commitment
                    &&& pair.1.primary_cid == primary_cid
                    &&& pair.1.redundancy_cid@ == Seq::new(64, |i: int| 0u8)
                    &&& pair.1.provider_count == 1
                    &&& pair.1.created_at == timestamp
                    &&& pair.1.accessed_at == timestamp
                    &&& pair.1.status == FileStatus::Active
                    &&& pair.1.is_shared == false
                    &&& pair.1.delegation_count == 0
                }
                &&& final(self).shards@.len() == old(self).shards@.len()
                &&& forall|j: int|
                    0 <= j < old(self).shards@.len() && j != shard_index ==> final(self).shards@[j] == old(self).shards@[j]
                &&& final(self).shards@[shard_index as int].file_records@ == old(self).shards@[shard_index as int].file_records@.update(
                    slot as int,
                    Some(file_record_pubkey),
                )
                &&& final(self).shards@[shard_index as int].file_count == slot + 1
                &&& final(self).shards@[shard_index as int].status == (if slot + 1
                    == MAX_FILES_PER_SHARD {
                    ShardStatus::Full
                } else {
                    ShardStatus::Active
                })
                &&& final(self).shards@[shard_index as int].updated_at == timestamp
                &&& final(self).index.entries@ == old(self).index.entries@.push(
                    (IndexEntry { file_id, shard_index, slot_index: slot }),
                )
                &&& final(self).index.updated_at == timestamp
                &&& final(self).master.total_file_count == old(self).master.total_file_count + 1
                &&& final(self).master.total_storage == old(self).master.total_storage.saturating_add(file_size)
                &&& final(self).master.total_shards == old(self).master.total_shards
                &&& final(self).master.active_shard_index == old(self).master.active_shard_index
                &&& final(self).master.shard_pointers == old(self).master.shard_pointers
                &&& final(self).master.updated_at == timestamp
            },
    {
        if shard_index >= self.master.total_shards {
            return Err(BlockDriveError::InvalidShardIndex);
        }
        let ghost pre = *self;
        let mut shard = self.shards.remove(shard_index as usize);
        if !shard.has_capacity() {
            self.shards.insert(shard_index as usize, shard);
            proof {
                assert(self.shards@ =~= pre.shards@);
            }
            return Err(BlockDriveError::ShardFull);
        }
        let sec_level = match SecurityLevel::from_u8(security_level) {
            Some(level) => level,
            None => {
                self.shards.insert(shard_index as usize, shard);
                proof {
                    assert(self.shards@ =~= pre.shards@);
                }
                return Err(BlockDriveError::InvalidSecurityLevel);
            },
        };
        if !self.index.has_capacity() {
            self.shards.insert(shard_index as usize, shard);
            proof {
                assert(self.shards@ =~= pre.shards@);
            }
            return Err(BlockDriveError::IndexFull);
        }
        let duplicate = self.index.find_entry(&file_id);
        proof {
            lemma_spec_find_contains(self.index.entries@, file_id@);
        }
        if duplicate.is_some() {
            self.shards.insert(shard_index as usize, shard);
            proof {
                assert(self.shards@ =~= pre.shards@);
            }
            return Err(BlockDriveError::DuplicateFileId);
        }
        // Everything is validated; the mutations below cannot fail.
        let record = FileRecord::new(
            self.index.vault_master,
            self.master.owner,
            file_id,
            filename_hash,
            file_size,
            encrypted_size,
            mime_type_hash,
            sec_level,
            encryption_commitment,
            critical_bytes_commitment,
            primary_cid,
            timestamp,
        );
        let slot = match shard.add_file(file_record_pubkey, timestamp) {
            Ok(slot) => slot,
            Err(_) => {
                proof {
                    assert(false);
                }
                return Err(BlockDriveError::ShardFull);
            },
        };
        self.shards.insert(shard_index as usize, shard);
        match self.index.add_entry(file_id, shard_index, slot, timestamp) {
            Ok(()) => {},
            Err(_) => {
                proof {
                    assert(false);
                }
                return Err(BlockDriveError::DuplicateFileId);
            },
        }
        self.master.add_file(file_size, timestamp);
        proof {
            assert(self.shards@ =~= pre.shards@.update(
                shard_index as int,
                self.shards@[shard_index as int],
            ));
            lemma_sum_update(
                pre.shards@,
                shard_index as int,
                self.shards@[shard_index as int],
            );
        }
        Ok((slot, record))
    }

    /// Whether a registration with these arguments is accepted.
    pub open spec fn can_register(self, file_id: FileId, shard_index: u8, security_level: u8) -> bool {
        &&& shard_index < self.master.total_shards
        &&& self.shards@[shard_index as int].status is Active
        &&& self.shards@[shard_index as int].file_count < MAX_FILES_PER_SHARD
        &&& security_level <= 2
        &&& self.index.entries@.len() < MAX_INDEX_ENTRIES
        &&& !contains_id(self.index.entries@, file_id@)
    }

    /// The error a rejected registration reports, by validation order.
    pub open spec fn register_error(
        self,
        file_id: FileId,
        shard_index: u8,
        security_level: u8,
    ) -> BlockDriveError {
        if shard_index >= self.master.total_shards {
            BlockDriveError::InvalidShardIndex
        } else if !(self.shards@[shard_index as int].status is Active
            && self.shards@[shard_index as int].file_count < MAX_FILES_PER_SHARD) {
            BlockDriveError::ShardFull
        } else if security_level > 2 {
            BlockDriveError::InvalidSecurityLevel
        } else if self.index.entries@.len() >= MAX_INDEX_ENTRIES {
            BlockDriveError::IndexFull
        } else {
            BlockDriveError::DuplicateFileId
        }
    }

    /// Look up which partition and slot hold a file.
    pub fn query_file_location(&self, file_id: &FileId) -> (r: Result<(u8, u8), BlockDriveError>)
        ensures
            spec_find(self.index.entries@, file_id@) matches Some(loc) ==> r == Ok::<
                (u8, u8),
                BlockDriveError,
            >(loc),
            spec_find(self.index.entries@, file_id@) is None ==> r == Err::<
                (u8, u8),
                BlockDriveError,
            >(BlockDriveError::FileNotFound),
    {
        match self.index.find_entry(file_id) {
            Some(location) => Ok(location),
            None => Err(BlockDriveError::FileNotFound),
        }
    }

    /// Remove a registered file: clear its partition slot, drop its index
    /// entry, and update the controller's totals — as one unit.
    ///
    /// `file_size` is the size recorded on the file's record, which the host
    /// fetches via the returned coordinates.  Fails `FileNotFound` when the
    /// identifier is not indexed, `SlotAlreadyEmpty` when the indexed slot
    /// no longer holds a handle; either way the store is unchanged.
    pub fn remove_file_sharded(&mut self, file_id: &FileId, file_size: u64, timestamp: i64) -> (r:
        Result<(u8, u8), BlockDriveError>)
        requires
            old(self).wf(),
        ensures
            final(self).wf(),
            spec_find(old(self).index.entries@, file_id@) is None ==> {
                &&& r == Err::<(u8, u8), BlockDriveError>(BlockDriveError::FileNotFound)
                &&& *final(self) == *old(self)
            },
            spec_find(old(self).index.entries@, file_id@) matches Some(loc)
                ==> old(self).shards@[loc.0 as int].file_records@[loc.1 as int] is None ==> {
                &&& r == Err::<(u8, u8), BlockDriveError>(BlockDriveError::SlotAlreadyEmpty)
                &&& final(self).master == old(self).master
                &&& final(self).index == old(self).index
                &&& final(self).shards@ == old(self).shards@
            },
            spec_find(old(self).index.entries@, file_id@) matches Some(loc)
                ==> old(self).shards@[loc.0 as int].file_records@[loc.1 as int] is Some ==> {
                &&& r == Ok::<(u8, u8), BlockDriveError>(loc)
                &&& final(self).shards@.len() == old(self).shards@.len()
                &&& forall|j: int|
                    0 <= j < old(self).shards@.len() && j != loc.0 ==> final(self).shards@[j]
                        == old(self).shards@[j]
                &&& final(self).shards@[loc.0 as int].file_records@ == old(self).shards@[loc.0 as int].file_records@.update(loc.1 as int, None::<Handle>)
                &&& final(self).shards@[loc.0 as int].file_count == old(self).shards@[loc.0 as int].file_count - 1
                &&& final(self).shards@[loc.0 as int].status == (if old(self).shards@[loc.0 as int].status is Full {
                    ShardStatus::Active
                } else {
                    old(self).shards@[loc.0 as int].status
                })
                &&& final(self).index.entries@.len() == old(self).index.entries@.len() - 1
                &&& entry_ids(final(self).index.entries@).to_multiset() == entry_ids(
                    old(self).index.entries@,
                ).to_multiset().remove(file_id@)
                &&& !contains_id(final(self).index.entries@, file_id@)
                &&& final(self).index.updated_at == timestamp
                &&& final(self).master.total_file_count == old(self).master.total_file_count - 1
                &&& final(self).master.total_storage == old(self).master.total_storage.saturating_sub(file_size)
                &&& final(self).master.total_shards == old(self).master.total_shards
                &&& final(self).master.active_shard_index == old(self).master.active_shard_index
                &&& final(self).master.shard_pointers == old(self).master.shard_pointers
                &&& final(self).master.updated_at == timestamp
            },
    {
        let location = match self.index.find_entry(file_id) {
            Some(location) => location,
            None => {
                return Err(BlockDriveError::FileNotFound);
            },
        };
        let (target_shard, target_slot) = location;
        proof {
            lemma_find_from_result(self.index.entries@, file_id@, 0);
            lemma_spec_find_contains(self.index.entries@, file_id@);
        }
        let ghost pre = *self;
        let mut shard = self.shards.remove(target_shard as usize);
        if shard.get_file(target_slot).is_none() {
            self.shards.insert(target_shard as usize, shard);
            proof {
                assert(self.shards@ =~= pre.shards@);
            }
            return Err(BlockDriveError::SlotAlreadyEmpty);
        }
        match shard.remove_file(target_slot, timestamp) {
            Ok(()) => {},
            Err(_) => {
                proof {
                    assert(false);
                }
                return Err(BlockDriveError::SlotAlreadyEmpty);
            },
        }
        self.shards.insert(target_shard as usize, shard);
        match self.index.remove_entry(file_id, timestamp) {
            Ok(()) => {},
            Err(_) => {
                proof {
                    assert(false);
                }
                return Err(BlockDriveError::FileNotFound);
            },
        }
        self.master.remove_file(file_size, timestamp);
        proof {
            assert(self.shards@ =~= pre.shards@.update(
                target_shard as int,
                self.shards@[target_shard as int],
            ));
            lemma_sum_update(
                pre.shards@,
                target_shard as int,
                self.shards@[target_shard as int],
            );
            let post_entries = self.index.entries@;
            assert forall|k: int|
                0 <= k < post_entries.len() implies (#[trigger] post_entries[k]).shard_index
                < self.master.total_shards && post_entries[k].slot_index < MAX_FILES_PER_SHARD by {
                let s = pre.index.entries@;
                let i = choose|i: int|
                    0 <= i < s.len() && (#[trigger] s[i]).file_id@ == file_id@ && post_entries
                        == s.update(i, s.last()).drop_last();
                assert(post_entries[k] == s.update(i, s.last())[k]);
            }
        }
        Ok((target_shard, target_slot))
    }
}

} // verus!
