//! The root controller: one per owner, tracking every partition.
//!
//! The controller owns the ordered list of up to [`MAX_SHARDS`] partition
//! handles, the aggregate file and storage counters, and the index of the
//! most recently created partition.  Partition handles are assigned strictly
//! in index order 0, 1, 2, ..., so `total_shards` doubles as "next index to
//! create".

use vstd::prelude::*;

use crate::ids::Handle;

verus! {

/// Maximum number of partitions per owner (100 files each, 1000 files max).
pub const MAX_SHARDS: usize = 10;

/// Files a partition holds before a new partition is needed.
pub const FILES_PER_SHARD: u8 = 100;

/// Errors of the controller's own operations.
#[derive(Clone, Copy, Debug, PartialEq, Eq, Structural)]
pub enum ErrorCode {
    /// The ten-partition ceiling was reached.
    MaxShardsReached,
    /// There is no later partition to advance to.
    NoAvailableShard,
}

/// The per-owner root structure tracking all partitions and totals.
pub struct UserVaultMaster {
    /// Owner identity.
    pub owner: Handle,
    /// Total number of files across all partitions.
    pub total_file_count: u64,
    /// Number of partitions created so far (0..=10).
    pub total_shards: u8,
    /// Index of the most recently created partition.
    pub active_shard_index: u8,
    /// Total storage used across all partitions, in bytes.
    pub total_storage: u64,
    /// Ordered partition handles; index 0 is the first partition, and an
    /// empty slot means the partition is not yet created.
    pub shard_pointers: Vec<Option<Handle>>,
    /// Creation timestamp.
    pub created_at: i64,
    /// Last activity timestamp.
    pub updated_at: i64,
}

impl UserVaultMaster {
    /// Structural validity: ten pointer slots, handles assigned strictly in
    /// index order with no gaps, and the active index inside the created
    /// range.
    pub open spec fn wf(self) -> bool {
        &&& self.shard_pointers@.len() == MAX_SHARDS
        &&& self.total_shards <= MAX_SHARDS
        &&& forall|i: int|
            0 <= i < MAX_SHARDS ==> ((#[trigger] self.shard_pointers@[i]) is Some <==> i
                < self.total_shards)
        &&& self.total_shards == 0 ==> self.active_shard_index == 0
        &&& self.total_shards > 0 ==> self.active_shard_index < self.total_shards
    }

    /// Zero all counters and empty the handle array.
    pub fn initialize(&mut self, owner: Handle, timestamp: i64)
        ensures
            final(self).owner == owner,
            final(self).total_file_count == 0,
            final(self).total_shards == 0,
            final(self).active_shard_index == 0,
            final(self).total_storage == 0,
            final(self).shard_pointers@ =~= Seq::new(MAX_SHARDS as nat, |i: int| None::<Handle>),
            final(self).created_at == timestamp,
            final(self).updated_at == timestamp,
            final(self).wf(),
    {
        self.owner = owner;
        self.total_file_count = 0;
        self.total_shards = 0;
        self.active_shard_index = 0;
        self.total_storage = 0;
        let mut pointers: Vec<Option<Handle>> = Vec::new();
        let mut i: usize = 0;
        while i < MAX_SHARDS
            invariant
                i <= MAX_SHARDS,
                pointers@.len() == i,
                forall|j: int| 0 <= j < i ==> (#[trigger] pointers@[j]) is None,
            decreases MAX_SHARDS - i,
        {
            pointers.push(None);
            i = i + 1;
        }
        self.shard_pointers = pointers;
        self.created_at = timestamp;
        self.updated_at = timestamp;
        proof {
            assert(self.shard_pointers@ =~= Seq::new(MAX_SHARDS as nat, |i: int| None::<Handle>));
        }
    }

    /// Whether a new partition is needed: none exists yet, or the active one
    /// is full.
    pub fn needs_new_shard(&self, active_shard_file_count: u8) -> (r: bool)
        ensures
            r <==> (self.total_shards == 0 || active_shard_file_count >= FILES_PER_SHARD),
    {
        if self.total_shards == 0 {
            return true;
        }
        active_shard_file_count >= FILES_PER_SHARD
    }

    /// Whether another partition may still be created.
    pub fn can_create_shard(&self) -> (r: bool)
        ensures
            r <==> self.total_shards < MAX_SHARDS,
    {
        (self.total_shards as usize) < MAX_SHARDS
    }

    /// Register a newly created partition.
    ///
    /// Succeeds exactly when fewer than ten partitions exist; the new
    /// partition gets index `total_shards`, and the active index moves to it
    /// unconditionally.  On failure the controller is unchanged.
    pub fn register_shard(&mut self, shard_pubkey: Handle, timestamp: i64) -> (r: Result<
        u8,
        ErrorCode,
    >)
        requires
            old(self).wf(),
        ensures
            final(self).wf(),
            old(self).total_shards < MAX_SHARDS ==> {
                &&& r == Ok::<u8, ErrorCode>(old(self).total_shards)
                &&& final(self).total_shards == old(self).total_shards + 1
                &&& final(self).active_shard_index == old(self).total_shards
                &&& final(self).shard_pointers@ == old(self).shard_pointers@.update(
                    old(self).total_shards as int,
                    Some(shard_pubkey),
                )
                &&& final(self).updated_at == timestamp
                &&& final(self).owner == old(self).owner
                &&& final(self).total_file_count == old(self).total_file_count
                &&& final(self).total_storage == old(self).total_storage
                &&& final(self).created_at == old(self).created_at
            },
            old(self).total_shards >= MAX_SHARDS ==> {
                &&& r == Err::<u8, ErrorCode>(ErrorCode::MaxShardsReached)
                &&& *final(self) == *old(self)
            },
    {
        if !self.can_create_shard() {
            return Err(ErrorCode::MaxShardsReached);
        }
        let shard_index = self.total_shards;
        self.shard_pointers.set(shard_index as usize, Some(shard_pubkey));
        self.total_shards = self.total_shards + 1;
        self.active_shard_index = shard_index;
        self.updated_at = timestamp;
        Ok(shard_index)
    }

    /// Account one more file of `file_size` bytes, saturating.
    pub fn add_file(&mut self, file_size: u64, timestamp: i64)
        ensures
            final(self).total_file_count == old(self).total_file_count.saturating_add(1),
            final(self).total_storage == old(self).total_storage.saturating_add(file_size),
            final(self).updated_at == timestamp,
            final(self).owner == old(self).owner,
            final(self).total_shards == old(self).total_shards,
            final(self).active_shard_index == old(self).active_shard_index,
            final(self).shard_pointers == old(self).shard_pointers,
            final(self).created_at == old(self).created_at,
            old(self).wf() ==> final(self).wf(),
    {
        self.total_file_count = self.total_file_count.saturating_add(1);
        self.total_storage = self.total_storage.saturating_add(file_size);
        self.updated_at = timestamp;
    }

    /// Account one file of `file_size` bytes removed, saturating.
    pub fn remove_file(&mut self, file_size: u64, timestamp: i64)
        ensures
            final(self).total_file_count == old(self).total_file_count.saturating_sub(1),
            final(self).total_storage == old(self).total_storage.saturating_sub(file_size),
            final(self).updated_at == timestamp,
            final(self).owner == old(self).owner,
            final(self).total_shards == old(self).total_shards,
            final(self).active_shard_index == old(self).active_shard_index,
            final(self).shard_pointers == old(self).shard_pointers,
            final(self).created_at == old(self).created_at,
            old(self).wf() ==> final(self).wf(),
    {
        self.total_file_count = self.total_file_count.saturating_sub(1);
        self.total_storage = self.total_storage.saturating_sub(file_size);
        self.updated_at = timestamp;
    }

    /// Move the active index to the next partition, if one exists.
    pub fn advance_active_shard(&mut self, timestamp: i64) -> (r: Result<(), ErrorCode>)
        requires
            old(self).wf(),
        ensures
            final(self).wf(),
            old(self).active_shard_index + 1 < old(self).total_shards ==> {
                &&& r == Ok::<(), ErrorCode>(())
                &&& final(self).active_shard_index == old(self).active_shard_index + 1
                &&& final(self).updated_at == timestamp
                &&& final(self).owner == old(self).owner
                &&& final(self).total_file_count == old(self).total_file_count
                &&& final(self).total_shards == old(self).total_shards
                &&& final(self).total_storage == old(self).total_storage
                &&& final(self).shard_pointers == old(self).shard_pointers
                &&& final(self).created_at == old(self).created_at
            },
            old(self).active_shard_index + 1 >= old(self).total_shards ==> {
                &&& r == Err::<(), ErrorCode>(ErrorCode::NoAvailableShard)
                &&& *final(self) == *old(self)
            },
    {
        if !(self.active_shard_index + 1 < self.total_shards) {
            return Err(ErrorCode::NoAvailableShard);
        }
        self.active_shard_index = self.active_shard_index + 1;
        self.updated_at = timestamp;
        Ok(())
    }

    /// The handle of the most recently created partition, if any exists.
    pub fn get_active_shard(&self) -> (r: Option<Handle>)
        requires
            self.wf(),
        ensures
            self.total_shards == 0 ==> r is None,
            self.total_shards > 0 ==> r == self.shard_pointers@[self.active_shard_index as int],
    {
        if self.total_shards == 0 {
            return None;
        }
        self.shard_pointers[self.active_shard_index as usize]
    }

    /// The handle of the partition at `index`, if it was created.
    pub fn get_shard(&self, index: u8) -> (r: Option<Handle>)
        requires
            self.wf(),
        ensures
            index >= self.total_shards ==> r is None,
            index < self.total_shards ==> r == self.shard_pointers@[index as int],
    {
        if index >= self.total_shards {
            return None;
        }
        self.shard_pointers[index as usize]
    }
}

impl Default for UserVaultMaster {
    /// The zeroed controller, before any initialization.
    fn default() -> (r: UserVaultMaster)
        ensures
            r.owner.is_zero(),
            r.total_file_count == 0,
            r.total_shards == 0,
            r.active_shard_index == 0,
            r.total_storage == 0,
            r.created_at == 0,
            r.updated_at == 0,
            r.wf(),
    {
        let mut master = UserVaultMaster {
            owner: Handle::zero(),
            total_file_count: 0,
            total_shards: 0,
            active_shard_index: 0,
            total_storage: 0,
            shard_pointers: Vec::new(),
            created_at: 0,
            updated_at: 0,
        };
        master.initialize(Handle::zero(), 0);
        master
    }
}

} // verus!
