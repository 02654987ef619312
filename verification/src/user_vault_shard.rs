//! A partition: the fixed-capacity storage unit holding file-record handles.
//!
//! Each partition has [`MAX_FILES_PER_SHARD`] slots and a three-state
//! lifecycle.  Slots are allocated strictly at index `file_count` on insert
//! (append-only); removal clears a slot without shifting, and a freed slot is
//! never reused by later inserts.

use vstd::prelude::*;

use crate::ids::Handle;

verus! {

/// Maximum files per partition.
pub const MAX_FILES_PER_SHARD: usize = 100;

/// The partition lifecycle.
#[derive(Clone, Copy, Debug, PartialEq, Eq, Structural, Default)]
pub enum ShardStatus {
    /// Accepting new files.
    #[default]
    Active,
    /// At capacity; no new files.
    Full,
    /// Read-only; terminal.
    Archived,
}

/// Errors of the partition's own operations.
#[derive(Clone, Copy, Debug, PartialEq, Eq, Structural)]
pub enum ShardError {
    /// No capacity left (full or archived).
    ShardFull,
    /// The slot index is outside the partition.
    InvalidSlotIndex,
    /// The target slot holds no handle.
    SlotAlreadyEmpty,
    /// The partition is archived and read-only.
    ShardArchived,
}

/// 1 for an occupied slot, 0 for an empty one.
pub open spec fn occ(o: Option<Handle>) -> int {
    if o is Some {
        1
    } else {
        0
    }
}

/// How many slots of `s` hold a handle.
pub open spec fn count_occupied(s: Seq<Option<Handle>>) -> int
    decreases s.len(),
{
    if s.len() == 0 {
        0
    } else {
        count_occupied(s.drop_last()) + occ(s.last())
    }
}

/// The occupied-slot count stays between 0 and the slot count.
pub proof fn lemma_count_occupied_bounds(s: Seq<Option<Handle>>)
    ensures
        0 <= count_occupied(s) <= s.len(),
    decreases s.len(),
{
    if s.len() > 0 {
        lemma_count_occupied_bounds(s.drop_last());
    }
}

/// Overwriting one slot changes the occupied-slot count by exactly the
/// difference of the two slot states.
pub proof fn lemma_count_occupied_update(s: Seq<Option<Handle>>, i: int, v: Option<Handle>)
    requires
        0 <= i < s.len(),
    ensures
        count_occupied(s.update(i, v)) == count_occupied(s) - occ(s[i]) + occ(v),
    decreases s.len(),
{
    if i == s.len() - 1 {
        assert(s.update(i, v).drop_last() =~= s.drop_last());
    } else {
        assert(s.update(i, v).drop_last() =~= s.drop_last().update(i, v));
        lemma_count_occupied_update(s.drop_last(), i, v);
    }
}

/// A sequence with an occupied slot has a positive occupied-slot count.
pub proof fn lemma_count_occupied_at(s: Seq<Option<Handle>>, i: int)
    requires
        0 <= i < s.len(),
        s[i] is Some,
    ensures
        count_occupied(s) >= 1,
    decreases s.len(),
{
    if i == s.len() - 1 {
        lemma_count_occupied_bounds(s.drop_last());
    } else {
        lemma_count_occupied_at(s.drop_last(), i);
    }
}

/// Whether the slot holds a handle with the given bytes.
pub open spec fn slot_matches(o: Option<Handle>, h: Handle) -> bool {
    match o {
        Some(x) => x.bytes@ == h.bytes@,
        None => false,
    }
}

/// The first slot index at or after `k` whose handle matches `h`.
pub open spec fn spec_find_slot(s: Seq<Option<Handle>>, h: Handle, k: int) -> Option<int>
    decreases s.len() - k,
{
    if k < 0 || k >= s.len() {
        None
    } else if slot_matches(s[k], h) {
        Some(k)
    } else {
        spec_find_slot(s, h, k + 1)
    }
}

/// The handles of the occupied slots, in slot order.
pub open spec fn occupied_handles(s: Seq<Option<Handle>>) -> Seq<Handle>
    decreases s.len(),
{
    if s.len() == 0 {
        Seq::empty()
    } else {
        occupied_handles(s.drop_last()) + (match s.last() {
            Some(h) => seq![h],
            None => Seq::empty(),
        })
    }
}

/// The fixed-capacity storage unit: up to 100 file-record handles.
pub struct UserVaultShard {
    /// Parent controller handle.
    pub vault_master: Handle,
    /// Owner identity (denormalized for direct queries).
    pub owner: Handle,
    /// Index of this partition under its controller (0..=9).
    pub shard_index: u8,
    /// Number of files currently accounted to this partition (0..=100).
    pub file_count: u8,
    /// Current lifecycle state.
    pub status: ShardStatus,
    /// The slots, in allocation order; an empty slot holds no handle.
    pub file_records: Vec<Option<Handle>>,
    /// Creation timestamp.
    pub created_at: i64,
    /// Last activity timestamp.
    pub updated_at: i64,
}

impl UserVaultShard {
    /// Structural validity: 100 slots, the count within capacity and at
    /// least the number of occupied slots, and the lifecycle state tied to
    /// the count (`Full` exactly at capacity, never `Active` at capacity).
    pub open spec fn wf(self) -> bool {
        &&& self.file_records@.len() == MAX_FILES_PER_SHARD
        &&& self.file_count <= MAX_FILES_PER_SHARD
        &&& self.status is Full ==> self.file_count == MAX_FILES_PER_SHARD
        &&& self.file_count == MAX_FILES_PER_SHARD ==> !(self.status is Active)
        &&& count_occupied(self.file_records@) <= self.file_count
    }

    /// Empty the partition: no files, all slots free, state `Active`.
    pub fn initialize(
        &mut self,
        vault_master: Handle,
        owner: Handle,
        shard_index: u8,
        timestamp: i64,
    )
        ensures
            final(self).vault_master == vault_master,
            final(self).owner == owner,
            final(self).shard_index == shard_index,
            final(self).file_count == 0,
            final(self).status == ShardStatus::Active,
            final(self).file_records@ =~= Seq::new(
                MAX_FILES_PER_SHARD as nat,
                |i: int| None::<Handle>,
            ),
            final(self).created_at == timestamp,
            final(self).updated_at == timestamp,
            final(self).wf(),
    {
        self.vault_master = vault_master;
        self.owner = owner;
        self.shard_index = shard_index;
        self.file_count = 0;
        self.status = ShardStatus::Active;
        let mut slots: Vec<Option<Handle>> = Vec::new();
        let mut i: usize = 0;
        while i < MAX_FILES_PER_SHARD
            invariant
                i <= MAX_FILES_PER_SHARD,
                slots@.len() == i,
                count_occupied(slots@) == 0,
                forall|j: int| 0 <= j < i ==> (#[trigger] slots@[j]) is None,
            decreases MAX_FILES_PER_SHARD - i,
        {
            proof {
                assert(slots@.push(None::<Handle>).drop_last() =~= slots@);
            }
            slots.push(None);
            i = i + 1;
        }
        self.file_records = slots;
        self.created_at = timestamp;
        self.updated_at = timestamp;
        proof {
            assert(self.file_records@ =~= Seq::new(
                MAX_FILES_PER_SHARD as nat,
                |i: int| None::<Handle>,
            ));
        }
    }

    /// Whether the partition accepts new files at all.
    pub fn is_active(&self) -> (r: bool)
        ensures
            r <==> self.status is Active,
    {
        self.status == ShardStatus::Active
    }

    /// Whether the partition is at capacity or marked full.
    pub fn is_full(&self) -> (r: bool)
        ensures
            r <==> (self.file_count >= MAX_FILES_PER_SHARD || self.status is Full),
    {
        (self.file_count as usize) >= MAX_FILES_PER_SHARD || self.status == ShardStatus::Full
    }

    /// Whether a new file can be stored: active and below capacity.
    pub fn has_capacity(&self) -> (r: bool)
        ensures
            r <==> (self.status is Active && self.file_count < MAX_FILES_PER_SHARD),
    {
        self.is_active() && (self.file_count as usize) < MAX_FILES_PER_SHARD
    }

    /// Store a file-record handle in the next allocation slot.
    ///
    /// Succeeds exactly when the partition is active and below capacity; the
    /// handle is written at slot `file_count`, and the partition turns
    /// `Full` when the count reaches capacity.  On failure the partition is
    /// unchanged.
    pub fn add_file(&mut self, file_record_pubkey: Handle, timestamp: i64) -> (r: Result<
        u8,
        ShardError,
    >)
        requires
            old(self).wf(),
        ensures
            final(self).wf(),
            (old(self).status is Active && old(self).file_count < MAX_FILES_PER_SHARD) ==> {
                &&& r == Ok::<u8, ShardError>(old(self).file_count)
                &&& final(self).file_records@ == old(self).file_records@.update(
                    old(self).file_count as int,
                    Some(file_record_pubkey),
                )
                &&& final(self).file_count == old(self).file_count + 1
                &&& final(self).status == (if old(self).file_count + 1 == MAX_FILES_PER_SHARD {
                    ShardStatus::Full
                } else {
                    ShardStatus::Active
                })
                &&& final(self).updated_at == timestamp
                &&& final(self).vault_master == old(self).vault_master
                &&& final(self).owner == old(self).owner
                &&& final(self).shard_index == old(self).shard_index
                &&& final(self).created_at == old(self).created_at
            },
            !(old(self).status is Active && old(self).file_count < MAX_FILES_PER_SHARD) ==> {
                &&& r == Err::<u8, ShardError>(ShardError::ShardFull)
                &&& *final(self) == *old(self)
            },
    {
        if !self.has_capacity() {
            return Err(ShardError::ShardFull);
        }
        let slot = self.file_count;
        proof {
            lemma_count_occupied_update(
                self.file_records@,
                slot as int,
                Some(file_record_pubkey),
            );
        }
        self.file_records.set(slot as usize, Some(file_record_pubkey));
        self.file_count = self.file_count + 1;
        self.updated_at = timestamp;
        if (self.file_count as usize) >= MAX_FILES_PER_SHARD {
            self.status = ShardStatus::Full;
        }
        Ok(slot)
    }

    /// Clear one slot; the slot stays empty and is never reallocated.
    ///
    /// Succeeds exactly when the slot index is in range and the slot holds a
    /// handle; a full partition turns `Active` again.  On failure the
    /// partition is unchanged.
    pub fn remove_file(&mut self, slot_index: u8, timestamp: i64) -> (r: Result<(), ShardError>)
        requires
            old(self).wf(),
        ensures
            final(self).wf(),
            slot_index >= MAX_FILES_PER_SHARD ==> {
                &&& r == Err::<(), ShardError>(ShardError::InvalidSlotIndex)
                &&& *final(self) == *old(self)
            },
            (slot_index < MAX_FILES_PER_SHARD && old(self).file_records@[slot_index as int]
                is None) ==> {
                &&& r == Err::<(), ShardError>(ShardError::SlotAlreadyEmpty)
                &&& *final(self) == *old(self)
            },
            (slot_index < MAX_FILES_PER_SHARD && old(self).file_records@[slot_index as int]
                is Some) ==> {
                &&& r == Ok::<(), ShardError>(())
                &&& final(self).file_records@ == old(self).file_records@.update(
                    slot_index as int,
                    None::<Handle>,
                )
                &&& final(self).file_count == old(self).file_count - 1
                &&& final(self).status == (if old(self).status is Full {
                    ShardStatus::Active
                } else {
                    old(self).status
                })
                &&& final(self).updated_at == timestamp
                &&& final(self).vault_master == old(self).vault_master
                &&& final(self).owner == old(self).owner
                &&& final(self).shard_index == old(self).shard_index
                &&& final(self).created_at == old(self).created_at
            },
    {
        if (slot_index as usize) >= MAX_FILES_PER_SHARD {
            return Err(ShardError::InvalidSlotIndex);
        }
        if self.file_records[slot_index as usize].is_none() {
            return Err(ShardError::SlotAlreadyEmpty);
        }
        proof {
            lemma_count_occupied_at(self.file_records@, slot_index as int);
            lemma_count_occupied_update(self.file_records@, slot_index as int, None::<Handle>);
        }
        self.file_records.set(slot_index as usize, None);
        self.file_count = self.file_count - 1;
        self.updated_at = timestamp;
        if self.status == ShardStatus::Full {
            self.status = ShardStatus::Active;
        }
        Ok(())
    }

    /// The handle stored at `slot_index`, if the slot is in range and
    /// occupied.
    pub fn get_file(&self, slot_index: u8) -> (r: Option<Handle>)
        requires
            self.wf(),
        ensures
            slot_index >= MAX_FILES_PER_SHARD ==> r is None,
            slot_index < MAX_FILES_PER_SHARD ==> r == self.file_records@[slot_index as int],
    {
        if (slot_index as usize) >= MAX_FILES_PER_SHARD {
            return None;
        }
        self.file_records[slot_index as usize]
    }

    /// The first slot holding the given handle, scanning all slots in order.
    pub fn find_file_slot(&self, file_record_pubkey: &Handle) -> (r: Option<u8>)
        requires
            self.wf(),
        ensures
            r is None <==> spec_find_slot(self.file_records@, *file_record_pubkey, 0) is None,
            r matches Some(k) ==> spec_find_slot(self.file_records@, *file_record_pubkey, 0)
                == Some(k as int),
    {
        let n = self.file_records.len();
        let mut i: usize = 0;
        while i < n
            invariant
                self.wf(),
                n == self.file_records@.len(),
                i <= n,
                spec_find_slot(self.file_records@, *file_record_pubkey, 0) == spec_find_slot(
                    self.file_records@,
                    *file_record_pubkey,
                    i as int,
                ),
            decreases n - i,
        {
            let slot = self.file_records[i];
            let matched = match slot {
                Some(h) => h.equals(file_record_pubkey),
                None => false,
            };
            if matched {
                return Some(i as u8);
            }
            i = i + 1;
        }
        None
    }

    /// The handles of all occupied slots, in slot order.
    pub fn get_all_files(&self) -> (r: Vec<Handle>)
        requires
            self.wf(),
        ensures
            r@ == occupied_handles(self.file_records@),
    {
        let n = self.file_records.len();
        let mut out: Vec<Handle> = Vec::new();
        let mut i: usize = 0;
        while i < n
            invariant
                n == self.file_records@.len(),
                i <= n,
                out@ == occupied_handles(self.file_records@.take(i as int)),
            decreases n - i,
        {
            proof {
                assert(self.file_records@.take(i + 1).drop_last() =~= self.file_records@.take(
                    i as int,
                ));
                assert(self.file_records@.take(i + 1).last() == self.file_records@[i as int]);
            }
            let slot = self.file_records[i];
            match slot {
                Some(h) => {
                    out.push(h);
                },
                None => {},
            }
            i = i + 1;
        }
        proof {
            assert(self.file_records@.take(n as int) =~= self.file_records@);
        }
        out
    }

    /// Force the terminal read-only state; later inserts must fail.
    pub fn archive(&mut self, timestamp: i64)
        requires
            old(self).wf(),
        ensures
            final(self).wf(),
            final(self).status == ShardStatus::Archived,
            final(self).updated_at == timestamp,
            final(self).file_records == old(self).file_records,
            final(self).file_count == old(self).file_count,
            final(self).vault_master == old(self).vault_master,
            final(self).owner == old(self).owner,
            final(self).shard_index == old(self).shard_index,
            final(self).created_at == old(self).created_at,
    {
        self.status = ShardStatus::Archived;
        self.updated_at = timestamp;
    }
}

impl Default for UserVaultShard {
    /// The empty partition, before any initialization.
    fn default() -> (r: UserVaultShard)
        ensures
            r.vault_master.is_zero(),
            r.owner.is_zero(),
            r.shard_index == 0,
            r.file_count == 0,
            r.status == ShardStatus::Active,
            r.created_at == 0,
            r.updated_at == 0,
            r.wf(),
    {
        let mut shard = UserVaultShard {
            vault_master: Handle::zero(),
            owner: Handle::zero(),
            shard_index: 0,
            file_count: 0,
            status: ShardStatus::Active,
            file_records: Vec::new(),
            created_at: 0,
            updated_at: 0,
        };
        shard.initialize(Handle::zero(), Handle::zero(), 0, 0);
        shard
    }
}

} // verus!
