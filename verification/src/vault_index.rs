//! The lookup table: file identifier to (partition, slot) coordinates.
//!
//! A bounded list of entries, scanned linearly.  Insertion rejects duplicate
//! identifiers; removal is a swap-remove (the last entry moves into the freed
//! position), which is O(1) but does not preserve insertion order.

use vstd::prelude::*;
use vstd::seq_lib::group_to_multiset_ensures;

use crate::ids::FileId;
use crate::ids::Handle;
use crate::ids::file_id_eq;

verus! {

/// Maximum entries in the index (supports 1000 files).
pub const MAX_INDEX_ENTRIES: usize = 1000;

/// Errors of the index's own operations.
#[derive(Clone, Copy, Debug, PartialEq, Eq, Structural)]
pub enum IndexError {
    /// The 1000-entry ceiling was reached.
    IndexFull,
    /// The index already holds this file identifier.
    DuplicateFileId,
    /// No entry with this identifier.
    FileNotFound,
}

/// One mapping from a file identifier to its location.
#[derive(Clone, Copy, Debug, PartialEq, Eq)]
pub struct IndexEntry {
    /// The 16-byte file identifier.
    pub file_id: FileId,
    /// Partition holding the file (0..=9).
    pub shard_index: u8,
    /// Slot within that partition (0..=99).
    pub slot_index: u8,
}

impl IndexEntry {
    /// Build an entry from its three parts.
    pub fn new(file_id: FileId, shard_index: u8, slot_index: u8) -> (r: IndexEntry)
        ensures
            r.file_id == file_id,
            r.shard_index == shard_index,
            r.slot_index == slot_index,
    {
        IndexEntry { file_id, shard_index, slot_index }
    }

    /// Whether the identifier is all zero bytes (the unused sentinel).
    pub fn is_empty(&self) -> (r: bool)
        ensures
            r <==> (forall|i: int| 0 <= i < 16 ==> self.file_id@[i] == 0),
    {
        let zero: FileId = [0u8; 16];
        let r = file_id_eq(&self.file_id, &zero);
        proof {
            if forall|i: int| 0 <= i < 16 ==> self.file_id@[i] == 0 {
                assert(self.file_id@ =~= zero@);
            }
        }
        r
    }
}

/// The identifiers of the entries, in entry order.
pub open spec fn entry_ids(s: Seq<IndexEntry>) -> Seq<Seq<u8>> {
    s.map_values(|e: IndexEntry| e.file_id@)
}

/// Whether some entry carries the identifier.
pub open spec fn contains_id(s: Seq<IndexEntry>, id: Seq<u8>) -> bool {
    exists|k: int| 0 <= k < s.len() && (#[trigger] s[k]).file_id@ == id
}

/// No two entries share an identifier.
pub open spec fn unique_ids(s: Seq<IndexEntry>) -> bool {
    forall|i: int, j: int|
        0 <= i < j < s.len() ==> (#[trigger] s[i]).file_id@ != (#[trigger] s[j]).file_id@
}

/// The location stored by the first entry at or after `k` that carries the
/// identifier.
pub open spec fn find_from(s: Seq<IndexEntry>, id: Seq<u8>, k: int) -> Option<(u8, u8)>
    decreases s.len() - k,
{
    if k < 0 || k >= s.len() {
        None
    } else if s[k].file_id@ == id {
        Some((s[k].shard_index, s[k].slot_index))
    } else {
        find_from(s, id, k + 1)
    }
}

/// The location the index maps the identifier to, if any.
pub open spec fn spec_find(s: Seq<IndexEntry>, id: Seq<u8>) -> Option<(u8, u8)> {
    find_from(s, id, 0)
}

/// A scan from `k` hits exactly when an entry at or after `k` carries the
/// identifier.
pub proof fn lemma_find_from_some_iff(s: Seq<IndexEntry>, id: Seq<u8>, k: int)
    requires
        0 <= k <= s.len(),
    ensures
        find_from(s, id, k) is Some <==> exists|j: int|
            k <= j < s.len() && (#[trigger] s[j]).file_id@ == id,
    decreases s.len() - k,
{
    if k < s.len() {
        lemma_find_from_some_iff(s, id, k + 1);
    }
}

/// A successful scan returns the location stored by an entry that carries
/// the identifier.
pub proof fn lemma_find_from_result(s: Seq<IndexEntry>, id: Seq<u8>, k: int)
    requires
        0 <= k <= s.len(),
        find_from(s, id, k) is Some,
    ensures
        exists|j: int|
            k <= j < s.len() && (#[trigger] s[j]).file_id@ == id && find_from(s, id, k) == Some(
                (s[j].shard_index, s[j].slot_index),
            ),
    decreases s.len() - k,
{
    if k < s.len() && s[k].file_id@ != id {
        lemma_find_from_result(s, id, k + 1);
    }
}

/// The whole-index scan hits exactly when the index contains the identifier.
pub proof fn lemma_spec_find_contains(s: Seq<IndexEntry>, id: Seq<u8>)
    ensures
        spec_find(s, id) is Some <==> contains_id(s, id),
{
    lemma_find_from_some_iff(s, id, 0);
}

/// A scan that finds no match before the last position ends by returning
/// the last entry's location when that entry matches.
proof fn lemma_find_from_push(s: Seq<IndexEntry>, entry: IndexEntry, k: int)
    requires
        0 <= k <= s.len(),
        forall|j: int| k <= j < s.len() ==> (#[trigger] s[j]).file_id@ != entry.file_id@,
    ensures
        find_from(s.push(entry), entry.file_id@, k) == Some(
            (entry.shard_index, entry.slot_index),
        ),
    decreases s.len() - k,
{
    let t = s.push(entry);
    if k == s.len() {
        assert(t[k] == entry);
    } else {
        assert(t[k] == s[k]);
        lemma_find_from_push(s, entry, k + 1);
    }
}

/// Round trip: storing an entry for an identifier the index does not yet
/// hold and immediately looking that identifier up returns exactly the
/// stored location.
pub proof fn lemma_add_then_find(entries: Seq<IndexEntry>, entry: IndexEntry)
    requires
        !contains_id(entries, entry.file_id@),
    ensures
        spec_find(entries.push(entry), entry.file_id@) == Some(
            (entry.shard_index, entry.slot_index),
        ),
{
    assert forall|j: int| 0 <= j < entries.len() implies (#[trigger] entries[j]).file_id@
        != entry.file_id@ by {
        if entries[j].file_id@ == entry.file_id@ {
            assert(contains_id(entries, entry.file_id@));
        }
    }
    lemma_find_from_push(entries, entry, 0);
}

/// A swap-remove (overwrite position `i` with the last element, then drop
/// the last position) removes exactly one occurrence of the element at `i`
/// from the multiset of elements.
pub proof fn lemma_swap_remove_to_multiset<A>(s: Seq<A>, i: int)
    requires
        0 <= i < s.len(),
    ensures
        s.update(i, s.last()).drop_last().to_multiset() == s.to_multiset().remove(s[i]),
{
    broadcast use group_to_multiset_ensures;

    let n = s.len() - 1;
    if i == n {
        assert(s.update(i, s.last()) =~= s);
        assert(s.drop_last() =~= s.remove(n));
    } else {
        let t = s.update(i, s.last());
        assert(t.remove(i) =~= s.remove(i));
        assert(t.to_multiset().remove(t[i]) == s.to_multiset().remove(s[i]));
        assert(t[i] == s[n]);
        assert(t.contains(s[n]));
        assert(t.to_multiset().count(s[n]) > 0);
        assert(t.to_multiset() =~= s.to_multiset().remove(s[i]).insert(s[n]));
        assert(t.drop_last() =~= t.remove(n));
        assert(t.remove(n).to_multiset() == t.to_multiset().remove(t[n]));
        assert(t[n] == s[n]);
        assert(s.to_multiset().remove(s[i]).insert(s[n]).remove(s[n]) =~= s.to_multiset().remove(
            s[i],
        ));
    }
}

/// The entries that live in the given partition, in entry order.
pub open spec fn entries_for(s: Seq<IndexEntry>, shard_index: u8) -> Seq<IndexEntry>
    decreases s.len(),
{
    if s.len() == 0 {
        Seq::empty()
    } else {
        entries_for(s.drop_last(), shard_index) + (if s.last().shard_index == shard_index {
            seq![s.last()]
        } else {
            Seq::empty()
        })
    }
}

/// The lookup table of one owner's files.
pub struct UserVaultIndex {
    /// Parent controller handle.
    pub vault_master: Handle,
    /// Owner identity (denormalized for direct queries).
    pub owner: Handle,
    /// Number of entries currently in the index.
    pub entry_count: u16,
    /// Creation timestamp.
    pub created_at: i64,
    /// Last activity timestamp.
    pub updated_at: i64,
    /// The entries, in insertion order until a removal disturbs it.
    pub entries: Vec<IndexEntry>,
}

impl UserVaultIndex {
    /// Structural validity: the counter mirrors the entry list, the list is
    /// bounded, and no identifier occurs twice.
    pub open spec fn wf(self) -> bool {
        &&& self.entry_count == self.entries@.len()
        &&& self.entries@.len() <= MAX_INDEX_ENTRIES
        &&& unique_ids(self.entries@)
    }

    /// Empty the index.
    pub fn initialize(&mut self, vault_master: Handle, owner: Handle, timestamp: i64)
        ensures
            final(self).vault_master == vault_master,
            final(self).owner == owner,
            final(self).entry_count == 0,
            final(self).entries@ == Seq::<IndexEntry>::empty(),
            final(self).created_at == timestamp,
            final(self).updated_at == timestamp,
            final(self).wf(),
    {
        self.vault_master = vault_master;
        self.owner = owner;
        self.entry_count = 0;
        self.created_at = timestamp;
        self.updated_at = timestamp;
        self.entries = Vec::new();
        proof {
            assert(self.entries@ =~= Seq::<IndexEntry>::empty());
        }
    }

    /// Record a file's location.
    ///
    /// Fails `IndexFull` at the 1000-entry ceiling, `DuplicateFileId` when
    /// the identifier is already present; otherwise appends the entry.  On
    /// failure the index is unchanged.
    pub fn add_entry(
        &mut self,
        file_id: FileId,
        shard_index: u8,
        slot_index: u8,
        timestamp: i64,
    ) -> (r: Result<(), IndexError>)
        requires
            old(self).wf(),
        ensures
            final(self).wf(),
            old(self).entries@.len() >= MAX_INDEX_ENTRIES ==> {
                &&& r == Err::<(), IndexError>(IndexError::IndexFull)
                &&& *final(self) == *old(self)
            },
            (old(self).entries@.len() < MAX_INDEX_ENTRIES && contains_id(
                old(self).entries@,
                file_id@,
            )) ==> {
                &&& r == Err::<(), IndexError>(IndexError::DuplicateFileId)
                &&& *final(self) == *old(self)
            },
            (old(self).entries@.len() < MAX_INDEX_ENTRIES && !contains_id(
                old(self).entries@,
                file_id@,
            )) ==> {
                &&& r == Ok::<(), IndexError>(())
                &&& final(self).entries@ == old(self).entries@.push(
                    (IndexEntry { file_id, shard_index, slot_index }),
                )
                &&& final(self).entry_count == old(self).entry_count + 1
                &&& final(self).updated_at == timestamp
                &&& final(self).vault_master == old(self).vault_master
                &&& final(self).owner == old(self).owner
                &&& final(self).created_at == old(self).created_at
            },
    {
        if (self.entry_count as usize) >= MAX_INDEX_ENTRIES {
            return Err(IndexError::IndexFull);
        }
        let found = self.find_entry(&file_id);
        proof {
            lemma_spec_find_contains(self.entries@, file_id@);
        }
        if found.is_some() {
            return Err(IndexError::DuplicateFileId);
        }
        let entry = IndexEntry::new(file_id, shard_index, slot_index);
        self.entries.push(entry);
        self.entry_count = self.entry_count + 1;
        self.updated_at = timestamp;
        proof {
            let s = old(self).entries@;
            assert forall|i: int, j: int| 0 <= i < j < self.entries@.len() implies (
            #[trigger] self.entries@[i]).file_id@ != (#[trigger] self.entries@[j]).file_id@ by {
                if j < s.len() {
                    assert(s[i].file_id@ != s[j].file_id@);
                } else {
                    assert(self.entries@[j] == entry);
                    assert(!contains_id(s, file_id@));
                    assert(s[i].file_id@ != file_id@);
                }
            }
        }
        Ok(())
    }

    /// The position of some entry carrying the identifier, if one exists.
    fn find_position(&self, file_id: &FileId) -> (r: Option<usize>)
        ensures
            r is None ==> forall|j: int|
                0 <= j < self.entries@.len() ==> (#[trigger] self.entries@[j]).file_id@
                    != file_id@,
            r matches Some(i) ==> i < self.entries@.len() && self.entries@[i as int].file_id@
                == file_id@,
    {
        let n = self.entries.len();
        let mut i: usize = 0;
        while i < n
            invariant
                n == self.entries@.len(),
                i <= n,
                forall|j: int| 0 <= j < i ==> (#[trigger] self.entries@[j]).file_id@ != file_id@,
            decreases n - i,
        {
            let entry = self.entries[i];
            if file_id_eq(&entry.file_id, file_id) {
                return Some(i);
            }
            i = i + 1;
        }
        None
    }

    /// Drop a file's entry by swap-remove.
    ///
    /// Fails `FileNotFound` when the identifier is absent; otherwise the
    /// last entry moves into the removed position and the count shrinks by
    /// one.  Exactly one occurrence of the identifier leaves the multiset of
    /// stored identifiers, and a subsequent lookup of it misses.
    pub fn remove_entry(&mut self, file_id: &FileId, timestamp: i64) -> (r: Result<(), IndexError>)
        requires
            old(self).wf(),
        ensures
            final(self).wf(),
            !contains_id(old(self).entries@, file_id@) ==> {
                &&& r == Err::<(), IndexError>(IndexError::FileNotFound)
                &&& *final(self) == *old(self)
            },
            contains_id(old(self).entries@, file_id@) ==> {
                &&& r == Ok::<(), IndexError>(())
                &&& final(self).entries@.len() == old(self).entries@.len() - 1
                &&& final(self).entry_count == old(self).entry_count - 1
                &&& exists|i: int|
                    0 <= i < old(self).entries@.len() && (#[trigger] old(self).entries@[i]).file_id@
                        == file_id@ && final(self).entries@ == old(self).entries@.update(
                        i,
                        old(self).entries@.last(),
                    ).drop_last()
                &&& entry_ids(final(self).entries@).to_multiset() == entry_ids(
                    old(self).entries@,
                ).to_multiset().remove(file_id@)
                &&& !contains_id(final(self).entries@, file_id@)
                &&& final(self).updated_at == timestamp
                &&& final(self).vault_master == old(self).vault_master
                &&& final(self).owner == old(self).owner
                &&& final(self).created_at == old(self).created_at
            },
    {
        let i: usize = match self.find_position(file_id) {
            Some(i) => i,
            None => {
                return Err(IndexError::FileNotFound);
            },
        };
        let ghost s = self.entries@;
        let ghost pos = i as int;
        let _removed = self.entries.swap_remove(i);
        self.entry_count = self.entry_count - 1;
        self.updated_at = timestamp;
        proof {
            let t = s.update(pos, s.last());
            let f = self.entries@;
            assert(f == t.drop_last());
            // Every surviving entry came from a position of `s` other than
            // `pos`, so none carries the removed identifier and no pair
            // collides.
            assert forall|j: int| 0 <= j < f.len() implies (#[trigger] f[j]).file_id@ != file_id@
                by {
                if j != pos {
                    assert(s[j].file_id@ != s[pos].file_id@);
                }
            }
            assert forall|a: int, b: int| 0 <= a < b < f.len() implies (#[trigger] f[a]).file_id@
                != (#[trigger] f[b]).file_id@ by {
                let sa = if a == pos {
                    s.len() - 1
                } else {
                    a
                };
                let sb = if b == pos {
                    s.len() - 1
                } else {
                    b
                };
                assert(f[a] == s[sa]);
                assert(f[b] == s[sb]);
                assert(sa != sb);
            }
            lemma_swap_remove_to_multiset::<Seq<u8>>(entry_ids(s), pos);
            assert(entry_ids(f) =~= entry_ids(s).update(pos, entry_ids(s).last()).drop_last());
            assert(entry_ids(s)[pos] == file_id@);
        }
        Ok(())
    }

    /// Look a file's location up: (partition index, slot index).
    pub fn find_entry(&self, file_id: &FileId) -> (r: Option<(u8, u8)>)
        ensures
            r == spec_find(self.entries@, file_id@),
    {
        let n = self.entries.len();
        let mut i: usize = 0;
        while i < n
            invariant
                n == self.entries@.len(),
                i <= n,
                spec_find(self.entries@, file_id@) == find_from(self.entries@, file_id@, i as int),
            decreases n - i,
        {
            let entry = self.entries[i];
            if file_id_eq(&entry.file_id, file_id) {
                return Some((entry.shard_index, entry.slot_index));
            }
            i = i + 1;
        }
        None
    }

    /// All entries that live in the given partition, in entry order.
    pub fn get_entries_for_shard(&self, shard_index: u8) -> (r: Vec<IndexEntry>)
        ensures
            r@ == entries_for(self.entries@, shard_index),
    {
        let n = self.entries.len();
        let mut out: Vec<IndexEntry> = Vec::new();
        let mut i: usize = 0;
        while i < n
            invariant
                n == self.entries@.len(),
                i <= n,
                out@ == entries_for(self.entries@.take(i as int), shard_index),
            decreases n - i,
        {
            proof {
                assert(self.entries@.take(i + 1).drop_last() =~= self.entries@.take(i as int));
                assert(self.entries@.take(i + 1).last() == self.entries@[i as int]);
            }
            let entry = self.entries[i];
            if entry.shard_index == shard_index {
                out.push(entry);
            }
            i = i + 1;
        }
        proof {
            assert(self.entries@.take(n as int) =~= self.entries@);
        }
        out
    }

    /// Re-point an existing entry at a new location (for rebalancing).
    ///
    /// Fails `FileNotFound` when the identifier is absent; otherwise the
    /// entry is mutated in place and every other entry is untouched.
    pub fn update_entry(
        &mut self,
        file_id: &FileId,
        new_shard_index: u8,
        new_slot_index: u8,
        timestamp: i64,
    ) -> (r: Result<(), IndexError>)
        requires
            old(self).wf(),
        ensures
            final(self).wf(),
            !contains_id(old(self).entries@, file_id@) ==> {
                &&& r == Err::<(), IndexError>(IndexError::FileNotFound)
                &&& *final(self) == *old(self)
            },
            contains_id(old(self).entries@, file_id@) ==> {
                &&& r == Ok::<(), IndexError>(())
                &&& exists|i: int|
                    0 <= i < old(self).entries@.len() && (#[trigger] old(self).entries@[i]).file_id@
                        == file_id@ && final(self).entries@ == old(self).entries@.update(
                        i,
                        (IndexEntry {
                            file_id: old(self).entries@[i].file_id,
                            shard_index: new_shard_index,
                            slot_index: new_slot_index,
                        }),
                    )
                &&& final(self).entry_count == old(self).entry_count
                &&& final(self).updated_at == timestamp
                &&& final(self).vault_master == old(self).vault_master
                &&& final(self).owner == old(self).owner
                &&& final(self).created_at == old(self).created_at
            },
    {
        let i: usize = match self.find_position(file_id) {
            Some(i) => i,
            None => {
                return Err(IndexError::FileNotFound);
            },
        };
        let ghost s = self.entries@;
        let ghost pos = i as int;
        let entry = self.entries[i];
        let updated = IndexEntry {
            file_id: entry.file_id,
            shard_index: new_shard_index,
            slot_index: new_slot_index,
        };
        self.entries.set(i, updated);
        self.updated_at = timestamp;
        proof {
            let f = self.entries@;
            assert forall|a: int, b: int| 0 <= a < b < f.len() implies (#[trigger] f[a]).file_id@
                != (#[trigger] f[b]).file_id@ by {
                assert(f[a].file_id@ == s[a].file_id@);
                assert(f[b].file_id@ == s[b].file_id@);
            }
        }
        Ok(())
    }

    /// Whether another entry can still be recorded.
    pub fn has_capacity(&self) -> (r: bool)
        ensures
            r <==> self.entry_count < MAX_INDEX_ENTRIES,
    {
        (self.entry_count as usize) < MAX_INDEX_ENTRIES
    }

    /// How many files the index maps into the given partition.
    pub fn count_files_in_shard(&self, shard_index: u8) -> (r: u16)
        requires
            self.wf(),
        ensures
            r == entries_for(self.entries@, shard_index).len(),
    {
        let n = self.entries.len();
        let mut count: u16 = 0;
        let mut i: usize = 0;
        while i < n
            invariant
                n == self.entries@.len(),
                n <= MAX_INDEX_ENTRIES,
                i <= n,
                count <= i,
                count == entries_for(self.entries@.take(i as int), shard_index).len(),
            decreases n - i,
        {
            proof {
                assert(self.entries@.take(i + 1).drop_last() =~= self.entries@.take(i as int));
                assert(self.entries@.take(i + 1).last() == self.entries@[i as int]);
            }
            let entry = self.entries[i];
            if entry.shard_index == shard_index {
                count = count + 1;
            }
            i = i + 1;
        }
        proof {
            assert(self.entries@.take(n as int) =~= self.entries@);
        }
        count
    }
}

impl Default for UserVaultIndex {
    /// The empty index, before any initialization.
    fn default() -> (r: UserVaultIndex)
        ensures
            r.vault_master.is_zero(),
            r.owner.is_zero(),
            r.entry_count == 0,
            r.entries@ == Seq::<IndexEntry>::empty(),
            r.created_at == 0,
            r.updated_at == 0,
            r.wf(),
    {
        let mut index = UserVaultIndex {
            vault_master: Handle::zero(),
            owner: Handle::zero(),
            entry_count: 0,
            created_at: 0,
            updated_at: 0,
            entries: Vec::new(),
        };
        index.initialize(Handle::zero(), Handle::zero(), 0);
        index
    }
}

} // verus!
