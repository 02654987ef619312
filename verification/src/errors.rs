//! The error vocabulary of the orchestration layer.

use vstd::prelude::*;

verus! {

/// Everything a registration, removal or lookup can fail with.
///
/// Every validation failure aborts the whole operation before any structure
/// is mutated; no error is silently recovered or retried.
#[derive(Clone, Copy, Debug, PartialEq, Eq, Structural)]
pub enum BlockDriveError {
    /// Partition created out of sequence, or registration against a
    /// partition that does not exist.
    InvalidShardIndex,
    /// The ten-partition ceiling was reached.
    MaxShardsReached,
    /// The target partition is at 100 live entries, or archived.
    ShardFull,
    /// The index already holds this file identifier.
    DuplicateFileId,
    /// The 1000-entry index ceiling was reached.
    IndexFull,
    /// Removal, update or lookup missed: no entry with this identifier.
    FileNotFound,
    /// A slot removal named a slot outside the partition.
    InvalidSlotIndex,
    /// A slot removal targeted a slot that is already empty.
    SlotAlreadyEmpty,
    /// The security level is outside the closed three-variant range.
    InvalidSecurityLevel,
    /// The caller is not the owning identity.
    Unauthorized,
    /// A record mutation targeted a record that is not active.
    FileNotActive,
}

} // verus!
