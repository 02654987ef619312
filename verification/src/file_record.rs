//! The leaf record: one file's metadata and content commitments.
//!
//! Created once at registration and never resized; mutated only by
//! storage-metadata updates, archival and access timestamping.  Hashes,
//! commitments and content identifiers are opaque fixed-size byte blobs.

use vstd::prelude::*;

use crate::errors::BlockDriveError;
use crate::ids::FileId;
use crate::ids::Handle;

verus! {

/// The record lifecycle.
#[derive(Clone, Copy, Debug, PartialEq, Eq, Structural, Default)]
pub enum FileStatus {
    /// Live and readable.
    #[default]
    Active,
    /// Kept but frozen.
    Archived,
    /// Removed.
    Deleted,
}

/// The closed three-variant security classification of a file.
#[derive(Clone, Copy, Debug, PartialEq, Eq, Structural, Default)]
pub enum SecurityLevel {
    /// Baseline encryption.
    #[default]
    Standard,
    /// Baseline plus additional verification.
    Enhanced,
    /// Multi-layer encryption.
    Maximum,
}

impl SecurityLevel {
    /// Decode the wire value; only 0, 1 and 2 are valid.
    pub fn from_u8(value: u8) -> (r: Option<SecurityLevel>)
        ensures
            value == 0 ==> r == Some(SecurityLevel::Standard),
            value == 1 ==> r == Some(SecurityLevel::Enhanced),
            value == 2 ==> r == Some(SecurityLevel::Maximum),
            value > 2 ==> r is None,
    {
        match value {
            0 => Some(SecurityLevel::Standard),
            1 => Some(SecurityLevel::Enhanced),
            2 => Some(SecurityLevel::Maximum),
            _ => None,
        }
    }
}

/// One file's on-record metadata and commitments.
#[derive(Debug)]
pub struct FileRecord {
    /// Parent controller handle.
    pub vault: Handle,
    /// Owner identity.
    pub owner: Handle,
    /// The 16-byte file identifier.
    pub file_id: FileId,
    /// Hash of the original filename (kept hashed for privacy).
    pub filename_hash: [u8; 32],
    /// Original file size in bytes.
    pub file_size: u64,
    /// Encrypted file size in bytes.
    pub encrypted_size: u64,
    /// Hash of the MIME type.
    pub mime_type_hash: [u8; 32],
    /// Security classification.
    pub security_level: SecurityLevel,
    /// Commitment to the encrypted content.
    pub encryption_commitment: [u8; 32],
    /// Commitment to the critical bytes.
    pub critical_bytes_commitment: [u8; 32],
    /// Primary storage-provider content identifier.
    pub primary_cid: [u8; 64],
    /// Redundancy storage content identifier, zero until set.
    pub redundancy_cid: [u8; 64],
    /// Number of storage providers holding the file.
    pub provider_count: u8,
    /// Creation timestamp.
    pub created_at: i64,
    /// Last access timestamp.
    pub accessed_at: i64,
    /// Record lifecycle state.
    pub status: FileStatus,
    /// Whether the file is shared with others.
    pub is_shared: bool,
    /// Number of active delegations.
    pub delegation_count: u8,
}

impl FileRecord {
    /// Materialize the record a registration stores: the given metadata, no
    /// redundancy yet, one provider, status `Active`, not shared.
    pub fn new(
        vault: Handle,
        owner: Handle,
        file_id: FileId,
        filename_hash: [u8; 32],
        file_size: u64,
        encrypted_size: u64,
        mime_type_hash: [u8; 32],
        security_level: SecurityLevel,
        encryption_commitment: [u8; 32],
        critical_bytes_commitment: [u8; 32],
        primary_cid: [u8; 64],
        timestamp: i64,
    ) -> (r: FileRecord)
        ensures
            r.vault == vault,
            r.owner == owner,
            r.file_id == file_id,
            r.filename_hash == filename_hash,
            r.file_size == file_size,
            r.encrypted_size == encrypted_size,
            r.mime_type_hash == mime_type_hash,
            r.security_level == security_level,
            r.encryption_commitment == encryption_commitment,
            r.critical_bytes_commitment == critical_bytes_commitment,
            r.primary_cid == primary_cid,
            r.redundancy_cid@ =~= Seq::new(64, |i: int| 0u8),
            r.provider_count == 1,
            r.created_at == timestamp,
            r.accessed_at == timestamp,
            r.status == FileStatus::Active,
            r.is_shared == false,
            r.delegation_count == 0,
    {
        FileRecord {
            vault,
            owner,
            file_id,
            filename_hash,
            file_size,
            encrypted_size,
            mime_type_hash,
            security_level,
            encryption_commitment,
            critical_bytes_commitment,
            primary_cid,
            redundancy_cid: [0u8; 64],
            provider_count: 1,
            created_at: timestamp,
            accessed_at: timestamp,
            status: FileStatus::Active,
            is_shared: false,
            delegation_count: 0,
        }
    }

    /// Whether the record is live.
    pub fn is_active(&self) -> (r: bool)
        ensures
            r <==> self.status is Active,
    {
        self.status == FileStatus::Active
    }

    /// Whether the record is archived.
    pub fn is_archived(&self) -> (r: bool)
        ensures
            r <==> self.status is Archived,
    {
        self.status == FileStatus::Archived
    }

    /// Stamp an access.
    pub fn record_access(&mut self, timestamp: i64)
        ensures
            *final(self) == (FileRecord { accessed_at: timestamp, ..*old(self) }),
    {
        self.accessed_at = timestamp;
    }

    /// Count one more delegation; the file is now shared.
    pub fn add_delegation(&mut self)
        ensures
            final(self).delegation_count == old(self).delegation_count.saturating_add(1),
            final(self).is_shared == true,
            *final(self) == (FileRecord {
                delegation_count: final(self).delegation_count,
                is_shared: true,
                ..*old(self)
            }),
    {
        self.delegation_count = self.delegation_count.saturating_add(1);
        self.is_shared = true;
    }

    /// Count one delegation removed; with none left the file is no longer
    /// shared.
    pub fn remove_delegation(&mut self)
        ensures
            final(self).delegation_count == old(self).delegation_count.saturating_sub(1),
            final(self).is_shared == (if final(self).delegation_count == 0 {
                false
            } else {
                old(self).is_shared
            }),
            *final(self) == (FileRecord {
                delegation_count: final(self).delegation_count,
                is_shared: final(self).is_shared,
                ..*old(self)
            }),
    {
        self.delegation_count = self.delegation_count.saturating_sub(1);
        if self.delegation_count == 0 {
            self.is_shared = false;
        }
    }

    /// Record redundancy storage: a second content identifier and the new
    /// provider count.
    ///
    /// Succeeds exactly when the record is active; on failure it is
    /// unchanged.
    pub fn update_storage(&mut self, redundancy_cid: [u8; 64], provider_count: u8) -> (r: Result<
        (),
        BlockDriveError,
    >)
        ensures
            old(self).status is Active ==> {
                &&& r == Ok::<(), BlockDriveError>(())
                &&& *final(self) == (FileRecord {
                    redundancy_cid,
                    provider_count,
                    ..*old(self)
                })
            },
            !(old(self).status is Active) ==> {
                &&& r == Err::<(), BlockDriveError>(BlockDriveError::FileNotActive)
                &&& *final(self) == *old(self)
            },
    {
        if !self.is_active() {
            return Err(BlockDriveError::FileNotActive);
        }
        self.redundancy_cid = redundancy_cid;
        self.provider_count = provider_count;
        Ok(())
    }

    /// Move the record to the archived state.
    ///
    /// Succeeds exactly when the record is active; on failure it is
    /// unchanged.
    pub fn archive(&mut self) -> (r: Result<(), BlockDriveError>)
        ensures
            old(self).status is Active ==> {
                &&& r == Ok::<(), BlockDriveError>(())
                &&& *final(self) == (FileRecord { status: FileStatus::Archived, ..*old(self) })
            },
            !(old(self).status is Active) ==> {
                &&& r == Err::<(), BlockDriveError>(BlockDriveError::FileNotActive)
                &&& *final(self) == *old(self)
            },
    {
        if !self.is_active() {
            return Err(BlockDriveError::FileNotActive);
        }
        self.status = FileStatus::Archived;
        Ok(())
    }
}

impl Default for FileRecord {
    /// The zeroed record, before any registration.
    fn default() -> (r: FileRecord)
        ensures
            r.vault.is_zero(),
            r.owner.is_zero(),
            r.file_id@ =~= Seq::new(16, |i: int| 0u8),
            r.file_size == 0,
            r.encrypted_size == 0,
            r.security_level == SecurityLevel::Standard,
            r.provider_count == 0,
            r.created_at == 0,
            r.accessed_at == 0,
            r.status == FileStatus::Active,
            r.is_shared == false,
            r.delegation_count == 0,
    {
        let record = FileRecord {
            vault: Handle::zero(),
            owner: Handle::zero(),
            file_id: [0u8; 16],
            filename_hash: [0u8; 32],
            file_size: 0,
            encrypted_size: 0,
            mime_type_hash: [0u8; 32],
            security_level: SecurityLevel::Standard,
            encryption_commitment: [0u8; 32],
            critical_bytes_commitment: [0u8; 32],
            primary_cid: [0u8; 64],
            redundancy_cid: [0u8; 64],
            provider_count: 0,
            created_at: 0,
            accessed_at: 0,
            status: FileStatus::Active,
            is_shared: false,
            delegation_count: 0,
        };
        proof {
            assert(record.file_id@ =~= Seq::new(16, |i: int| 0u8));
        }
        record
    }
}

} // verus!
