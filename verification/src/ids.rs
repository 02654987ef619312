//! Opaque identifiers: structure handles and file identifiers.
//!
//! Structures reference one another only through opaque 32-byte handles
//! (content-addressed keys derived by the hosting environment), never through
//! aliasing references.  Files are named by caller-supplied 16-byte
//! identifiers.

use vstd::prelude::*;

verus! {

/// A caller-supplied 16-byte file identifier, unique within one owner's index.
pub type FileId = [u8; 16];

/// An opaque handle standing in for a pointer between structures.
///
/// The hosting environment derives one deterministically per structure
/// instance; the engine only stores and compares them.
#[derive(Clone, Copy, Debug, PartialEq, Eq)]
pub struct Handle {
    pub bytes: [u8; 32],
}

impl Handle {
    /// Whether every byte is zero: the value uninitialized fields start from.
    pub open spec fn is_zero(self) -> bool {
        forall|i: int| 0 <= i < 32 ==> self.bytes@[i] == 0
    }

    /// The all-zero handle.
    pub fn zero() -> (r: Handle)
        ensures
            r.is_zero(),
    {
        Handle { bytes: [0u8; 32] }
    }

    /// Byte-wise equality, usable from verified code.
    pub fn equals(&self, other: &Handle) -> (r: bool)
        ensures
            r <==> self.bytes@ == other.bytes@,
    {
        let mut i: usize = 0;
        while i < 32
            invariant
                i <= 32,
                forall|j: int| 0 <= j < i ==> self.bytes@[j] == other.bytes@[j],
            decreases 32 - i,
        {
            if self.bytes[i] != other.bytes[i] {
                return false;
            }
            i = i + 1;
        }
        proof {
            assert(self.bytes@ =~= other.bytes@);
        }
        true
    }
}

/// Byte-wise equality of two file identifiers, usable from verified code.
pub fn file_id_eq(a: &FileId, b: &FileId) -> (r: bool)
    ensures
        r <==> a@ == b@,
{
    let mut i: usize = 0;
    while i < 16
        invariant
            i <= 16,
            forall|j: int| 0 <= j < i ==> a@[j] == b@[j],
        decreases 16 - i,
    {
        if a[i] != b[i] {
            return false;
        }
        i = i + 1;
    }
    proof {
        assert(a@ =~= b@);
    }
    true
}

} // verus!
