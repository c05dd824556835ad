//! Ownership validation.
//!
//! A persisted record is controlled by exactly one identity: an opaque,
//! fixed-length binary identifier. An invocation may mutate the record only
//! when the record's controlling identity equals the expected controller
//! (the invoking program's own identity). No normalization is performed:
//! the comparison is byte-for-byte equality.

use crate::errors::UpdateError;
use vstd::prelude::*;

verus! {

/// The byte length of every identity.
pub const IDENTITY_LEN: usize = 32;

/// An opaque fixed-length binary identifier of a record controller.
#[derive(Clone, Debug)]
pub struct Identity {
    pub bytes: Vec<u8>,
}

impl Identity {
    /// The identity as the sequence of its bytes.
    pub open spec fn view(&self) -> Seq<u8> {
        self.bytes@
    }

    /// Every identity holds exactly `IDENTITY_LEN` bytes.
    pub open spec fn wf(&self) -> bool {
        self.bytes@.len() == IDENTITY_LEN
    }

    /// Builds an identity from its raw bytes.
    pub fn from_bytes(bytes: Vec<u8>) -> (identity: Identity)
        requires
            bytes@.len() == IDENTITY_LEN,
        ensures
            identity@ == bytes@,
            identity.wf(),
    {
        Identity { bytes }
    }

    /// Byte-for-byte equality with another identity.
    pub fn matches(&self, other: &Identity) -> (same: bool)
        ensures
            same <==> self@ == other@,
    {
        if self.bytes.len() != other.bytes.len() {
            return false;
        }
        let n = self.bytes.len();
        let mut i: usize = 0;
        while i < n
            invariant
                n == self.bytes@.len(),
                n == other.bytes@.len(),
                0 <= i <= n,
                forall|j: int| 0 <= j < i ==> self.bytes@[j] == other.bytes@[j],
            decreases n - i,
        {
            if self.bytes[i] != other.bytes[i] {
                return false;
            }
            i += 1;
        }
        proof {
            assert(self.bytes@ =~= other.bytes@);
        }
        true
    }
}

/// Succeeds exactly when the record's controlling identity equals the
/// expected controller; otherwise fails with `Unauthorized`.
pub fn validate_ownership(record_controller: &Identity, expected_controller: &Identity) -> (result:
    Result<(), UpdateError>)
    ensures
        result is Ok <==> record_controller@ == expected_controller@,
        result is Err ==> result == Err::<(), UpdateError>(UpdateError::Unauthorized),
{
    if record_controller.matches(expected_controller) {
        Ok(())
    } else {
        Err(UpdateError::Unauthorized)
    }
}

} // verus!
