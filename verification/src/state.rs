//! The persisted state record and its fixed byte layout.
//!
//! The record holds the single most recently derived value; no history is
//! retained. Its persisted representation is the fixed-width little-endian
//! encoding of that one unsigned 32-bit field, with no version tag, magic
//! number, checksum or padding.

use crate::errors::UpdateError;
use vstd::bytes::lemma_auto_spec_u32_to_from_le_bytes;
use vstd::bytes::spec_u32_from_le_bytes;
use vstd::bytes::spec_u32_to_le_bytes;
use vstd::bytes::u32_from_le_bytes;
use vstd::bytes::u32_to_le_bytes;
use vstd::prelude::*;

verus! {

/// The byte length of the persisted record layout.
pub const RECORD_LEN: usize = 4;

/// The persisted record: the most recently derived value.
#[derive(Clone, Copy, Debug, PartialEq, Eq, Structural)]
pub struct RandomNumber {
    pub number: u32,
}

impl RandomNumber {
    /// A record is well formed when its value lies in `[0, 100)`.
    pub open spec fn wf(&self) -> bool {
        self.number < 100
    }

    /// Replaces the stored value with a newly derived one, leaving no other
    /// state behind (the record has no other field).
    pub fn update(&mut self, new_value: u32)
        requires
            new_value < 100,
        ensures
            final(self).number == new_value,
            final(self).wf(),
    {
        self.number = new_value;
    }
}

/// Decodes the persisted bytes into a record. Exactly `RECORD_LEN` bytes
/// decode; every other length is a malformed record.
pub fn decode_record(data: &[u8]) -> (result: Result<RandomNumber, UpdateError>)
    ensures
        data@.len() == RECORD_LEN ==> {
            &&& result is Ok
            &&& result->Ok_0.number == spec_u32_from_le_bytes(data@)
            &&& data@ == spec_u32_to_le_bytes(result->Ok_0.number)
        },
        data@.len() != RECORD_LEN ==> result == Err::<RandomNumber, UpdateError>(
            UpdateError::MalformedExistingRecord,
        ),
{
    if data.len() != RECORD_LEN {
        return Err(UpdateError::MalformedExistingRecord);
    }
    let number = u32_from_le_bytes(data);
    proof {
        lemma_auto_spec_u32_to_from_le_bytes();
    }
    Ok(RandomNumber { number })
}

/// Encodes the record into the front of the available storage, leaving the
/// rest of the storage unchanged. Storage shorter than `RECORD_LEN` bytes
/// cannot hold the record: the encoding fails and nothing is written.
pub fn encode_record(record: &RandomNumber, data: &mut Vec<u8>) -> (result: Result<
    (),
    UpdateError,
>)
    ensures
        final(data)@.len() == old(data)@.len(),
        old(data)@.len() >= RECORD_LEN ==> {
            &&& result is Ok
            &&& final(data)@.subrange(0, RECORD_LEN as int) == spec_u32_to_le_bytes(record.number)
            &&& forall|i: int|
                RECORD_LEN <= i < old(data)@.len() ==> final(data)@[i] == old(data)@[i]
        },
        old(data)@.len() < RECORD_LEN ==> {
            &&& result == Err::<(), UpdateError>(UpdateError::SerializationFailure)
            &&& final(data)@ == old(data)@
        },
{
    if data.len() < RECORD_LEN {
        return Err(UpdateError::SerializationFailure);
    }
    let encoded = u32_to_le_bytes(record.number);
    let mut i: usize = 0;
    while i < RECORD_LEN
        invariant
            0 <= i <= RECORD_LEN,
            encoded@ == spec_u32_to_le_bytes(record.number),
            encoded@.len() == RECORD_LEN,
            data@.len() == old(data)@.len(),
            old(data)@.len() >= RECORD_LEN,
            forall|j: int| 0 <= j < i ==> data@[j] == encoded@[j],
            forall|j: int| i <= j < old(data)@.len() ==> data@[j] == old(data)@[j],
        decreases RECORD_LEN - i,
    {
        let byte = encoded[i];
        data.set(i, byte);
        i += 1;
    }
    proof {
        assert(data@.subrange(0, RECORD_LEN as int) =~= encoded@);
    }
    Ok(())
}

} // verus!
