//! The single state transition of the component.
//!
//! One invocation: validate that the record's controlling identity equals
//! the expected controller, derive the bounded value from the counter and
//! the caller's seed bytes, and rewrite the record's persisted bytes.
//! Every failure is fatal and leaves the persisted bytes untouched.

use crate::auth::Identity;
use crate::auth::validate_ownership;
use crate::derivation::derived_value;
use crate::errors::UpdateError;
use crate::state::RECORD_LEN;
use crate::state::decode_record;
use crate::state::encode_record;
use vstd::bytes::spec_u32_to_le_bytes;
use vstd::prelude::*;

verus! {

/// Runs one invocation against the record's persisted bytes.
///
/// The counter comes from the execution environment, the seed bytes from
/// the caller. On success the persisted bytes are overwritten with the
/// little-endian encoding of the newly derived value, which is also
/// returned; on any failure the bytes are left exactly as they were.
pub fn process_instruction(
    expected_controller: &Identity,
    record_controller: &Identity,
    account_data: &mut Vec<u8>,
    counter: u64,
    instruction_data: &[u8],
) -> (result: Result<u32, UpdateError>)
    ensures
        result is Ok <==> (record_controller@ == expected_controller@ && old(account_data)@.len()
            == RECORD_LEN),
        record_controller@ != expected_controller@ ==> {
            &&& result == Err::<u32, UpdateError>(UpdateError::Unauthorized)
            &&& final(account_data)@ == old(account_data)@
        },
        record_controller@ == expected_controller@ && old(account_data)@.len() != RECORD_LEN ==> {
            &&& result == Err::<u32, UpdateError>(UpdateError::MalformedExistingRecord)
            &&& final(account_data)@ == old(account_data)@
        },
        result is Ok ==> {
            &&& result->Ok_0 == derived_value(counter, instruction_data@)
            &&& result->Ok_0 < 100
            &&& final(account_data)@ == spec_u32_to_le_bytes(derived_value(
                counter,
                instruction_data@,
            ))
        },
{
    match validate_ownership(record_controller, expected_controller) {
        Ok(()) => (),
        Err(error) => {
            return Err(error);
        },
    }
    let value = crate::derivation::derive(counter, instruction_data);
    let mut record = match decode_record(account_data.as_slice()) {
        Ok(record) => record,
        Err(error) => {
            return Err(error);
        },
    };
    record.update(value);
    match encode_record(&record, account_data) {
        Ok(()) => (),
        Err(error) => {
            return Err(error);
        },
    }
    proof {
        assert(account_data@ =~= spec_u32_to_le_bytes(value));
    }
    Ok(value)
}

} // verus!
