//! Reading the answers of the validation service.

use crate::error::RelayError;
use vstd::prelude::*;

verus! {

/// The code under which a failed call is reported: the status itself, read
/// as an unsigned 64-bit number, so that a negative status wraps around.
pub open spec fn nac_code(status: i32) -> u64 {
    if status >= 0 {
        status as u64
    } else {
        (status + 0x1_0000_0000_0000_0000) as u64
    }
}

/// What a call into the validation service came to: status zero is success,
/// and any other status is a `NacError` carrying the code. Only after success
/// does the call have an output to read.
pub fn nac_status(status: i32) -> (result: Result<(), RelayError>)
    ensures
        result == if status == 0 {
            Ok::<(), RelayError>(())
        } else {
            Err::<(), RelayError>(RelayError::NacError(nac_code(status)))
        },
{
    if status == 0 {
        Ok(())
    } else if status > 0 {
        Err(RelayError::NacError(status as u64))
    } else {
        let below: u64 = (-(status + 1)) as u64;
        Err(RelayError::NacError(u64::MAX - below))
    }
}

} // verus!
