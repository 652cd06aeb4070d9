//! How the status of an HTTP answer is judged.

use vstd::prelude::*;
use crate::error::Error;

verus! {

/// A status in the success range, 200 to 299.
pub open spec fn is_success(status: u16) -> bool {
    200 <= status && status <= 299
}

/// What a status means for the request that it answers.
pub open spec fn status_verdict(status: u16) -> Result<(), Error> {
    if is_success(status) {
        Ok(())
    } else {
        Err(Error::Request(status))
    }
}

/// Accepts an answer whose status is in the success range; any other status
/// becomes a `Request` error that carries it.
pub fn check_status(status: u16) -> (verdict: Result<(), Error>)
    ensures
        verdict == status_verdict(status),
{
    if 200 <= status && status <= 299 {
        Ok(())
    } else {
        Err(Error::Request(status))
    }
}

} // verus!
