//! Reading the wall clock as plain epoch seconds.

use std::time::UNIX_EPOCH;

use vstd::prelude::*;

use crate::errors::Error;

verus! {

/// Relies on `std::time::SystemTime::elapsed` over `UNIX_EPOCH`: the seconds
/// since the Unix epoch, or nothing when the system clock reads earlier than
/// the epoch. Nothing can be promised about the value the clock yields.
#[verifier::external_body]
fn epoch_seconds() -> (r: Option<u64>) {
    match UNIX_EPOCH.elapsed() {
        Ok(d) => Some(d.as_secs()),
        Err(_) => None,
    }
}

/// The current Unix time in seconds, or `TimeConversion` when the system
/// clock stands before the epoch.
pub fn from_epoch() -> (r: Result<u64, Error>)
    ensures
        r matches Err(e) ==> e == Error::TimeConversion,
{
    match epoch_seconds() {
        Some(s) => Ok(s),
        None => Err(Error::TimeConversion),
    }
}

} // verus!
