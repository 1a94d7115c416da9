//! Generating lock record ids.

use vstd::prelude::*;

verus! {

/// Relies on `uuid::Uuid::new_v7` over `uuid::Timestamp::from_unix` and the
/// `Display` of `Uuid`: a fresh id, time-ordered by the given epoch seconds,
/// rendered in the hyphenated form of 36 characters. The caller supplies an
/// already-validated timestamp, so no clock is read here; the random bits
/// make the value differ from call to call, so nothing more than its shape
/// can be promised.
#[verifier::external_body]
pub fn new_lock_id(seconds: u64) -> (r: String)
    ensures
        r@.len() == 36,
{
    let ts = uuid::Timestamp::from_unix(uuid::NoContext, seconds, 0);
    uuid::Uuid::new_v7(ts).to_string()
}

} // verus!
