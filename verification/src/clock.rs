//! The one place the engine reads the wall clock.

use vstd::prelude::*;

verus! {

/// Relies on std::time::SystemTime::now: seconds elapsed since the Unix
/// epoch, or zero should the clock read before the epoch. The value is
/// ambient, so nothing is promised of it; callers state their behaviour
/// for every reading.
#[verifier::external_body]
pub fn unix_now_seconds() -> u64 {
    match std::time::SystemTime::now().duration_since(std::time::UNIX_EPOCH) {
        Ok(d) => d.as_secs(),
        Err(_) => 0,
    }
}

} // verus!
