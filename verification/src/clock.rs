//! The wall-clock source: the current time in milliseconds since the epoch.

use vstd::prelude::*;

verus! {

/// Relies on `std::time::SystemTime::now` for the current instant;
/// `duration_since(UNIX_EPOCH)` and `Duration::as_millis` only convert it to
/// milliseconds. The reading depends on the machine's clock, so nothing is
/// promised of the result; a clock before the epoch reads as zero.
#[verifier::external_body]
pub fn get_sys_time() -> u128 {
    match std::time::SystemTime::now().duration_since(std::time::UNIX_EPOCH) {
        Ok(elapsed) => elapsed.as_millis(),
        Err(_) => 0,
    }
}

} // verus!
