//! The one clock query the overlay needs. What the clock returns depends
//! on the machine and the moment, so nothing is promised of it; all logic
//! that uses a time takes it as a plain argument.

use vstd::prelude::*;

verus! {

/// Relies on `std::time::SystemTime::now`: the wall clock, read as
/// milliseconds since the Unix epoch (zero if the clock reads earlier
/// than the epoch).
#[verifier::external_body]
pub fn now_millis() -> u64 {
    match std::time::SystemTime::now().duration_since(std::time::UNIX_EPOCH) {
        Ok(d) => {
            let ms = d.as_millis();
            if ms > u64::MAX as u128 {
                u64::MAX
            } else {
                ms as u64
            }
        },
        Err(_) => 0,
    }
}

} // verus!
