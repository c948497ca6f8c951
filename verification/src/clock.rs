//! Readings of the system clock. A reading is a plain number, and nothing is
//! assumed about it: callers state what holds for every possible reading.

use vstd::prelude::*;

verus! {

/// Relies on `std::time::SystemTime::now`: milliseconds since the Unix
/// epoch, or 0 for a clock that reads earlier than the epoch. The value
/// depends on the wall clock, so no two calls are assumed to agree.
#[verifier::external_body]
pub fn now_millis() -> u64 {
    match std::time::SystemTime::now().duration_since(std::time::UNIX_EPOCH) {
        Ok(d) => d.as_millis() as u64,
        Err(_) => 0,
    }
}

/// Relies on `std::time::SystemTime::now`: the current Unix timestamp in
/// whole seconds, negative for a clock set before the epoch and saturated
/// at the ends of the range. The value depends on the wall clock, so no two
/// calls are assumed to agree.
#[verifier::external_body]
pub fn now_unix_secs() -> i64 {
    match std::time::SystemTime::now().duration_since(std::time::UNIX_EPOCH) {
        Ok(d) => i64::try_from(d.as_secs()).unwrap_or(i64::MAX),
        Err(e) => i64::try_from(e.duration().as_secs()).map_or(i64::MIN, |s| s.saturating_neg()),
    }
}

} // verus!
