//! The one clock read the engines make. Both session timers and the
//! per-answer timer are captured instants in milliseconds; every elapsed-time
//! computation on them is ordinary verified arithmetic.

use vstd::prelude::*;

verus! {

/// Relies on `std::time::SystemTime::now` read against `UNIX_EPOCH`:
/// the current time in milliseconds. Nothing is promised of the value; every
/// caller states what holds of its result whatever the clock returned.
#[verifier::external_body]
pub(crate) fn now_millis() -> u64 {
    match std::time::SystemTime::now().duration_since(std::time::UNIX_EPOCH) {
        Ok(d) => d.as_millis() as u64,
        Err(_) => 0,
    }
}

/// Milliseconds from `start` to `end`, zero when the clock ran backwards.
pub open spec fn span_millis(start: u64, end: u64) -> int {
    if end >= start {
        end - start
    } else {
        0
    }
}

/// Executable counterpart of [`span_millis`].
pub fn elapsed_millis(start: u64, end: u64) -> (r: u64)
    ensures
        r == span_millis(start, end),
{
    if end >= start {
        end - start
    } else {
        0
    }
}

} // verus!
