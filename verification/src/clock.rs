//! The wall clock, through the `chrono` crate.

use vstd::prelude::*;

verus! {

/// Relies on chrono::Utc::now and DateTime::timestamp_millis: the current
/// wall-clock time in milliseconds since the epoch. The clock is neither
/// monotonic nor otherwise constrained, so no clause states anything of
/// the result. The call can panic only on a broken environment (a system
/// clock before 1970 or out of range).
#[verifier::external_body]
pub fn now_millis() -> i64 {
    chrono::Utc::now().timestamp_millis()
}

} // verus!
