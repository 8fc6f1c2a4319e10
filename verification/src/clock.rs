//! Access to the wall clock.

use vstd::prelude::*;

verus! {

/// Relies on `chrono::Utc::now` for the current wall-clock time, taken
/// as milliseconds since the Unix epoch via `DateTime::timestamp_millis`.
/// The result depends on when the call runs: nothing is promised of it,
/// in particular not monotonicity across calls.
#[verifier::external_body]
pub(crate) fn now_millis() -> i64 {
    chrono::Utc::now().timestamp_millis()
}

} // verus!
