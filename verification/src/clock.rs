//! The wall clock, read through `chrono`.

use vstd::prelude::*;

verus! {

/// Milliseconds since the Unix epoch, as `chrono::Utc::now().timestamp_millis()`
/// gives them.
///
/// Nothing is claimed of the value: the clock may jump, stand still or run
/// backwards between two calls. `chrono` reads the system clock and panics
/// when that clock is set before 1970.
#[verifier::external_body]
pub(crate) fn now_millis() -> (millis: i64) {
    chrono::Utc::now().timestamp_millis()
}

} // verus!
