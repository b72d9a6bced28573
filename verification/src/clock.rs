//! Wall-clock access for timestamping adjustment requests and audit blocks.

use vstd::prelude::*;

verus! {

/// Relies on std's `SystemTime::now` and `SystemTime::duration_since`: the
/// current time as signed milliseconds since the Unix epoch.  Both arms of
/// the clock comparison are converted, so a clock reading before the epoch
/// yields a negative count rather than a failure, and a count beyond the
/// signed range saturates.  The value depends on the wall clock, so nothing
/// is promised of it.
#[verifier::external_body]
pub(crate) fn now_millis() -> i64 {
    match std::time::SystemTime::now().duration_since(std::time::UNIX_EPOCH) {
        Ok(since) => i64::try_from(since.as_millis()).unwrap_or(i64::MAX),
        Err(before) => -i64::try_from(before.duration().as_millis()).unwrap_or(i64::MAX),
    }
}

} // verus!
