//! The local clock, read through `chrono`.
use vstd::prelude::*;

verus! {

/// Reads the local clock with `chrono::Local::now` and gives the seconds
/// since the Unix epoch that `DateTime::timestamp` counts.
///
/// Trusted: the reading is not negative. `chrono` takes it from the time
/// that has passed since the epoch, and stops the program on a clock that is
/// set before 1970. Nothing else is claimed: the reading depends on the
/// moment of the call.
#[verifier::external_body]
pub(crate) fn unix_time_now() -> (seconds: i64)
    ensures
        seconds >= 0,
{
    chrono::Local::now().timestamp()
}

} // verus!
