//! Wall-clock time, in milliseconds since the Unix epoch.
use vstd::prelude::*;

verus! {

/// A bound above every time that the clock can read: chrono represents no
/// date past the year 262143, about 8.2e15 milliseconds after the epoch.
pub const CLOCK_LIMIT_MS: i64 = 10_000_000_000_000_000;

/// Milliseconds in a minute.
pub const MINUTE_MS: i64 = 60_000;

/// Relies on chrono's `Utc::now` and `DateTime::timestamp_millis`: the current
/// time in milliseconds since the Unix epoch. `Utc::now` panics on a system
/// time before the epoch or past chrono's last date, so what comes back lies
/// between the two.
#[verifier::external_body]
pub(crate) fn now_millis() -> (r: i64)
    ensures
        0 <= r < CLOCK_LIMIT_MS,
{
    chrono::Utc::now().timestamp_millis()
}

} // verus!
