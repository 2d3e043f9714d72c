//! Points in time, as the backups record them.
use vstd::prelude::*;

verus! {

/// A point in time in UTC: whole seconds since the Unix epoch and the
/// nanoseconds past that second.
#[derive(Debug, Clone, Copy, PartialEq, Eq, Structural)]
pub struct UtcTime {
    pub secs: i64,
    pub nanos: u32,
}

/// A time as chrono represents it: less than a whole second of nanoseconds
/// past its second.
pub open spec fn is_clock_time(t: UtcTime) -> bool {
    t.nanos < 1_000_000_000
}

/// The current time: `DateTime::<chrono::Utc>::from(std::time::SystemTime::now())`,
/// taken apart into `timestamp()` and `timestamp_subsec_nanos()`.
///
/// Which time it is depends on the system clock and stays unsaid. chrono
/// turns the clock reading, before or after 1970, into whole seconds and
/// nanoseconds below one second, so the result is a clock time. chrono's
/// conversion unwraps its range check, which fails only for a clock set more
/// than 262,000 years away from today.
#[verifier::external_body]
pub(crate) fn utc_now() -> (t: UtcTime)
    ensures
        is_clock_time(t),
{
    let now = chrono::DateTime::<chrono::Utc>::from(std::time::SystemTime::now());
    UtcTime { secs: now.timestamp(), nanos: now.timestamp_subsec_nanos() }
}

} // verus!
