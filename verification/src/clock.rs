//! The calendar year, derived from the system clock.
//!
//! The watcher asks the history source for the current year's records,
//! so it needs the year once at startup. The year is derived from the
//! Unix timestamp by flat 365-day years, matching the cadence the
//! history source expects.

use vstd::prelude::*;

verus! {

/// Seconds in a flat 365-day year.
pub const SECONDS_PER_YEAR: u64 = 31_536_000;

/// Relies on std::time::SystemTime::now and duration_since: seconds of
/// the system clock since the Unix epoch, or nothing when the clock
/// reads earlier than the epoch. The result is whatever the clock
/// says, so nothing more is assumed of it.
#[verifier::external_body]
fn unix_seconds_now() -> (r: Option<u64>) {
    match std::time::SystemTime::now().duration_since(std::time::SystemTime::UNIX_EPOCH) {
        Ok(d) => Some(d.as_secs()),
        Err(_) => None,
    }
}

/// The calendar year a Unix timestamp falls in, counting years as a
/// flat 365 days from 1970.
pub fn year_of_unix_seconds(secs: u64) -> (y: u64)
    ensures
        y == 1970 + secs as nat / SECONDS_PER_YEAR as nat,
{
    1970 + secs / SECONDS_PER_YEAR
}

/// The current calendar year by the system clock; 1970 when the clock
/// is unreadable or predates the epoch.
pub fn current_year() -> (y: u64)
    ensures
        1970 <= y,
{
    match unix_seconds_now() {
        Some(s) => year_of_unix_seconds(s),
        None => 1970,
    }
}

} // verus!
