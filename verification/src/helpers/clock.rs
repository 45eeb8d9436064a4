//! The system clock, in whole seconds since the epoch.

use vstd::prelude::*;

verus! {

/// No reading of the clock reaches this many seconds: the calendar behind
/// it counts days in 32 bits.
pub const CLOCK_LIMIT: u64 = 185_542_587_187_200;

/// The seconds in one day.
pub const SECONDS_PER_DAY: u64 = 86_400;

/// Reads the system clock through `chrono::Utc::now` and
/// `DateTime::timestamp`: whole seconds since the epoch.
///
/// Taken on trust: the reading is not negative, because `now` measures from
/// the epoch forwards, and it is below `CLOCK_LIMIT`, because `now` builds
/// its date from a day count that has to fit in an `i32`. Nothing is
/// claimed of which instant it is. `now` panics on a machine whose clock
/// stands before 1970.
#[verifier::external_body]
fn system_seconds() -> (r: i64)
    ensures
        0 <= r < CLOCK_LIMIT,
{
    chrono::Utc::now().timestamp()
}

/// The current time in whole seconds since the epoch.
pub fn current_timestamp() -> (r: u64)
    ensures
        r < CLOCK_LIMIT,
{
    let seconds = system_seconds();
    seconds as u64
}

} // verus!
