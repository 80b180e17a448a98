//! Moments and spans of time.
use vstd::prelude::*;

verus! {

/// The first second of the year -9999, counted from the start of 1970.
pub const FIRST_SECOND: i64 = -377_705_116_800;

/// The last second of the year 9999, counted from the start of 1970.
pub const LAST_SECOND: i64 = 253_402_300_799;

/// The number of seconds in a day.
pub const SECONDS_PER_DAY: i64 = 86_400;

/// A second that falls into one of the years -9999 to 9999.
pub open spec fn is_dated(second: int) -> bool {
    FIRST_SECOND <= second <= LAST_SECOND
}

/// A moment: full seconds since the start of 1970, and the nanoseconds beyond.
#[derive(Debug, Clone, Copy, PartialEq, Eq)]
pub struct Timestamp {
    pub secs: i64,
    pub nanos: u32,
}

/// Reads the clock with `chrono::Utc::now`. That call takes the moment as a duration since
/// the start of 1970, so the seconds are not negative and the nanoseconds stay below one
/// second. Which moment it is, nothing says.
#[verifier::external_body]
pub(crate) fn now() -> (moment: Timestamp)
    ensures
        moment.secs >= 0,
        moment.nanos < 1_000_000_000,
{
    let moment = chrono::Utc::now();
    Timestamp { secs: moment.timestamp(), nanos: moment.timestamp_subsec_nanos() }
}

/// Reads the clock with `time::OffsetDateTime::now_utc`, to the full second. The date is one
/// that the `time` crate can hold. Which moment it is, nothing says.
#[verifier::external_body]
pub(crate) fn utc_second() -> (second: i64)
    ensures
        is_dated(second as int),
{
    cookie::time::OffsetDateTime::now_utc().unix_timestamp()
}

/// Moves a second by a number of days with `time::OffsetDateTime::checked_add`, which gives
/// nothing where the result would leave the years -9999 to 9999.
#[verifier::external_body]
pub(crate) fn add_days(second: i64, days: i32) -> (moved: Option<i64>)
    requires
        is_dated(second as int),
    ensures
        moved == later_by_days(second, days),
{
    let moment = cookie::time::OffsetDateTime::from_unix_timestamp(second).unwrap();
    let span = cookie::time::Duration::days(i64::from(days));
    match moment.checked_add(span) {
        Some(moved) => Some(moved.unix_timestamp()),
        None => None,
    }
}

/// The second that lies a number of days later, where it is still dated.
pub open spec fn later_by_days(second: i64, days: i32) -> Option<i64> {
    let moved = second + days * SECONDS_PER_DAY;
    if is_dated(moved) {
        Some(moved as i64)
    } else {
        None
    }
}

/// The seconds in a number of days, from `chrono::Duration::days` and
/// `chrono::Duration::num_seconds`.
#[verifier::external_body]
pub(crate) fn days_in_seconds(days: i32) -> (seconds: i64)
    ensures
        seconds == days * SECONDS_PER_DAY,
{
    chrono::Duration::days(i64::from(days)).num_seconds()
}

/// Law: a later day is so many times the seconds of a day later, or nothing where that is not
/// in one of the years -9999 to 9999.
pub proof fn law_later_by_days(second: i64, days: i32)
    ensures
        later_by_days(second, days) == if -377_705_116_800 <= second + days * 86_400
            <= 253_402_300_799 {
            Some((second + days * 86_400) as i64)
        } else {
            None
        },
{
}

} // verus!
