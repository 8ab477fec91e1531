//! Points in time, as whole seconds since the Unix epoch (UTC, no time zone),
//! and the calendar facts that the rest of the library reads from them.

use chrono::Datelike;
use vstd::prelude::*;

verus! {

/// Seconds in a minute.
pub const SECONDS_PER_MINUTE: i64 = 60;

/// Seconds in a day.
pub const SECONDS_PER_DAY: i64 = 86400;

/// Seconds in a week.
pub const SECONDS_PER_WEEK: i64 = 604800;

/// The largest distance from the epoch, in seconds, that the library accepts
/// for a point in time (about 250,000 years either way, well inside the range
/// of the calendar library).
pub const MAX_TIME: i64 = 8_000_000_000_000;

/// A point in time that the calendar can represent.
pub open spec fn valid_time(t: int) -> bool {
    -MAX_TIME <= t <= MAX_TIME
}

/// The day (counted from the epoch) that a point in time falls on.
pub open spec fn day_of(t: int) -> int {
    t / (SECONDS_PER_DAY as int)
}

/// How many days a point in time lies after the most recent Sunday
/// (0 on a Sunday). The epoch fell on a Thursday.
pub open spec fn days_from_sunday(t: int) -> int {
    (day_of(t) + 4) % 7
}

/// The most recent Sunday at or before `t`, at the same time of day as `t`.
pub open spec fn sunday_on_or_before(t: int) -> int {
    t - days_from_sunday(t) * SECONDS_PER_DAY
}

/// Number of days after Sunday of the day that `timestamp` falls on.
///
/// Calls chrono: `DateTime::from_timestamp(timestamp, 0)`, then
/// `weekday().num_days_from_sunday()`. Trusted to agree with the weekday
/// count from the epoch (a Thursday) on every accepted timestamp.
#[verifier::external_body]
pub(crate) fn num_days_from_sunday(timestamp: i64) -> (days: i64)
    requires
        valid_time(timestamp as int),
    ensures
        days == days_from_sunday(timestamp as int),
{
    let date_time = chrono::DateTime::from_timestamp(timestamp, 0).unwrap();
    date_time.weekday().num_days_from_sunday() as i64
}

/// The most recent Sunday at or before `timestamp`, at the same time of day.
pub fn last_sunday(timestamp: i64) -> (sunday: i64)
    requires
        valid_time(timestamp as int),
    ensures
        sunday == sunday_on_or_before(timestamp as int),
        sunday <= timestamp,
        timestamp - sunday < SECONDS_PER_WEEK,
{
    let days = num_days_from_sunday(timestamp);
    timestamp - days * SECONDS_PER_DAY
}

/// The earliest point in time chrono's date-times represent: the start of
/// year -262143.
pub const EARLIEST_CLOCK_TIME: i64 = -8_334_601_315_200;

/// The latest point in time chrono's date-times represent: the last second
/// of year 262142.
pub const LATEST_CLOCK_TIME: i64 = 8_210_266_876_799;

/// The current wall-clock time in the machine's time zone, as the seconds
/// since the epoch of that local date and time.
///
/// Calls chrono's `Local::now().naive_local()`. The value depends on the
/// machine's clock and time zone; all that is promised is that it lies in
/// the range of chrono's `NaiveDateTime`.
#[verifier::external_body]
pub(crate) fn local_now() -> (now: i64)
    ensures
        EARLIEST_CLOCK_TIME <= now <= LATEST_CLOCK_TIME,
{
    chrono::Local::now().naive_local().and_utc().timestamp()
}

/// The smallest year the calendar library represents.
pub const MIN_YEAR: i32 = -262143;

/// The largest year the calendar library represents.
pub const MAX_YEAR: i32 = 262142;

/// The largest day number (days since the epoch) whose start is a valid
/// point in time.
pub const MAX_DAY: i64 = 92592592;

/// Whether `year` is a leap year of the (proleptic) Gregorian calendar.
pub open spec fn is_leap_year(year: int) -> bool {
    (year % 4 == 0 && year % 100 != 0) || year % 400 == 0
}

/// The month (1 to 12) of the date that a point in time falls on, as the
/// calendar library computes it.
pub uninterp spec fn spec_month_of(timestamp: i64) -> u32;

/// The year of the date that a point in time falls on, as the calendar
/// library computes it.
pub uninterp spec fn spec_year_of(timestamp: i64) -> i32;

/// The month of the date that `timestamp` falls on.
///
/// Calls chrono: `DateTime::from_timestamp(timestamp, 0)`, then `month()`.
/// Trusted to return the same month for the same timestamp, between 1 and 12
/// as chrono documents.
#[verifier::external_body]
pub(crate) fn month_of(timestamp: i64) -> (month: u32)
    requires
        valid_time(timestamp as int),
    ensures
        month == spec_month_of(timestamp),
        1 <= month <= 12,
{
    chrono::DateTime::from_timestamp(timestamp, 0).unwrap().month()
}

/// The year of the date that `timestamp` falls on.
///
/// Calls chrono: `DateTime::from_timestamp(timestamp, 0)`, then `year()`.
/// Trusted to return the same year for the same timestamp, within chrono's
/// year range.
#[verifier::external_body]
pub(crate) fn year_of(timestamp: i64) -> (year: i32)
    requires
        valid_time(timestamp as int),
    ensures
        year == spec_year_of(timestamp),
        MIN_YEAR <= year <= MAX_YEAR,
{
    chrono::DateTime::from_timestamp(timestamp, 0).unwrap().year()
}

/// Whether February 29th exists in `year`.
///
/// Calls chrono: `NaiveDate::from_ymd_opt(year, 2, 29).is_some()`. Trusted
/// to follow the Gregorian leap-year rule on chrono's year range.
#[verifier::external_body]
pub(crate) fn leap_day_exists(year: i32) -> (exists: bool)
    requires
        MIN_YEAR <= year <= MAX_YEAR,
    ensures
        exists == is_leap_year(year as int),
{
    chrono::NaiveDate::from_ymd_opt(year, 2, 29).is_some()
}

/// Whether `t` is a point in time the calendar can represent.
pub fn is_valid_time(t: i64) -> (valid: bool)
    ensures
        valid == valid_time(t as int),
{
    -MAX_TIME <= t && t <= MAX_TIME
}

} // verus!
