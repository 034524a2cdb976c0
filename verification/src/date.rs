//! Calendar dates as they are submitted and as they are stored.

use vstd::prelude::*;

verus! {

/// The day number of the calendar date that `text` spells, or `None` where
/// `text` spells no date. Days are counted in the proleptic Gregorian
/// calendar, with 1 January of the year 1 as day 1. Dates are read as
/// `chrono::NaiveDate` reads them from a string: a year, a month and a day,
/// separated by hyphens.
pub uninterp spec fn day_number(text: Seq<char>) -> Option<i32>;

/// The day number of 1 January 1970.
pub const EPOCH_DAY: i64 = 719_163;

/// The milliseconds in a day.
pub const MILLIS_PER_DAY: i64 = 86_400_000;

/// The instant at which the day with the given number begins in UTC, in
/// milliseconds since the start of 1970.
pub open spec fn start_of_day(day: i32) -> int {
    (day - EPOCH_DAY) * MILLIS_PER_DAY
}

/// The instant at which the calendar date spelled by `text` begins in UTC, in
/// milliseconds since the start of 1970, or `None` where `text` spells no
/// date.
pub open spec fn midnight_utc_millis(text: Seq<char>) -> Option<i64> {
    match day_number(text) {
        Some(day) => Some(start_of_day(day) as i64),
        None => None,
    }
}

/// Parses `text` with `chrono::NaiveDate`'s `FromStr` and, where that
/// succeeds, takes the date's `num_days_from_ce`.
///
/// Trusted: the outcome depends on `text` alone.
#[verifier::external_body]
pub(crate) fn parse_day_number(text: &str) -> (r: Option<i32>)
    ensures
        r == day_number(text@),
{
    match text.parse::<chrono::NaiveDate>() {
        Ok(date) => Some(chrono::Datelike::num_days_from_ce(&date)),
        Err(_) => None,
    }
}

/// The instant at which the day with the given number begins in UTC, in
/// milliseconds since the start of 1970.
pub fn midnight_of_day(day: i32) -> (r: i64)
    ensures
        r == start_of_day(day),
{
    let since_epoch: i64 = day as i64 - EPOCH_DAY;
    assert(-0x8000_0000 - 719_163 <= since_epoch <= 0x7fff_ffff - 719_163);
    assert(-0x8000_0000 * 86_400_000 - 719_163 * 86_400_000 <= since_epoch * 86_400_000
        <= 0x7fff_ffff * 86_400_000 - 719_163 * 86_400_000) by (nonlinear_arith)
        requires
            -0x8000_0000 - 719_163 <= since_epoch <= 0x7fff_ffff - 719_163,
    ;
    since_epoch * MILLIS_PER_DAY
}

/// Reads `text` as a calendar date and gives the instant at which that day
/// begins in UTC, or `None` where `text` spells no date.
pub fn parse_midnight_utc(text: &str) -> (r: Option<i64>)
    ensures
        r == midnight_utc_millis(text@),
{
    match parse_day_number(text) {
        Some(day) => Some(midnight_of_day(day)),
        None => None,
    }
}

} // verus!
