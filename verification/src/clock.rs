//! Calendar dates and points in time, read from and parsed with `chrono`.
//!
//! A point in time is a count of seconds since 1970-01-01T00:00:00Z; a
//! calendar date is a count of days in the proleptic Gregorian calendar where
//! 0001-01-01 is day 1.
use vstd::prelude::*;

verus! {

/// Calls `chrono::Utc::now` and takes its Unix timestamp in seconds.
///
/// Trusted: the clock's value is not stated.
#[verifier::external_body]
pub(crate) fn now_timestamp() -> (t: i64) {
    chrono::Utc::now().timestamp()
}

/// Calls `chrono::Utc::now` and takes the day number of its date.
///
/// Trusted: the clock's value is not stated.
#[verifier::external_body]
pub(crate) fn today_day_number() -> (d: i32) {
    chrono::Datelike::num_days_from_ce(&chrono::Utc::now().date_naive())
}

/// The day number of the date that `chrono::NaiveDate::parse_from_str` reads
/// from `s` with the format `%Y-%m-%d`, or `None` where it fails.
pub uninterp spec fn ymd_day_number(s: Seq<char>) -> Option<int>;

/// Calls `chrono::NaiveDate::parse_from_str(s, "%Y-%m-%d")` and takes the
/// day number of the date it reads.
///
/// Trusted: the result is named by `ymd_day_number` of the text alone.
#[verifier::external_body]
pub(crate) fn parse_ymd_day_number(s: &str) -> (r: Option<i32>)
    ensures
        match r {
            Some(d) => ymd_day_number(s@) == Some(d as int),
            None => ymd_day_number(s@) is None,
        },
{
    match chrono::NaiveDate::parse_from_str(s, "%Y-%m-%d") {
        Ok(d) => Some(chrono::Datelike::num_days_from_ce(&d)),
        Err(_) => None,
    }
}

/// A leap year of the proleptic Gregorian calendar (year 0 is 1 BCE).
pub open spec fn is_leap_year(year: int) -> bool {
    year % 4 == 0 && (year % 100 != 0 || year % 400 == 0)
}

/// The number of days of month `month` (1 to 12) of `year`.
pub open spec fn days_in_month(year: int, month: int) -> int {
    if month == 2 {
        if is_leap_year(year) {
            29
        } else {
            28
        }
    } else if month == 4 || month == 6 || month == 9 || month == 11 {
        30
    } else {
        31
    }
}

/// The number of days of `year` before the first of month `month`.
pub open spec fn days_before_month(year: int, month: int) -> int
    decreases month,
{
    if month <= 1 {
        0
    } else {
        days_before_month(year, month - 1) + days_in_month(year, month - 1)
    }
}

/// The day number of the date `year`-`month`-`day`, where 0001-01-01 is day
/// 1; `None` where the date does not exist or its year lies outside the
/// years -262143 to 262142 that `chrono::NaiveDate` holds.
pub open spec fn calendar_day_number(year: int, month: int, day: int) -> Option<int> {
    if -262143 <= year <= 262142 && 1 <= month <= 12 && 1 <= day <= days_in_month(year, month) {
        let p = year - 1;
        Some(365 * p + p / 4 - p / 100 + p / 400 + days_before_month(year, month) + day)
    } else {
        None
    }
}

/// Calls `chrono::NaiveDate::from_ymd_opt` and takes the day number of the
/// date it builds.
///
/// Trusted: `from_ymd_opt` accepts exactly the dates of the proleptic
/// Gregorian calendar in the years `chrono` holds (`MIN_YEAR` to `MAX_YEAR`),
/// and `num_days_from_ce` counts the days from 0001-01-01 as day 1, as
/// `calendar_day_number` computes.
#[verifier::external_body]
pub(crate) fn day_number_of_ymd(year: i32, month: u32, day: u32) -> (r: Option<i32>)
    ensures
        match r {
            Some(d) => calendar_day_number(year as int, month as int, day as int) == Some(
                d as int,
            ),
            None => calendar_day_number(year as int, month as int, day as int) is None,
        },
{
    chrono::NaiveDate::from_ymd_opt(year, month, day).map(|d| chrono::Datelike::num_days_from_ce(&d))
}

/// The Unix timestamp, in seconds, that
/// `chrono::DateTime::parse_from_rfc3339` reads from `s`, or `None` where it
/// fails.
pub uninterp spec fn rfc3339_timestamp(s: Seq<char>) -> Option<int>;

/// Calls `chrono::DateTime::parse_from_rfc3339` and takes the Unix timestamp
/// of the instant it reads.
///
/// Trusted: the result is named by `rfc3339_timestamp` of the text alone.
#[verifier::external_body]
pub(crate) fn parse_rfc3339_timestamp(s: &str) -> (r: Option<i64>)
    ensures
        match r {
            Some(t) => rfc3339_timestamp(s@) == Some(t as int),
            None => rfc3339_timestamp(s@) is None,
        },
{
    match chrono::DateTime::parse_from_rfc3339(s) {
        Ok(t) => Some(t.timestamp()),
        Err(_) => None,
    }
}

/// A point in time in the years 0000 to 9999, the years RFC 3339 writes
/// with four digits: from 0000-01-01T00:00:00Z to 9999-12-31T23:59:59Z.
pub open spec fn is_four_digit_year_time(t: int) -> bool {
    -62167219200 <= t <= 253402300799
}

/// Calls `chrono::DateTime::<Utc>::from_timestamp(t, 0)` and writes the
/// instant with `to_rfc3339`.
///
/// Trusted: in the years 0000 to 9999, `write_rfc3339` writes the instant as
/// `YYYY-MM-DDTHH:MM:SS+00:00` (no fraction for a whole second), which
/// `parse_rfc3339` reads back to the same instant; the text itself is not
/// stated. `from_timestamp` accepts every such `t`.
#[verifier::external_body]
pub(crate) fn rfc3339_text(t: i64) -> (s: String)
    requires
        is_four_digit_year_time(t as int),
    ensures
        rfc3339_timestamp(s@) == Some(t as int),
{
    chrono::DateTime::from_timestamp(t, 0).unwrap().to_rfc3339()
}

/// The Unix timestamp, in seconds, of the UTC date and time that
/// `chrono::NaiveDateTime::parse_from_str` reads from `s` with the format
/// `fmt`, or `None` where it fails.
pub uninterp spec fn naive_timestamp(s: Seq<char>, fmt: Seq<char>) -> Option<int>;

/// Calls `chrono::NaiveDateTime::parse_from_str(s, fmt)`, reads the result as
/// UTC and takes its Unix timestamp.
///
/// Trusted: the result is named by `naive_timestamp` of the two texts.
#[verifier::external_body]
pub(crate) fn parse_naive_timestamp(s: &str, fmt: &str) -> (r: Option<i64>)
    ensures
        match r {
            Some(t) => naive_timestamp(s@, fmt@) == Some(t as int),
            None => naive_timestamp(s@, fmt@) is None,
        },
{
    match chrono::NaiveDateTime::parse_from_str(s, fmt) {
        Ok(t) => Some(t.and_utc().timestamp()),
        Err(_) => None,
    }
}

} // verus!
