//! The calendar position of a moment given in seconds since the Unix epoch,
//! in UTC. `chrono` computes it; what it returns is named here.

use vstd::prelude::*;

verus! {

/// The number of seconds in a day.
pub const SECONDS_PER_DAY: i64 = 86_400;

/// The weekday that `chrono` gives for the moment, counted from Monday as 0,
/// or `None` where it has no date for the moment.
pub uninterp spec fn weekday_at(timestamp: int) -> Option<nat>;

/// The day of the month that `chrono` gives for the moment, counted from 1, or
/// `None` where it has no date for the moment.
pub uninterp spec fn day_of_month_at(timestamp: int) -> Option<nat>;

/// The day of the year that `chrono` gives for the moment, counted from 1, or
/// `None` where it has no date for the moment.
pub uninterp spec fn day_of_year_at(timestamp: int) -> Option<nat>;

/// The number in an optional calendar position.
pub open spec fn position(r: Option<u32>) -> Option<nat> {
    match r {
        Some(n) => Some(n as nat),
        None => None,
    }
}

/// `chrono::DateTime::from_timestamp` and, on its date, `Datelike::weekday`
/// with `Weekday::num_days_from_monday`: the result is named `weekday_at`, a
/// function of the timestamp.
#[verifier::external_body]
pub(crate) fn weekday(timestamp: i64) -> (r: Option<u32>)
    ensures
        position(r) == weekday_at(timestamp as int),
{
    match chrono::DateTime::from_timestamp(timestamp, 0) {
        Some(moment) => Some(chrono::Datelike::weekday(&moment).num_days_from_monday()),
        None => None,
    }
}

/// `chrono::DateTime::from_timestamp` and, on its date, `Datelike::day`: the
/// result is named `day_of_month_at`, a function of the timestamp.
#[verifier::external_body]
pub(crate) fn day_of_month(timestamp: i64) -> (r: Option<u32>)
    ensures
        position(r) == day_of_month_at(timestamp as int),
{
    match chrono::DateTime::from_timestamp(timestamp, 0) {
        Some(moment) => Some(chrono::Datelike::day(&moment)),
        None => None,
    }
}

/// `chrono::DateTime::from_timestamp` and, on its date, `Datelike::ordinal`:
/// the result is named `day_of_year_at`, a function of the timestamp.
#[verifier::external_body]
pub(crate) fn day_of_year(timestamp: i64) -> (r: Option<u32>)
    ensures
        position(r) == day_of_year_at(timestamp as int),
{
    match chrono::DateTime::from_timestamp(timestamp, 0) {
        Some(moment) => Some(chrono::Datelike::ordinal(&moment)),
        None => None,
    }
}

/// The moment, in seconds since the epoch, at which the day begins that the
/// text names as year, month and day with hyphens between, as `chrono` reads
/// it; `None` where it reads no date.
pub uninterp spec fn midnight_of(text: Seq<char>) -> Option<i64>;

/// The calendar year that `chrono` gives for the moment, or `None` where it has
/// no date for the moment.
pub uninterp spec fn year_at(timestamp: int) -> Option<i32>;

/// The moment with its year replaced, as `chrono` replaces it; `None` where
/// there is no such date.
pub uninterp spec fn moment_in_year(timestamp: int, year: int) -> Option<i64>;

/// `chrono::NaiveDate::parse_from_str` with the format `%Y-%m-%d`, and the
/// timestamp of midnight UTC on the date it reads: the result is named
/// `midnight_of`, a function of the text.
#[verifier::external_body]
pub(crate) fn parse_date(text: &str) -> (r: Option<i64>)
    ensures
        r == midnight_of(text@),
{
    match chrono::NaiveDate::parse_from_str(text, "%Y-%m-%d") {
        Ok(date) => Some(date.and_time(chrono::NaiveTime::MIN).and_utc().timestamp()),
        Err(_) => None,
    }
}

/// `chrono::DateTime::from_timestamp` and, on its date, `Datelike::year`: the
/// result is named `year_at`, a function of the timestamp.
#[verifier::external_body]
pub(crate) fn year(timestamp: i64) -> (r: Option<i32>)
    ensures
        r == year_at(timestamp as int),
{
    match chrono::DateTime::from_timestamp(timestamp, 0) {
        Some(moment) => Some(chrono::Datelike::year(&moment)),
        None => None,
    }
}

/// `chrono::DateTime::from_timestamp` and, on its date, `Datelike::with_year`:
/// the timestamp of the result is named `moment_in_year`, a function of the
/// timestamp and the year.
#[verifier::external_body]
pub(crate) fn with_year(timestamp: i64, year: i32) -> (r: Option<i64>)
    ensures
        r == moment_in_year(timestamp as int, year as int),
{
    match chrono::DateTime::from_timestamp(timestamp, 0) {
        Some(moment) => match chrono::Datelike::with_year(&moment, year) {
            Some(moved) => Some(moved.timestamp()),
            None => None,
        },
        None => None,
    }
}

} // verus!
