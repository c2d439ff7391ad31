//! Calendar dates and wall-clock times as plain values, and the calls into
//! chrono that read the clock, parse text and convert between local time and
//! instants.

use chrono::{Datelike, TimeZone, Timelike};
use vstd::prelude::*;

verus! {

/// A day of the proleptic Gregorian calendar.
#[derive(Clone, Copy, Debug, PartialEq, Eq, Structural)]
pub struct CalendarDate {
    pub year: i32,
    /// 1 for January to 12 for December.
    pub month: u32,
    /// The day of the month, from 1.
    pub day: u32,
}

/// A time of day on a 24-hour clock, at second resolution.
#[derive(Clone, Copy, Debug, PartialEq, Eq, Structural)]
pub struct ClockTime {
    pub hour: u32,
    pub minute: u32,
    pub second: u32,
}

/// A date and a time of day with no time zone attached: what a wall clock and
/// a calendar on the wall show.
#[derive(Clone, Copy, Debug, PartialEq, Eq, Structural)]
pub struct LocalDateTime {
    pub date: CalendarDate,
    pub clock: ClockTime,
}

impl ClockTime {
    /// Whether the fields are in the range of a clock face.
    pub open spec fn well_formed(self) -> bool {
        self.hour < 24 && self.minute < 60 && self.second < 60
    }
}

/// What chrono's `NaiveTime::parse_from_str` makes of the text `s` under the
/// format `fmt`, with the fraction of a second dropped.
pub uninterp spec fn time_from_str(s: Seq<char>, fmt: Seq<char>) -> Option<ClockTime>;

/// What chrono's `NaiveDate::parse_from_str` makes of the text `s` under the
/// format `fmt`.
pub uninterp spec fn date_from_str(s: Seq<char>, fmt: Seq<char>) -> Option<CalendarDate>;

/// What chrono's `NaiveDateTime::parse_from_str` makes of the text `s` under
/// the format `fmt`, with the fraction of a second dropped.
pub uninterp spec fn date_time_from_str(s: Seq<char>, fmt: Seq<char>) -> Option<LocalDateTime>;

/// The number of days from the Monday of its week to `date`, 0 for a Monday to
/// 6 for a Sunday, as chrono's `NaiveDate::weekday` gives it; `None` where the
/// calendar has no such date.
pub uninterp spec fn days_from_monday(date: CalendarDate) -> Option<u32>;

/// The date `days` days after `date`, as chrono's `NaiveDate::checked_add_days`
/// gives it; `None` where the calendar has no such date.
pub uninterp spec fn date_plus_days(date: CalendarDate, days: u64) -> Option<CalendarDate>;

/// The date `days` days before `date`, as chrono's
/// `NaiveDate::checked_sub_days` gives it; `None` where the calendar has no
/// such date.
pub uninterp spec fn date_minus_days(date: CalendarDate, days: u64) -> Option<CalendarDate>;

/// Calls `NaiveTime::parse_from_str` and reads hour, minute and second off the
/// result. The contract names the result and claims, as chrono documents for
/// `Timelike`, that the three fields are in the range of a clock face.
#[verifier::external_body]
pub(crate) fn parse_clock(s: &str, fmt: &str) -> (r: Option<ClockTime>)
    ensures
        r == time_from_str(s@, fmt@),
        r matches Some(c) ==> c.well_formed(),
{
    chrono::NaiveTime::parse_from_str(s, fmt).ok().map(
        |t| ClockTime { hour: t.hour(), minute: t.minute(), second: t.second() },
    )
}

/// Calls `NaiveDate::parse_from_str` and reads year, month and day off the
/// result. The contract names the result.
#[verifier::external_body]
pub(crate) fn parse_date(s: &str, fmt: &str) -> (r: Option<CalendarDate>)
    ensures
        r == date_from_str(s@, fmt@),
{
    chrono::NaiveDate::parse_from_str(s, fmt).ok().map(
        |d| CalendarDate { year: d.year(), month: d.month(), day: d.day() },
    )
}

/// Calls `NaiveDateTime::parse_from_str` and reads the six fields off the
/// result. The contract names the result and claims, as chrono documents for
/// `Timelike`, that hour, minute and second are in the range of a clock face.
#[verifier::external_body]
pub(crate) fn parse_date_and_clock(s: &str, fmt: &str) -> (r: Option<LocalDateTime>)
    ensures
        r == date_time_from_str(s@, fmt@),
        r matches Some(t) ==> t.clock.well_formed(),
{
    chrono::NaiveDateTime::parse_from_str(s, fmt).ok().map(
        |t|
            LocalDateTime {
                date: CalendarDate { year: t.year(), month: t.month(), day: t.day() },
                clock: ClockTime { hour: t.hour(), minute: t.minute(), second: t.second() },
            },
    )
}

/// Builds the date with `NaiveDate::from_ymd_opt` and asks chrono for its
/// weekday as a number of days from Monday. The contract names the result.
#[verifier::external_body]
pub(crate) fn weekday_index(date: CalendarDate) -> (r: Option<u32>)
    ensures
        r == days_from_monday(date),
{
    chrono::NaiveDate::from_ymd_opt(date.year, date.month, date.day).map(
        |d| d.weekday().num_days_from_monday(),
    )
}

/// Builds the date with `NaiveDate::from_ymd_opt` and moves it forward with
/// `NaiveDate::checked_add_days`. The contract names the result.
#[verifier::external_body]
pub(crate) fn add_days(date: CalendarDate, days: u64) -> (r: Option<CalendarDate>)
    ensures
        r == date_plus_days(date, days),
{
    chrono::NaiveDate::from_ymd_opt(date.year, date.month, date.day)?.checked_add_days(
        chrono::Days::new(days),
    ).map(|d| CalendarDate { year: d.year(), month: d.month(), day: d.day() })
}

/// Builds the date with `NaiveDate::from_ymd_opt` and moves it back with
/// `NaiveDate::checked_sub_days`. The contract names the result.
#[verifier::external_body]
pub(crate) fn sub_days(date: CalendarDate, days: u64) -> (r: Option<CalendarDate>)
    ensures
        r == date_minus_days(date, days),
{
    chrono::NaiveDate::from_ymd_opt(date.year, date.month, date.day)?.checked_sub_days(
        chrono::Days::new(days),
    ).map(|d| CalendarDate { year: d.year(), month: d.month(), day: d.day() })
}

/// Asks chrono's `Local` time zone for the instant at which the machine's wall
/// clock shows the given date and time, in seconds since the Unix epoch. The
/// answer depends on the time zone of the machine, so the contract claims
/// nothing of it. `None` where the calendar has no such date or time, or where
/// the wall clock never shows it or shows it twice.
#[verifier::external_body]
pub(crate) fn local_to_instant(at: LocalDateTime) -> (r: Option<i64>)
{
    let naive = chrono::NaiveDate::from_ymd_opt(at.date.year, at.date.month, at.date.day)?
        .and_hms_opt(at.clock.hour, at.clock.minute, at.clock.second)?;
    chrono::Local.from_local_datetime(&naive).single().map(|t| t.timestamp())
}

/// Asks chrono what the machine's wall clock shows at the given instant. The
/// answer depends on the time zone of the machine; the contract claims only
/// the documented ranges of hour, minute and second. `None` where the instant
/// lies outside chrono's calendar.
#[verifier::external_body]
pub(crate) fn instant_to_local_clock(t: i64) -> (r: Option<ClockTime>)
    ensures
        r matches Some(c) ==> c.well_formed(),
{
    chrono::DateTime::from_timestamp(t, 0).map(|utc| utc.with_timezone(&chrono::Local)).map(
        |l| ClockTime { hour: l.hour(), minute: l.minute(), second: l.second() },
    )
}

/// Reads the clock with chrono's `Utc::now`: the current instant in seconds
/// since the Unix epoch. Nothing is claimed of it.
#[verifier::external_body]
pub(crate) fn current_instant() -> (r: i64)
{
    chrono::Utc::now().timestamp()
}

/// Reads the clock with chrono's `Local::now`: the date that the machine's
/// calendar shows. Nothing is claimed of it.
#[verifier::external_body]
pub(crate) fn current_local_date() -> (r: CalendarDate)
{
    let today = chrono::Local::now().date_naive();
    CalendarDate { year: today.year(), month: today.month(), day: today.day() }
}

} // verus!
