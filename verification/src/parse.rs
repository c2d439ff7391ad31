//! The parser for dates and times typed by hand. A text may leave out the
//! seconds, or the minutes and the seconds; a time without a date is a time of
//! today.

use vstd::prelude::*;
use vstd::string::StringExecFns;
use crate::calendar::{
    CalendarDate, ClockTime, LocalDateTime, current_local_date, date_from_str,
    date_time_from_str, local_to_instant, parse_clock, parse_date, parse_date_and_clock,
    time_from_str,
};
use crate::error::TrackError;

verus! {

/// One end of a range as the user gave it: a whole day, or a date and time.
#[derive(Clone, Copy, Debug, PartialEq, Eq, Structural)]
pub enum DateOrDateTime {
    Date(CalendarDate),
    DateTime(LocalDateTime),
}

/// The format of a full time of day.
pub open spec fn time_format() -> Seq<char> {
    "%H:%M:%S"@
}

/// The format of a date.
pub open spec fn date_format() -> Seq<char> {
    "%Y-%m-%d"@
}

/// The format of a date followed by a full time of day.
pub open spec fn stamp_format() -> Seq<char> {
    "%Y-%m-%d %H:%M:%S"@
}

/// A text that ends with the minutes, with zero seconds supplied.
pub open spec fn with_seconds(s: Seq<char>) -> Seq<char> {
    s + ":0"@
}

/// A text that ends with the hour, with zero minutes and seconds supplied.
pub open spec fn with_minutes(s: Seq<char>) -> Seq<char> {
    s + ":0:0"@
}

/// The time of day that a text denotes: the text as it is where it parses,
/// else with seconds supplied, else with minutes and seconds supplied.
pub open spec fn clock_reading(s: Seq<char>) -> Option<ClockTime> {
    if time_from_str(s, time_format()) is Some {
        time_from_str(s, time_format())
    } else if time_from_str(with_seconds(s), time_format()) is Some {
        time_from_str(with_seconds(s), time_format())
    } else {
        time_from_str(with_minutes(s), time_format())
    }
}

/// The date and time that a shortened text denotes: with seconds supplied
/// where that parses, else with minutes and seconds supplied.
pub open spec fn padded_stamp_reading(s: Seq<char>) -> Option<LocalDateTime> {
    if date_time_from_str(with_seconds(s), stamp_format()) is Some {
        date_time_from_str(with_seconds(s), stamp_format())
    } else {
        date_time_from_str(with_minutes(s), stamp_format())
    }
}

/// The date and time that a text denotes: the text as it is where it parses,
/// else one of its padded forms.
pub open spec fn stamp_reading(s: Seq<char>) -> Option<LocalDateTime> {
    if date_time_from_str(s, stamp_format()) is Some {
        date_time_from_str(s, stamp_format())
    } else {
        padded_stamp_reading(s)
    }
}

/// The local date and time that a text denotes for an event: a time of day is
/// tried first, in its three forms, and is a time of `today`; then a date with
/// a time, in its three forms.
pub open spec fn date_time_reading(s: Seq<char>, today: CalendarDate) -> Option<LocalDateTime> {
    match clock_reading(s) {
        Some(clock) => Some(LocalDateTime { date: today, clock }),
        None => stamp_reading(s),
    }
}

/// The end of a range that a text denotes: a date alone, else a full date and
/// time, else a time of `today` in its three forms, else a shortened date and
/// time.
pub open spec fn bound_reading(s: Seq<char>, today: CalendarDate) -> Option<DateOrDateTime> {
    if let Some(date) = date_from_str(s, date_format()) {
        Some(DateOrDateTime::Date(date))
    } else if let Some(at) = date_time_from_str(s, stamp_format()) {
        Some(DateOrDateTime::DateTime(at))
    } else if let Some(clock) = clock_reading(s) {
        Some(DateOrDateTime::DateTime(LocalDateTime { date: today, clock }))
    } else {
        match padded_stamp_reading(s) {
            Some(at) => Some(DateOrDateTime::DateTime(at)),
            None => None,
        }
    }
}

/// Whether some rule reads the text as the time of an event. The day on which
/// it is read plays no part in this.
pub open spec fn reads_as_date_time(s: Seq<char>) -> bool {
    clock_reading(s) is Some || stamp_reading(s) is Some
}

/// Whether some rule reads the text as the end of a range.
pub open spec fn reads_as_bound(s: Seq<char>) -> bool {
    ||| date_from_str(s, date_format()) is Some
    ||| date_time_from_str(s, stamp_format()) is Some
    ||| clock_reading(s) is Some
    ||| padded_stamp_reading(s) is Some
}

/// The text with `:0` appended.
fn pad_seconds(s: &str) -> (r: String)
    ensures
        r@ == with_seconds(s@),
{
    String::from_str(s).concat(":0")
}

/// The text with `:0:0` appended.
fn pad_minutes(s: &str) -> (r: String)
    ensures
        r@ == with_minutes(s@),
{
    String::from_str(s).concat(":0:0")
}

/// Reads a time of day in one of its three forms.
pub fn read_clock(s: &str) -> (r: Option<ClockTime>)
    ensures
        r == clock_reading(s@),
        r matches Some(c) ==> c.well_formed(),
{
    if let Some(clock) = parse_clock(s, "%H:%M:%S") {
        return Some(clock);
    }
    if let Some(clock) = parse_clock(pad_seconds(s).as_str(), "%H:%M:%S") {
        return Some(clock);
    }
    parse_clock(pad_minutes(s).as_str(), "%H:%M:%S")
}

/// Reads a date and time whose text leaves out the seconds, or the minutes and
/// the seconds.
pub fn read_padded_stamp(s: &str) -> (r: Option<LocalDateTime>)
    ensures
        r == padded_stamp_reading(s@),
        r matches Some(at) ==> at.clock.well_formed(),
{
    if let Some(at) = parse_date_and_clock(pad_seconds(s).as_str(), "%Y-%m-%d %H:%M:%S") {
        return Some(at);
    }
    parse_date_and_clock(pad_minutes(s).as_str(), "%Y-%m-%d %H:%M:%S")
}

/// Reads the local date and time of an event, on the day `today`.
pub fn read_date_time(s: &str, today: CalendarDate) -> (r: Result<LocalDateTime, TrackError>)
    ensures
        match r {
            Ok(at) => date_time_reading(s@, today) == Some(at) && at.clock.well_formed(),
            Err(e) => e == TrackError::Unparseable && date_time_reading(s@, today) is None,
        },
{
    if let Some(clock) = read_clock(s) {
        return Ok(LocalDateTime { date: today, clock });
    }
    if let Some(at) = parse_date_and_clock(s, "%Y-%m-%d %H:%M:%S") {
        return Ok(at);
    }
    match read_padded_stamp(s) {
        Some(at) => Ok(at),
        None => Err(TrackError::Unparseable),
    }
}

/// Reads one end of a range, on the day `today`.
pub fn read_bound(s: &str, today: CalendarDate) -> (r: Result<DateOrDateTime, TrackError>)
    ensures
        match r {
            Ok(bound) => bound_reading(s@, today) == Some(bound),
            Err(e) => e == TrackError::Unparseable && bound_reading(s@, today) is None,
        },
{
    if let Some(date) = parse_date(s, "%Y-%m-%d") {
        return Ok(DateOrDateTime::Date(date));
    }
    if let Some(at) = parse_date_and_clock(s, "%Y-%m-%d %H:%M:%S") {
        return Ok(DateOrDateTime::DateTime(at));
    }
    if let Some(clock) = read_clock(s) {
        return Ok(DateOrDateTime::DateTime(LocalDateTime { date: today, clock }));
    }
    match read_padded_stamp(s) {
        Some(at) => Ok(DateOrDateTime::DateTime(at)),
        None => Err(TrackError::Unparseable),
    }
}

/// Whether a text is read does not depend on the day on which it is read.
pub proof fn lemma_reading_any_day(s: Seq<char>, today: CalendarDate)
    ensures
        date_time_reading(s, today) is Some <==> reads_as_date_time(s),
        bound_reading(s, today) is Some <==> reads_as_bound(s),
{
}

/// Reads the time of an event and turns it into an instant: a time of day is
/// a time of today on the machine's wall clock. Fails with `Unparseable`
/// exactly where no rule reads the text, and with `NoLocalTime` where the wall
/// clock never shows the time read, or shows it twice.
pub fn parse_date_time(s: &str) -> (r: Result<i64, TrackError>)
    ensures
        r == Err::<i64, TrackError>(TrackError::Unparseable) <==> !reads_as_date_time(s@),
        r matches Err(e) ==> e == TrackError::Unparseable || e == TrackError::NoLocalTime,
{
    let today = current_local_date();
    proof {
        lemma_reading_any_day(s@, today);
    }
    let at = read_date_time(s, today)?;
    instant_of(local_to_instant(at))
}

/// The instant that the time zone gave for a local time, or the failure that
/// stands for its refusal.
pub fn instant_of(answer: Option<i64>) -> (r: Result<i64, TrackError>)
    ensures
        r == match answer {
            Some(t) => Ok::<i64, TrackError>(t),
            None => Err(TrackError::NoLocalTime),
        },
{
    match answer {
        Some(t) => Ok(t),
        None => Err(TrackError::NoLocalTime),
    }
}

/// Reads one end of a range, on the day that the machine's calendar shows.
/// Fails with `Unparseable` exactly where no rule reads the text.
pub fn parse_date_or_date_time(s: &str) -> (r: Result<DateOrDateTime, TrackError>)
    ensures
        r is Err <==> !reads_as_bound(s@),
        r matches Err(e) ==> e == TrackError::Unparseable,
        r matches Ok(bound) ==> exists|today: CalendarDate|
            #[trigger] bound_reading(s@, today) == Some(bound),
{
    let today = current_local_date();
    proof {
        lemma_reading_any_day(s@, today);
    }
    read_bound(s, today)
}

} // verus!
