use chrono::{Datelike, NaiveDate, TimeZone};
use timetracking::calendar::{CalendarDate, ClockTime, LocalDateTime};
use timetracking::error::TrackError;
use timetracking::parse::{
    instant_of, parse_date_or_date_time, parse_date_time, read_bound, read_clock, read_date_time,
    read_padded_stamp, DateOrDateTime,
};

fn date(year: i32, month: u32, day: u32) -> CalendarDate {
    CalendarDate { year, month, day }
}

fn clock(hour: u32, minute: u32, second: u32) -> ClockTime {
    ClockTime { hour, minute, second }
}

fn at(d: CalendarDate, c: ClockTime) -> LocalDateTime {
    LocalDateTime { date: d, clock: c }
}

fn local_instant(d: CalendarDate, c: ClockTime) -> i64 {
    let naive = NaiveDate::from_ymd_opt(d.year, d.month, d.day)
        .unwrap()
        .and_hms_opt(c.hour, c.minute, c.second)
        .unwrap();
    chrono::Local.from_local_datetime(&naive).single().unwrap().timestamp()
}

fn today() -> CalendarDate {
    let d = chrono::Local::now().date_naive();
    date(d.year(), d.month(), d.day())
}

#[test]
fn a_time_of_day_in_full() {
    assert_eq!(read_clock("12:34:56"), Some(clock(12, 34, 56)));
    assert_eq!(read_clock("00:00:00"), Some(clock(0, 0, 0)));
    assert_eq!(read_clock("23:59:59"), Some(clock(23, 59, 59)));
    assert_eq!(read_clock("7:5:3"), Some(clock(7, 5, 3)));
}

#[test]
fn a_time_of_day_without_seconds() {
    assert_eq!(read_clock("12:34"), Some(clock(12, 34, 0)));
    assert_eq!(read_clock("09:05"), Some(clock(9, 5, 0)));
}

#[test]
fn a_time_of_day_with_the_hour_alone() {
    assert_eq!(read_clock("12"), Some(clock(12, 0, 0)));
    assert_eq!(read_clock("0"), Some(clock(0, 0, 0)));
    assert_eq!(read_clock("23"), Some(clock(23, 0, 0)));
}

#[test]
fn a_leap_second_reads_as_the_second_before() {
    assert_eq!(read_clock("23:59:60"), Some(clock(23, 59, 59)));
}

#[test]
fn what_is_no_time_of_day() {
    assert_eq!(read_clock(""), None);
    assert_eq!(read_clock("noon"), None);
    assert_eq!(read_clock("24:00:00"), None);
    assert_eq!(read_clock("12:60"), None);
    assert_eq!(read_clock("12:00:61"), None);
    assert_eq!(read_clock("1:2:3:4"), None);
    assert_eq!(read_clock("2021-03-04"), None);
    assert_eq!(read_clock("2021-03-04 05:06:07"), None);
}

#[test]
fn a_shortened_date_and_time() {
    let day = date(2021, 3, 4);
    assert_eq!(read_padded_stamp("2021-03-04 05:06"), Some(at(day, clock(5, 6, 0))));
    assert_eq!(read_padded_stamp("2021-03-04 05"), Some(at(day, clock(5, 0, 0))));
    assert_eq!(read_padded_stamp("2021-03-04 05:06:07"), None);
    assert_eq!(read_padded_stamp("2021-03-04"), None);
    assert_eq!(read_padded_stamp("05:06"), None);
}

#[test]
fn an_event_time_without_a_date_is_of_today() {
    let day = date(2019, 12, 31);
    assert_eq!(read_date_time("08:15:30", day), Ok(at(day, clock(8, 15, 30))));
    assert_eq!(read_date_time("08:15", day), Ok(at(day, clock(8, 15, 0))));
    assert_eq!(read_date_time("8", day), Ok(at(day, clock(8, 0, 0))));
    let other = date(2000, 2, 29);
    assert_eq!(read_date_time("08:15", other), Ok(at(other, clock(8, 15, 0))));
}

#[test]
fn an_event_time_with_a_date() {
    let today = date(2019, 12, 31);
    let day = date(2021, 3, 4);
    assert_eq!(read_date_time("2021-03-04 05:06:07", today), Ok(at(day, clock(5, 6, 7))));
    assert_eq!(read_date_time("2021-03-04 05:06", today), Ok(at(day, clock(5, 6, 0))));
    assert_eq!(read_date_time("2021-03-04 05", today), Ok(at(day, clock(5, 0, 0))));
    assert_eq!(read_date_time("2021-3-4 5:6:7", today), Ok(at(day, clock(5, 6, 7))));
}

#[test]
fn an_event_time_that_no_rule_reads() {
    let today = date(2019, 12, 31);
    assert_eq!(read_date_time("", today), Err(TrackError::Unparseable));
    assert_eq!(read_date_time("yesterday", today), Err(TrackError::Unparseable));
    assert_eq!(read_date_time("2021-03-04", today), Err(TrackError::Unparseable));
    assert_eq!(read_date_time("2021-02-30 10:00:00", today), Err(TrackError::Unparseable));
    assert_eq!(read_date_time("2021-03-04 25:00", today), Err(TrackError::Unparseable));
    assert_eq!(read_date_time("2021-03-04T05:06:07", today), Err(TrackError::Unparseable));
}

#[test]
fn a_bound_that_is_a_whole_day() {
    let today = date(2019, 12, 31);
    assert_eq!(read_bound("2021-03-04", today), Ok(DateOrDateTime::Date(date(2021, 3, 4))));
    assert_eq!(read_bound("2020-02-29", today), Ok(DateOrDateTime::Date(date(2020, 2, 29))));
}

#[test]
fn a_bound_that_is_a_date_and_time() {
    let today = date(2019, 12, 31);
    let day = date(2021, 3, 4);
    assert_eq!(
        read_bound("2021-03-04 05:06:07", today),
        Ok(DateOrDateTime::DateTime(at(day, clock(5, 6, 7))))
    );
    assert_eq!(
        read_bound("2021-03-04 05:06", today),
        Ok(DateOrDateTime::DateTime(at(day, clock(5, 6, 0))))
    );
    assert_eq!(
        read_bound("2021-03-04 05", today),
        Ok(DateOrDateTime::DateTime(at(day, clock(5, 0, 0))))
    );
}

#[test]
fn a_bound_that_is_a_time_of_today() {
    let today = date(2019, 12, 31);
    assert_eq!(
        read_bound("05:06:07", today),
        Ok(DateOrDateTime::DateTime(at(today, clock(5, 6, 7))))
    );
    assert_eq!(read_bound("05:06", today), Ok(DateOrDateTime::DateTime(at(today, clock(5, 6, 0)))));
    assert_eq!(read_bound("5", today), Ok(DateOrDateTime::DateTime(at(today, clock(5, 0, 0)))));
}

#[test]
fn a_bound_that_no_rule_reads() {
    let today = date(2019, 12, 31);
    assert_eq!(read_bound("", today), Err(TrackError::Unparseable));
    assert_eq!(read_bound("last week", today), Err(TrackError::Unparseable));
    assert_eq!(read_bound("2021-13-01", today), Err(TrackError::Unparseable));
    assert_eq!(read_bound("2021-02-29", today), Err(TrackError::Unparseable));
    assert_eq!(read_bound("24:00", today), Err(TrackError::Unparseable));
}

#[test]
fn the_refusal_of_the_time_zone_is_a_failure() {
    assert_eq!(instant_of(Some(17)), Ok(17));
    assert_eq!(instant_of(Some(-3)), Ok(-3));
    assert_eq!(instant_of(None), Err(TrackError::NoLocalTime));
}

#[test]
fn parse_date_time_gives_the_instant_of_the_wall_clock() {
    let day = date(2021, 3, 4);
    assert_eq!(parse_date_time("2021-03-04 05:06:07"), Ok(local_instant(day, clock(5, 6, 7))));
    assert_eq!(parse_date_time("2021-03-04 05:06"), Ok(local_instant(day, clock(5, 6, 0))));
    assert_eq!(parse_date_time("2021-03-04 05"), Ok(local_instant(day, clock(5, 0, 0))));
    assert_eq!(parse_date_time("1999-12-31 23:59:59"), Ok(local_instant(date(1999, 12, 31), clock(23, 59, 59))));
}

#[test]
fn parse_date_time_puts_a_time_of_day_on_today() {
    let before = today();
    let r = parse_date_time("12:30");
    let after = today();
    assert!(
        r == Ok(local_instant(before, clock(12, 30, 0)))
            || r == Ok(local_instant(after, clock(12, 30, 0)))
    );
    let full = parse_date_time("12:30:15");
    assert!(
        full == Ok(local_instant(before, clock(12, 30, 15)))
            || full == Ok(local_instant(after, clock(12, 30, 15)))
    );
    assert_eq!(full.unwrap() - r.unwrap(), 15);
}

#[test]
fn parse_date_time_refuses_what_no_rule_reads() {
    assert_eq!(parse_date_time("soon"), Err(TrackError::Unparseable));
    assert_eq!(parse_date_time("2021-03-04"), Err(TrackError::Unparseable));
    assert_eq!(parse_date_time(""), Err(TrackError::Unparseable));
}

#[test]
fn parse_date_or_date_time_reads_on_the_day_of_the_machine() {
    assert_eq!(
        parse_date_or_date_time("2021-03-04"),
        Ok(DateOrDateTime::Date(date(2021, 3, 4)))
    );
    assert_eq!(
        parse_date_or_date_time("2021-03-04 05:06"),
        Ok(DateOrDateTime::DateTime(at(date(2021, 3, 4), clock(5, 6, 0))))
    );
    let before = today();
    let r = parse_date_or_date_time("07:45");
    let after = today();
    assert!(
        r == Ok(DateOrDateTime::DateTime(at(before, clock(7, 45, 0))))
            || r == Ok(DateOrDateTime::DateTime(at(after, clock(7, 45, 0))))
    );
    assert_eq!(parse_date_or_date_time("never"), Err(TrackError::Unparseable));
}
