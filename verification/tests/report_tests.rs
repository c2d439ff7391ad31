use chrono::{Datelike, NaiveDate, TimeZone, Timelike};
use timetracking::calendar::{CalendarDate, ClockTime};
use timetracking::error::TrackError;
use timetracking::event::{TrackingData, TrackingEvent};
use timetracking::log::{start_tracking, stop_tracking};
use timetracking::report::{show, show_at, split_duration, status, Status};

fn start(description: Option<&str>, time: i64) -> TrackingEvent {
    TrackingEvent::Start(TrackingData { description: description.map(|s| s.to_string()), time })
}

fn stop(description: Option<&str>, time: i64) -> TrackingEvent {
    TrackingEvent::Stop(TrackingData { description: description.map(|s| s.to_string()), time })
}

fn text(s: &str) -> Option<String> {
    Some(s.to_string())
}

fn date(year: i32, month: u32, day: u32) -> CalendarDate {
    CalendarDate { year, month, day }
}

fn local_instant(d: CalendarDate, h: u32, mi: u32, s: u32) -> i64 {
    let naive = NaiveDate::from_ymd_opt(d.year, d.month, d.day).unwrap().and_hms_opt(h, mi, s).unwrap();
    chrono::Local.from_local_datetime(&naive).single().unwrap().timestamp()
}

fn next_day(d: CalendarDate) -> CalendarDate {
    let n = NaiveDate::from_ymd_opt(d.year, d.month, d.day).unwrap().succ_opt().unwrap();
    date(n.year(), n.month(), n.day())
}

#[test]
fn a_day_from_nine_to_half_past_five() {
    let day = date(2021, 3, 4);
    let log = vec![
        start(None, local_instant(day, 9, 0, 0)),
        stop(None, local_instant(day, 17, 30, 0)),
    ];
    let now = local_instant(day, 20, 0, 0);
    let total = show_at(&log, None, None, None, true, day, now).unwrap();
    assert_eq!(split_duration(total), (8, 30, 0));
    let same = show_at(&log, text("2021-03-04"), text("2021-03-04"), None, true, date(2022, 1, 1), now);
    assert_eq!(same, Ok(30_600));
    let other_day = show_at(&log, None, None, None, true, date(2021, 3, 6), now);
    assert_eq!(other_day, Ok(0));
}

#[test]
fn a_day_tracked_through_the_clock() {
    let mut log = Vec::new();
    assert_eq!(start_tracking(&mut log, None, text("09:00:00")), Ok(()));
    assert_eq!(stop_tracking(&mut log, None, text("17:30:00")), Ok(()));
    let total = show(&log, None, None, None, true).unwrap();
    assert_eq!(split_duration(total), (8, 30, 0));
    assert_eq!(show(&log, text("10"), None, None, true), Ok(0));
}

#[test]
fn an_open_session_is_counted_until_now() {
    let day = date(2021, 3, 4);
    let t = local_instant(day, 10, 0, 20);
    let log = vec![start(Some("open"), t)];
    assert_eq!(show_at(&log, None, None, None, true, day, t + 900), Ok(900));
    assert_eq!(split_duration(900), (0, 15, 0));
    assert_eq!(show_at(&log, None, None, None, false, day, t + 900), Ok(900));
    assert_eq!(show_at(&log, None, None, None, false, day, t + 900 + 40), Ok(960));
}

#[test]
fn the_clock_closes_an_open_session() {
    let now = chrono::Utc::now().timestamp();
    let log = vec![start(None, now - 900)];
    let total = show(&log, None, None, text("all"), true).unwrap();
    assert!(900 <= total && total <= 905);
}

#[test]
fn a_whole_day_admits_its_first_and_last_second() {
    let day = date(2021, 3, 4);
    let midnight = local_instant(day, 0, 0, 0);
    let last = local_instant(day, 23, 59, 59);
    let next = local_instant(next_day(day), 0, 0, 0);
    let now = next + 500;
    let inside = vec![start(None, midnight), stop(None, last)];
    assert_eq!(show_at(&inside, text("2021-03-04"), None, None, true, day, now), Ok(last - midnight));
    let late = vec![start(None, midnight), stop(None, next)];
    assert_eq!(show_at(&late, text("2021-03-04"), None, None, true, day, now), Ok(now - midnight));
    let early = vec![start(None, midnight - 1), stop(None, last)];
    assert_eq!(show_at(&early, text("2021-03-04"), None, None, true, day, now), Ok(0));
    let beyond = vec![start(None, next), stop(None, next + 10)];
    assert_eq!(show_at(&beyond, text("2021-03-04"), None, None, true, day, now), Ok(0));
}

#[test]
fn a_date_and_time_as_bound_is_exact() {
    let day = date(2021, 3, 4);
    let nine = local_instant(day, 9, 0, 0);
    let log = vec![start(None, nine), stop(None, nine + 60), start(None, nine + 120), stop(None, nine + 200)];
    let from = text("2021-03-04 09:00:00");
    assert_eq!(show_at(&log, from.clone(), text("2021-03-04 09:03:20"), None, true, day, 0), Ok(140));
    assert_eq!(show_at(&log, from.clone(), text("2021-03-04 09:03:19"), None, true, day, nine + 500), Ok(60 + 380));
    assert_eq!(show_at(&log, text("2021-03-04 09:00:01"), None, None, true, day, 0), Ok(80));
}

#[test]
fn the_filter_all_counts_what_lies_outside_the_window() {
    let day = date(2021, 3, 4);
    let nine = local_instant(day, 9, 0, 0);
    let log = vec![start(None, nine), stop(Some("x"), nine + 3_600)];
    let elsewhere = date(2000, 1, 1);
    assert_eq!(show_at(&log, None, None, None, true, elsewhere, 0), Ok(0));
    assert_eq!(show_at(&log, None, None, text("all"), true, elsewhere, 0), Ok(3_600));
    assert_eq!(show_at(&log, text("1999-01-01"), text("1999-01-02"), text("all"), true, elsewhere, 0), Ok(3_600));
}

#[test]
fn the_filter_all_still_reads_the_bounds() {
    let log = vec![start(None, 0), stop(None, 60)];
    let today = date(2021, 3, 4);
    assert_eq!(show_at(&log, text("?"), None, text("all"), true, today, 0), Err(TrackError::Unparseable));
    assert_eq!(show_at(&log, None, text("?"), text("all"), true, today, 0), Err(TrackError::Unparseable));
}

#[test]
fn the_week_filter_covers_monday_to_sunday() {
    let monday = date(2024, 4, 29);
    let sunday = date(2024, 5, 5);
    let log = vec![
        start(None, local_instant(monday, 0, 0, 0) - 10),
        stop(None, local_instant(monday, 0, 0, 0)),
        start(None, local_instant(monday, 8, 0, 0)),
        stop(None, local_instant(monday, 9, 0, 0)),
        start(None, local_instant(sunday, 23, 0, 0)),
        stop(None, local_instant(sunday, 23, 59, 59)),
        start(None, local_instant(sunday, 23, 59, 59) + 1),
    ];
    let today = date(2024, 5, 1);
    let now = local_instant(date(2024, 5, 7), 0, 0, 0);
    assert_eq!(show_at(&log, None, None, text("week"), true, today, now), Ok(3_600 + 3_599));
    assert_eq!(show_at(&log, text("junk"), text("2001-01-01"), text("week"), true, today, now), Ok(3_600 + 3_599));
}

#[test]
fn a_text_filter_works_inside_the_window() {
    let day = date(2021, 3, 4);
    let nine = local_instant(day, 9, 0, 0);
    let log = vec![
        start(Some("mail"), nine),
        stop(Some("mail"), nine + 100),
        start(Some("code audit"), nine + 200),
        stop(Some("code audit"), nine + 500),
        start(Some("code"), nine + 86_400 * 3),
        stop(Some("code"), nine + 86_400 * 3 + 50),
    ];
    assert_eq!(show_at(&log, None, None, text("code"), true, day, 0), Ok(300));
    assert_eq!(show_at(&log, None, None, text("mail"), true, day, 0), Ok(100));
    assert_eq!(show_at(&log, None, None, text("lunch"), true, day, 0), Ok(0));
    assert_eq!(show_at(&log, None, None, None, true, day, 0), Ok(400));
}

#[test]
fn a_sum_out_of_range_fails_the_request() {
    let log = vec![start(None, i64::MIN), stop(None, i64::MAX)];
    let today = date(2021, 3, 4);
    assert_eq!(show_at(&log, None, None, text("all"), true, today, 0), Err(TrackError::Overflow));
}

#[test]
fn a_window_that_the_calendar_lacks_fails_the_request() {
    let log = vec![start(None, 0), stop(None, 60)];
    assert_eq!(show_at(&log, None, None, None, true, date(2021, 2, 31), 0), Err(TrackError::NoLocalTime));
    assert_eq!(show_at(&log, None, None, text("all"), true, date(2021, 2, 31), 0), Ok(60));
}

#[test]
fn the_status_of_an_empty_log() {
    assert_eq!(status(&[]), None);
}

#[test]
fn the_status_tells_of_the_last_event() {
    let t = 1_614_848_767;
    let local = chrono::DateTime::from_timestamp(t, 0).unwrap().with_timezone(&chrono::Local);
    let shown = ClockTime { hour: local.hour(), minute: local.minute(), second: local.second() };
    let log = vec![start(Some("first"), 5), stop(None, 9), start(Some("now"), t)];
    assert_eq!(
        status(&log),
        Some(Status { active: true, description: text("now"), time: t, local_time: Some(shown) })
    );
    let ended = vec![start(Some("first"), 5), stop(None, t)];
    assert_eq!(
        status(&ended),
        Some(Status { active: false, description: None, time: t, local_time: Some(shown) })
    );
}

#[test]
fn the_status_of_an_instant_beyond_the_calendar() {
    let log = vec![stop(Some("far"), i64::MAX)];
    assert_eq!(
        status(&log),
        Some(Status { active: false, description: text("far"), time: i64::MAX, local_time: None })
    );
}
