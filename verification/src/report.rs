//! The answers to the user's questions: how much time was worked, and what
//! the log says of the present.

use vstd::prelude::*;
use crate::aggregate::{
    Filter, FilterView, Span, instants, selected, selected_instants, tally, tally_fits,
    total_seconds,
};
use crate::calendar::{
    CalendarDate, ClockTime, current_instant, current_local_date, instant_to_local_clock,
};
use crate::error::TrackError;
use crate::event::{EventView, TrackingEvent, log_view, text_view};
use crate::window::{resolve, resolved, window_span};

verus! {

/// The hours, minutes and seconds that make up a number of seconds. A negative
/// number has all three parts negative or zero.
pub open spec fn clock_parts(total: int) -> (int, int, int) {
    if total >= 0 {
        (total / 3600, (total / 60) % 60, total % 60)
    } else {
        (-((-total) / 3600), -(((-total) / 60) % 60), -((-total) % 60))
    }
}

/// Splits a duration in seconds into hours, minutes and seconds. The hours are
/// not bounded by a day.
pub fn split_duration(total: i64) -> (r: (i64, i64, i64))
    ensures
        r.0 == clock_parts(total as int).0,
        r.1 == clock_parts(total as int).1,
        r.2 == clock_parts(total as int).2,
        r.0 * 3600 + r.1 * 60 + r.2 == total,
        -60 < r.1 < 60,
        -60 < r.2 < 60,
        total >= 0 ==> r.0 >= 0 && r.1 >= 0 && r.2 >= 0,
        total <= 0 ==> r.0 <= 0 && r.1 <= 0 && r.2 <= 0,
{
    let hours = total / 3600;
    let minutes = total / 60 - hours * 60;
    let seconds = total - hours * 3600 - minutes * 60;
    (hours, minutes, seconds)
}

/// The seconds worked in the events that a query selects, with `now` closing
/// a session left open; `Overflow` where they cannot be added up.
pub open spec fn work_time(
    log: Seq<EventView>,
    span: Span,
    filter: FilterView,
    include_seconds: bool,
    now: int,
) -> Result<int, TrackError> {
    let times = instants(selected(log, span, filter));
    if tally_fits(times, now, include_seconds) {
        Ok(tally(times, now, include_seconds))
    } else {
        Err(TrackError::Overflow)
    }
}

/// Whether a computed result is the expected one.
pub open spec fn agrees(r: Result<i64, TrackError>, expected: Result<int, TrackError>) -> bool {
    match (r, expected) {
        (Ok(a), Ok(b)) => a == b,
        (Err(e), Err(f)) => e == f,
        _ => false,
    }
}

/// The seconds worked in the events of the log that lie in the window and
/// pass the filter, with `now` closing a session left open.
pub fn work_seconds(
    data: &[TrackingEvent],
    span: &Span,
    filter: &Filter,
    include_seconds: bool,
    now: i64,
) -> (r: Result<i64, TrackError>)
    ensures
        agrees(r, work_time(log_view(data@), *span, filter@, include_seconds, now as int)),
{
    let times = selected_instants(data, span, filter);
    total_seconds(&times, include_seconds, now)
}

/// What `show_at` may return for a request made on the day `today` at the
/// instant `now`. A request that cannot be resolved fails as the resolution
/// does. The filter `all` fixes the result. Otherwise the ends of the window
/// become instants on the machine's wall clock: either that fails, or the
/// result is the work time in some window of instants.
pub open spec fn show_outcome(
    log: Seq<EventView>,
    from: Option<Seq<char>>,
    to: Option<Seq<char>>,
    filter: Option<Seq<char>>,
    include_seconds: bool,
    today: CalendarDate,
    now: int,
    r: Result<i64, TrackError>,
) -> bool {
    match resolved(from, to, filter, today) {
        Err(e) => r == Err::<i64, TrackError>(e),
        Ok(query) => match query.filter {
            FilterView::All => agrees(
                r,
                work_time(
                    log,
                    Span { from: None, to: None },
                    FilterView::All,
                    include_seconds,
                    now,
                ),
            ),
            _ => r == Err::<i64, TrackError>(TrackError::NoLocalTime) || exists|span: Span|
                span.from is Some && span.to is Some && agrees(
                    r,
                    #[trigger] work_time(log, span, query.filter, include_seconds, now),
                ),
        },
    }
}

/// The seconds worked in the range and under the filter that the user asked
/// for, on the day `today` at the instant `now`.
pub fn show_at(
    data: &[TrackingEvent],
    from: Option<String>,
    to: Option<String>,
    filter: Option<String>,
    include_seconds: bool,
    today: CalendarDate,
    now: i64,
) -> (r: Result<i64, TrackError>)
    ensures
        show_outcome(
            log_view(data@),
            text_view(from),
            text_view(to),
            text_view(filter),
            include_seconds,
            today,
            now as int,
            r,
        ),
{
    let query = match resolve(from, to, filter, today) {
        Ok(query) => query,
        Err(e) => {
            return Err(e);
        },
    };
    let span = match &query.filter {
        Filter::All => Span { from: None, to: None },
        _ => match window_span(&query.window) {
            Ok(span) => span,
            Err(e) => {
                return Err(e);
            },
        },
    };
    work_seconds(data, &span, &query.filter, include_seconds, now)
}

/// The seconds worked in the range and under the filter that the user asked
/// for, today and now by the machine's clock.
pub fn show(
    data: &[TrackingEvent],
    from: Option<String>,
    to: Option<String>,
    filter: Option<String>,
    include_seconds: bool,
) -> (r: Result<i64, TrackError>)
    ensures
        exists|today: CalendarDate, now: i64| #[trigger]
            show_outcome(
                log_view(data@),
                text_view(from),
                text_view(to),
                text_view(filter),
                include_seconds,
                today,
                now as int,
                r,
            ),
{
    let today = current_local_date();
    let now = current_instant();
    show_at(data, from, to, filter, include_seconds, today, now)
}

/// What the log says of the present.
#[derive(Clone, Debug, PartialEq, Eq)]
pub struct Status {
    /// Whether tracking is going on: the last event is a start.
    pub active: bool,
    /// The description of the last event.
    pub description: Option<String>,
    /// The instant of the last event.
    pub time: i64,
    /// What the machine's wall clock showed at that instant, where the
    /// calendar reaches it.
    pub local_time: Option<ClockTime>,
}

/// The summary of the last event of the log; `None` for an empty log.
pub fn status(data: &[TrackingEvent]) -> (r: Option<Status>)
    ensures
        r is None <==> data@.len() == 0,
        r matches Some(s) ==> {
            &&& s.active == data@.last()@.is_start
            &&& text_view(s.description) == data@.last()@.description
            &&& s.time == data@.last()@.time
            &&& s.local_time matches Some(clock) ==> clock.well_formed()
        },
{
    if data.len() == 0 {
        return None;
    }
    let event = &data[data.len() - 1];
    let time = event.instant();
    Some(
        Status {
            active: event.is_start(),
            description: event.description(),
            time,
            local_time: instant_to_local_clock(time),
        },
    )
}

} // verus!
