//! From what the user asked for to a query: which events to look at, and
//! between which two ends.

use vstd::prelude::*;
use vstd::string::StringExecFns;
use crate::aggregate::{Filter, FilterView, Span, in_span};
use crate::calendar::{
    CalendarDate, ClockTime, LocalDateTime, add_days, date_minus_days, date_plus_days,
    days_from_monday, local_to_instant, sub_days, weekday_index,
};
use crate::error::TrackError;
use crate::event::text_view;
use crate::parse::{DateOrDateTime, bound_reading, instant_of, read_bound};

verus! {

/// The two ends of a range, both inclusive. A date as lower end stands for its
/// first second, a date as upper end for its last. `None` leaves a side open.
#[derive(Clone, Copy, Debug, PartialEq, Eq, Structural)]
pub struct Window {
    pub from: Option<DateOrDateTime>,
    pub to: Option<DateOrDateTime>,
}

/// A query: a filter and the window it applies to.
#[derive(Clone, Debug, PartialEq, Eq)]
pub struct Query {
    pub filter: Filter,
    pub window: Window,
}

/// The model of a query.
pub struct QueryView {
    pub filter: FilterView,
    pub window: Window,
}

impl View for Query {
    type V = QueryView;

    open spec fn view(&self) -> QueryView {
        QueryView { filter: self.filter@, window: self.window }
    }
}

/// The day on which an end of a range lies.
pub open spec fn day_of(bound: DateOrDateTime) -> CalendarDate {
    match bound {
        DateOrDateTime::Date(date) => date,
        DateOrDateTime::DateTime(at) => at.date,
    }
}

/// The first second that a lower end admits: midnight for a date.
pub open spec fn lower_edge(bound: DateOrDateTime) -> LocalDateTime {
    match bound {
        DateOrDateTime::Date(date) => LocalDateTime {
            date,
            clock: ClockTime { hour: 0, minute: 0, second: 0 },
        },
        DateOrDateTime::DateTime(at) => at,
    }
}

/// The last second that an upper end admits: 23:59:59 for a date.
pub open spec fn upper_edge(bound: DateOrDateTime) -> LocalDateTime {
    match bound {
        DateOrDateTime::Date(date) => LocalDateTime {
            date,
            clock: ClockTime { hour: 23, minute: 59, second: 59 },
        },
        DateOrDateTime::DateTime(at) => at,
    }
}

/// The days from a weekday, counted from Monday, to the Sunday of its week.
pub open spec fn days_to_sunday(weekday: u32) -> u64 {
    if weekday <= 6 {
        (6 - weekday) as u64
    } else {
        0
    }
}

/// The week of `today`, from its Monday to its Sunday, as whole days; `None`
/// where the calendar does not hold all of it.
pub open spec fn week_of(today: CalendarDate) -> Option<Window> {
    match days_from_monday(today) {
        Some(weekday) => match (
            date_minus_days(today, weekday as u64),
            date_plus_days(today, days_to_sunday(weekday)),
        ) {
            (Some(monday), Some(sunday)) => Some(
                Window {
                    from: Some(DateOrDateTime::Date(monday)),
                    to: Some(DateOrDateTime::Date(sunday)),
                },
            ),
            _ => None,
        },
        None => None,
    }
}

/// The filter that a text asks for: `all` lifts every restriction, any other
/// text must occur in the description, and no text leaves the window alone to
/// decide.
pub open spec fn filter_of(filter: Option<Seq<char>>) -> FilterView {
    match filter {
        Some(text) => if text == "all"@ {
            FilterView::All
        } else {
            FilterView::Contains(text)
        },
        None => FilterView::Unfiltered,
    }
}

/// The lower end of the range: the text read on the day `today`, or `today`
/// as a whole day where no text is given.
pub open spec fn lower_bound(from: Option<Seq<char>>, today: CalendarDate) -> Option<
    DateOrDateTime,
> {
    match from {
        Some(s) => bound_reading(s, today),
        None => Some(DateOrDateTime::Date(today)),
    }
}

/// The upper end of the range: the text read on the day `today`, or the day
/// of the lower end as a whole day where no text is given.
pub open spec fn upper_bound(to: Option<Seq<char>>, lower: DateOrDateTime, today: CalendarDate)
    -> Option<DateOrDateTime> {
    match to {
        Some(s) => bound_reading(s, today),
        None => Some(DateOrDateTime::Date(day_of(lower))),
    }
}

/// The query that the three texts ask for on the day `today`. The filter
/// `week` asks for the week of `today` and sets `from` and `to` aside.
pub open spec fn resolved(
    from: Option<Seq<char>>,
    to: Option<Seq<char>>,
    filter: Option<Seq<char>>,
    today: CalendarDate,
) -> Result<QueryView, TrackError> {
    if filter == Some("week"@) {
        match week_of(today) {
            Some(window) => Ok(QueryView { filter: FilterView::Unfiltered, window }),
            None => Err(TrackError::NoLocalTime),
        }
    } else {
        match lower_bound(from, today) {
            Some(lower) => match upper_bound(to, lower, today) {
                Some(upper) => Ok(
                    QueryView {
                        filter: filter_of(filter),
                        window: Window { from: Some(lower), to: Some(upper) },
                    },
                ),
                None => Err(TrackError::Unparseable),
            },
            None => Err(TrackError::Unparseable),
        }
    }
}

/// The day on which an end of a range lies.
pub fn bound_day(bound: DateOrDateTime) -> (r: CalendarDate)
    ensures
        r == day_of(bound),
{
    match bound {
        DateOrDateTime::Date(date) => date,
        DateOrDateTime::DateTime(at) => at.date,
    }
}

/// The first second that a lower end admits.
pub fn first_second(bound: DateOrDateTime) -> (r: LocalDateTime)
    ensures
        r == lower_edge(bound),
{
    match bound {
        DateOrDateTime::Date(date) => LocalDateTime {
            date,
            clock: ClockTime { hour: 0, minute: 0, second: 0 },
        },
        DateOrDateTime::DateTime(at) => at,
    }
}

/// The last second that an upper end admits.
pub fn last_second(bound: DateOrDateTime) -> (r: LocalDateTime)
    ensures
        r == upper_edge(bound),
{
    match bound {
        DateOrDateTime::Date(date) => LocalDateTime {
            date,
            clock: ClockTime { hour: 23, minute: 59, second: 59 },
        },
        DateOrDateTime::DateTime(at) => at,
    }
}

/// How far a week reaches back to its Monday and forward to its Sunday from a
/// day whose weekday, counted from Monday, is given.
pub fn week_offsets(weekday: u32) -> (r: (u64, u64))
    ensures
        r.0 == weekday,
        r.1 == days_to_sunday(weekday),
{
    let forward: u64 = if weekday <= 6 {
        (6 - weekday) as u64
    } else {
        0
    };
    (weekday as u64, forward)
}

/// The week of `today`, from its Monday to its Sunday.
pub fn week_window(today: CalendarDate) -> (r: Option<Window>)
    ensures
        r == week_of(today),
{
    match weekday_index(today) {
        Some(weekday) => {
            let (back, forward) = week_offsets(weekday);
            match (sub_days(today, back), add_days(today, forward)) {
                (Some(monday), Some(sunday)) => Some(
                    Window {
                        from: Some(DateOrDateTime::Date(monday)),
                        to: Some(DateOrDateTime::Date(sunday)),
                    },
                ),
                _ => None,
            }
        },
        None => None,
    }
}

/// Whether two texts are the same.
fn same_text(a: &String, b: &str) -> (r: bool)
    ensures
        r == (a@ == b@),
{
    let other = String::from_str(b);
    *a == other
}

/// Resolves what the user asked for into a query, on the day `today`.
pub fn resolve(
    from: Option<String>,
    to: Option<String>,
    filter: Option<String>,
    today: CalendarDate,
) -> (r: Result<Query, TrackError>)
    ensures
        match (r, resolved(text_view(from), text_view(to), text_view(filter), today)) {
            (Ok(query), Ok(expected)) => query@ == expected,
            (Err(e), Err(expected)) => e == expected,
            _ => false,
        },
{
    let week = match &filter {
        Some(text) => same_text(text, "week"),
        None => false,
    };
    if week {
        return match week_window(today) {
            Some(window) => Ok(Query { filter: Filter::Unfiltered, window }),
            None => Err(TrackError::NoLocalTime),
        };
    }
    let lower = match &from {
        Some(s) => match read_bound(s.as_str(), today) {
            Ok(bound) => bound,
            Err(e) => {
                return Err(e);
            },
        },
        None => DateOrDateTime::Date(today),
    };
    let upper = match &to {
        Some(s) => match read_bound(s.as_str(), today) {
            Ok(bound) => bound,
            Err(e) => {
                return Err(e);
            },
        },
        None => DateOrDateTime::Date(bound_day(lower)),
    };
    let filter = match filter {
        Some(text) => if same_text(&text, "all") {
            Filter::All
        } else {
            Filter::Contains(text)
        },
        None => Filter::Unfiltered,
    };
    Ok(Query { filter, window: Window { from: Some(lower), to: Some(upper) } })
}

/// Turns the ends of a window into instants on the machine's wall clock: a
/// lower end into its first second, an upper end into its last. Fails where
/// the wall clock never shows one of the two, or shows it twice.
pub fn window_span(window: &Window) -> (r: Result<Span, TrackError>)
    ensures
        match r {
            Ok(span) => (span.from is Some <==> window.from is Some) && (span.to is Some
                <==> window.to is Some),
            Err(e) => e == TrackError::NoLocalTime && (window.from is Some || window.to is Some),
        },
{
    let from = match window.from {
        Some(bound) => match instant_of(local_to_instant(first_second(bound))) {
            Ok(t) => Some(t),
            Err(e) => {
                return Err(e);
            },
        },
        None => None,
    };
    let to = match window.to {
        Some(bound) => match instant_of(local_to_instant(last_second(bound))) {
            Ok(t) => Some(t),
            Err(e) => {
                return Err(e);
            },
        },
        None => None,
    };
    Ok(Span { from, to })
}

/// With the filter `week`, the query depends on the day alone: whatever is
/// given as `from` and `to`, it is the same.
pub proof fn lemma_week_sets_bounds_aside(
    from: Option<Seq<char>>,
    to: Option<Seq<char>>,
    other_from: Option<Seq<char>>,
    other_to: Option<Seq<char>>,
    today: CalendarDate,
)
    ensures
        resolved(from, to, Some("week"@), today) == resolved(
            other_from,
            other_to,
            Some("week"@),
            today,
        ),
        resolved(from, to, Some("week"@), today) matches Ok(query) ==> week_of(today) == Some(
            query.window,
        ) && query.filter == FilterView::Unfiltered,
{
}

/// A window admits its two ends and nothing beyond them: a whole day as lower
/// end stands for its midnight, as upper end for its 23:59:59, and the second
/// after the upper end is outside.
pub proof fn lemma_window_is_inclusive(day: CalendarDate, from: i64, to: i64)
    requires
        from <= to,
    ensures
        lower_edge(DateOrDateTime::Date(day)) == (LocalDateTime {
            date: day,
            clock: ClockTime { hour: 0, minute: 0, second: 0 },
        }),
        upper_edge(DateOrDateTime::Date(day)) == (LocalDateTime {
            date: day,
            clock: ClockTime { hour: 23, minute: 59, second: 59 },
        }),
        in_span(from as int, Span { from: Some(from), to: Some(to) }),
        in_span(to as int, Span { from: Some(from), to: Some(to) }),
        !in_span(to + 1, Span { from: Some(from), to: Some(to) }),
        !in_span(from - 1, Span { from: Some(from), to: Some(to) }),
        forall|t: int| in_span(t, Span { from: Some(from), to: Some(to) }) <==> from <= t <= to,
{
}

} // verus!
