//! Selecting the events of a window and adding up the sessions they form.

use vstd::prelude::*;
use crate::error::TrackError;
use crate::event::{EventView, TrackingEvent, log_view, representable, round_instant, rounded};

verus! {

/// A window of instants, inclusive on both sides. `None` leaves a side open.
#[derive(Clone, Copy, Debug, PartialEq, Eq, Structural)]
pub struct Span {
    pub from: Option<i64>,
    pub to: Option<i64>,
}

/// Which events a query looks at.
#[derive(Clone, Debug, PartialEq, Eq)]
pub enum Filter {
    /// Every event of the log, whatever the window.
    All,
    /// The events inside the window.
    Unfiltered,
    /// The events inside the window whose description contains the text.
    Contains(String),
}

/// The model of a filter.
pub enum FilterView {
    All,
    Unfiltered,
    Contains(Seq<char>),
}

impl View for Filter {
    type V = FilterView;

    open spec fn view(&self) -> FilterView {
        match *self {
            Filter::All => FilterView::All,
            Filter::Unfiltered => FilterView::Unfiltered,
            Filter::Contains(s) => FilterView::Contains(s@),
        }
    }
}

/// Whether the instant `t` lies in the window.
pub open spec fn in_span(t: int, span: Span) -> bool {
    &&& span.from matches Some(from) ==> from <= t
    &&& span.to matches Some(to) ==> t <= to
}

/// Whether `needle` occurs in `hay` as a run of consecutive characters.
pub open spec fn is_substring(needle: Seq<char>, hay: Seq<char>) -> bool {
    exists|i: int|
        0 <= i <= hay.len() - needle.len() && #[trigger] hay.subrange(i, i + needle.len())
            == needle
}

/// Whether a query with this window and filter looks at the event.
pub open spec fn keeps(e: EventView, span: Span, filter: FilterView) -> bool {
    match filter {
        FilterView::All => true,
        FilterView::Unfiltered => in_span(e.time, span),
        FilterView::Contains(text) => in_span(e.time, span) && (e.description matches Some(d)
            && is_substring(text, d)),
    }
}

/// `s` without the stop events it begins with.
pub open spec fn skip_stops(s: Seq<EventView>) -> Seq<EventView>
    decreases s.len(),
{
    if s.len() == 0 || s[0].is_start {
        s
    } else {
        skip_stops(s.drop_first())
    }
}

/// The events that enter the sum: those the query keeps, from the first start
/// event on.
pub open spec fn selected(log: Seq<EventView>, span: Span, filter: FilterView) -> Seq<EventView> {
    skip_stops(log.filter(|e: EventView| keeps(e, span, filter)))
}

/// The instants of a sequence of events.
pub open spec fn instants(s: Seq<EventView>) -> Seq<int> {
    s.map_values(|e: EventView| e.time)
}

/// The instants held by a vector, as mathematical integers.
pub open spec fn as_ints(v: Seq<i64>) -> Seq<int> {
    v.map_values(|t: i64| t as int)
}

/// Std's `str::contains` with a string as pattern: whether `needle` occurs in
/// `hay`.
#[verifier::external_body]
fn contains_text(hay: &str, needle: &str) -> (r: bool)
    ensures
        r == is_substring(needle@, hay@),
{
    hay.contains(needle)
}

/// Whether the instant lies in the window.
pub fn span_holds(t: i64, span: &Span) -> (r: bool)
    ensures
        r == in_span(t as int, *span),
{
    let after = match span.from {
        Some(from) => from <= t,
        None => true,
    };
    let before = match span.to {
        Some(to) => t <= to,
        None => true,
    };
    after && before
}

/// Whether a query with this window and filter looks at the event.
pub fn keeps_event(event: &TrackingEvent, span: &Span, filter: &Filter) -> (r: bool)
    ensures
        r == keeps(event@, *span, filter@),
{
    match filter {
        Filter::All => true,
        Filter::Unfiltered => span_holds(event.instant(), span),
        Filter::Contains(text) => {
            if !span_holds(event.instant(), span) {
                false
            } else {
                let data = match event {
                    TrackingEvent::Start(d) => d,
                    TrackingEvent::Stop(d) => d,
                };
                match &data.description {
                    Some(d) => contains_text(d.as_str(), text.as_str()),
                    None => false,
                }
            }
        },
    }
}

/// An event appended to a sequence is appended to what the leading stops
/// leave of it, unless the event is a stop and the sequence holds stops only.
pub proof fn lemma_skip_stops_push(s: Seq<EventView>, e: EventView)
    ensures
        skip_stops(s.push(e)) == if skip_stops(s).len() > 0 || e.is_start {
            skip_stops(s).push(e)
        } else {
            Seq::<EventView>::empty()
        },
    decreases s.len(),
{
    if s.len() == 0 {
        assert(s.push(e).drop_first() =~= Seq::<EventView>::empty());
        assert(skip_stops(s) =~= Seq::<EventView>::empty());
        assert(s.push(e) =~= Seq::<EventView>::empty().push(e));
    } else if s[0].is_start {
    } else {
        assert(s.push(e).drop_first() =~= s.drop_first().push(e));
        lemma_skip_stops_push(s.drop_first(), e);
    }
}

/// The instants, in order, of the events that enter the sum.
pub fn selected_instants(data: &[TrackingEvent], span: &Span, filter: &Filter) -> (r: Vec<i64>)
    ensures
        as_ints(r@) == instants(selected(log_view(data@), *span, filter@)),
{
    let mut out: Vec<i64> = Vec::new();
    let ghost pred = |e: EventView| keeps(e, *span, filter@);
    let mut i: usize = 0;
    proof {
        assert(log_view(data@.take(0)) =~= Seq::<EventView>::empty());
        assert(as_ints(out@) =~= instants(selected(log_view(data@.take(0)), *span, filter@)));
    }
    while i < data.len()
        invariant
            i <= data.len(),
            pred == (|e: EventView| keeps(e, *span, filter@)),
            as_ints(out@) == instants(selected(log_view(data@.take(i as int)), *span, filter@)),
        decreases data.len() - i,
    {
        let event = &data[i];
        let keep = keeps_event(event, span, filter);
        let ghost before = log_view(data@.take(i as int));
        let ghost old_out = out@;
        proof {
            let kept = before.filter(pred);
            assert(log_view(data@.take(i + 1)) =~= before.push(event@));
            before.lemma_filter_push(event@, pred);
            lemma_skip_stops_push(kept, event@);
            assert(instants(skip_stops(kept)).len() == out.len());
            assert(instants(skip_stops(kept).push(event@)) =~= instants(skip_stops(kept)).push(
                event@.time,
            ));
        }
        if keep && (out.len() > 0 || event.is_start()) {
            out.push(event.instant());
            proof {
                assert(as_ints(out@) =~= as_ints(old_out).push(event@.time));
            }
        }
        i += 1;
    }
    proof {
        assert(data@.take(data.len() as int) =~= data@);
    }
    out
}

/// The instant at which session `k` ends: the event after its start, or `now`
/// where the log ends with the session still open.
pub open spec fn session_end(times: Seq<int>, k: int, now: int) -> int {
    if 2 * k + 1 < times.len() {
        times[2 * k + 1]
    } else {
        now
    }
}

/// The length of session `k` in seconds. The events are paired as they come,
/// whatever their kind.
pub open spec fn session_length(times: Seq<int>, k: int, now: int, include_seconds: bool) -> int {
    rounded(session_end(times, k, now), include_seconds) - rounded(times[2 * k], include_seconds)
}

/// The number of sessions that a run of events forms.
pub open spec fn session_count(times: Seq<int>) -> int {
    (times.len() as int + 1) / 2
}

/// The seconds tracked in the first `k` sessions.
pub open spec fn worked(times: Seq<int>, k: int, now: int, include_seconds: bool) -> int
    decreases k,
{
    if k <= 0 {
        0
    } else {
        worked(times, k - 1, now, include_seconds) + session_length(
            times,
            k - 1,
            now,
            include_seconds,
        )
    }
}

/// Whether session `k` can be added up: its two instants, its length and the
/// sum up to and with it are all representable.
pub open spec fn session_fits(times: Seq<int>, k: int, now: int, include_seconds: bool) -> bool {
    &&& representable(rounded(times[2 * k], include_seconds))
    &&& representable(rounded(session_end(times, k, now), include_seconds))
    &&& representable(session_length(times, k, now, include_seconds))
    &&& representable(worked(times, k + 1, now, include_seconds))
}

/// Whether every session can be added up.
pub open spec fn tally_fits(times: Seq<int>, now: int, include_seconds: bool) -> bool {
    forall|k: int|
        0 <= k < session_count(times) ==> #[trigger] session_fits(times, k, now, include_seconds)
}

/// The seconds tracked in all sessions.
pub open spec fn tally(times: Seq<int>, now: int, include_seconds: bool) -> int {
    worked(times, session_count(times), now, include_seconds)
}

/// Adds up the sessions formed by a run of instants: each instant at an even
/// place starts a session, the next one ends it, and `now` ends a session left
/// open. Fails where an instant, a length or a sum is not representable.
pub fn total_seconds(times: &Vec<i64>, include_seconds: bool, now: i64) -> (r: Result<
    i64,
    TrackError,
>)
    ensures
        match r {
            Ok(total) => tally_fits(as_ints(times@), now as int, include_seconds) && total
                == tally(as_ints(times@), now as int, include_seconds),
            Err(e) => e == TrackError::Overflow && !tally_fits(
                as_ints(times@),
                now as int,
                include_seconds,
            ),
        },
{
    let ghost ts = as_ints(times@);
    let n = times.len();
    let mut total: i64 = 0;
    let mut i: usize = 0;
    let ghost mut k: int = 0;
    while i < n
        invariant
            n == times.len(),
            ts == as_ints(times@),
            (i == 2 * k && i <= n) || (i == n && k == session_count(ts)),
            0 <= k <= session_count(ts),
            total == worked(ts, k, now as int, include_seconds),
            forall|j: int| 0 <= j < k ==> #[trigger] session_fits(ts, j, now as int, include_seconds),
        decreases n - i,
    {
        let open = i + 1 >= n;
        let last = if open {
            now
        } else {
            times[i + 1]
        };
        assert(ts[2 * k] == times[i as int]);
        assert(last == session_end(ts, k, now as int));
        let start = match round_instant(times[i], include_seconds) {
            Some(t) => t,
            None => {
                assert(!session_fits(ts, k, now as int, include_seconds));
                return Err(TrackError::Overflow);
            },
        };
        let end = match round_instant(last, include_seconds) {
            Some(t) => t,
            None => {
                assert(!session_fits(ts, k, now as int, include_seconds));
                return Err(TrackError::Overflow);
            },
        };
        let length = match end.checked_sub(start) {
            Some(d) => d,
            None => {
                assert(!session_fits(ts, k, now as int, include_seconds));
                return Err(TrackError::Overflow);
            },
        };
        total = match total.checked_add(length) {
            Some(sum) => sum,
            None => {
                assert(!session_fits(ts, k, now as int, include_seconds));
                return Err(TrackError::Overflow);
            },
        };
        proof {
            assert(session_fits(ts, k, now as int, include_seconds));
            k = k + 1;
        }
        if open {
            i = n;
        } else {
            i += 2;
        }
    }
    assert(k == session_count(ts));
    Ok(total)
}

/// A filter that every event passes leaves a sequence as it is.
pub proof fn lemma_filter_all(s: Seq<EventView>, pred: spec_fn(EventView) -> bool)
    requires
        forall|e: EventView| #[trigger] pred(e),
    ensures
        s.filter(pred) == s,
    decreases s.len(),
{
    reveal(Seq::filter);
    if s.len() > 0 {
        lemma_filter_all(s.drop_last(), pred);
        assert(s.drop_last().push(s.last()) =~= s);
    }
}

/// The filter `All` sets the window aside: it keeps every event, also one
/// outside the window, and the events that enter the sum are those of the
/// whole log from its first start on.
pub proof fn lemma_all_sets_window_aside(log: Seq<EventView>, span: Span)
    ensures
        forall|e: EventView| #[trigger] keeps(e, span, FilterView::All),
        selected(log, span, FilterView::All) == skip_stops(log),
{
    lemma_filter_all(log, |e: EventView| keeps(e, span, FilterView::All));
}

/// A start and a stop make one session, as long as the time between them at
/// second resolution; a start alone makes a session that lasts until now.
pub proof fn lemma_single_session(start: int, stop: int, now: int)
    ensures
        tally(seq![start, stop], now, true) == stop - start,
        tally(seq![start], now, true) == now - start,
        tally(Seq::<int>::empty(), now, true) == 0,
        tally(seq![start, stop], now, false) == (stop - stop % 60) - (start - start % 60),
{
    reveal_with_fuel(worked, 3);
}

/// Setting the seconds to zero keeps the order of two instants.
pub proof fn lemma_rounding_keeps_order(a: int, b: int, include_seconds: bool)
    requires
        a <= b,
    ensures
        rounded(a, include_seconds) <= rounded(b, include_seconds),
{
}

/// Where the instants come in order and `now` is not before the last of them,
/// no session has a negative length, and the time worked is not negative.
pub proof fn lemma_ordered_instants_count_forward(
    times: Seq<int>,
    k: int,
    now: int,
    include_seconds: bool,
)
    requires
        forall|i: int, j: int| 0 <= i <= j < times.len() ==> times[i] <= times[j],
        times.len() > 0 ==> times.last() <= now,
        0 <= k <= session_count(times),
    ensures
        worked(times, k, now, include_seconds) >= 0,
        k == session_count(times) ==> tally(times, now, include_seconds) >= 0,
    decreases k,
{
    if k > 0 {
        lemma_ordered_instants_count_forward(times, k - 1, now, include_seconds);
        lemma_rounding_keeps_order(
            times[2 * (k - 1)],
            session_end(times, k - 1, now),
            include_seconds,
        );
    }
}

} // verus!
