//! The operations that append to the log: start, stop and continue. None of
//! them reorders or removes an event.

use vstd::prelude::*;
use crate::calendar::current_instant;
use crate::error::TrackError;
use crate::event::{EventView, TrackingData, TrackingEvent, log_view, text_view};
use crate::parse::{parse_date_time, reads_as_date_time};

verus! {

/// Whether a start event may be appended: the log is empty or ends with a stop.
pub open spec fn may_start(log: Seq<EventView>) -> bool {
    log.len() == 0 || !log.last().is_start
}

/// Whether a stop event may be appended: the log is empty or ends with a
/// start.
pub open spec fn may_stop(log: Seq<EventView>) -> bool {
    log.len() == 0 || log.last().is_start
}

/// The log after a request to start: one start event longer where that is
/// allowed, unchanged otherwise.
pub open spec fn started(log: Seq<EventView>, description: Option<Seq<char>>, time: int) -> Seq<
    EventView,
> {
    if may_start(log) {
        log.push(EventView { is_start: true, description, time })
    } else {
        log
    }
}

/// The log after a request to stop: one stop event longer where that is
/// allowed, unchanged otherwise.
pub open spec fn stopped(log: Seq<EventView>, description: Option<Seq<char>>, time: int) -> Seq<
    EventView,
> {
    if may_stop(log) {
        log.push(EventView { is_start: false, description, time })
    } else {
        log
    }
}

/// The place of the last start event of the log, if it holds one.
pub open spec fn last_start(log: Seq<EventView>) -> Option<int>
    decreases log.len(),
{
    if log.len() == 0 {
        None
    } else if log.last().is_start {
        Some(log.len() - 1)
    } else {
        last_start(log.drop_last())
    }
}

/// The log after a request to continue at the instant `now`: where it ends
/// with a stop and holds a start, one start event longer, with the description
/// of the last start; unchanged otherwise.
pub open spec fn continued(log: Seq<EventView>, now: int) -> Seq<EventView> {
    if log.len() > 0 && !log.last().is_start {
        match last_start(log) {
            Some(i) => log.push(
                EventView { is_start: true, description: log[i].description, time: now },
            ),
            None => log,
        }
    } else {
        log
    }
}

/// Whether no two neighbours in the log are of the same kind.
pub open spec fn alternates(log: Seq<EventView>) -> bool {
    forall|i: int| 0 < i < log.len() ==> (#[trigger] log[i]).is_start != log[i - 1].is_start
}

/// A request to start or to stop, with the description and the instant given.
pub enum Request {
    Start(Option<Seq<char>>, int),
    Stop(Option<Seq<char>>, int),
}

/// The log that a run of requests builds from the empty log.
pub open spec fn replay(requests: Seq<Request>) -> Seq<EventView>
    decreases requests.len(),
{
    if requests.len() == 0 {
        Seq::empty()
    } else {
        match requests.last() {
            Request::Start(description, time) => started(
                replay(requests.drop_last()),
                description,
                time,
            ),
            Request::Stop(description, time) => stopped(
                replay(requests.drop_last()),
                description,
                time,
            ),
        }
    }
}

/// The last start of a log is a start, and only stops follow it; a log has
/// none exactly where it holds only stops.
pub proof fn lemma_last_start(log: Seq<EventView>)
    ensures
        match last_start(log) {
            Some(i) => 0 <= i < log.len() && log[i].is_start && forall|j: int|
                i < j < log.len() ==> !(#[trigger] log[j]).is_start,
            None => forall|j: int| 0 <= j < log.len() ==> !(#[trigger] log[j]).is_start,
        },
    decreases log.len(),
{
    if log.len() > 0 && !log.last().is_start {
        lemma_last_start(log.drop_last());
        assert forall|j: int| 0 <= j < log.len() - 1 implies log[j] == log.drop_last()[j] by {}
    }
}

/// A second request to start, with nothing between the two, changes nothing:
/// the log is as long as after the first.
pub proof fn lemma_start_twice(
    log: Seq<EventView>,
    first: Option<Seq<char>>,
    first_time: int,
    second: Option<Seq<char>>,
    second_time: int,
)
    ensures
        started(started(log, first, first_time), second, second_time) == started(
            log,
            first,
            first_time,
        ),
        started(started(log, first, first_time), second, second_time).len() == started(
            log,
            first,
            first_time,
        ).len(),
{
}

/// A second request to stop, with nothing between the two, changes nothing.
pub proof fn lemma_stop_twice(
    log: Seq<EventView>,
    first: Option<Seq<char>>,
    first_time: int,
    second: Option<Seq<char>>,
    second_time: int,
)
    ensures
        stopped(stopped(log, first, first_time), second, second_time) == stopped(
            log,
            first,
            first_time,
        ),
{
}

/// Starting, stopping and continuing keep a log alternating.
pub proof fn lemma_requests_keep_alternation(
    log: Seq<EventView>,
    description: Option<Seq<char>>,
    time: int,
)
    requires
        alternates(log),
    ensures
        alternates(started(log, description, time)),
        alternates(stopped(log, description, time)),
        alternates(continued(log, time)),
{
}

/// A log built from the empty log by requests to start and to stop alone
/// alternates between start and stop events.
pub proof fn lemma_built_log_alternates(requests: Seq<Request>)
    ensures
        alternates(replay(requests)),
    decreases requests.len(),
{
    if requests.len() > 0 {
        lemma_built_log_alternates(requests.drop_last());
        match requests.last() {
            Request::Start(description, time) => {
                lemma_requests_keep_alternation(replay(requests.drop_last()), description, time);
            },
            Request::Stop(description, time) => {
                lemma_requests_keep_alternation(replay(requests.drop_last()), description, time);
            },
        }
    }
}

/// The model of a log with one more event.
pub proof fn lemma_log_view_push(log: Seq<TrackingEvent>, event: TrackingEvent)
    ensures
        log_view(log.push(event)) == log_view(log).push(event@),
{
    assert(log_view(log.push(event)) =~= log_view(log).push(event@));
}

/// Appends a start event with the given description and instant if the log is
/// empty or ends with a stop; does nothing otherwise.
pub fn start_at(data: &mut Vec<TrackingEvent>, description: Option<String>, time: i64)
    ensures
        log_view(final(data)@) == started(
            log_view(old(data)@),
            text_view(description),
            time as int,
        ),
        final(data)@ == if may_start(log_view(old(data)@)) {
            old(data)@.push(TrackingEvent::Start(TrackingData { description, time }))
        } else {
            old(data)@
        },
{
    let should_add = data.len() == 0 || data[data.len() - 1].is_stop();
    if should_add {
        proof {
            lemma_log_view_push(data@, TrackingEvent::Start(TrackingData { description, time }));
        }
        data.push(TrackingEvent::Start(TrackingData { description, time }));
    }
}

/// Appends a stop event with the given description and instant if the log is
/// empty or ends with a start; does nothing otherwise.
pub fn stop_at(data: &mut Vec<TrackingEvent>, description: Option<String>, time: i64)
    ensures
        log_view(final(data)@) == stopped(
            log_view(old(data)@),
            text_view(description),
            time as int,
        ),
        final(data)@ == if may_stop(log_view(old(data)@)) {
            old(data)@.push(TrackingEvent::Stop(TrackingData { description, time }))
        } else {
            old(data)@
        },
{
    let should_add = data.len() == 0 || data[data.len() - 1].is_start();
    if should_add {
        proof {
            lemma_log_view_push(data@, TrackingEvent::Stop(TrackingData { description, time }));
        }
        data.push(TrackingEvent::Stop(TrackingData { description, time }));
    }
}

/// The place of the last start event of the log, if it holds one.
pub fn find_last_start(data: &Vec<TrackingEvent>) -> (r: Option<usize>)
    ensures
        match r {
            Some(i) => i < data@.len() && last_start(log_view(data@)) == Some(i as int),
            None => last_start(log_view(data@)) is None,
        },
{
    let mut i = data.len();
    proof {
        assert(log_view(data@).take(i as int) =~= log_view(data@));
    }
    while i > 0
        invariant
            i <= data.len(),
            last_start(log_view(data@)) == last_start(log_view(data@).take(i as int)),
        decreases i,
    {
        if data[i - 1].is_start() {
            return Some(i - 1);
        }
        proof {
            assert(log_view(data@).take(i as int).drop_last() =~= log_view(data@).take(i - 1));
        }
        i -= 1;
    }
    None
}

/// Continues tracking at the instant `now`: where the log ends with a stop,
/// appends a start event with the description of the last start event. Fails,
/// and leaves the log as it is, exactly where the log is empty; does nothing
/// where the log ends with a start or holds no start.
pub fn continue_at(data: &mut Vec<TrackingEvent>, now: i64) -> (r: Result<(), TrackError>)
    ensures
        r is Err <==> old(data)@.len() == 0,
        r matches Err(e) ==> e == TrackError::NothingToContinue,
        log_view(final(data)@) == continued(log_view(old(data)@), now as int),
        final(data)@.len() >= old(data)@.len(),
        final(data)@.take(old(data)@.len() as int) == old(data)@,
{
    let n = data.len();
    proof {
        assert(data@.take(n as int) =~= data@);
    }
    if n == 0 {
        return Err(TrackError::NothingToContinue);
    }
    if data[n - 1].is_start() {
        return Ok(());
    }
    match find_last_start(data) {
        Some(i) => {
            let description = data[i].description();
            let event = TrackingEvent::Start(TrackingData { description, time: now });
            proof {
                lemma_log_view_push(data@, event);
                assert(data@.push(event).take(n as int) =~= data@);
            }
            data.push(event);
        },
        None => {},
    }
    Ok(())
}

/// The instant of a new event: the one that the text `at` denotes on the
/// machine's wall clock, or the current instant where no text is given.
/// Fails with `Unparseable` exactly where a text is given that no rule reads.
pub fn event_instant(at: Option<String>) -> (r: Result<i64, TrackError>)
    ensures
        r == Err::<i64, TrackError>(TrackError::Unparseable) <==> (at matches Some(s)
            && !reads_as_date_time(s@)),
        r matches Err(e) ==> at is Some && (e == TrackError::Unparseable || e
            == TrackError::NoLocalTime),
{
    match at {
        Some(s) => parse_date_time(s.as_str()),
        None => Ok(current_instant()),
    }
}

/// Starts tracking: where the log is empty or ends with a stop, appends a
/// start event with the given description, at the instant that `at` denotes
/// or, without it, now. Where the log ends with a start this does nothing and
/// does not look at `at`. Where `at` cannot be turned into an instant, the log
/// stays as it is.
pub fn start_tracking(
    data: &mut Vec<TrackingEvent>,
    description: Option<String>,
    at: Option<String>,
) -> (r: Result<(), TrackError>)
    ensures
        !may_start(log_view(old(data)@)) ==> r is Ok && final(data)@ == old(data)@,
        may_start(log_view(old(data)@)) ==> match r {
            Ok(_) => exists|time: i64|
                final(data)@ == #[trigger] old(data)@.push(
                    TrackingEvent::Start(TrackingData { description, time }),
                ),
            Err(e) => final(data)@ == old(data)@ && at is Some && (e == TrackError::Unparseable
                || e == TrackError::NoLocalTime),
        },
        may_start(log_view(old(data)@)) ==> (r == Err::<(), TrackError>(TrackError::Unparseable)
            <==> (at matches Some(s) && !reads_as_date_time(s@))),
{
    let should_add = data.len() == 0 || data[data.len() - 1].is_stop();
    if !should_add {
        return Ok(());
    }
    match event_instant(at) {
        Ok(time) => {
            start_at(data, description, time);
            Ok(())
        },
        Err(e) => Err(e),
    }
}

/// Stops tracking: where the log is empty or ends with a start, appends a stop
/// event with the given description, at the instant that `at` denotes or,
/// without it, now. Where the log ends with a stop this does nothing and does
/// not look at `at`. Where `at` cannot be turned into an instant, the log stays
/// as it is.
pub fn stop_tracking(
    data: &mut Vec<TrackingEvent>,
    description: Option<String>,
    at: Option<String>,
) -> (r: Result<(), TrackError>)
    ensures
        !may_stop(log_view(old(data)@)) ==> r is Ok && final(data)@ == old(data)@,
        may_stop(log_view(old(data)@)) ==> match r {
            Ok(_) => exists|time: i64|
                final(data)@ == #[trigger] old(data)@.push(
                    TrackingEvent::Stop(TrackingData { description, time }),
                ),
            Err(e) => final(data)@ == old(data)@ && at is Some && (e == TrackError::Unparseable
                || e == TrackError::NoLocalTime),
        },
        may_stop(log_view(old(data)@)) ==> (r == Err::<(), TrackError>(TrackError::Unparseable)
            <==> (at matches Some(s) && !reads_as_date_time(s@))),
{
    let should_add = data.len() == 0 || data[data.len() - 1].is_start();
    if !should_add {
        return Ok(());
    }
    match event_instant(at) {
        Ok(time) => {
            stop_at(data, description, time);
            Ok(())
        },
        Err(e) => Err(e),
    }
}

/// Continues tracking at the current instant, as `continue_at` does at a given
/// one.
pub fn continue_tracking(data: &mut Vec<TrackingEvent>) -> (r: Result<(), TrackError>)
    ensures
        r is Err <==> old(data)@.len() == 0,
        r matches Err(e) ==> e == TrackError::NothingToContinue,
        exists|now: i64|
            log_view(final(data)@) == #[trigger] continued(log_view(old(data)@), now as int),
        final(data)@.len() >= old(data)@.len(),
        final(data)@.take(old(data)@.len() as int) == old(data)@,
{
    let now = current_instant();
    continue_at(data, now)
}

} // verus!
