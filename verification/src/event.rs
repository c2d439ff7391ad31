//! Events of the tracking log and their mathematical model.

use vstd::prelude::*;

verus! {

/// The payload shared by both kinds of event.
#[derive(Clone, Debug, PartialEq, Eq)]
pub struct TrackingData {
    /// Free text given by the user, if any.
    pub description: Option<String>,
    /// Seconds since 1970-01-01 00:00:00 UTC.
    pub time: i64,
}

/// One mark in the log: tracking was started or stopped.
#[derive(Clone, Debug, PartialEq, Eq)]
pub enum TrackingEvent {
    Start(TrackingData),
    Stop(TrackingData),
}

/// The model of an event: its kind, its text as a sequence of characters and
/// its instant as a mathematical integer.
pub struct EventView {
    pub is_start: bool,
    pub description: Option<Seq<char>>,
    pub time: int,
}

/// The view of an optional text.
pub open spec fn text_view(text: Option<String>) -> Option<Seq<char>> {
    match text {
        Some(s) => Some(s@),
        None => None,
    }
}

/// The instant `t` with its seconds field set to zero.
pub open spec fn minute_floor(t: int) -> int {
    t - t % 60
}

/// The instant that enters a duration: `t` itself at second resolution, its
/// minute otherwise.
pub open spec fn rounded(t: int, include_seconds: bool) -> int {
    if include_seconds {
        t
    } else {
        minute_floor(t)
    }
}

/// Whether `x` can be held as an instant or a duration of this library.
pub open spec fn representable(x: int) -> bool {
    i64::MIN <= x <= i64::MAX
}

impl View for TrackingEvent {
    type V = EventView;

    open spec fn view(&self) -> EventView {
        match *self {
            TrackingEvent::Start(d) => EventView {
                is_start: true,
                description: text_view(d.description),
                time: d.time as int,
            },
            TrackingEvent::Stop(d) => EventView {
                is_start: false,
                description: text_view(d.description),
                time: d.time as int,
            },
        }
    }
}

/// The model of a whole log.
pub open spec fn log_view(log: Seq<TrackingEvent>) -> Seq<EventView> {
    log.map_values(|e: TrackingEvent| e@)
}

/// Sets the seconds field of `t` to zero, where the result is representable.
pub fn zero_seconds(t: i64) -> (r: Option<i64>)
    ensures
        representable(minute_floor(t as int)) <==> r is Some,
        r matches Some(v) ==> v == minute_floor(t as int),
{
    match t.checked_rem_euclid(60) {
        Some(rem) => t.checked_sub(rem),
        None => None,
    }
}

/// The instant that enters a duration, where it is representable.
pub fn round_instant(t: i64, include_seconds: bool) -> (r: Option<i64>)
    ensures
        representable(rounded(t as int, include_seconds)) <==> r is Some,
        r matches Some(v) ==> v == rounded(t as int, include_seconds),
{
    if include_seconds {
        Some(t)
    } else {
        zero_seconds(t)
    }
}

impl TrackingEvent {
    /// The instant of the event, at second resolution or with its seconds set
    /// to zero. `None` only where the zeroed instant is not representable.
    pub fn time(&self, include_seconds: bool) -> (r: Option<i64>)
        ensures
            representable(rounded(self@.time, include_seconds)) <==> r is Some,
            r matches Some(v) ==> v == rounded(self@.time, include_seconds),
    {
        let t = match self {
            TrackingEvent::Start(d) => d.time,
            TrackingEvent::Stop(d) => d.time,
        };
        round_instant(t, include_seconds)
    }

    /// The instant of the event as it was recorded.
    pub fn instant(&self) -> (r: i64)
        ensures
            r == self@.time,
    {
        match self {
            TrackingEvent::Start(d) => d.time,
            TrackingEvent::Stop(d) => d.time,
        }
    }

    /// A copy of the event's description.
    pub fn description(&self) -> (r: Option<String>)
        ensures
            text_view(r) == self@.description,
    {
        let text = match self {
            TrackingEvent::Start(d) => &d.description,
            TrackingEvent::Stop(d) => &d.description,
        };
        match text {
            Some(s) => Some(s.clone()),
            None => None,
        }
    }

    /// Whether the event starts a session.
    pub fn is_start(&self) -> (r: bool)
        ensures
            r == self@.is_start,
    {
        match self {
            TrackingEvent::Start(_) => true,
            TrackingEvent::Stop(_) => false,
        }
    }

    /// Whether the event ends a session.
    pub fn is_stop(&self) -> (r: bool)
        ensures
            r == !self@.is_start,
    {
        match self {
            TrackingEvent::Start(_) => false,
            TrackingEvent::Stop(_) => true,
        }
    }
}

} // verus!
