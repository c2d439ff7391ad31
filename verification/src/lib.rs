//! A personal work-time tracker: an event log of alternating start and stop
//! marks, a forgiving parser for dates and times typed by hand, and the
//! aggregation of tracked time over a window of the log.

pub mod aggregate;
pub mod calendar;
pub mod error;
pub mod event;
pub mod log;
pub mod parse;
pub mod render;
pub mod report;
pub mod window;
