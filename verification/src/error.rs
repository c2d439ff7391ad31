//! The failures that abort a command.

use vstd::prelude::*;

verus! {

/// Why a command could not be carried out.
#[derive(Clone, Copy, Debug, PartialEq, Eq, Structural)]
pub enum TrackError {
    /// No rule of the parser accepts the text.
    Unparseable,
    /// The local wall-clock time does not exist, or exists twice, in the
    /// machine's time zone, or lies outside the calendar.
    NoLocalTime,
    /// An instant or a duration left the representable range.
    Overflow,
    /// The log holds no entry to continue from.
    NothingToContinue,
}

} // verus!
