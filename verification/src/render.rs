//! A duration as text: hours, minutes and seconds, each with two digits at
//! least, between colons.

use vstd::prelude::*;
use vstd::string::StringExecFns;
use crate::calendar::ClockTime;
use crate::event::text_view;
use crate::report::{Status, clock_parts, split_duration};

verus! {

/// The character of a decimal digit.
pub open spec fn digit_char(d: int) -> char {
    if d == 0 {
        '0'
    } else if d == 1 {
        '1'
    } else if d == 2 {
        '2'
    } else if d == 3 {
        '3'
    } else if d == 4 {
        '4'
    } else if d == 5 {
        '5'
    } else if d == 6 {
        '6'
    } else if d == 7 {
        '7'
    } else if d == 8 {
        '8'
    } else {
        '9'
    }
}

/// The decimal digits of a natural number, without leading zeros.
pub open spec fn decimal(n: nat) -> Seq<char>
    decreases n,
{
    if n < 10 {
        seq![digit_char(n as int)]
    } else {
        decimal(n / 10).push(digit_char((n % 10) as int))
    }
}

/// A number in a field of two characters at least: a single digit gets a zero
/// in front, a negative number its sign.
pub open spec fn two_digits(x: int) -> Seq<char> {
    if x < 0 {
        seq!['-'] + decimal((-x) as nat)
    } else if x < 10 {
        seq!['0'] + decimal(x as nat)
    } else {
        decimal(x as nat)
    }
}

/// Hours, minutes and seconds between colons.
pub open spec fn clock_text(hours: int, minutes: int, seconds: int) -> Seq<char> {
    two_digits(hours) + seq![':'] + two_digits(minutes) + seq![':'] + two_digits(seconds)
}

/// Std's `String::push`: appends one character.
#[verifier::external_body]
fn push_char(out: &mut String, c: char)
    ensures
        final(out)@ == old(out)@.push(c),
{
    out.push(c)
}

/// The character of a decimal digit.
fn digit(d: u64) -> (c: char)
    requires
        d < 10,
    ensures
        c == digit_char(d as int),
{
    if d == 0 {
        '0'
    } else if d == 1 {
        '1'
    } else if d == 2 {
        '2'
    } else if d == 3 {
        '3'
    } else if d == 4 {
        '4'
    } else if d == 5 {
        '5'
    } else if d == 6 {
        '6'
    } else if d == 7 {
        '7'
    } else if d == 8 {
        '8'
    } else {
        '9'
    }
}

/// Appends the decimal digits of `n`.
fn push_decimal(out: &mut String, n: u64)
    ensures
        final(out)@ == old(out)@ + decimal(n as nat),
    decreases n,
{
    if n >= 10 {
        push_decimal(out, n / 10);
    }
    push_char(out, digit(n % 10));
    proof {
        if n >= 10 {
            assert(old(out)@ + decimal(n as nat) =~= (old(out)@ + decimal((n / 10) as nat)).push(
                digit_char((n % 10) as int),
            ));
        } else {
            assert(old(out)@ + decimal(n as nat) =~= old(out)@.push(digit_char(n as int)));
        }
    }
}

/// Appends `x` in a field of two characters at least.
fn push_two_digits(out: &mut String, x: i64)
    ensures
        final(out)@ == old(out)@ + two_digits(x as int),
{
    if x < 0 {
        let magnitude: u64 = if x == i64::MIN {
            9223372036854775808u64
        } else {
            (-x) as u64
        };
        push_char(out, '-');
        push_decimal(out, magnitude);
        proof {
            assert(old(out)@ + two_digits(x as int) =~= old(out)@.push('-') + decimal(
                magnitude as nat,
            ));
        }
    } else {
        if x < 10 {
            push_char(out, '0');
        }
        push_decimal(out, x as u64);
        proof {
            if x < 10 {
                assert(old(out)@ + two_digits(x as int) =~= old(out)@.push('0') + decimal(
                    x as nat,
                ));
            }
        }
    }
}

/// Hours, minutes and seconds as text, each with two digits at least.
pub fn render_clock(hours: i64, minutes: i64, seconds: i64) -> (r: String)
    ensures
        r@ == clock_text(hours as int, minutes as int, seconds as int),
{
    let mut out = String::new();
    push_two_digits(&mut out, hours);
    push_char(&mut out, ':');
    push_two_digits(&mut out, minutes);
    push_char(&mut out, ':');
    push_two_digits(&mut out, seconds);
    proof {
        assert(out@ =~= clock_text(hours as int, minutes as int, seconds as int));
    }
    out
}

/// A duration in seconds as text: its hours, minutes and seconds.
pub fn render_duration(total: i64) -> (r: String)
    ensures
        r@ == clock_text(
            clock_parts(total as int).0,
            clock_parts(total as int).1,
            clock_parts(total as int).2,
        ),
{
    let (hours, minutes, seconds) = split_duration(total);
    render_clock(hours, minutes, seconds)
}

/// The line that reports the time worked.
pub open spec fn work_time_text(total: int) -> Seq<char> {
    "Work Time: "@ + clock_text(
        clock_parts(total).0,
        clock_parts(total).1,
        clock_parts(total).2,
    )
}

/// The line that reports the time worked.
pub fn work_time_line(total: i64) -> (r: String)
    ensures
        r@ == work_time_text(total as int),
{
    String::from_str("Work Time: ").concat(render_duration(total).as_str())
}

/// The line that shows the description of the last event.
pub open spec fn description_line(description: Seq<char>) -> Seq<char> {
    "Description: "@ + description
}

/// The line that tells whether tracking is going on.
pub open spec fn active_line(active: bool) -> Seq<char> {
    "Active: "@ + if active {
        "true"@
    } else {
        "false"@
    }
}

/// The line that shows the wall-clock time of the last event: of the start
/// while tracking is going on, of the end otherwise.
pub open spec fn time_line(active: bool, clock: ClockTime) -> Seq<char> {
    (if active {
        "Start"@
    } else {
        "End"@
    }) + " Time: "@ + clock_text(clock.hour as int, clock.minute as int, clock.second as int)
}

/// The lines of a status report: the description if there is one, whether
/// tracking is going on, and the wall-clock time of the last event where it is
/// known.
pub open spec fn status_text(
    active: bool,
    description: Option<Seq<char>>,
    clock: Option<ClockTime>,
) -> Seq<Seq<char>> {
    (match description {
        Some(d) => seq![description_line(d)],
        None => Seq::<Seq<char>>::empty(),
    }) + seq![active_line(active)] + (match clock {
        Some(c) => seq![time_line(active, c)],
        None => Seq::<Seq<char>>::empty(),
    })
}

/// The texts held by a vector of lines.
pub open spec fn lines_view(lines: Seq<String>) -> Seq<Seq<char>> {
    lines.map_values(|line: String| line@)
}

/// The lines of a status report.
pub fn status_lines(status: &Status) -> (r: Vec<String>)
    ensures
        lines_view(r@) == status_text(
            status.active,
            text_view(status.description),
            status.local_time,
        ),
{
    let mut lines: Vec<String> = Vec::new();
    if let Some(description) = &status.description {
        lines.push(String::from_str("Description: ").concat(description.as_str()));
    }
    let flag = if status.active {
        "true"
    } else {
        "false"
    };
    lines.push(String::from_str("Active: ").concat(flag));
    if let Some(clock) = status.local_time {
        let label = if status.active {
            "Start"
        } else {
            "End"
        };
        let shown = render_clock(clock.hour as i64, clock.minute as i64, clock.second as i64);
        lines.push(String::from_str(label).concat(" Time: ").concat(shown.as_str()));
    }
    proof {
        assert(lines_view(lines@) =~= status_text(
            status.active,
            text_view(status.description),
            status.local_time,
        ));
    }
    lines
}

} // verus!
