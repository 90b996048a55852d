//! What is drawn: one line that shows the mode and the time, drawn over the
//! line that was drawn before.

use crate::hms::{Fields, Hms};
use crate::session::Timer;
use crate::span::duration_nanos;
use std::time::Duration;
use vstd::prelude::*;

verus! {

/// One thing to do to the terminal.
#[derive(Debug, PartialEq, Eq)]
pub enum Draw {
    /// Clear the line that the cursor is in.
    ClearCurrentLine,
    /// Move the cursor up by so many lines, to the start of the line.
    MoveToPreviousLine(u16),
    /// Write the text at the cursor.
    Print(String),
    /// Move the cursor down by so many lines, to the start of the line.
    MoveToNextLine(u16),
    /// Send what was written so far to the terminal.
    Flush,
}

/// A [`Draw`] with its text as characters.
pub ghost enum Drawing {
    ClearCurrentLine,
    MoveToPreviousLine(u16),
    Print(Seq<char>),
    MoveToNextLine(u16),
    Flush,
}

impl View for Draw {
    type V = Drawing;

    open spec fn view(&self) -> Drawing {
        match *self {
            Draw::ClearCurrentLine => Drawing::ClearCurrentLine,
            Draw::MoveToPreviousLine(lines) => Drawing::MoveToPreviousLine(lines),
            Draw::Print(text) => Drawing::Print(text@),
            Draw::MoveToNextLine(lines) => Drawing::MoveToNextLine(lines),
            Draw::Flush => Drawing::Flush,
        }
    }
}

/// The word that a mode is shown by, filled with blanks to the same width for
/// both modes.
pub open spec fn mode_label(timer: Timer) -> Seq<char> {
    match timer {
        Timer::RUN => "run:   "@,
        Timer::STOP => "stop:  "@,
    }
}

/// The line that shows a span `nanos` nanoseconds long under a mode: the
/// mode's word, then the span in hours, minutes, seconds and tenths. It ends
/// without a line feed.
pub open spec fn status_line(nanos: nat, timer: Timer) -> Seq<char> {
    mode_label(timer) + Fields::of_nanos(nanos).text()
}

/// The line that shows `now` under the mode `timer`.
pub fn status_text(now: Duration, timer: Timer) -> (line: String)
    ensures
        line@ == status_line(duration_nanos(now), timer),
{
    let label: &str = match timer {
        Timer::RUN => "run:   ",
        Timer::STOP => "stop:  ",
    };
    let mut line = label.to_owned();
    Hms::from_duration(now).write_to(&mut line);
    line
}

/// What to do to the terminal to show `now` under the mode `timer`: clear the
/// line of the cursor, go up one line, write the status line there, come
/// back down, and flush. The cursor ends where it began, so the next frame
/// is drawn over this one.
pub fn print_hms(now: Duration, timer: Timer) -> (ops: Vec<Draw>)
    ensures
        ops@.len() == 5,
        ops@[0]@ == Drawing::ClearCurrentLine,
        ops@[1]@ == Drawing::MoveToPreviousLine(1),
        ops@[2]@ == Drawing::Print(status_line(duration_nanos(now), timer)),
        ops@[3]@ == Drawing::MoveToNextLine(1),
        ops@[4]@ == Drawing::Flush,
{
    let mut ops: Vec<Draw> = Vec::new();
    ops.push(Draw::ClearCurrentLine);
    ops.push(Draw::MoveToPreviousLine(1));
    ops.push(Draw::Print(status_text(now, timer)));
    ops.push(Draw::MoveToNextLine(1));
    ops.push(Draw::Flush);
    ops
}

} // verus!
