//! What the user types, and what is asked for by it.

use crate::decimal::chars_of;
use vstd::prelude::*;

verus! {

/// What a key did.
#[derive(Debug, Clone, Copy, PartialEq, Eq)]
pub enum KeyKind {
    Press,
    Repeat,
    Release,
}

/// Which key it was, as far as the timer tells keys apart.
#[derive(Debug, Clone, Copy, PartialEq, Eq)]
pub enum KeyCode {
    Char(char),
    Enter,
    Esc,
    Other,
}

/// One event of the keyboard.
#[derive(Debug, Clone, Copy, PartialEq, Eq)]
pub struct KeyEvent {
    pub code: KeyCode,
    pub kind: KeyKind,
}

/// What the user asks of the timer.
#[derive(Debug, Clone, Copy, PartialEq, Eq)]
pub enum Request {
    /// Stop the running timer, or start the stopped one.
    Toggle,
    /// Leave.
    Exit,
    /// Nothing: the input is passed over.
    Nothing,
}

/// What a key asks for. Only a key that is pressed asks for anything: the
/// space bar and `k` toggle, `q`, Esc and Enter leave.
pub open spec fn key_request(key: KeyEvent) -> Request {
    if key.kind != KeyKind::Press {
        Request::Nothing
    } else if key.code == KeyCode::Char(' ') || key.code == KeyCode::Char('k') {
        Request::Toggle
    } else if key.code == KeyCode::Char('q') || key.code == KeyCode::Esc || key.code
        == KeyCode::Enter {
        Request::Exit
    } else {
        Request::Nothing
    }
}

/// What a key asks for.
pub fn decode_key(key: &KeyEvent) -> (request: Request)
    ensures
        request == key_request(*key),
{
    match key.kind {
        KeyKind::Press => match key.code {
            KeyCode::Char(c) => if c == ' ' || c == 'k' {
                Request::Toggle
            } else if c == 'q' {
                Request::Exit
            } else {
                Request::Nothing
            },
            KeyCode::Esc => Request::Exit,
            KeyCode::Enter => Request::Exit,
            KeyCode::Other => Request::Nothing,
        },
        _ => Request::Nothing,
    }
}

/// A line without the line end that may close it: a line feed, or a carriage
/// return and a line feed.
pub open spec fn line_content(line: Seq<char>) -> Seq<char> {
    if line.len() >= 2 && line[line.len() - 2] == '\r' && line[line.len() - 1] == '\n' {
        line.take(line.len() - 2)
    } else if line.len() >= 1 && line[line.len() - 1] == '\n' {
        line.take(line.len() - 1)
    } else {
        line
    }
}

/// What a line of input asks for, where input comes line by line: the empty
/// line, which is Enter alone, toggles, and the line `q` leaves.
pub open spec fn line_request(line: Seq<char>) -> Request {
    let content = line_content(line);
    if content.len() == 0 {
        Request::Toggle
    } else if content == seq!['q'] {
        Request::Exit
    } else {
        Request::Nothing
    }
}

/// What a line of input asks for.
pub fn decode_line(line: &str) -> (request: Request)
    ensures
        request == line_request(line@),
{
    let chars = chars_of(line);
    let n: usize = chars.len();
    let end: usize = if n >= 2 && chars[n - 2] == '\r' && chars[n - 1] == '\n' {
        n - 2
    } else if n >= 1 && chars[n - 1] == '\n' {
        n - 1
    } else {
        n
    };
    assert(line_content(line@) =~= chars@.take(end as int));
    if end == 0 {
        Request::Toggle
    } else if end == 1 && chars[0] == 'q' {
        assert(chars@.take(1) =~= seq!['q']);
        Request::Exit
    } else {
        assert(line_content(line@) != seq!['q']) by {
            if end == 1 {
                assert(line_content(line@)[0] != 'q');
            }
        }
        Request::Nothing
    }
}

/// What a read of the input gave.
#[derive(Debug, Clone, Copy, PartialEq, Eq)]
pub enum Incoming {
    /// Something was typed, and this is what it asks for.
    Input(Request),
    /// An event of another kind, such as a resize.
    Other,
    /// The read failed.
    Failed,
}

/// Why the listener gives up.
#[derive(Debug, Clone, Copy, PartialEq, Eq)]
pub enum ListenerFault {
    /// The input could not be read.
    Read,
    /// The request could not be handed to the timer.
    Send,
}

/// What the listener does next.
#[derive(Debug, Clone, Copy, PartialEq, Eq)]
pub enum ListenerStep {
    /// Hand the request to the timer, then go on as [`after_send`] says.
    Forward(Request),
    /// Read again, then go on as [`after_read`] says.
    Read,
    /// Restore the terminal, report the fault and end.
    Stop(ListenerFault),
}

/// What the listener does with what it has read: it hands on whatever was
/// typed, also what asks for nothing, passes over other events, and gives up
/// when the read failed.
pub fn after_read(incoming: Incoming) -> (step: ListenerStep)
    ensures
        step == match incoming {
            Incoming::Input(request) => ListenerStep::Forward(request),
            Incoming::Other => ListenerStep::Read,
            Incoming::Failed => ListenerStep::Stop(ListenerFault::Read),
        },
{
    match incoming {
        Incoming::Input(request) => ListenerStep::Forward(request),
        Incoming::Other => ListenerStep::Read,
        Incoming::Failed => ListenerStep::Stop(ListenerFault::Read),
    }
}

/// What the listener does once it has tried to hand a request on: it reads
/// again when the timer has taken it, and gives up when not.
pub fn after_send(delivered: bool) -> (step: ListenerStep)
    ensures
        step == if delivered {
            ListenerStep::Read
        } else {
            ListenerStep::Stop(ListenerFault::Send)
        },
{
    if delivered {
        ListenerStep::Read
    } else {
        ListenerStep::Stop(ListenerFault::Send)
    }
}

impl ListenerFault {
    /// The words to report the fault with.
    pub fn message(&self) -> (text: &'static str)
        ensures
            text@ == match *self {
                ListenerFault::Read => "failed to read from standard input"@,
                ListenerFault::Send => "failed to communicate between threads"@,
            },
    {
        match self {
            ListenerFault::Read => "failed to read from standard input",
            ListenerFault::Send => "failed to communicate between threads",
        }
    }
}

} // verus!
