//! What reaches the event loop, and what the input side forwards to it.

use vstd::prelude::*;

verus! {

/// The key of a key event, as far as the application tells keys apart: a
/// character key, or any other key.
#[derive(Clone, Copy, Debug, PartialEq, Eq, Structural)]
pub enum KeyCode {
    Char(char),
    Other,
}

/// Whether a key went down, is held, or came up.
#[derive(Clone, Copy, Debug, PartialEq, Eq, Structural)]
pub enum KeyEventKind {
    Press,
    Repeat,
    Release,
}

/// One key event of the terminal.
#[derive(Clone, Copy, Debug, PartialEq, Eq, Structural)]
pub struct KeyEvent {
    pub code: KeyCode,
    pub kind: KeyEventKind,
}

/// One event as the terminal reports it: a key event, or anything else
/// (mouse, focus, paste, resize).
#[derive(Clone, Copy, Debug, PartialEq, Eq, Structural)]
pub enum TerminalEvent {
    Key(KeyEvent),
    Other,
}

/// One event of the event loop.
#[derive(Clone, Copy, Debug, PartialEq, Eq, Structural)]
pub enum Event {
    /// A key event from the terminal.
    Input(KeyEvent),
    /// The background task reports its progress, in hundredths of a percent.
    /// The value is a report, not a step: it replaces the progress shown.
    Progress(i32),
}

/// What the input side forwards for `raw`: every key event, and nothing else.
pub open spec fn forwarded(raw: TerminalEvent) -> Option<Event> {
    match raw {
        TerminalEvent::Key(key_event) => Some(Event::Input(key_event)),
        TerminalEvent::Other => None,
    }
}

/// Turns one terminal event into the event to send to the event loop, if any.
/// Key events of every kind are forwarded unchanged; all other events are
/// dropped.
pub fn handle_input_event(raw: TerminalEvent) -> (event: Option<Event>)
    ensures
        event == forwarded(raw),
{
    match raw {
        TerminalEvent::Key(key_event) => Some(Event::Input(key_event)),
        TerminalEvent::Other => None,
    }
}

impl KeyEvent {
    /// Whether this event is a press of the character key `c`.
    pub open spec fn is_press_of(self, c: char) -> bool {
        self.kind == KeyEventKind::Press && self.code == KeyCode::Char(c)
    }

    /// Whether this event is a press of the character key `c`.
    pub fn pressed(self, c: char) -> (hit: bool)
        ensures
            hit == self.is_press_of(c),
    {
        let down = match self.kind {
            KeyEventKind::Press => true,
            _ => false,
        };
        let same = match self.code {
            KeyCode::Char(k) => k == c,
            KeyCode::Other => false,
        };
        down && same
    }
}

} // verus!
