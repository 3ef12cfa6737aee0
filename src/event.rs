//! The events that drive one phase: clock ticks and key events.
use vstd::prelude::*;

verus! {

/// The logical key of a key event, as far as the command buffer reads it.
#[derive(Clone, Copy, Debug, PartialEq, Eq, Structural)]
pub enum KeyCode {
    Char(char),
    Enter,
    Esc,
    Backspace,
    Other,
}

/// Whether a key went down, came up, or is held and repeating.
#[derive(Clone, Copy, Debug, PartialEq, Eq, Structural)]
pub enum KeyKind {
    Press,
    Release,
    Repeat,
}

/// A raw terminal input event: a key event, or anything else (mouse,
/// resize, focus, paste).
#[derive(Clone, Copy, Debug, PartialEq, Eq, Structural)]
pub enum Input {
    Key { code: KeyCode, kind: KeyKind },
    Other,
}

/// One item of the merged sequence that a phase consumes.
#[derive(Clone, Copy, Debug, PartialEq, Eq, Structural)]
pub enum Event {
    Tick,
    KeyPressed(KeyCode),
    KeyReleased(KeyCode),
    KeyRepeated(KeyCode),
}

/// The event that a raw input stands for, if any: key events are kept with
/// their kind, all other input is dropped.
pub open spec fn event_of(input: Input) -> Option<Event> {
    match input {
        Input::Key { code, kind: KeyKind::Press } => Some(Event::KeyPressed(code)),
        Input::Key { code, kind: KeyKind::Release } => Some(Event::KeyReleased(code)),
        Input::Key { code, kind: KeyKind::Repeat } => Some(Event::KeyRepeated(code)),
        Input::Other => None,
    }
}

impl Event {
    /// Translates a raw terminal input into an event, dropping all that is
    /// not a key event.
    pub fn from_input(input: Input) -> (r: Option<Event>)
        ensures
            r == event_of(input),
    {
        match input {
            Input::Key { code, kind } => match kind {
                KeyKind::Press => Some(Event::KeyPressed(code)),
                KeyKind::Release => Some(Event::KeyReleased(code)),
                KeyKind::Repeat => Some(Event::KeyRepeated(code)),
            },
            Input::Other => None,
        }
    }
}

} // verus!
