//! The command buffer: typed characters composing a `:` command.
use vstd::prelude::*;
use crate::event::{Event, KeyCode};

verus! {

/// What a key event did to the command buffer.
#[derive(Clone, Copy, Debug, PartialEq, Eq, Structural)]
pub enum Reaction {
    /// The event does not concern the buffer; the display is left alone.
    Ignored,
    /// The event was handled; the display shows the buffer anew.
    Edited,
    /// A quit command was submitted.
    Quit,
}

/// Whether a buffer holds one of the quit commands, `:q` or `:quit`.
pub open spec fn is_quit_command(b: Seq<char>) -> bool {
    b == seq![':', 'q'] || b == seq![':', 'q', 'u', 'i', 't']
}

/// The buffer after an event and the reaction to it.
pub open spec fn key_step(b: Seq<char>, e: Event) -> (Seq<char>, Reaction) {
    match e {
        Event::KeyPressed(KeyCode::Enter) => if is_quit_command(b) {
            (b, Reaction::Quit)
        } else {
            (Seq::empty(), Reaction::Edited)
        },
        Event::KeyPressed(KeyCode::Esc) => (Seq::empty(), Reaction::Edited),
        Event::KeyPressed(KeyCode::Char(c)) | Event::KeyRepeated(KeyCode::Char(c)) => if c == ':'
            || b.len() > 0 {
            (b.push(c), Reaction::Edited)
        } else {
            (b, Reaction::Ignored)
        },
        Event::KeyPressed(KeyCode::Backspace) | Event::KeyRepeated(KeyCode::Backspace) => if b.len()
            > 0 {
            (b.drop_last(), Reaction::Edited)
        } else {
            (b, Reaction::Edited)
        },
        _ => (b, Reaction::Ignored),
    }
}

/// The text being composed as a command; empty when none is.
pub struct CommandBuffer {
    chars: Vec<char>,
}

impl View for CommandBuffer {
    type V = Seq<char>;

    closed spec fn view(&self) -> Seq<char> {
        self.chars@
    }
}

impl CommandBuffer {
    /// An empty buffer.
    pub fn new() -> (r: CommandBuffer)
        ensures
            r@ == Seq::<char>::empty(),
    {
        CommandBuffer { chars: Vec::new() }
    }

    /// The characters in the buffer.
    pub fn text(&self) -> (r: Vec<char>)
        ensures
            r@ == self@,
    {
        self.chars.clone()
    }

    pub fn is_empty(&self) -> (r: bool)
        ensures
            r == (self@.len() == 0),
    {
        self.chars.len() == 0
    }

    fn holds_quit_command(&self) -> (r: bool)
        ensures
            r == is_quit_command(self@),
    {
        let c = &self.chars;
        let short = c.len() == 2 && c[0] == ':' && c[1] == 'q';
        let long = c.len() == 5 && c[0] == ':' && c[1] == 'q' && c[2] == 'u' && c[3] == 'i'
            && c[4] == 't';
        assert(short ==> c@ =~= seq![':', 'q']);
        assert(long ==> c@ =~= seq![':', 'q', 'u', 'i', 't']);
        short || long
    }

    /// Applies a key event: `:` starts or extends a command, other
    /// characters extend one already started, Backspace removes the last
    /// character, Escape clears, Enter submits. A tick leaves it alone.
    pub fn handle(&mut self, e: Event) -> (r: Reaction)
        ensures
            (final(self)@, r) == key_step(old(self)@, e),
    {
        match e {
            Event::KeyPressed(KeyCode::Enter) => {
                if self.holds_quit_command() {
                    Reaction::Quit
                } else {
                    self.chars.clear();
                    Reaction::Edited
                }
            },
            Event::KeyPressed(KeyCode::Esc) => {
                self.chars.clear();
                Reaction::Edited
            },
            Event::KeyPressed(KeyCode::Char(c)) | Event::KeyRepeated(KeyCode::Char(c)) => {
                if c == ':' || self.chars.len() > 0 {
                    self.chars.push(c);
                    Reaction::Edited
                } else {
                    Reaction::Ignored
                }
            },
            Event::KeyPressed(KeyCode::Backspace) | Event::KeyRepeated(KeyCode::Backspace) => {
                self.chars.pop();
                Reaction::Edited
            },
            _ => Reaction::Ignored,
        }
    }
}

/// Escape clears the buffer, whatever it held.
pub proof fn lemma_escape_clears(b: Seq<char>)
    ensures
        key_step(b, Event::KeyPressed(KeyCode::Esc)) == (Seq::<char>::empty(), Reaction::Edited),
{
}

/// While the buffer is empty, a typed character other than `:` is ignored:
/// the buffer stays empty and the display is not refreshed.
pub proof fn lemma_empty_ignores_plain_chars(c: char, repeated: bool)
    requires
        c != ':',
    ensures
        key_step(
            Seq::empty(),
            if repeated {
                Event::KeyRepeated(KeyCode::Char(c))
            } else {
                Event::KeyPressed(KeyCode::Char(c))
            },
        ) == (Seq::<char>::empty(), Reaction::Ignored),
{
}

/// Only Enter on a buffer holding `:q` or `:quit` requests quitting.
pub proof fn lemma_quit_only_on_command(b: Seq<char>, e: Event)
    ensures
        key_step(b, e).1 == Reaction::Quit <==> (e == Event::KeyPressed(KeyCode::Enter)
            && is_quit_command(b)),
{
}

} // verus!
