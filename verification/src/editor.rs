//! The editor state and the command interpreter.
use vstd::prelude::*;
use ropey::Rope;
use crate::keys::Cmd;
use crate::rope::{
    rope_text, rope_from_str, rope_len_chars, rope_insert_char, rope_remove, rope_to_string,
    rope_clone,
};

verus! {

/// Effects the core asks the shell to perform. The shell is the only impure part.
#[derive(Debug, Clone, Copy, PartialEq, Eq, Structural)]
pub enum Effect {
    WriteFile,
    Quit,
}

/// The editor state: the text, a cursor given as a char index into the
/// text, and whether the text changed since it was last written.
#[derive(Debug)]
pub struct Core {
    pub text: Rope,
    pub cursor: usize,
    pub dirty: bool,
}

/// The mathematical value of a `Core`.
pub struct CoreState {
    pub text: Seq<char>,
    pub cursor: nat,
    pub dirty: bool,
}

impl View for Core {
    type V = CoreState;

    open spec fn view(&self) -> CoreState {
        CoreState { text: rope_text(self.text), cursor: self.cursor as nat, dirty: self.dirty }
    }
}

impl CoreState {
    /// The cursor is a valid char index: at most the length of the text.
    pub open spec fn cursor_in_bounds(self) -> bool {
        self.cursor <= self.text.len()
    }

    /// The inputs on which a command is defined: an edit needs the cursor
    /// inside the text, and an insertion a cursor that can still grow.
    pub open spec fn accepts(self, c: Cmd) -> bool {
        match c {
            Cmd::Insert(_) | Cmd::NewLine => self.cursor_in_bounds() && self.cursor < usize::MAX,
            Cmd::DeleteBack => self.cursor > 0 ==> self.cursor_in_bounds(),
            _ => true,
        }
    }

    /// `ch` typed at the cursor: it goes in before the cursor, which moves past it.
    pub open spec fn insert_at_cursor(self, ch: char) -> CoreState {
        CoreState {
            text: self.text.insert(self.cursor as int, ch),
            cursor: self.cursor + 1,
            dirty: true,
        }
    }

    /// What one command does to the state, and the effect it asks for.
    pub open spec fn step(self, c: Cmd) -> (CoreState, Option<Effect>) {
        match c {
            Cmd::Insert(ch) => (self.insert_at_cursor(ch), None),
            Cmd::NewLine => (self.insert_at_cursor('\n'), None),
            Cmd::MoveLeft => (
                CoreState { cursor: if self.cursor > 0 { (self.cursor - 1) as nat } else { 0 }, ..self },
                None,
            ),
            Cmd::MoveRight => (
                CoreState {
                    cursor: if self.cursor + 1 <= self.text.len() {
                        self.cursor + 1
                    } else {
                        self.text.len()
                    },
                    ..self
                },
                None,
            ),
            Cmd::DeleteBack => (
                if self.cursor > 0 {
                    CoreState {
                        text: self.text.remove(self.cursor - 1),
                        cursor: (self.cursor - 1) as nat,
                        dirty: true,
                    }
                } else {
                    self
                },
                None,
            ),
            Cmd::Save => (self, Some(Effect::WriteFile)),
            Cmd::Quit => (self, Some(Effect::Quit)),
        }
    }
}

impl Core {
    /// A core holding `s`, with the cursor at the start and nothing unsaved.
    pub fn new(s: &str) -> (r: Self)
        ensures
            r@ == (CoreState { text: s@, cursor: 0, dirty: false }),
    {
        Core { text: rope_from_str(s), cursor: 0, dirty: false }
    }

    /// Carries out one command on the state and returns the effect that the
    /// shell is to perform, if any.
    pub fn apply(&mut self, c: Cmd) -> (eff: Option<Effect>)
        requires
            old(self)@.accepts(c),
        ensures
            (final(self)@, eff) == old(self)@.step(c),
            old(self)@.cursor_in_bounds() ==> final(self)@.cursor_in_bounds(),
    {
        match c {
            Cmd::Insert(ch) => {
                rope_insert_char(&mut self.text, self.cursor, ch);
                self.cursor = self.cursor + 1;
                self.dirty = true;
                None
            },
            Cmd::NewLine => {
                rope_insert_char(&mut self.text, self.cursor, '\n');
                self.cursor = self.cursor + 1;
                self.dirty = true;
                None
            },
            Cmd::MoveLeft => {
                if self.cursor > 0 {
                    self.cursor = self.cursor - 1;
                }
                None
            },
            Cmd::MoveRight => {
                let len = rope_len_chars(&self.text);
                if self.cursor < len {
                    self.cursor = self.cursor + 1;
                } else {
                    self.cursor = len;
                }
                None
            },
            Cmd::DeleteBack => {
                if self.cursor > 0 {
                    let ghost before = rope_text(self.text);
                    rope_remove(&mut self.text, self.cursor - 1, self.cursor);
                    self.cursor = self.cursor - 1;
                    self.dirty = true;
                    assert(rope_text(self.text) =~= before.remove(self.cursor as int));
                }
                None
            },
            Cmd::Save => Some(Effect::WriteFile),
            Cmd::Quit => Some(Effect::Quit),
        }
    }

    /// Records that the text was written out: nothing is unsaved any more.
    pub fn mark_saved(&mut self)
        ensures
            final(self)@ == (CoreState { dirty: false, ..old(self)@ }),
    {
        self.dirty = false;
    }

    /// The text as a `String`.
    pub fn text_string(&self) -> (s: String)
        ensures
            s@ == self@.text,
    {
        rope_to_string(&self.text)
    }
}

impl Clone for Core {
    fn clone(&self) -> (r: Self)
        ensures
            r@ == self@,
    {
        Core { text: rope_clone(&self.text), cursor: self.cursor, dirty: self.dirty }
    }
}

} // verus!
