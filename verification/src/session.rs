//! One turn of the editor's event loop, without the I/O: a terminal key
//! event goes in, the new state and what the shell must do come out.
use vstd::prelude::*;
use crate::editor::{Core, CoreState, Effect};
use crate::keys::{command_for, keymap, Key};
use crate::term::{decoded, to_key, Decoded, TermKey, TermKind, TermCode, CONTROL};

verus! {

/// What the shell does after a key event was handled.
#[derive(Debug, Clone, Copy, PartialEq, Eq, Structural)]
pub enum Action {
    /// Redraw and wait for the next event.
    Continue,
    /// Write the text to the file, if there is one, and mark it saved.
    WriteFile,
    /// Leave the editor.
    Quit,
    /// Put the probe payload on the clipboard.
    CopyToClipboard,
}

/// The action that stands for a command's effect.
pub open spec fn action_for(e: Option<Effect>) -> Action {
    match e {
        Some(Effect::WriteFile) => Action::WriteFile,
        Some(Effect::Quit) => Action::Quit,
        None => Action::Continue,
    }
}

impl CoreState {
    /// The key events on which handling is defined: those whose command the
    /// state accepts.
    pub open spec fn accepts_event(self, ev: TermKey) -> bool {
        match decoded(ev) {
            Decoded::Key(k) => self.accepts(command_for(k)),
            _ => true,
        }
    }

    /// The state after a key event, and the action for the shell.
    pub open spec fn handle(self, ev: TermKey) -> (CoreState, Action) {
        match decoded(ev) {
            Decoded::Key(k) => {
                let (s, e) = self.step(command_for(k));
                (s, action_for(e))
            },
            Decoded::CopyToClipboard => (self, Action::CopyToClipboard),
            Decoded::Ignore => (self, Action::Continue),
        }
    }
}

impl Core {
    /// Handles one terminal key event: decodes it, maps the key to a
    /// command, carries the command out, and says what the shell must do.
    pub fn handle_event(&mut self, ev: TermKey) -> (a: Action)
        requires
            old(self)@.accepts_event(ev),
        ensures
            (final(self)@, a) == old(self)@.handle(ev),
            decoded(ev) matches Decoded::Key(k) ==> final(self)@ == old(self)@.step(
                command_for(k),
            ).0 && a == action_for(old(self)@.step(command_for(k)).1),
            !(decoded(ev) is Key) ==> final(self)@ == old(self)@,
    {
        match to_key(ev) {
            Decoded::Key(k) => match keymap(k) {
                Some(cmd) => match self.apply(cmd) {
                    Some(Effect::WriteFile) => Action::WriteFile,
                    Some(Effect::Quit) => Action::Quit,
                    None => Action::Continue,
                },
                None => Action::Continue,
            },
            Decoded::CopyToClipboard => Action::CopyToClipboard,
            Decoded::Ignore => Action::Continue,
        }
    }
}

/// A key event that decodes to a key carries out exactly the command bound
/// to that key, and the shell is told the effect of that command.
pub proof fn lemma_handle_runs_bound_command(s: CoreState, ev: TermKey, k: Key)
    requires
        decoded(ev) == Decoded::Key(k),
    ensures
        s.handle(ev).0 == s.step(command_for(k)).0,
        s.handle(ev).1 == action_for(s.step(command_for(k)).1),
{
}

/// What pressing each key does, in terms of the text and the cursor:
/// Backspace removes the char before a nonzero cursor; a typed char goes in
/// at the cursor; Enter puts a line feed there; Ctrl-S asks for a write,
/// Ctrl-Q to quit and Ctrl-Y for the clipboard, none of them changing the
/// state; the arrows move the cursor by one within the text.
pub proof fn lemma_key_presses(s: CoreState, ev: TermKey)
    requires
        ev.kind == TermKind::Press,
        s.cursor_in_bounds(),
    ensures
        ev.code == TermCode::Backspace && s.cursor > 0 ==> s.handle(ev) == (
            CoreState {
                text: s.text.subrange(0, s.cursor - 1) + s.text.subrange(
                    s.cursor as int,
                    s.text.len() as int,
                ),
                cursor: (s.cursor - 1) as nat,
                dirty: true,
            },
            Action::Continue,
        ),
        ev.code == TermCode::Backspace && s.cursor == 0 ==> s.handle(ev) == (s, Action::Continue),
        ev.code matches TermCode::Char(c) ==> (!(ev.modifiers == CONTROL && (c == 's' || c == 'q'
            || c == 'y')) ==> s.handle(ev) == (
            CoreState {
                text: s.text.subrange(0, s.cursor as int) + seq![c] + s.text.subrange(
                    s.cursor as int,
                    s.text.len() as int,
                ),
                cursor: s.cursor + 1,
                dirty: true,
            },
            Action::Continue,
        )),
        ev.code == TermCode::Enter ==> s.handle(ev) == (
            CoreState {
                text: s.text.subrange(0, s.cursor as int) + seq!['\n'] + s.text.subrange(
                    s.cursor as int,
                    s.text.len() as int,
                ),
                cursor: s.cursor + 1,
                dirty: true,
            },
            Action::Continue,
        ),
        ev.code == TermCode::Char('s') && ev.modifiers == CONTROL ==> s.handle(ev) == (
            s,
            Action::WriteFile,
        ),
        ev.code == TermCode::Char('q') && ev.modifiers == CONTROL ==> s.handle(ev) == (
            s,
            Action::Quit,
        ),
        ev.code == TermCode::Char('y') && ev.modifiers == CONTROL ==> s.handle(ev) == (
            s,
            Action::CopyToClipboard,
        ),
        ev.code == TermCode::Left ==> s.handle(ev) == (
            CoreState { cursor: if s.cursor == 0 { 0 } else { (s.cursor - 1) as nat }, ..s },
            Action::Continue,
        ),
        ev.code == TermCode::Right ==> s.handle(ev) == (
            CoreState { cursor: if s.cursor < s.text.len() { s.cursor + 1 } else { s.cursor }, ..s },
            Action::Continue,
        ),
{
    if ev.code == TermCode::Backspace && s.cursor > 0 {
        assert(s.text.remove(s.cursor - 1) =~= s.text.subrange(0, s.cursor - 1) + s.text.subrange(
            s.cursor as int,
            s.text.len() as int,
        ));
    }
    if let TermCode::Char(c) = ev.code {
        assert(s.text.insert(s.cursor as int, c) =~= s.text.subrange(0, s.cursor as int) + seq![c]
            + s.text.subrange(s.cursor as int, s.text.len() as int));
    }
    assert(s.text.insert(s.cursor as int, '\n') =~= s.text.subrange(0, s.cursor as int) + seq!['\n']
        + s.text.subrange(s.cursor as int, s.text.len() as int));
}

} // verus!
