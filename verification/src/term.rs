//! Decoding of terminal key events into editor keys.
//!
//! The shell reads events from the terminal and hands them over as a
//! `TermKey`, which holds the parts of the event that decoding reads.
use vstd::prelude::*;
use crate::keys::Key;

verus! {

/// The bit of the modifier set that stands for the Control key.
pub const CONTROL: u8 = 2;

/// Whether the terminal reports a key going down, repeating or going up.
#[derive(Debug, Clone, Copy, PartialEq, Eq, Structural)]
pub enum TermKind {
    Press,
    Repeat,
    Release,
}

/// The key of a terminal event, where it is one the editor reads.
#[derive(Debug, Clone, Copy, PartialEq, Eq, Structural)]
pub enum TermCode {
    Char(char),
    Left,
    Right,
    Backspace,
    Enter,
    Other,
}

/// A terminal key event: the key, the set of modifier bits held with it,
/// and its kind.
#[derive(Debug, Clone, Copy, PartialEq, Eq, Structural)]
pub struct TermKey {
    pub code: TermCode,
    pub modifiers: u8,
    pub kind: TermKind,
}

/// What the shell does with a terminal event.
#[derive(Debug, Clone, Copy, PartialEq, Eq, Structural)]
pub enum Decoded {
    /// Hand this key to the key map.
    Key(Key),
    /// Copy the probe payload to the system clipboard (Ctrl-Y).
    CopyToClipboard,
    /// Nothing to do.
    Ignore,
}

/// The meaning of a terminal event: only key presses count; Ctrl-S, Ctrl-Q
/// and Ctrl-Y (with no other modifier) are commands, any other char is
/// typed whatever the modifiers, and the arrow, Backspace and Enter keys
/// map to themselves.
pub open spec fn decoded(ev: TermKey) -> Decoded {
    if ev.kind != TermKind::Press {
        Decoded::Ignore
    } else {
        match ev.code {
            TermCode::Char(c) => {
                if ev.modifiers == CONTROL && c == 's' {
                    Decoded::Key(Key::CtrlS)
                } else if ev.modifiers == CONTROL && c == 'q' {
                    Decoded::Key(Key::CtrlQ)
                } else if ev.modifiers == CONTROL && c == 'y' {
                    Decoded::CopyToClipboard
                } else {
                    Decoded::Key(Key::Char(c))
                }
            },
            TermCode::Left => Decoded::Key(Key::Left),
            TermCode::Right => Decoded::Key(Key::Right),
            TermCode::Backspace => Decoded::Key(Key::Backspace),
            TermCode::Enter => Decoded::Key(Key::Enter),
            TermCode::Other => Decoded::Ignore,
        }
    }
}

/// Decodes a terminal event.
pub fn to_key(ev: TermKey) -> (r: Decoded)
    ensures
        r == decoded(ev),
        ev.kind != TermKind::Press ==> r == Decoded::Ignore,
        ev.kind == TermKind::Press ==> (ev.code matches TermCode::Char(c) ==> (
            if ev.modifiers == CONTROL && c == 's' {
                r == Decoded::Key(Key::CtrlS)
            } else if ev.modifiers == CONTROL && c == 'q' {
                r == Decoded::Key(Key::CtrlQ)
            } else if ev.modifiers == CONTROL && c == 'y' {
                r == Decoded::CopyToClipboard
            } else {
                r == Decoded::Key(Key::Char(c))
            })),
{
    let press = match ev.kind {
        TermKind::Press => true,
        _ => false,
    };
    if !press {
        return Decoded::Ignore;
    }
    match ev.code {
        TermCode::Char(c) => {
            let ctrl = ev.modifiers == CONTROL;
            if ctrl && c == 's' {
                Decoded::Key(Key::CtrlS)
            } else if ctrl && c == 'q' {
                Decoded::Key(Key::CtrlQ)
            } else if ctrl && c == 'y' {
                Decoded::CopyToClipboard
            } else {
                Decoded::Key(Key::Char(c))
            }
        },
        TermCode::Left => Decoded::Key(Key::Left),
        TermCode::Right => Decoded::Key(Key::Right),
        TermCode::Backspace => Decoded::Key(Key::Backspace),
        TermCode::Enter => Decoded::Key(Key::Enter),
        TermCode::Other => Decoded::Ignore,
    }
}

/// A pressed char key is typed as that char, whatever modifiers are held
/// (Shift, Alt, Control with a letter other than s, q, y, several at once),
/// except exactly Control with `s`, `q` or `y`, which are the save, quit
/// and copy bindings. Only presses count.
pub proof fn lemma_char_presses_are_typed(ev: TermKey, c: char)
    requires
        ev.kind == TermKind::Press,
        ev.code == TermCode::Char(c),
    ensures
        !(ev.modifiers == CONTROL && (c == 's' || c == 'q' || c == 'y')) ==> decoded(ev)
            == Decoded::Key(Key::Char(c)),
        ev.modifiers == CONTROL && c == 's' ==> decoded(ev) == Decoded::Key(Key::CtrlS),
        ev.modifiers == CONTROL && c == 'q' ==> decoded(ev) == Decoded::Key(Key::CtrlQ),
        ev.modifiers == CONTROL && c == 'y' ==> decoded(ev) == Decoded::CopyToClipboard,
{
}

/// Releases and repeats are ignored; the arrow, Backspace and Enter keys,
/// when pressed, decode to themselves whatever the modifiers.
pub proof fn lemma_special_keys(ev: TermKey)
    ensures
        ev.kind != TermKind::Press ==> decoded(ev) == Decoded::Ignore,
        ev.kind == TermKind::Press ==> (ev.code == TermCode::Left ==> decoded(ev) == Decoded::Key(Key::Left)),
        ev.kind == TermKind::Press ==> (ev.code == TermCode::Right ==> decoded(ev) == Decoded::Key(Key::Right)),
        ev.kind == TermKind::Press ==> (ev.code == TermCode::Backspace ==> decoded(ev) == Decoded::Key(Key::Backspace)),
        ev.kind == TermKind::Press ==> (ev.code == TermCode::Enter ==> decoded(ev) == Decoded::Key(Key::Enter)),
        ev.code == TermCode::Other ==> decoded(ev) == Decoded::Ignore,
{
}

} // verus!
