use vstd::prelude::*;

verus! {

/// A key as the editor understands it, after the terminal event was decoded.
#[derive(Debug, Clone, Copy, PartialEq, Eq, Structural)]
pub enum Key {
    Char(char),
    Left,
    Right,
    Backspace,
    Enter,
    CtrlS,
    CtrlQ,
}

/// An editing command, the input of `Core::apply`.
#[derive(Debug, Clone, Copy, PartialEq, Eq, Structural)]
pub enum Cmd {
    Insert(char),
    MoveLeft,
    MoveRight,
    DeleteBack,
    NewLine,
    Save,
    Quit,
}

/// The command bound to each key.
pub open spec fn command_for(k: Key) -> Cmd {
    match k {
        Key::Char(c) => Cmd::Insert(c),
        Key::Left => Cmd::MoveLeft,
        Key::Right => Cmd::MoveRight,
        Key::Backspace => Cmd::DeleteBack,
        Key::Enter => Cmd::NewLine,
        Key::CtrlS => Cmd::Save,
        Key::CtrlQ => Cmd::Quit,
    }
}

/// Pure key -> command mapping (the "keymap" seam). Every key is bound.
pub fn keymap(k: Key) -> (r: Option<Cmd>)
    ensures
        r == Some(command_for(k)),
        k matches Key::Char(c) ==> r == Some(Cmd::Insert(c)),
        r == Some(Cmd::Quit) <==> k == Key::CtrlQ,
        r == Some(Cmd::Save) <==> k == Key::CtrlS,
{
    Some(
        match k {
            Key::Char(c) => Cmd::Insert(c),
            Key::Left => Cmd::MoveLeft,
            Key::Right => Cmd::MoveRight,
            Key::Backspace => Cmd::DeleteBack,
            Key::Enter => Cmd::NewLine,
            Key::CtrlS => Cmd::Save,
            Key::CtrlQ => Cmd::Quit,
        },
    )
}

/// Typing a char inserts that very char; only Ctrl-Q quits and only Ctrl-S
/// saves; the arrows move, Backspace deletes backwards, Enter starts a new
/// line.
pub proof fn lemma_keymap_meaning(k: Key)
    ensures
        forall|c: char| k == Key::Char(c) ==> command_for(k) == Cmd::Insert(c),
        command_for(k) == Cmd::Quit <==> k == Key::CtrlQ,
        command_for(k) == Cmd::Save <==> k == Key::CtrlS,
        command_for(k) == Cmd::MoveLeft <==> k == Key::Left,
        command_for(k) == Cmd::MoveRight <==> k == Key::Right,
        command_for(k) == Cmd::DeleteBack <==> k == Key::Backspace,
        command_for(k) == Cmd::NewLine <==> k == Key::Enter,
        command_for(k) is Insert <==> k is Char,
{
}

/// Distinct keys are bound to distinct commands.
pub proof fn lemma_keymap_injective(k1: Key, k2: Key)
    ensures
        command_for(k1) == command_for(k2) ==> k1 == k2,
{
}

} // verus!
