//! Properties of the command interpreter that span commands or states.
use vstd::prelude::*;
use crate::keys::Cmd;
use crate::editor::{CoreState, Effect};
use crate::term::{decoded, Decoded, TermKey};
use crate::session::Action;

verus! {

/// The state reached from `s` by carrying out `cmds` in order.
pub open spec fn run(s: CoreState, cmds: Seq<Cmd>) -> CoreState
    decreases cmds.len(),
{
    if cmds.len() == 0 {
        s
    } else {
        run(s.step(cmds[0]).0, cmds.drop_first())
    }
}

/// Every command keeps the cursor a valid char index of the text.
pub proof fn lemma_step_keeps_cursor_in_bounds(s: CoreState, c: Cmd)
    requires
        s.cursor_in_bounds(),
    ensures
        s.step(c).0.cursor_in_bounds(),
{
}

/// Over any sequence of commands, starting from a valid cursor, the cursor
/// stays a valid char index of the text.
pub proof fn lemma_run_keeps_cursor_in_bounds(s: CoreState, cmds: Seq<Cmd>)
    requires
        s.cursor_in_bounds(),
    ensures
        run(s, cmds).cursor_in_bounds(),
    decreases cmds.len(),
{
    if cmds.len() > 0 {
        lemma_step_keeps_cursor_in_bounds(s, cmds[0]);
        lemma_run_keeps_cursor_in_bounds(s.step(cmds[0]).0, cmds.drop_first());
    }
}

/// Only `Save` and `Quit` ask the shell for an effect, and they leave the
/// state as it was; every other command asks for nothing.
pub proof fn lemma_effects_only_from_save_and_quit(s: CoreState, c: Cmd)
    ensures
        s.step(c).1 == (match c {
            Cmd::Save => Some(Effect::WriteFile),
            Cmd::Quit => Some(Effect::Quit),
            _ => None,
        }),
        (c is Save || c is Quit) ==> s.step(c).0 == s,
{
}

/// Cursor motion changes neither the text nor the unsaved flag.
pub proof fn lemma_motion_keeps_text(s: CoreState, c: Cmd)
    requires
        c is MoveLeft || c is MoveRight,
    ensures
        s.step(c).0.text == s.text,
        s.step(c).0.dirty == s.dirty,
{
}

/// No command clears the unsaved flag; every command that changes the text sets it.
pub proof fn lemma_dirty_flag(s: CoreState, c: Cmd)
    ensures
        s.dirty ==> s.step(c).0.dirty,
        s.step(c).0.text != s.text ==> s.step(c).0.dirty,
{
}

/// Typing a char and then deleting backwards gives back the text and the
/// cursor that were there before.
pub proof fn lemma_delete_back_undoes_insert(s: CoreState, ch: char)
    requires
        s.cursor_in_bounds(),
    ensures
        s.step(Cmd::Insert(ch)).0.step(Cmd::DeleteBack).0.text == s.text,
        s.step(Cmd::Insert(ch)).0.step(Cmd::DeleteBack).0.cursor == s.cursor,
{
    let t = s.step(Cmd::Insert(ch)).0.step(Cmd::DeleteBack).0.text;
    assert(t =~= s.text);
}

/// Moving left and then right (or right and then left) comes back to the
/// same cursor, where the first move was not stopped by an end of the text.
pub proof fn lemma_motion_round_trip(s: CoreState)
    requires
        s.cursor_in_bounds(),
    ensures
        s.cursor > 0 ==> s.step(Cmd::MoveLeft).0.step(Cmd::MoveRight).0 == s,
        s.cursor < s.text.len() ==> s.step(Cmd::MoveRight).0.step(Cmd::MoveLeft).0 == s,
{
}

/// Deleting backwards at the start of the text changes nothing.
pub proof fn lemma_delete_back_at_start_is_noop(s: CoreState)
    requires
        s.cursor == 0,
    ensures
        s.step(Cmd::DeleteBack) == (s, Option::<Effect>::None),
{
}

/// Each command changes the length of the text by what it types or deletes:
/// one more after an insertion, one less after a deletion before a nonzero
/// cursor, the same otherwise.
pub proof fn lemma_text_length(s: CoreState, c: Cmd)
    requires
        s.cursor_in_bounds(),
    ensures
        s.step(c).0.text.len() == match c {
            Cmd::Insert(_) | Cmd::NewLine => s.text.len() + 1int,
            Cmd::DeleteBack => if s.cursor > 0 { s.text.len() - 1 } else { s.text.len() as int },
            _ => s.text.len() as int,
        },
{
}

/// A key event that decodes to no key (a release, a repeat, an unbound key
/// or the clipboard binding) leaves the state as it was.
pub proof fn lemma_non_key_events_keep_state(s: CoreState, ev: TermKey)
    requires
        !(decoded(ev) is Key),
    ensures
        s.handle(ev).0 == s,
        s.handle(ev).1 == (if decoded(ev) is CopyToClipboard {
            Action::CopyToClipboard
        } else {
            Action::Continue
        }),
{
}

/// The reference model of the text and cursor: a plain sequence of chars
/// and a char index, edited as a `Vec<char>` is (insert at the index,
/// remove before it, saturating moves). Save and Quit leave it alone.
pub open spec fn naive_apply(text: Seq<char>, cur: nat, c: Cmd) -> (Seq<char>, nat) {
    match c {
        Cmd::Insert(ch) => (text.insert(cur as int, ch), cur + 1),
        Cmd::NewLine => (text.insert(cur as int, '\n'), cur + 1),
        Cmd::MoveLeft => (text, if cur == 0 { 0 } else { (cur - 1) as nat }),
        Cmd::MoveRight => (text, if cur + 1 < text.len() { cur + 1 } else { text.len() }),
        Cmd::DeleteBack => if cur > 0 {
            (text.remove(cur - 1), (cur - 1) as nat)
        } else {
            (text, cur)
        },
        _ => (text, cur),
    }
}

/// The reference model carried through a sequence of commands.
pub open spec fn naive_run(text: Seq<char>, cur: nat, cmds: Seq<Cmd>) -> (Seq<char>, nat)
    decreases cmds.len(),
{
    if cmds.len() == 0 {
        (text, cur)
    } else {
        let (t, c) = naive_apply(text, cur, cmds[0]);
        naive_run(t, c, cmds.drop_first())
    }
}

/// After any sequence of commands, the core holds the same text and cursor
/// as the plain `Vec<char>` reference model started from the same text and
/// cursor.
pub proof fn lemma_run_matches_naive(s: CoreState, cmds: Seq<Cmd>)
    ensures
        (run(s, cmds).text, run(s, cmds).cursor) == naive_run(s.text, s.cursor, cmds),
    decreases cmds.len(),
{
    if cmds.len() > 0 {
        let n = naive_apply(s.text, s.cursor, cmds[0]);
        assert((s.step(cmds[0]).0.text, s.step(cmds[0]).0.cursor) == n);
        lemma_run_matches_naive(s.step(cmds[0]).0, cmds.drop_first());
        assert(naive_run(s.text, s.cursor, cmds) == naive_run(n.0, n.1, cmds.drop_first()));
    }
}

} // verus!
