use probe::{keymap, Cmd, Core, Effect, Key};

#[test]
fn keymap_binds_every_key() {
    assert_eq!(keymap(Key::Char('x')), Some(Cmd::Insert('x')));
    assert_eq!(keymap(Key::Left), Some(Cmd::MoveLeft));
    assert_eq!(keymap(Key::Right), Some(Cmd::MoveRight));
    assert_eq!(keymap(Key::Backspace), Some(Cmd::DeleteBack));
    assert_eq!(keymap(Key::Enter), Some(Cmd::NewLine));
    assert_eq!(keymap(Key::CtrlS), Some(Cmd::Save));
    assert_eq!(keymap(Key::CtrlQ), Some(Cmd::Quit));
}

#[test]
fn new_core_starts_clean_at_the_start() {
    let c = Core::new("hello");
    assert_eq!(c.text.to_string(), "hello");
    assert_eq!(c.text_string(), "hello");
    assert_eq!(c.cursor, 0);
    assert!(!c.dirty);
}

#[test]
fn insert_goes_before_the_cursor_and_moves_it() {
    let mut c = Core::new("ab");
    assert_eq!(c.apply(Cmd::MoveRight), None);
    assert_eq!(c.apply(Cmd::Insert('x')), None);
    assert_eq!(c.text.to_string(), "axb");
    assert_eq!(c.cursor, 2);
    assert!(c.dirty);
}

#[test]
fn newline_inserts_a_line_feed() {
    let mut c = Core::new("ab");
    c.apply(Cmd::MoveRight);
    c.apply(Cmd::NewLine);
    assert_eq!(c.text.to_string(), "a\nb");
    assert_eq!(c.cursor, 2);
}

#[test]
fn cursor_counts_chars_not_bytes() {
    let mut c = Core::new("中文");
    c.apply(Cmd::MoveRight);
    c.apply(Cmd::Insert('x'));
    assert_eq!(c.text.to_string(), "中x文");
    assert_eq!(c.cursor, 2);
    c.apply(Cmd::MoveRight);
    c.apply(Cmd::MoveRight);
    assert_eq!(c.cursor, 3);
    c.apply(Cmd::DeleteBack);
    assert_eq!(c.text.to_string(), "中x");
}

#[test]
fn motion_stops_at_both_ends() {
    let mut c = Core::new("ab");
    c.apply(Cmd::MoveLeft);
    assert_eq!(c.cursor, 0);
    c.apply(Cmd::MoveRight);
    c.apply(Cmd::MoveRight);
    c.apply(Cmd::MoveRight);
    assert_eq!(c.cursor, 2);
    assert!(!c.dirty);
    assert_eq!(c.text.to_string(), "ab");
}

#[test]
fn move_right_from_past_the_end_clamps() {
    let mut c = Core::new("ab");
    c.cursor = 7;
    c.apply(Cmd::MoveRight);
    assert_eq!(c.cursor, 2);
}

#[test]
fn delete_back_at_start_is_a_noop() {
    let mut c = Core::new("ab");
    assert_eq!(c.apply(Cmd::DeleteBack), None);
    assert_eq!(c.text.to_string(), "ab");
    assert_eq!(c.cursor, 0);
    assert!(!c.dirty);
}

#[test]
fn delete_back_undoes_insert() {
    let mut c = Core::new("abc");
    c.apply(Cmd::MoveRight);
    c.apply(Cmd::Insert('Z'));
    c.apply(Cmd::DeleteBack);
    assert_eq!(c.text.to_string(), "abc");
    assert_eq!(c.cursor, 1);
    assert!(c.dirty);
}

#[test]
fn motion_round_trip() {
    let mut c = Core::new("abc");
    c.apply(Cmd::MoveRight);
    c.apply(Cmd::MoveLeft);
    assert_eq!(c.cursor, 0);
    c.apply(Cmd::MoveRight);
    c.apply(Cmd::MoveRight);
    c.apply(Cmd::MoveLeft);
    c.apply(Cmd::MoveRight);
    assert_eq!(c.cursor, 2);
}

#[test]
fn save_and_quit_ask_for_effects_and_change_nothing() {
    let mut c = Core::new("ab");
    c.apply(Cmd::Insert('q'));
    assert_eq!(c.apply(Cmd::Save), Some(Effect::WriteFile));
    assert_eq!(c.apply(Cmd::Quit), Some(Effect::Quit));
    assert_eq!(c.text.to_string(), "qab");
    assert_eq!(c.cursor, 1);
    assert!(c.dirty);
}

#[test]
fn dirty_stays_set_after_edits() {
    let mut c = Core::new("");
    c.apply(Cmd::Insert('a'));
    c.apply(Cmd::DeleteBack);
    assert_eq!(c.text.to_string(), "");
    assert!(c.dirty);
}

#[test]
fn clone_keeps_the_state() {
    let mut c = Core::new("xyz");
    c.apply(Cmd::MoveRight);
    c.dirty = true;
    let d = c.clone();
    assert_eq!(d.text.to_string(), "xyz");
    assert_eq!(d.cursor, 1);
    assert!(d.dirty);
}

#[test]
fn mark_saved_clears_only_the_flag() {
    let mut c = Core::new("ab");
    c.apply(Cmd::MoveRight);
    c.apply(Cmd::Insert('x'));
    c.mark_saved();
    assert!(!c.dirty);
    assert_eq!(c.text.to_string(), "axb");
    assert_eq!(c.cursor, 2);
}
