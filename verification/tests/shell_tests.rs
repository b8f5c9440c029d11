use probe::{
    Action, Core, osc52_frame, osc52_sequence, status_line, to_key, Decoded, Key, TermCode, TermKey, TermKind,
    CONTROL,
};

fn press(code: TermCode, modifiers: u8) -> TermKey {
    TermKey { code, modifiers, kind: TermKind::Press }
}

#[test]
fn control_keys_decode_to_commands() {
    assert_eq!(to_key(press(TermCode::Char('s'), CONTROL)), Decoded::Key(Key::CtrlS));
    assert_eq!(to_key(press(TermCode::Char('q'), CONTROL)), Decoded::Key(Key::CtrlQ));
    assert_eq!(to_key(press(TermCode::Char('y'), CONTROL)), Decoded::CopyToClipboard);
}

#[test]
fn chars_are_typed_whatever_the_modifiers() {
    assert_eq!(to_key(press(TermCode::Char('s'), 0)), Decoded::Key(Key::Char('s')));
    // Control together with Shift is not the Ctrl-S binding.
    assert_eq!(to_key(press(TermCode::Char('s'), CONTROL | 1)), Decoded::Key(Key::Char('s')));
    assert_eq!(to_key(press(TermCode::Char('x'), CONTROL)), Decoded::Key(Key::Char('x')));
    assert_eq!(to_key(press(TermCode::Char('中'), 4)), Decoded::Key(Key::Char('中')));
}

#[test]
fn special_keys_and_others() {
    assert_eq!(to_key(press(TermCode::Left, CONTROL)), Decoded::Key(Key::Left));
    assert_eq!(to_key(press(TermCode::Right, 0)), Decoded::Key(Key::Right));
    assert_eq!(to_key(press(TermCode::Backspace, 0)), Decoded::Key(Key::Backspace));
    assert_eq!(to_key(press(TermCode::Enter, 0)), Decoded::Key(Key::Enter));
    assert_eq!(to_key(press(TermCode::Other, 0)), Decoded::Ignore);
}

#[test]
fn only_presses_count() {
    let release = TermKey { code: TermCode::Char('a'), modifiers: 0, kind: TermKind::Release };
    let repeat = TermKey { code: TermCode::Char('s'), modifiers: CONTROL, kind: TermKind::Repeat };
    assert_eq!(to_key(release), Decoded::Ignore);
    assert_eq!(to_key(repeat), Decoded::Ignore);
}

#[test]
fn status_line_shows_marker_and_cursor() {
    assert_eq!(status_line(true, 12), " [+] | cur 12 ");
    assert_eq!(status_line(false, 0), "     | cur 0 ");
    assert_eq!(status_line(false, 1070), "     | cur 1070 ");
    assert_eq!(
        status_line(true, usize::MAX),
        format!(" [+] | cur {} ", usize::MAX)
    );
}

#[test]
fn osc52_sequence_encodes_the_payload() {
    assert_eq!(
        osc52_sequence("jio-clip-payload"),
        "\x1b]52;c;amlvLWNsaXAtcGF5bG9hZA==\x07"
    );
    assert_eq!(osc52_sequence(""), "\x1b]52;c;\x07");
    assert_eq!(osc52_sequence("中"), "\x1b]52;c;5Lit\x07");
}

#[test]
fn osc52_frame_wraps() {
    assert_eq!(osc52_frame("QQ=="), "\x1b]52;c;QQ==\x07");
}

#[test]
fn handle_event_runs_the_whole_turn() {
    let mut c = Core::new("ab");
    assert_eq!(c.handle_event(press(TermCode::Right, 0)), Action::Continue);
    assert_eq!(c.handle_event(press(TermCode::Char('x'), 0)), Action::Continue);
    assert_eq!(c.text.to_string(), "axb");
    assert_eq!(c.handle_event(press(TermCode::Char('s'), CONTROL)), Action::WriteFile);
    assert_eq!(c.handle_event(press(TermCode::Char('y'), CONTROL)), Action::CopyToClipboard);
    assert_eq!(c.handle_event(press(TermCode::Other, 0)), Action::Continue);
    let release = TermKey { code: TermCode::Char('z'), modifiers: 0, kind: TermKind::Release };
    assert_eq!(c.handle_event(release), Action::Continue);
    assert_eq!(c.text.to_string(), "axb");
    assert_eq!(c.cursor, 2);
    assert!(c.dirty);
    assert_eq!(c.handle_event(press(TermCode::Char('q'), CONTROL)), Action::Quit);
}

#[test]
fn osc52_sequence_covers_the_alphabet_and_padding() {
    assert_eq!(osc52_sequence("M"), "\x1b]52;c;TQ==\x07");
    assert_eq!(osc52_sequence("Ma"), "\x1b]52;c;TWE=\x07");
    assert_eq!(osc52_sequence("Man"), "\x1b]52;c;TWFu\x07");
    assert_eq!(osc52_sequence("\u{ffff}"), "\x1b]52;c;77+/\x07");
    assert_eq!(osc52_sequence("ûÿ"), "\x1b]52;c;w7vDvw==\x07");
    assert_eq!(osc52_sequence("09az"), "\x1b]52;c;MDlheg==\x07");
}
