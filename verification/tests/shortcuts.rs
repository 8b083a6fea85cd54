use codex_supervisor::keys::{
    side_return_shortcut_matches, side_toggle_shortcut_matches, KeyCode, KeyEvent, KeyEventKind,
    KeyModifiers,
};

#[test]
fn side_return_shortcuts_match_ctrl_c_and_ctrl_d() {
    for c in ['c', 'C', 'd', 'D'] {
        assert!(side_return_shortcut_matches(KeyEvent::new(
            KeyCode::Char(c),
            KeyModifiers::control(),
        )));
    }
    assert!(!side_return_shortcut_matches(KeyEvent::new_with_kind(
        KeyCode::Esc,
        KeyModifiers::none(),
        KeyEventKind::Press,
    )));
    assert!(!side_return_shortcut_matches(KeyEvent::new_with_kind(
        KeyCode::Esc,
        KeyModifiers::none(),
        KeyEventKind::Release,
    )));
}

#[test]
fn side_toggle_shortcut_matches_terminal_encodings_of_ctrl_slash() {
    assert!(side_toggle_shortcut_matches(KeyEvent::new(
        KeyCode::Char('/'),
        KeyModifiers::control(),
    )));
    assert!(side_toggle_shortcut_matches(KeyEvent::new(
        KeyCode::Char('7'),
        KeyModifiers::control(),
    )));
    assert!(side_toggle_shortcut_matches(KeyEvent::new(
        KeyCode::Char('\u{001f}'),
        KeyModifiers::none(),
    )));
    assert!(!side_toggle_shortcut_matches(KeyEvent::new(
        KeyCode::Char('/'),
        KeyModifiers::none(),
    )));
    assert!(!side_toggle_shortcut_matches(KeyEvent::new_with_kind(
        KeyCode::Char('/'),
        KeyModifiers::control(),
        KeyEventKind::Release,
    )));
}

#[test]
fn shifted_control_characters_do_not_toggle_the_side_conversation() {
    let shift = KeyModifiers {
        shift: true,
        control: false,
        alt: false,
        other: false,
    };
    assert!(!shift.is_empty());
    assert!(!side_toggle_shortcut_matches(KeyEvent::new(
        KeyCode::Char('\u{001f}'),
        shift,
    )));
}
