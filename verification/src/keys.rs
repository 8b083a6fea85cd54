//! Keys as a terminal reports them.
use vstd::prelude::*;

verus! {

/// A key that changes the meaning of others.
#[derive(Debug, Clone, Copy, PartialEq, Eq, Structural)]
pub enum ModifierKeyCode {
    LeftShift,
    LeftControl,
    LeftAlt,
    RightShift,
    RightControl,
    RightAlt,
    Other,
}

/// A key.
#[derive(Debug, Clone, Copy, PartialEq, Eq, Structural)]
pub enum KeyCode {
    Char(char),
    Modifier(ModifierKeyCode),
    Backspace,
    Enter,
    Left,
    Right,
    Up,
    Down,
    Home,
    End,
    PageUp,
    PageDown,
    Tab,
    Esc,
    Other,
}

/// What happened to a key.
#[derive(Debug, Clone, Copy, PartialEq, Eq, Structural)]
pub enum KeyEventKind {
    Press,
    Repeat,
    Release,
}

/// The modifiers that were held.
#[derive(Debug, Clone, Copy, PartialEq, Eq, Structural)]
pub struct KeyModifiers {
    pub shift: bool,
    pub control: bool,
    pub alt: bool,
    /// Any other modifier.
    pub other: bool,
}

impl KeyModifiers {
    /// No modifier.
    pub fn none() -> (r: Self)
        ensures
            r.is_none(),
            r == (KeyModifiers { shift: false, control: false, alt: false, other: false }),
    {
        KeyModifiers { shift: false, control: false, alt: false, other: false }
    }

    /// Control alone.
    pub fn control() -> (r: Self)
        ensures
            r == (KeyModifiers { shift: false, control: true, alt: false, other: false }),
    {
        KeyModifiers { shift: false, control: true, alt: false, other: false }
    }

    /// Whether no modifier was held.
    pub open spec fn is_none(self) -> bool {
        !self.shift && !self.control && !self.alt && !self.other
    }

    /// Whether no modifier was held.
    pub fn is_empty(&self) -> (r: bool)
        ensures
            r == self.is_none(),
    {
        !self.shift && !self.control && !self.alt && !self.other
    }
}

/// A key event.
#[derive(Debug, Clone, Copy, PartialEq, Eq, Structural)]
pub struct KeyEvent {
    pub code: KeyCode,
    pub modifiers: KeyModifiers,
    pub kind: KeyEventKind,
}

impl KeyEvent {
    /// A key that was pressed.
    pub fn new(code: KeyCode, modifiers: KeyModifiers) -> (r: Self)
        ensures
            r == (KeyEvent { code, modifiers, kind: KeyEventKind::Press }),
    {
        KeyEvent { code, modifiers, kind: KeyEventKind::Press }
    }

    /// A key to which something happened.
    pub fn new_with_kind(code: KeyCode, modifiers: KeyModifiers, kind: KeyEventKind) -> (r: Self)
        ensures
            r == (KeyEvent { code, modifiers, kind }),
    {
        KeyEvent { code, modifiers, kind }
    }
}

/// Whether a key returns from a side conversation: control with `c` or `d`, in either case.
pub open spec fn returns_from_side(key: KeyEvent) -> bool {
    &&& key.kind == KeyEventKind::Press
    &&& key.modifiers.control
    &&& key.code matches KeyCode::Char(c) && (c == 'c' || c == 'C' || c == 'd' || c == 'D')
}

/// Whether a key opens or leaves a side conversation: control with a slash, as terminals report it.
/// Some report control with `7`, and some the bare control character.
pub open spec fn toggles_side(key: KeyEvent) -> bool {
    &&& key.kind == KeyEventKind::Press
    &&& key.code matches KeyCode::Char(c) && (key.modifiers.control && (c == '/' || c == '7') || c
        == '\u{1f}' && key.modifiers.is_none())
}

/// Whether a key returns from a side conversation.
pub fn side_return_shortcut_matches(key_event: KeyEvent) -> (r: bool)
    ensures
        r == returns_from_side(key_event),
{
    match key_event.code {
        KeyCode::Char(c) => key_event.kind == KeyEventKind::Press && key_event.modifiers.control
            && (c == 'c' || c == 'C' || c == 'd' || c == 'D'),
        _ => false,
    }
}

/// Whether a key opens or leaves a side conversation.
pub fn side_toggle_shortcut_matches(key_event: KeyEvent) -> (r: bool)
    ensures
        r == toggles_side(key_event),
{
    match key_event.code {
        KeyCode::Char(c) => key_event.kind == KeyEventKind::Press && (key_event.modifiers.control
            && (c == '/' || c == '7') || c == '\u{1f}' && key_event.modifiers.is_empty()),
        _ => false,
    }
}

/// Only a press counts, of `c` or `d` with control in either case, whatever else is held.
pub proof fn law_control_c_and_d_return(key: KeyEvent)
    ensures
        key.kind != KeyEventKind::Press ==> !returns_from_side(key) && !toggles_side(key),
        !key.modifiers.control ==> !returns_from_side(key),
        !(key.code is Char) ==> !returns_from_side(key) && !toggles_side(key),
        key.kind == KeyEventKind::Press && key.modifiers.control ==> (returns_from_side(key)
            <==> key.code == KeyCode::Char('c') || key.code == KeyCode::Char('C') || key.code
            == KeyCode::Char('d') || key.code == KeyCode::Char('D')),
        key.kind == KeyEventKind::Press && key.modifiers.control ==> (toggles_side(key) <==> key.code
            == KeyCode::Char('/') || key.code == KeyCode::Char('7')),
        key.kind == KeyEventKind::Press && !key.modifiers.control ==> (toggles_side(key)
            <==> key.code == KeyCode::Char('\u{1f}') && !key.modifiers.shift && !key.modifiers.alt
            && !key.modifiers.other),
{
}

} // verus!
