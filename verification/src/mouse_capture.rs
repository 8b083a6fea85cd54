//! When a terminal program captures the mouse.
//!
//! Over the conversation the mouse belongs to the terminal unless control or shift is held. A
//! surface that covers the screen captures it always.
use crate::keys::{KeyCode, KeyEvent, KeyEventKind, ModifierKeyCode};
use vstd::prelude::*;

verus! {

/// The left control key in a mask.
pub const LEFT_CONTROL: u8 = 1;

/// The right control key in a mask.
pub const RIGHT_CONTROL: u8 = 2;

/// The left shift key in a mask.
pub const LEFT_SHIFT: u8 = 4;

/// The right shift key in a mask.
pub const RIGHT_SHIFT: u8 = 8;

/// Both shift keys.
pub const SHIFT_KEYS: u8 = 12;

/// All keys of a mask.
pub const MODIFIER_KEYS: u8 = 15;

/// What has to be done to the terminal.
#[derive(Debug, Clone, Copy, PartialEq, Eq, Structural)]
pub enum MouseCaptureAction {
    Ignore,
    Disable,
    Enable,
}

/// When the mouse is captured.
#[derive(Debug, Clone, Copy, PartialEq, Eq, Structural)]
pub enum MouseCaptureMode {
    Disabled,
    CtrlHeld,
    Always,
}

/// The mode and the keys that are held.
#[derive(Debug, Clone, Copy, PartialEq, Eq, Structural)]
pub struct MouseCaptureState {
    pub mode: MouseCaptureMode,
    pub modifier_keys_pressed: u8,
}

impl Default for MouseCaptureState {
    fn default() -> (r: Self)
        ensures
            r == (MouseCaptureState { mode: MouseCaptureMode::Disabled, modifier_keys_pressed: 0 }),
    {
        MouseCaptureState { mode: MouseCaptureMode::Disabled, modifier_keys_pressed: 0 }
    }
}

/// Whether the mouse has to be captured.
pub open spec fn captures(state: MouseCaptureState) -> bool {
    match state.mode {
        MouseCaptureMode::Disabled => false,
        MouseCaptureMode::CtrlHeld => state.modifier_keys_pressed != 0,
        MouseCaptureMode::Always => true,
    }
}

/// What has to be done when the need to capture changes.
pub open spec fn action_between(was_capturing: bool, should_capture: bool) -> MouseCaptureAction {
    if was_capturing == should_capture {
        MouseCaptureAction::Ignore
    } else if should_capture {
        MouseCaptureAction::Enable
    } else {
        MouseCaptureAction::Disable
    }
}

/// Whether the mouse is captured after an action.
pub open spec fn captured_after(captured: bool, action: MouseCaptureAction) -> bool {
    match action {
        MouseCaptureAction::Ignore => captured,
        MouseCaptureAction::Disable => false,
        MouseCaptureAction::Enable => true,
    }
}

/// The place of a key in a mask, if it has one.
pub open spec fn key_mask(code: KeyCode) -> Option<u8> {
    match code {
        KeyCode::Modifier(ModifierKeyCode::LeftControl) => Some(LEFT_CONTROL),
        KeyCode::Modifier(ModifierKeyCode::RightControl) => Some(RIGHT_CONTROL),
        KeyCode::Modifier(ModifierKeyCode::LeftShift) => Some(LEFT_SHIFT),
        KeyCode::Modifier(ModifierKeyCode::RightShift) => Some(RIGHT_SHIFT),
        _ => None,
    }
}

/// The keys that are held after one of them was pressed or released.
pub open spec fn keys_after(pressed: u8, mask: u8, kind: KeyEventKind) -> u8 {
    match kind {
        KeyEventKind::Press => pressed | mask,
        KeyEventKind::Repeat => pressed,
        KeyEventKind::Release => pressed & !mask,
    }
}

fn capture_action(was_capturing: bool, should_capture: bool) -> (r: MouseCaptureAction)
    ensures
        r == action_between(was_capturing, should_capture),
{
    if was_capturing == should_capture {
        MouseCaptureAction::Ignore
    } else if should_capture {
        MouseCaptureAction::Enable
    } else {
        MouseCaptureAction::Disable
    }
}

fn control_mask(code: KeyCode) -> (r: Option<u8>)
    ensures
        r == key_mask(code),
{
    match code {
        KeyCode::Modifier(ModifierKeyCode::LeftControl) => Some(LEFT_CONTROL),
        KeyCode::Modifier(ModifierKeyCode::RightControl) => Some(RIGHT_CONTROL),
        KeyCode::Modifier(ModifierKeyCode::LeftShift) => Some(LEFT_SHIFT),
        KeyCode::Modifier(ModifierKeyCode::RightShift) => Some(RIGHT_SHIFT),
        _ => None,
    }
}

impl MouseCaptureState {
    /// The mode.
    pub fn mode(&self) -> (r: MouseCaptureMode)
        ensures
            r == self.mode,
    {
        self.mode
    }

    /// Whether the mouse has to be captured.
    pub fn capture_required(&self) -> (r: bool)
        ensures
            r == captures(*self),
    {
        match self.mode {
            MouseCaptureMode::Disabled => false,
            MouseCaptureMode::CtrlHeld => self.modifier_keys_pressed != 0,
            MouseCaptureMode::Always => true,
        }
    }

    /// Changes the mode.
    pub fn set_mode(&mut self, mode: MouseCaptureMode) -> (r: MouseCaptureAction)
        ensures
            *final(self) == (MouseCaptureState { mode, ..*old(self) }),
            r == action_between(captures(*old(self)), captures(*final(self))),
    {
        let was_capturing = self.capture_required();
        self.mode = mode;
        capture_action(was_capturing, self.capture_required())
    }

    /// Takes over the keys that are held, where a console has to be polled for them.
    pub fn sync_control_key_mask(&mut self, modifier_keys_pressed: u8) -> (r: MouseCaptureAction)
        ensures
            *final(self) == (MouseCaptureState {
                modifier_keys_pressed: modifier_keys_pressed & MODIFIER_KEYS,
                ..*old(self)
            }),
            r == action_between(captures(*old(self)), captures(*final(self))),
    {
        let was_capturing = self.capture_required();
        self.modifier_keys_pressed = modifier_keys_pressed & MODIFIER_KEYS;
        capture_action(was_capturing, self.capture_required())
    }

    /// Notes a key, if it is one that matters. A key that is pressed twice or released twice
    /// changes nothing the second time.
    pub fn handle_control_key(&mut self, key_event: &KeyEvent) -> (r: Option<MouseCaptureAction>)
        ensures
            match key_mask(key_event.code) {
                None => r is None && *final(self) == *old(self),
                Some(mask) => *final(self) == (MouseCaptureState {
                    modifier_keys_pressed: keys_after(
                        old(self).modifier_keys_pressed,
                        mask,
                        key_event.kind,
                    ),
                    ..*old(self)
                }) && r == Some(action_between(captures(*old(self)), captures(*final(self)))),
            },
    {
        let mask: u8 = match control_mask(key_event.code) {
            Some(mask) => mask,
            None => {
                return None;
            },
        };
        let pressed: u8 = self.modifier_keys_pressed;
        match key_event.kind {
            KeyEventKind::Press => {
                if pressed & mask != 0 {
                    assert(pressed & mask != 0 && (mask == 1 || mask == 2 || mask == 4 || mask == 8)
                        ==> pressed | mask == pressed) by (bit_vector);
                    return Some(MouseCaptureAction::Ignore);
                }
                let was_capturing = self.capture_required();
                self.modifier_keys_pressed = pressed | mask;
                Some(capture_action(was_capturing, self.capture_required()))
            },
            KeyEventKind::Repeat => Some(MouseCaptureAction::Ignore),
            KeyEventKind::Release => {
                if pressed & mask == 0 {
                    assert(pressed & mask == 0 ==> pressed & !mask == pressed) by (bit_vector);
                    return Some(MouseCaptureAction::Ignore);
                }
                let was_capturing = self.capture_required();
                self.modifier_keys_pressed = pressed & !mask;
                Some(capture_action(was_capturing, self.capture_required()))
            },
        }
    }

    /// Whether a shift key is held.
    pub fn shift_is_pressed(&self) -> (r: bool)
        ensures
            r == (self.modifier_keys_pressed & SHIFT_KEYS != 0),
    {
        self.modifier_keys_pressed & SHIFT_KEYS != 0
    }
}

/// A terminal that follows the actions captures the mouse exactly when it has to.
pub proof fn law_actions_keep_the_terminal_in_step(
    before: MouseCaptureState,
    after: MouseCaptureState,
)
    ensures
        captured_after(captures(before), action_between(captures(before), captures(after)))
            == captures(after),
{
}

/// In the mode of covering surfaces no key gives the mouse back.
pub proof fn law_always_survives_keys(state: MouseCaptureState, pressed: u8)
    requires
        state.mode == MouseCaptureMode::Always,
    ensures
        captures(MouseCaptureState { modifier_keys_pressed: pressed, ..state }),
        action_between(
            captures(state),
            captures(MouseCaptureState { modifier_keys_pressed: pressed, ..state }),
        ) == MouseCaptureAction::Ignore,
{
}

/// Pressing or releasing a key twice is the same as doing it once, and releasing a key undoes
/// pressing it if it was not held before.
pub proof fn law_keys_are_idempotent(pressed: u8, mask: u8)
    ensures
        keys_after(keys_after(pressed, mask, KeyEventKind::Press), mask, KeyEventKind::Press)
            == keys_after(pressed, mask, KeyEventKind::Press),
        keys_after(keys_after(pressed, mask, KeyEventKind::Release), mask, KeyEventKind::Release)
            == keys_after(pressed, mask, KeyEventKind::Release),
        pressed & mask == 0 ==> keys_after(
            keys_after(pressed, mask, KeyEventKind::Press),
            mask,
            KeyEventKind::Release,
        ) == pressed,
{
    assert((pressed | mask) | mask == pressed | mask) by (bit_vector);
    assert((pressed & !mask) & !mask == pressed & !mask) by (bit_vector);
    assert(pressed & mask == 0 ==> (pressed | mask) & !mask == pressed) by (bit_vector);
}

/// The mouse is captured always, never, or just while a key is held, as the mode says.
pub proof fn law_mouse_is_captured_by_mode(state: MouseCaptureState)
    ensures
        state.mode == MouseCaptureMode::Always ==> captures(state),
        state.mode == MouseCaptureMode::Disabled ==> !captures(state),
        state.mode == MouseCaptureMode::CtrlHeld ==> (captures(state) <==> exists|bit: u8|
            #[trigger] (state.modifier_keys_pressed & bit) != 0),
{
    let keys = state.modifier_keys_pressed;
    assert(keys & keys == keys) by (bit_vector);
    assert forall|bit: u8| keys == 0 implies #[trigger] (keys & bit) == 0 by {
        assert(keys == 0 ==> keys & bit == 0) by (bit_vector);
    }
}

/// The terminal is asked to capture or to release only where that changes, and for the right one.
pub proof fn law_action_says_what_changes(was_capturing: bool, should_capture: bool)
    ensures
        action_between(was_capturing, should_capture) == MouseCaptureAction::Ignore <==> was_capturing
            == should_capture,
        !was_capturing && should_capture ==> action_between(was_capturing, should_capture)
            == MouseCaptureAction::Enable,
        was_capturing && !should_capture ==> action_between(was_capturing, should_capture)
            == MouseCaptureAction::Disable,
{
}

/// The two control keys and the two shift keys have a bit of their own each, and no other key has one.
pub proof fn law_each_key_has_its_bit(code: KeyCode)
    ensures
        key_mask(KeyCode::Modifier(ModifierKeyCode::LeftControl)) == Some(1u8),
        key_mask(KeyCode::Modifier(ModifierKeyCode::RightControl)) == Some(2u8),
        key_mask(KeyCode::Modifier(ModifierKeyCode::LeftShift)) == Some(4u8),
        key_mask(KeyCode::Modifier(ModifierKeyCode::RightShift)) == Some(8u8),
        key_mask(code) is Some <==> code == KeyCode::Modifier(ModifierKeyCode::LeftControl) || code
            == KeyCode::Modifier(ModifierKeyCode::RightControl) || code == KeyCode::Modifier(
            ModifierKeyCode::LeftShift,
        ) || code == KeyCode::Modifier(ModifierKeyCode::RightShift),
{
}

/// A key that is pressed is held, one that is released is not, and a repeat changes nothing. The other keys
/// stay as they were.
pub proof fn law_key_is_held_while_it_is_pressed(pressed: u8, mask: u8, other: u8)
    requires
        mask & other == 0,
    ensures
        keys_after(pressed, mask, KeyEventKind::Press) & mask == mask,
        keys_after(pressed, mask, KeyEventKind::Release) & mask == 0,
        keys_after(pressed, mask, KeyEventKind::Repeat) == pressed,
        keys_after(pressed, mask, KeyEventKind::Press) & other == pressed & other,
        keys_after(pressed, mask, KeyEventKind::Release) & other == pressed & other,
{
    assert((pressed | mask) & mask == mask) by (bit_vector);
    assert((pressed & !mask) & mask == 0) by (bit_vector);
    assert(mask & other == 0 ==> (pressed | mask) & other == pressed & other) by (bit_vector);
    assert(mask & other == 0 ==> (pressed & !mask) & other == pressed & other) by (bit_vector);
}

/// A shift key is held exactly if the left or the right one is.
pub proof fn law_shift_is_either_shift_key(pressed: u8)
    ensures
        pressed & SHIFT_KEYS != 0 <==> pressed & 4 != 0 || pressed & 8 != 0,
        pressed & MODIFIER_KEYS == pressed <==> pressed < 16,
{
    assert(pressed & 12 != 0 <==> pressed & 4 != 0 || pressed & 8 != 0) by (bit_vector);
    assert(pressed & 15 == pressed <==> pressed < 16) by (bit_vector);
}

} // verus!
