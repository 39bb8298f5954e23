//! The per-frame input snapshot: the pressed-key set, the pressed mouse
//! buttons, the pointer position, and the previous frame's copies of each,
//! from which edge-triggered queries ("just pressed") are answered.
//!
//! Keys are carried as plain integer codes; the named constants below cover
//! the keys the engine itself reacts to, and the event loop maps every
//! other key to its own distinct code.

use std::collections::HashSet;
use vstd::prelude::*;

verus! {

broadcast use vstd::std_specs::hash::group_hash_axioms;

pub const KEY_W: u32 = 1;

pub const KEY_A: u32 = 2;

pub const KEY_S: u32 = 3;

pub const KEY_D: u32 = 4;

pub const KEY_E: u32 = 5;

pub const KEY_Q: u32 = 6;

pub const KEY_SHIFT_LEFT: u32 = 7;

pub const KEY_SHIFT_RIGHT: u32 = 8;

pub const KEY_CONTROL_LEFT: u32 = 9;

pub const KEY_CONTROL_RIGHT: u32 = 10;

pub const KEY_ALT_LEFT: u32 = 11;

pub const KEY_ALT_RIGHT: u32 = 12;

pub const KEY_ESCAPE: u32 = 13;

/// A mouse button; buttons beyond the five named ones carry their own id.
#[derive(Clone, Copy, PartialEq, Eq, Structural, Debug)]
pub enum MouseButton {
    Left,
    Right,
    Middle,
    Back,
    Forward,
    Other(u16),
}

/// Which mouse buttons are held down.
#[derive(Default)]
pub struct PressedMouseButtons {
    pub left_is_down: bool,
    pub right_is_down: bool,
    pub middle_is_down: bool,
    pub back_is_down: bool,
    pub forward_is_down: bool,
    pub others_down: HashSet<u16>,
}

/// Whether `button` is down in `b`.
pub open spec fn button_down(b: PressedMouseButtons, button: MouseButton) -> bool {
    match button {
        MouseButton::Left => b.left_is_down,
        MouseButton::Right => b.right_is_down,
        MouseButton::Middle => b.middle_is_down,
        MouseButton::Back => b.back_is_down,
        MouseButton::Forward => b.forward_is_down,
        MouseButton::Other(id) => b.others_down@.contains(id),
    }
}

/// The engine's read-only input snapshot for one frame. The previous
/// frame's copies are refreshed by the frame loop after each frame.
pub struct EngineInput {
    pub window_is_focused: bool,
    pub pressed_keys: HashSet<u32>,
    pub prev_pressed_keys: HashSet<u32>,
    pub mouse_pos_x: i64,
    pub mouse_pos_y: i64,
    pub prev_mouse_pos_x: i64,
    pub prev_mouse_pos_y: i64,
    pub pressed_mouse_buttons: PressedMouseButtons,
    pub prev_pressed_mouse_buttons: PressedMouseButtons,
}

/// Whether `key` is down in this frame's snapshot.
pub open spec fn key_down(input: EngineInput, key: u32) -> bool {
    input.pressed_keys@.contains(key)
}

/// Whether `key` went down between the previous frame and this one.
pub open spec fn key_just_pressed_now(input: EngineInput, key: u32) -> bool {
    input.pressed_keys@.contains(key) && !input.prev_pressed_keys@.contains(key)
}

/// Whether either control key is down.
pub open spec fn control_down(input: EngineInput) -> bool {
    key_down(input, KEY_CONTROL_LEFT) || key_down(input, KEY_CONTROL_RIGHT)
}

impl EngineInput {
    /// A snapshot with nothing pressed and the pointer at the origin.
    pub fn new() -> (r: EngineInput)
        ensures
            r.pressed_keys@ == Set::<u32>::empty(),
            r.prev_pressed_keys@ == Set::<u32>::empty(),
            r.pressed_mouse_buttons.others_down@ == Set::<u16>::empty(),
            r.prev_pressed_mouse_buttons.others_down@ == Set::<u16>::empty(),
            !r.window_is_focused,
            r.mouse_pos_x == 0 && r.mouse_pos_y == 0,
            r.prev_mouse_pos_x == 0 && r.prev_mouse_pos_y == 0,
            forall|b: MouseButton| !button_down(r.pressed_mouse_buttons, b),
            forall|b: MouseButton| !button_down(r.prev_pressed_mouse_buttons, b),
    {
        EngineInput {
            window_is_focused: false,
            pressed_keys: HashSet::new(),
            prev_pressed_keys: HashSet::new(),
            mouse_pos_x: 0,
            mouse_pos_y: 0,
            prev_mouse_pos_x: 0,
            prev_mouse_pos_y: 0,
            pressed_mouse_buttons: PressedMouseButtons {
                left_is_down: false,
                right_is_down: false,
                middle_is_down: false,
                back_is_down: false,
                forward_is_down: false,
                others_down: HashSet::new(),
            },
            prev_pressed_mouse_buttons: PressedMouseButtons {
                left_is_down: false,
                right_is_down: false,
                middle_is_down: false,
                back_is_down: false,
                forward_is_down: false,
                others_down: HashSet::new(),
            },
        }
    }

    /// Whether `key` is down.
    pub fn key_is_down(&self, key: u32) -> (r: bool)
        ensures
            r == key_down(*self, key),
    {
        self.pressed_keys.contains(&key)
    }

    /// Whether `key` went down this frame.
    pub fn key_just_pressed(&self, key: u32) -> (r: bool)
        ensures
            r == key_just_pressed_now(*self, key),
    {
        self.pressed_keys.contains(&key) && !self.prev_pressed_keys.contains(&key)
    }

    /// Whether `button` went down this frame.
    pub fn button_just_pressed(&self, button: MouseButton) -> (r: bool)
        ensures
            r == (button_down(self.pressed_mouse_buttons, button) && !button_down(
                self.prev_pressed_mouse_buttons,
                button,
            )),
    {
        match button {
            MouseButton::Left => self.pressed_mouse_buttons.left_is_down
                && !self.prev_pressed_mouse_buttons.left_is_down,
            MouseButton::Right => self.pressed_mouse_buttons.right_is_down
                && !self.prev_pressed_mouse_buttons.right_is_down,
            MouseButton::Middle => self.pressed_mouse_buttons.middle_is_down
                && !self.prev_pressed_mouse_buttons.middle_is_down,
            MouseButton::Back => self.pressed_mouse_buttons.back_is_down
                && !self.prev_pressed_mouse_buttons.back_is_down,
            MouseButton::Forward => self.pressed_mouse_buttons.forward_is_down
                && !self.prev_pressed_mouse_buttons.forward_is_down,
            MouseButton::Other(id) => self.pressed_mouse_buttons.others_down.contains(&id)
                && !self.prev_pressed_mouse_buttons.others_down.contains(&id),
        }
    }

    /// Records one key transition from the event loop.
    pub fn apply_key_event(&mut self, key: u32, pressed: bool)
        ensures
            pressed ==> final(self).pressed_keys@ == old(self).pressed_keys@.insert(key),
            !pressed ==> final(self).pressed_keys@ == old(self).pressed_keys@.remove(key),
            final(self).prev_pressed_keys@ == old(self).prev_pressed_keys@,
            final(self).pressed_mouse_buttons == old(self).pressed_mouse_buttons,
            final(self).prev_pressed_mouse_buttons == old(self).prev_pressed_mouse_buttons,
            final(self).mouse_pos_x == old(self).mouse_pos_x,
            final(self).mouse_pos_y == old(self).mouse_pos_y,
            final(self).prev_mouse_pos_x == old(self).prev_mouse_pos_x,
            final(self).prev_mouse_pos_y == old(self).prev_mouse_pos_y,
            final(self).window_is_focused == old(self).window_is_focused,
    {
        if pressed {
            self.pressed_keys.insert(key);
        } else {
            self.pressed_keys.remove(&key);
        }
    }

    /// Records one mouse-button transition from the event loop.
    pub fn apply_mouse_button_event(&mut self, button: MouseButton, pressed: bool)
        ensures
            button_down(final(self).pressed_mouse_buttons, button) == pressed,
            forall|other: MouseButton|
                other != button ==> button_down(final(self).pressed_mouse_buttons, other)
                    == button_down(old(self).pressed_mouse_buttons, other),
            final(self).prev_pressed_keys@ == old(self).prev_pressed_keys@,
            final(self).pressed_keys@ == old(self).pressed_keys@,
            final(self).prev_pressed_mouse_buttons == old(self).prev_pressed_mouse_buttons,
            final(self).mouse_pos_x == old(self).mouse_pos_x,
            final(self).mouse_pos_y == old(self).mouse_pos_y,
            final(self).prev_mouse_pos_x == old(self).prev_mouse_pos_x,
            final(self).prev_mouse_pos_y == old(self).prev_mouse_pos_y,
            final(self).window_is_focused == old(self).window_is_focused,
    {
        match button {
            MouseButton::Left => self.pressed_mouse_buttons.left_is_down = pressed,
            MouseButton::Right => self.pressed_mouse_buttons.right_is_down = pressed,
            MouseButton::Middle => self.pressed_mouse_buttons.middle_is_down = pressed,
            MouseButton::Back => self.pressed_mouse_buttons.back_is_down = pressed,
            MouseButton::Forward => self.pressed_mouse_buttons.forward_is_down = pressed,
            MouseButton::Other(id) => {
                if pressed {
                    self.pressed_mouse_buttons.others_down.insert(id);
                } else {
                    self.pressed_mouse_buttons.others_down.remove(&id);
                }
            },
        }
    }

    /// Records a pointer move from the event loop.
    pub fn apply_mouse_move(&mut self, x: i64, y: i64)
        ensures
            final(self).mouse_pos_x == x,
            final(self).mouse_pos_y == y,
            final(self).prev_mouse_pos_x == old(self).prev_mouse_pos_x,
            final(self).prev_mouse_pos_y == old(self).prev_mouse_pos_y,
            final(self).pressed_keys@ == old(self).pressed_keys@,
            final(self).prev_pressed_keys@ == old(self).prev_pressed_keys@,
            final(self).pressed_mouse_buttons == old(self).pressed_mouse_buttons,
            final(self).prev_pressed_mouse_buttons == old(self).prev_pressed_mouse_buttons,
            final(self).window_is_focused == old(self).window_is_focused,
    {
        self.mouse_pos_x = x;
        self.mouse_pos_y = y;
    }

    /// The pointer's movement since the previous frame.
    pub fn mouse_velocity(&self) -> (r: (i64, i64))
        requires
            i64::MIN <= self.mouse_pos_x - self.prev_mouse_pos_x <= i64::MAX,
            i64::MIN <= self.mouse_pos_y - self.prev_mouse_pos_y <= i64::MAX,
        ensures
            r.0 == self.mouse_pos_x - self.prev_mouse_pos_x,
            r.1 == self.mouse_pos_y - self.prev_mouse_pos_y,
    {
        (self.mouse_pos_x - self.prev_mouse_pos_x, self.mouse_pos_y - self.prev_mouse_pos_y)
    }

    /// The movement keys of this frame's snapshot, as the camera update
    /// consumes them.
    pub fn movement_keys(&self) -> (r: crate::camera::MovementKeys)
        ensures
            r.move_forward == key_down(*self, KEY_W),
            r.move_back == key_down(*self, KEY_S),
            r.move_right == key_down(*self, KEY_D),
            r.move_left == key_down(*self, KEY_A),
            r.move_up == key_down(*self, KEY_E),
            r.move_down == key_down(*self, KEY_Q),
            r.boost == key_down(*self, KEY_SHIFT_LEFT),
    {
        crate::camera::MovementKeys {
            move_forward: self.key_is_down(KEY_W),
            move_back: self.key_is_down(KEY_S),
            move_right: self.key_is_down(KEY_D),
            move_left: self.key_is_down(KEY_A),
            move_up: self.key_is_down(KEY_E),
            move_down: self.key_is_down(KEY_Q),
            boost: self.key_is_down(KEY_SHIFT_LEFT),
        }
    }
}

/// What the pre-frame input processing decided: whether to exit (the
/// control-W chord) and whether to release the pointer grab (escape).
#[derive(Clone, Copy, PartialEq, Eq, Structural, Debug)]
pub struct PreFrameDecision {
    pub should_exit: bool,
    pub release_cursor: bool,
}

/// The pre-frame input decisions: control-W exits; otherwise a fresh
/// escape press releases the camera grab and shows the cursor again.
pub fn process_pre_frame_inputs(input: &EngineInput) -> (r: PreFrameDecision)
    ensures
        r.should_exit == (control_down(*input) && key_just_pressed_now(*input, KEY_W)),
        r.release_cursor == (!r.should_exit && key_just_pressed_now(*input, KEY_ESCAPE)),
{
    let ctrl = input.key_is_down(KEY_CONTROL_LEFT) || input.key_is_down(KEY_CONTROL_RIGHT);
    if ctrl && input.key_just_pressed(KEY_W) {
        return PreFrameDecision { should_exit: true, release_cursor: false };
    }
    PreFrameDecision { should_exit: false, release_cursor: input.key_just_pressed(KEY_ESCAPE) }
}

/// The post-frame input decision: a fresh left click grabs the camera,
/// hides the cursor and warps it to the window center.
pub fn process_post_frame_inputs(input: &EngineInput) -> (r: bool)
    ensures
        r == (button_down(input.pressed_mouse_buttons, MouseButton::Left) && !button_down(
            input.prev_pressed_mouse_buttons,
            MouseButton::Left,
        )),
{
    input.button_just_pressed(MouseButton::Left)
}

/// The point the cursor is warped to when the camera grabs it: the center
/// of the window.
pub fn window_center(width: u32, height: u32) -> (r: (u32, u32))
    ensures
        r.0 == width / 2,
        r.1 == height / 2,
{
    (width / 2, height / 2)
}

} // verus!
