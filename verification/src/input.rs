use vstd::prelude::*;

verus! {

/// A key the simulation reacts to. Any key outside the four movement keys is
/// handed in as `Other` and ignored.
#[derive(Clone, Copy, PartialEq, Eq, Structural, Debug)]
pub enum Key {
    W,
    S,
    A,
    D,
    Other,
}

/// Persistent input state: one boolean per movement key, plus the most recent
/// mouse-motion sample in milli-pixels (each new sample overwrites the last;
/// samples are never summed).
#[derive(Clone, Copy, PartialEq, Eq, Structural, Debug)]
pub struct InputState {
    pub move_forward: bool,
    pub move_backward: bool,
    pub move_left: bool,
    pub move_right: bool,
    pub mouse_dx: i64,
    pub mouse_dy: i64,
}

impl InputState {
    /// The state before any event: no key held, no mouse motion seen.
    pub open spec fn initial() -> InputState {
        InputState {
            move_forward: false,
            move_backward: false,
            move_left: false,
            move_right: false,
            mouse_dx: 0,
            mouse_dy: 0,
        }
    }
}

impl Default for InputState {
    fn default() -> (s: InputState)
        ensures
            s == InputState::initial(),
    {
        InputState {
            move_forward: false,
            move_backward: false,
            move_left: false,
            move_right: false,
            mouse_dx: 0,
            mouse_dy: 0,
        }
    }
}

/// The input state after a key event: the matching directional boolean is set
/// to `pressed`; an unrecognized key changes nothing.
pub open spec fn with_key(s: InputState, key: Key, pressed: bool) -> InputState {
    match key {
        Key::W => InputState { move_forward: pressed, ..s },
        Key::S => InputState { move_backward: pressed, ..s },
        Key::A => InputState { move_left: pressed, ..s },
        Key::D => InputState { move_right: pressed, ..s },
        Key::Other => s,
    }
}

/// The input state after a mouse-motion sample: the stored delta is
/// overwritten with the new one (last writer wins).
pub open spec fn with_mouse_delta(s: InputState, dx: i64, dy: i64) -> InputState {
    InputState { mouse_dx: dx, mouse_dy: dy, ..s }
}

} // verus!
