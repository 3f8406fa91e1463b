use vstd::prelude::*;

verus! {

/// The keys that steer the camera, and every other key.
#[derive(Clone, Copy, Debug, PartialEq, Eq, Structural)]
pub enum Key {
    W,
    S,
    A,
    D,
    Space,
    LControl,
    Escape,
    Other,
}

/// Which steering keys are held down.
#[derive(Clone, Copy, Debug, PartialEq, Eq, Structural)]
pub struct InputState {
    pub forward: bool,
    pub backward: bool,
    pub left: bool,
    pub right: bool,
    pub up: bool,
    pub down: bool,
    pub escape: bool,
}

/// The state after `key` was pressed (`pressed`) or released: W forward, S
/// backward, A left, D right, space up, left control down, escape quits; other
/// keys change nothing.
pub open spec fn after_key(s: InputState, key: Key, pressed: bool) -> InputState {
    match key {
        Key::W => InputState { forward: pressed, ..s },
        Key::S => InputState { backward: pressed, ..s },
        Key::A => InputState { left: pressed, ..s },
        Key::D => InputState { right: pressed, ..s },
        Key::Space => InputState { up: pressed, ..s },
        Key::LControl => InputState { down: pressed, ..s },
        Key::Escape => InputState { escape: pressed, ..s },
        Key::Other => s,
    }
}

pub open spec fn axis(positive: bool, negative: bool) -> int {
    (if positive { 1int } else { 0int }) - (if negative { 1int } else { 0int })
}

impl InputState {
    /// No key held.
    pub fn new() -> (r: InputState)
        ensures
            !r.forward && !r.backward && !r.left && !r.right && !r.up && !r.down && !r.escape,
    {
        InputState {
            forward: false,
            backward: false,
            left: false,
            right: false,
            up: false,
            down: false,
            escape: false,
        }
    }

    /// Records a key press or release.
    pub fn handle_key(&mut self, key: Key, pressed: bool)
        ensures
            *final(self) == after_key(*old(self), key, pressed),
    {
        match key {
            Key::W => self.forward = pressed,
            Key::S => self.backward = pressed,
            Key::A => self.left = pressed,
            Key::D => self.right = pressed,
            Key::Space => self.up = pressed,
            Key::LControl => self.down = pressed,
            Key::Escape => self.escape = pressed,
            Key::Other => {},
        }
    }

    /// The direction of travel on each axis, each -1, 0 or 1: forward minus
    /// backward, left minus right, up minus down.
    pub fn movement(&self) -> (r: (i8, i8, i8))
        ensures
            r.0 == axis(self.forward, self.backward),
            r.1 == axis(self.left, self.right),
            r.2 == axis(self.up, self.down),
    {
        (
            (self.forward as i8) - (self.backward as i8),
            (self.left as i8) - (self.right as i8),
            (self.up as i8) - (self.down as i8),
        )
    }
}

} // verus!
