use vstd::prelude::*;

verus! {

/// The keys that steer the camera; every other key is `Other`.
#[derive(Clone, Copy, Debug, PartialEq, Eq, Structural)]
pub enum Key {
    KeyW,
    KeyS,
    KeyA,
    KeyD,
    KeyE,
    KeyQ,
    ArrowUp,
    ArrowDown,
    ArrowLeft,
    ArrowRight,
    Other,
}

/// One of the six directions of camera movement.
#[derive(Clone, Copy, Debug, PartialEq, Eq, Structural)]
pub enum MotionAxis {
    Forward,
    Backward,
    Left,
    Right,
    Up,
    Down,
}

/// The axis that a key drives: W and the up arrow forward, S and the down
/// arrow backward, A and the left arrow left, D and the right arrow right,
/// E up and Q down.
pub open spec fn axis_of(key: Key) -> Option<MotionAxis> {
    match key {
        Key::KeyW | Key::ArrowUp => Some(MotionAxis::Forward),
        Key::KeyS | Key::ArrowDown => Some(MotionAxis::Backward),
        Key::KeyA | Key::ArrowLeft => Some(MotionAxis::Left),
        Key::KeyD | Key::ArrowRight => Some(MotionAxis::Right),
        Key::KeyE => Some(MotionAxis::Up),
        Key::KeyQ => Some(MotionAxis::Down),
        Key::Other => None,
    }
}

/// Which movement keys are held: six binary axis flags.
#[derive(Clone, Copy, Debug, PartialEq, Eq, Structural)]
pub struct MotionIntent {
    pub forward: bool,
    pub backward: bool,
    pub left: bool,
    pub right: bool,
    pub up: bool,
    pub down: bool,
}

pub open spec fn flag(b: bool) -> int {
    if b {
        1
    } else {
        0
    }
}

impl MotionIntent {
    /// The intent with the flag of `axis` set to `held`, the others kept.
    pub open spec fn with_axis(self, axis: MotionAxis, held: bool) -> MotionIntent {
        match axis {
            MotionAxis::Forward => MotionIntent { forward: held, ..self },
            MotionAxis::Backward => MotionIntent { backward: held, ..self },
            MotionAxis::Left => MotionIntent { left: held, ..self },
            MotionAxis::Right => MotionIntent { right: held, ..self },
            MotionAxis::Up => MotionIntent { up: held, ..self },
            MotionAxis::Down => MotionIntent { down: held, ..self },
        }
    }

    /// No key held.
    pub fn new() -> (r: MotionIntent)
        ensures
            !r.forward && !r.backward && !r.left && !r.right && !r.up && !r.down,
    {
        MotionIntent {
            forward: false,
            backward: false,
            left: false,
            right: false,
            up: false,
            down: false,
        }
    }

    /// Records that `key` was pressed (`pressed`) or released. Returns
    /// whether the key steers the camera; other keys leave the intent as it
    /// was.
    pub fn process_keyboard(&mut self, key: Key, pressed: bool) -> (handled: bool)
        ensures
            handled == axis_of(key).is_some(),
            match axis_of(key) {
                Some(axis) => *final(self) == old(self).with_axis(axis, pressed),
                None => *final(self) == *old(self),
            },
    {
        match key {
            Key::KeyW | Key::ArrowUp => {
                self.forward = pressed;
                true
            },
            Key::KeyS | Key::ArrowDown => {
                self.backward = pressed;
                true
            },
            Key::KeyA | Key::ArrowLeft => {
                self.left = pressed;
                true
            },
            Key::KeyD | Key::ArrowRight => {
                self.right = pressed;
                true
            },
            Key::KeyE => {
                self.up = pressed;
                true
            },
            Key::KeyQ => {
                self.down = pressed;
                true
            },
            Key::Other => false,
        }
    }

    /// Movement along the horizontal forward direction: 1 forward, -1
    /// backward, 0 when both or neither are held.
    pub fn forward_amount(&self) -> (r: i32)
        ensures
            r == flag(self.forward) - flag(self.backward),
    {
        (self.forward as i32) - (self.backward as i32)
    }

    /// Movement along the right direction: 1 right, -1 left, 0 otherwise.
    pub fn right_amount(&self) -> (r: i32)
        ensures
            r == flag(self.right) - flag(self.left),
    {
        (self.right as i32) - (self.left as i32)
    }

    /// Movement along world up: 1 up, -1 down, 0 otherwise.
    pub fn up_amount(&self) -> (r: i32)
        ensures
            r == flag(self.up) - flag(self.down),
    {
        (self.up as i32) - (self.down as i32)
    }
}

} // verus!
