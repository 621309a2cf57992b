//! The input router: turns raw keyboard and pointer events into camera
//! intents. It keeps the set of currently pressed movement keys so that one
//! physical key press issues exactly one displacement intent, and it decides
//! whether a drag orbits or pans. The resulting intents are applied to the
//! camera through the same exclusive session boundary as every other
//! mutation.

use vstd::prelude::*;

use crate::scalars::Scalar;

verus! {

/// A camera movement key.
#[derive(Clone, Copy, Debug, PartialEq, Eq, Structural)]
pub enum MovementKey {
    Forward,
    Left,
    Backward,
    Right,
}

/// The movement key a keyboard code names, if any.
pub open spec fn spec_movement_key(code: Seq<char>) -> Option<MovementKey> {
    if code == "w"@ {
        Option::Some(MovementKey::Forward)
    } else if code == "a"@ {
        Option::Some(MovementKey::Left)
    } else if code == "s"@ {
        Option::Some(MovementKey::Backward)
    } else if code == "d"@ {
        Option::Some(MovementKey::Right)
    } else {
        Option::None
    }
}

/// Sorts a keyboard code into a movement key, or nothing for any other key.
pub fn movement_key(code: &str) -> (r: Option<MovementKey>)
    ensures
        r == spec_movement_key(code@),
{
    proof {
        reveal_strlit("w");
        reveal_strlit("a");
        reveal_strlit("s");
        reveal_strlit("d");
        assert("w"@[0] == 'w' && "a"@[0] == 'a' && "s"@[0] == 's' && "d"@[0] == 'd');
    }
    let key: String = code.to_owned();
    if key == "w".to_owned() {
        Option::Some(MovementKey::Forward)
    } else if key == "a".to_owned() {
        Option::Some(MovementKey::Left)
    } else if key == "s".to_owned() {
        Option::Some(MovementKey::Backward)
    } else if key == "d".to_owned() {
        Option::Some(MovementKey::Right)
    } else {
        Option::None
    }
}

/// The set of movement keys currently held down.
#[derive(Clone, Copy, Debug, PartialEq, Eq, Structural)]
pub struct InputRouter {
    pub forward: bool,
    pub left: bool,
    pub backward: bool,
    pub right: bool,
}

/// The router state with one key's pressed flag set to a value.
pub open spec fn with_key(r: InputRouter, k: MovementKey, down: bool) -> InputRouter {
    match k {
        MovementKey::Forward => InputRouter { forward: down, ..r },
        MovementKey::Left => InputRouter { left: down, ..r },
        MovementKey::Backward => InputRouter { backward: down, ..r },
        MovementKey::Right => InputRouter { right: down, ..r },
    }
}

impl InputRouter {
    /// Whether a movement key is currently held down.
    pub open spec fn spec_pressed(&self, k: MovementKey) -> bool {
        match k {
            MovementKey::Forward => self.forward,
            MovementKey::Left => self.left,
            MovementKey::Backward => self.backward,
            MovementKey::Right => self.right,
        }
    }

    /// The router with no key held down.
    pub fn released() -> (r: InputRouter)
        ensures
            r == (InputRouter { forward: false, left: false, backward: false, right: false }),
    {
        InputRouter { forward: false, left: false, backward: false, right: false }
    }

    /// Whether a movement key is currently held down.
    pub fn pressed(&self, k: MovementKey) -> (b: bool)
        ensures
            b == self.spec_pressed(k),
    {
        match k {
            MovementKey::Forward => self.forward,
            MovementKey::Left => self.left,
            MovementKey::Backward => self.backward,
            MovementKey::Right => self.right,
        }
    }

    /// Records one key transition. A fresh press of a movement key issues a
    /// displacement intent for that key; a repeated press while the key is
    /// already held issues none, so a single physical key press is never
    /// applied twice. A release only clears the key. Any other key leaves
    /// the router untouched.
    pub fn key_event(&mut self, code: &str, is_down: bool) -> (intent: Option<MovementKey>)
        ensures
            match spec_movement_key(code@) {
                Option::Some(k) => *final(self) == with_key(*old(self), k, is_down) && intent == (
                if is_down && !old(self).spec_pressed(k) {
                    Option::Some(k)
                } else {
                    Option::<MovementKey>::None
                }),
                Option::None => *final(self) == *old(self) && intent is None,
            },
    {
        match movement_key(code) {
            Option::Some(k) => {
                let was_pressed = self.pressed(k);
                match k {
                    MovementKey::Forward => {
                        self.forward = is_down;
                    },
                    MovementKey::Left => {
                        self.left = is_down;
                    },
                    MovementKey::Backward => {
                        self.backward = is_down;
                    },
                    MovementKey::Right => {
                        self.right = is_down;
                    },
                }
                if is_down && !was_pressed {
                    Option::Some(k)
                } else {
                    Option::None
                }
            },
            Option::None => Option::None,
        }
    }
}

/// What a pointer movement asks of the camera.
#[derive(Clone, Copy, Debug, PartialEq, Eq, Structural)]
pub enum PointerAction {
    /// Orbit the camera by the movement deltas, around the pointer position.
    Orbit { x: Scalar, y: Scalar, dx: Scalar, dy: Scalar },
    /// Pan the camera by the movement deltas.
    Pan { dx: Scalar, dy: Scalar },
    /// No camera change.
    Idle,
}

/// The camera action a pointer movement asks for: dragging with the primary
/// button orbits; dragging with the modifier key held pans instead; any
/// other movement does nothing.
pub open spec fn spec_pointer_action(
    x: Scalar,
    y: Scalar,
    dx: Scalar,
    dy: Scalar,
    primary_down: bool,
    modifier_down: bool,
) -> PointerAction {
    if primary_down && modifier_down {
        PointerAction::Pan { dx, dy }
    } else if primary_down {
        PointerAction::Orbit { x, y, dx, dy }
    } else {
        PointerAction::Idle
    }
}

/// Routes one pointer movement to its camera action.
pub fn pointer_action(
    x: Scalar,
    y: Scalar,
    dx: Scalar,
    dy: Scalar,
    primary_down: bool,
    modifier_down: bool,
) -> (a: PointerAction)
    ensures
        a == spec_pointer_action(x, y, dx, dy, primary_down, modifier_down),
{
    if primary_down && modifier_down {
        PointerAction::Pan { dx, dy }
    } else if primary_down {
        PointerAction::Orbit { x, y, dx, dy }
    } else {
        PointerAction::Idle
    }
}

} // verus!
