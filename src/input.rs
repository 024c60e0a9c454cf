//! Keyboard dispatch: raw scancodes to camera nudges.

use vstd::prelude::*;
use crate::camera::{Camera, STEP, fits_i64};
use crate::game::Game;

verus! {

/// Scancode that moves the camera forward.
pub const MOVE_FORWARD: u32 = 13;
/// Scancode that moves the camera left.
pub const MOVE_LEFT: u32 = 0;
/// Scancode that moves the camera backward.
pub const MOVE_BACKWARD: u32 = 1;
/// Scancode that moves the camera right.
pub const MOVE_RIGHT: u32 = 2;
/// Scancode that raises the camera.
pub const JUMP: u32 = 49;
/// Scancode that lowers the camera.
pub const CROUCH: u32 = 56;
/// Scancode that tilts the camera up.
pub const ARROW_UP: u32 = 126;
/// Scancode that tilts the camera down.
pub const ARROW_DOWN: u32 = 125;
/// Scancode that turns the camera left.
pub const ARROW_LEFT: u32 = 123;
/// Scancode that turns the camera right.
pub const ARROW_RIGHT: u32 = 124;

/// The camera adjustments that a key can ask for.
#[derive(Clone, Copy, Debug, PartialEq, Eq, Structural)]
pub enum Action {
    MoveForward,
    MoveLeft,
    MoveBackward,
    MoveRight,
    Jump,
    Crouch,
    LookUp,
    LookDown,
    TurnLeft,
    TurnRight,
}

/// The action bound to a scancode, if any.
pub open spec fn action_of(scancode: u32) -> Option<Action> {
    if scancode == MOVE_FORWARD {
        Some(Action::MoveForward)
    } else if scancode == MOVE_LEFT {
        Some(Action::MoveLeft)
    } else if scancode == MOVE_BACKWARD {
        Some(Action::MoveBackward)
    } else if scancode == MOVE_RIGHT {
        Some(Action::MoveRight)
    } else if scancode == JUMP {
        Some(Action::Jump)
    } else if scancode == CROUCH {
        Some(Action::Crouch)
    } else if scancode == ARROW_UP {
        Some(Action::LookUp)
    } else if scancode == ARROW_DOWN {
        Some(Action::LookDown)
    } else if scancode == ARROW_LEFT {
        Some(Action::TurnLeft)
    } else if scancode == ARROW_RIGHT {
        Some(Action::TurnRight)
    } else {
        None
    }
}

/// Looks up the action bound to a scancode.
pub fn action_for(scancode: u32) -> (r: Option<Action>)
    ensures
        r == action_of(scancode),
{
    if scancode == MOVE_FORWARD {
        Some(Action::MoveForward)
    } else if scancode == MOVE_LEFT {
        Some(Action::MoveLeft)
    } else if scancode == MOVE_BACKWARD {
        Some(Action::MoveBackward)
    } else if scancode == MOVE_RIGHT {
        Some(Action::MoveRight)
    } else if scancode == JUMP {
        Some(Action::Jump)
    } else if scancode == CROUCH {
        Some(Action::Crouch)
    } else if scancode == ARROW_UP {
        Some(Action::LookUp)
    } else if scancode == ARROW_DOWN {
        Some(Action::LookDown)
    } else if scancode == ARROW_LEFT {
        Some(Action::TurnLeft)
    } else if scancode == ARROW_RIGHT {
        Some(Action::TurnRight)
    } else {
        None
    }
}

/// The camera field that an action moves: 0 for x, 1 for y, 2 for z,
/// 3 for pitch, 4 for yaw.
pub open spec fn axis(a: Action) -> int {
    match a {
        Action::MoveLeft | Action::MoveRight => 0,
        Action::Jump | Action::Crouch => 1,
        Action::MoveForward | Action::MoveBackward => 2,
        Action::LookUp | Action::LookDown => 3,
        Action::TurnLeft | Action::TurnRight => 4,
    }
}

/// The sign of the change that an action makes to its field.
pub open spec fn direction(a: Action) -> int {
    match a {
        Action::MoveLeft | Action::Jump | Action::MoveBackward | Action::LookUp
        | Action::TurnRight => 1,
        _ => -1,
    }
}

/// Field `i` of a camera, numbered as in [`axis`].
pub open spec fn component(c: Camera, i: int) -> int {
    if i == 0 {
        c.x as int
    } else if i == 1 {
        c.y as int
    } else if i == 2 {
        c.z as int
    } else if i == 3 {
        c.pitch as int
    } else {
        c.yaw as int
    }
}

impl Camera {
    /// The camera after one nudge, per the key table.
    pub open spec fn moved(self, a: Action) -> Camera {
        match a {
            Action::MoveForward => Camera { z: (self.z - STEP) as i64, ..self },
            Action::MoveLeft => Camera { x: (self.x + STEP) as i64, ..self },
            Action::MoveBackward => Camera { z: (self.z + STEP) as i64, ..self },
            Action::MoveRight => Camera { x: (self.x - STEP) as i64, ..self },
            Action::Jump => Camera { y: (self.y + STEP) as i64, ..self },
            Action::Crouch => Camera { y: (self.y - STEP) as i64, ..self },
            Action::LookUp => Camera { pitch: (self.pitch + STEP) as i64, ..self },
            Action::LookDown => Camera { pitch: (self.pitch - STEP) as i64, ..self },
            Action::TurnLeft => Camera { yaw: (self.yaw - STEP) as i64, ..self },
            Action::TurnRight => Camera { yaw: (self.yaw + STEP) as i64, ..self },
        }
    }

    /// Whether the nudge keeps the moved field within `i64`.
    pub open spec fn can_move(self, a: Action) -> bool {
        fits_i64(component(self, axis(a)) + direction(a) * STEP)
    }

    /// Whether a key can be handled without leaving `i64`.
    pub open spec fn accepts_key(self, scancode: u32) -> bool {
        match action_of(scancode) {
            Some(a) => self.can_move(a),
            None => true,
        }
    }

    /// The camera after a key: nudged for a bound key, untouched otherwise.
    pub open spec fn after_key(self, scancode: u32) -> Camera {
        match action_of(scancode) {
            Some(a) => self.moved(a),
            None => self,
        }
    }

    /// Tells whether a key can be handled without leaving `i64`.
    pub fn can_handle_key(&self, scancode: u32) -> (r: bool)
        ensures
            r == self.accepts_key(scancode),
    {
        match action_for(scancode) {
            None => true,
            Some(a) => match a {
                Action::MoveForward => self.z >= i64::MIN + STEP,
                Action::MoveLeft => self.x <= i64::MAX - STEP,
                Action::MoveBackward => self.z <= i64::MAX - STEP,
                Action::MoveRight => self.x >= i64::MIN + STEP,
                Action::Jump => self.y <= i64::MAX - STEP,
                Action::Crouch => self.y >= i64::MIN + STEP,
                Action::LookUp => self.pitch <= i64::MAX - STEP,
                Action::LookDown => self.pitch >= i64::MIN + STEP,
                Action::TurnLeft => self.yaw >= i64::MIN + STEP,
                Action::TurnRight => self.yaw <= i64::MAX - STEP,
            },
        }
    }

    /// Applies one nudge.
    pub fn apply(&mut self, a: Action)
        requires
            old(self).can_move(a),
        ensures
            *final(self) == old(self).moved(a),
    {
        match a {
            Action::MoveForward => self.add_z(-STEP),
            Action::MoveLeft => self.add_x(STEP),
            Action::MoveBackward => self.add_z(STEP),
            Action::MoveRight => self.add_x(-STEP),
            Action::Jump => self.add_y(STEP),
            Action::Crouch => self.add_y(-STEP),
            Action::LookUp => self.add_pitch(STEP),
            Action::LookDown => self.add_pitch(-STEP),
            Action::TurnLeft => self.add_yaw(-STEP),
            Action::TurnRight => self.add_yaw(STEP),
        }
    }
}

/// Something that reacts to raw key presses.
pub trait Input: Sized {
    /// Whether `scancode` can be handled from this state.
    spec fn accepts_key(&self, scancode: u32) -> bool;

    /// The state after handling `scancode`.
    spec fn after_key(&self, scancode: u32) -> Self;

    /// Handles one key press. Returns the action taken, or `None` for an
    /// unbound scancode, which the caller reports.
    fn handle_keyboard(&mut self, scancode: u32) -> (applied: Option<Action>)
        requires
            old(self).accepts_key(scancode),
        ensures
            *final(self) == old(self).after_key(scancode),
            applied == action_of(scancode),
    ;
}

impl Input for Game {
    open spec fn accepts_key(&self, scancode: u32) -> bool {
        self.camera.accepts_key(scancode)
    }

    open spec fn after_key(&self, scancode: u32) -> Game {
        Game { camera: self.camera.after_key(scancode), ..*self }
    }

    fn handle_keyboard(&mut self, scancode: u32) -> (applied: Option<Action>) {
        let action = action_for(scancode);
        match action {
            Some(a) => self.camera.apply(a),
            None => {},
        }
        action
    }
}

/// A bound key changes exactly one camera field, by exactly one step up or
/// down, and leaves the others as they were.
pub proof fn lemma_key_moves_one_field(c: Camera, scancode: u32)
    requires
        action_of(scancode) is Some,
        c.accepts_key(scancode),
    ensures
        direction(action_of(scancode).unwrap()) == 1 || direction(action_of(scancode).unwrap())
            == -1,
        0 <= axis(action_of(scancode).unwrap()) < 5,
        forall|i: int|
            0 <= i < 5 ==> #[trigger] component(c.after_key(scancode), i) == component(c, i) + (
            if i == axis(action_of(scancode).unwrap()) {
                direction(action_of(scancode).unwrap()) * STEP
            } else {
                0
            }),
{
}

/// An unbound key leaves the camera as it was.
pub proof fn lemma_unbound_key_is_ignored(c: Camera, scancode: u32)
    requires
        action_of(scancode) is None,
    ensures
        c.after_key(scancode) == c,
{
}

/// Opposite keys undo each other: forward then backward, left then right,
/// jump then crouch, up then down, and turning left then right each return
/// the camera to where it was.
pub proof fn lemma_opposite_keys_cancel(c: Camera)
    ensures
        c.accepts_key(MOVE_FORWARD) ==> c.after_key(MOVE_FORWARD).after_key(MOVE_BACKWARD) == c,
        c.accepts_key(MOVE_LEFT) ==> c.after_key(MOVE_LEFT).after_key(MOVE_RIGHT) == c,
        c.accepts_key(JUMP) ==> c.after_key(JUMP).after_key(CROUCH) == c,
        c.accepts_key(ARROW_UP) ==> c.after_key(ARROW_UP).after_key(ARROW_DOWN) == c,
        c.accepts_key(ARROW_LEFT) ==> c.after_key(ARROW_LEFT).after_key(ARROW_RIGHT) == c,
{
}

} // verus!
