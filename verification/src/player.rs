//! Players and their control sources.
//!
//! Each player drives exactly one tank, through exactly one control
//! source: the keyboard (see [`crate::key_board`]) with one of the two
//! fixed bindings, or a remote decision service reached over the
//! protocol of [`crate::server`].

use vstd::prelude::*;

use crate::instruction::Instruction;

verus! {

/// A player's identity; also the index of the player's tank slot in the
/// arena.
#[derive(Clone, Copy, Debug, PartialEq, Eq, Structural, Hash)]
pub struct PlayerID(pub u32);

/// A key of the local input surface; only the keys some binding uses are
/// listed.
#[derive(Clone, Copy, Debug, PartialEq, Eq, Structural, Hash)]
pub enum Key {
    KeyW,
    KeyA,
    KeyS,
    KeyD,
    KeyQ,
    KeyE,
    KeyI,
    KeyO,
    KeyP,
    Space,
    ArrowUp,
    ArrowDown,
    ArrowLeft,
    ArrowRight,
}

/// How one player is driven: by a remote decision service at the given
/// address, or by the keyboard with the given binding.
#[derive(Clone, Debug, PartialEq, Eq)]
pub enum PlayerController {
    Server { ip: String, port: u16, game_id: String },
    Control {
        move_forward: Key,
        move_backward: Key,
        rotate_left: Key,
        rotate_right: Key,
        spin_turret_left: Key,
        spin_turret_right: Key,
        shoot: Key,
    },
}

impl PlayerController {
    /// The WASD binding.
    pub fn wasd() -> (c: PlayerController)
        ensures
            c == (PlayerController::Control {
                move_forward: Key::KeyW,
                move_backward: Key::KeyS,
                rotate_left: Key::KeyD,
                rotate_right: Key::KeyA,
                spin_turret_left: Key::KeyE,
                spin_turret_right: Key::KeyQ,
                shoot: Key::Space,
            }),
    {
        PlayerController::Control {
            move_forward: Key::KeyW,
            move_backward: Key::KeyS,
            rotate_left: Key::KeyD,
            rotate_right: Key::KeyA,
            spin_turret_left: Key::KeyE,
            spin_turret_right: Key::KeyQ,
            shoot: Key::Space,
        }
    }

    /// The arrow-key binding.
    pub fn arrow() -> (c: PlayerController)
        ensures
            c == (PlayerController::Control {
                move_forward: Key::ArrowUp,
                move_backward: Key::ArrowDown,
                rotate_left: Key::ArrowRight,
                rotate_right: Key::ArrowLeft,
                spin_turret_left: Key::KeyO,
                spin_turret_right: Key::KeyI,
                shoot: Key::KeyP,
            }),
    {
        PlayerController::Control {
            move_forward: Key::ArrowUp,
            move_backward: Key::ArrowDown,
            rotate_left: Key::ArrowRight,
            rotate_right: Key::ArrowLeft,
            spin_turret_left: Key::KeyO,
            spin_turret_right: Key::KeyI,
            shoot: Key::KeyP,
        }
    }
}

} // verus!
