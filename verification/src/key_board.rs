//! The keyboard side of the local input surface.
//!
//! A binding maps each instruction to one key; one call per tick turns the
//! currently held keys into this tick's instructions, so holding a key
//! repeats its instruction every tick.

use vstd::prelude::*;

use crate::instruction::Instruction;
use crate::player::{Key, PlayerController};

verus! {

/// A player's key binding, one key per instruction.
#[derive(Clone, Copy, Debug, PartialEq, Eq, Structural)]
pub struct PlayerKeyBind {
    pub move_forward: Key,
    pub move_backward: Key,
    pub rotate_left: Key,
    pub rotate_right: Key,
    pub spin_turret_left: Key,
    pub spin_turret_right: Key,
    pub shoot: Key,
}

impl PlayerKeyBind {
    /// The binding a keyboard-driven controller carries; only a
    /// keyboard-driven controller has one.
    pub fn from(value: &PlayerController) -> (b: PlayerKeyBind)
        requires
            value is Control,
        ensures
            *value matches PlayerController::Control {
                move_forward,
                move_backward,
                rotate_left,
                rotate_right,
                spin_turret_left,
                spin_turret_right,
                shoot,
            } && b == (PlayerKeyBind {
                move_forward,
                move_backward,
                rotate_left,
                rotate_right,
                spin_turret_left,
                spin_turret_right,
                shoot,
            }),
    {
        match value {
            PlayerController::Control {
                move_forward,
                move_backward,
                rotate_left,
                rotate_right,
                spin_turret_left,
                spin_turret_right,
                shoot,
            } => PlayerKeyBind {
                move_forward: *move_forward,
                move_backward: *move_backward,
                rotate_left: *rotate_left,
                rotate_right: *rotate_right,
                spin_turret_left: *spin_turret_left,
                spin_turret_right: *spin_turret_right,
                shoot: *shoot,
            },
            PlayerController::Server { .. } => {
                proof {
                    assert(false);
                }
                PlayerKeyBind {
                    move_forward: Key::KeyW,
                    move_backward: Key::KeyS,
                    rotate_left: Key::KeyD,
                    rotate_right: Key::KeyA,
                    spin_turret_left: Key::KeyE,
                    spin_turret_right: Key::KeyQ,
                    shoot: Key::Space,
                }
            },
        }
    }
}

/// Whether `k` is among the held keys.
fn key_pressed(pressed: &Vec<Key>, k: Key) -> (r: bool)
    ensures
        r == pressed@.contains(k),
{
    let n = pressed.len();
    let mut i: usize = 0;
    while i < n
        invariant
            i <= n,
            n == pressed@.len(),
            forall|j: int| 0 <= j < i ==> pressed@[j] != k,
        decreases n - i,
    {
        if pressed[i] == k {
            return true;
        }
        i += 1;
    }
    proof {
        assert(!pressed@.contains(k)) by {
            if pressed@.contains(k) {
                let j = choose|j: int| 0 <= j < pressed@.len() && pressed@[j] == k;
            }
        }
    }
    false
}

/// The instructions one tick of held keys produces under a binding:
/// forward wins over backward, left rotation over right, left turret spin
/// over right, and shoot joins independently; each group contributes at
/// most one instruction per tick.
pub open spec fn spec_keyboard_input(bind: PlayerKeyBind, pressed: Seq<Key>) -> Seq<Instruction> {
    (if pressed.contains(bind.move_forward) {
        seq![Instruction::MoveForward]
    } else if pressed.contains(bind.move_backward) {
        seq![Instruction::MoveBackward]
    } else {
        Seq::empty()
    }) + (if pressed.contains(bind.rotate_left) {
        seq![Instruction::RotateLeft]
    } else if pressed.contains(bind.rotate_right) {
        seq![Instruction::RotateRight]
    } else {
        Seq::empty()
    }) + (if pressed.contains(bind.spin_turret_left) {
        seq![Instruction::SpinTurretLeft]
    } else if pressed.contains(bind.spin_turret_right) {
        seq![Instruction::SpinTurretRight]
    } else {
        Seq::empty()
    }) + (if pressed.contains(bind.shoot) {
        seq![Instruction::Shoot]
    } else {
        Seq::empty()
    })
}

/// Turn the held keys of one tick into instructions, exactly per
/// [`spec_keyboard_input`].
pub fn keyboard_input(bind: &PlayerKeyBind, pressed: &Vec<Key>) -> (r: Vec<Instruction>)
    ensures
        r@ == spec_keyboard_input(*bind, pressed@),
{
    let mut r: Vec<Instruction> = Vec::new();
    if key_pressed(pressed, bind.move_forward) {
        r.push(Instruction::MoveForward);
    } else if key_pressed(pressed, bind.move_backward) {
        r.push(Instruction::MoveBackward);
    }
    if key_pressed(pressed, bind.rotate_left) {
        r.push(Instruction::RotateLeft);
    } else if key_pressed(pressed, bind.rotate_right) {
        r.push(Instruction::RotateRight);
    }
    if key_pressed(pressed, bind.spin_turret_left) {
        r.push(Instruction::SpinTurretLeft);
    } else if key_pressed(pressed, bind.spin_turret_right) {
        r.push(Instruction::SpinTurretRight);
    }
    if key_pressed(pressed, bind.shoot) {
        r.push(Instruction::Shoot);
    }
    proof {
        assert(r@ =~= spec_keyboard_input(*bind, pressed@));
    }
    r
}

} // verus!
