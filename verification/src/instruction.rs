//! Instructions and the motion-and-collision resolver.
//!
//! Each instruction needs at most one answer from the spatial query
//! service: a rotation asks whether the tank's shape at the candidate
//! orientation would overlap anything, a move asks for a swept shape test
//! along the travel direction. [`instruction_query`] says which question to
//! ask; [`process_tank_instruction`] consumes the answer and commits the
//! outcome. Rotation is all-or-nothing: a blocked rotation leaves the
//! orientation untouched. Translation is clamped: a blocked move stops
//! exactly at the reported time of impact.

use vstd::prelude::*;

use crate::bullet::NewBullet;
use crate::geometry::{
    add_angle, norm_angle, sub_angle, valid_angle, Vec2, DIR_SCALE, MAX_TICK_MS, POS_LIMIT,
};
use crate::tank::{gun_step, GunEvent, GunState, Tank, Turret, RELOAD_TIME_MS};

verus! {

/// One control command for a tank, from the keyboard or from a remote
/// agent; produced once per tick per control source and consumed once.
#[derive(Clone, Copy, Debug, PartialEq, Eq, Structural)]
pub enum Instruction {
    MoveForward,
    MoveBackward,
    RotateLeft,
    RotateRight,
    SpinTurretLeft,
    SpinTurretRight,
    Shoot,
}

/// Hull rotation speed, in millidegrees per millisecond (a quarter turn
/// per second).
pub const TANK_ROTATION_SPEED: u64 = 90;

/// Turret rotation speed, in millidegrees per millisecond (three quarter
/// turns per second).
pub const TURRET_ROTATION_SPEED: u64 = 270;

/// Hull travel speed, in milli per millisecond (100 pixels per second).
pub const TANK_MOVE_SPEED: u64 = 100;

/// What an instruction needs from the spatial query service.
#[derive(Clone, Copy, Debug, PartialEq, Eq, Structural)]
pub enum QueryRequest {
    /// Nothing: turret spins and shots touch no outside geometry.
    Nothing,
    /// A zero-distance overlap test of the tank's bounding shape at its
    /// current position but the given candidate orientation
    /// (millidegrees), excluding the tank itself.
    RotationCheck { angle: u32 },
    /// A swept shape test from the tank's current position along its
    /// forward (`backward == false`) or backward direction over `dist`
    /// milli, excluding the tank itself.
    MoveSweep { backward: bool, dist: u64 },
}

/// The service's answer, handed back to [`process_tank_instruction`].
///
/// A caller whose spatial index failed to resolve a query must decide its
/// fallback openly: handing in `blocked: false` or `hit: None` *is* the
/// explicit no-obstruction policy, and the contracts below say exactly
/// what the tank then does; nothing here falls back silently.
#[derive(Clone, Copy, Debug, PartialEq, Eq, Structural)]
pub enum QueryAnswer {
    /// Answer to [`QueryRequest::Nothing`].
    NoQuery,
    /// Answer to a [`QueryRequest::RotationCheck`]: whether the shape at
    /// the candidate orientation overlapped anything.
    RotationCheck { blocked: bool },
    /// Answer to a [`QueryRequest::MoveSweep`]: the unit direction the
    /// sweep was cast along, scaled by [`DIR_SCALE`] (the collaborator owns
    /// the trigonometry that turns the facing angle into this vector), and
    /// the time of impact in milli from the start, if the sweep hit.
    MoveSweep { dir: Vec2, hit: Option<u64> },
}

/// The orientation a rotation instruction steers for: the facing turned by
/// the rotation speed times the elapsed time, counter-clockwise for
/// `RotateRight`, clockwise for `RotateLeft`.
pub open spec fn spec_rotation_candidate(facing: u32, left: bool, dt_ms: u64) -> int {
    if left {
        norm_angle(facing - TANK_ROTATION_SPEED * dt_ms)
    } else {
        norm_angle(facing + TANK_ROTATION_SPEED * dt_ms)
    }
}

/// Compute the candidate orientation for a rotation over `dt_ms`
/// milliseconds; the caller then asks the service whether the tank's shape
/// fits at this orientation.
pub fn rotation_candidate(tank: &Tank, left: bool, dt_ms: u64) -> (r: u32)
    requires
        tank.wf(),
        dt_ms <= MAX_TICK_MS,
    ensures
        r == spec_rotation_candidate(tank.facing, left, dt_ms),
        valid_angle(r),
{
    let delta = TANK_ROTATION_SPEED * dt_ms;
    if left {
        sub_angle(tank.facing, delta)
    } else {
        add_angle(tank.facing, delta)
    }
}

/// The tank after a rotation attempt: unchanged if the candidate
/// orientation was blocked, otherwise turned to exactly the candidate; no
/// partial rotation exists.
pub open spec fn rotated_tank(t: Tank, left: bool, dt_ms: u64, blocked: bool) -> Tank {
    if blocked {
        t
    } else {
        Tank { facing: spec_rotation_candidate(t.facing, left, dt_ms) as u32, ..t }
    }
}

/// Commit a rotation attempt, given the service's overlap answer for the
/// candidate orientation. A blocked rotation is rejected outright.
pub fn update_rotation(tank: &mut Tank, left: bool, dt_ms: u64, blocked: bool)
    requires
        old(tank).wf(),
        dt_ms <= MAX_TICK_MS,
    ensures
        *final(tank) == rotated_tank(*old(tank), left, dt_ms, blocked),
        final(tank).wf(),
{
    let cand = rotation_candidate(tank, left, dt_ms);
    if !blocked {
        tank.facing = cand;
    }
}

/// Travel length of a move over `dt_ms` milliseconds, in milli.
pub open spec fn move_dist(dt_ms: u64) -> int {
    TANK_MOVE_SPEED * dt_ms
}

/// How far along the direction a move actually gets, in milli: the full
/// travel length, or exactly the time of impact where the sweep reported
/// one short of the full length.
pub open spec fn move_used(hit: Option<u64>, dt_ms: u64) -> int {
    match hit {
        Option::Some(t) => if t < move_dist(dt_ms) {
            t as int
        } else {
            move_dist(dt_ms)
        },
        Option::None => move_dist(dt_ms),
    }
}

/// The position a move ends at: start plus direction times the used
/// distance, exact in fine units.
pub open spec fn spec_move_pos(start: Vec2, dir: Vec2, dt_ms: u64, hit: Option<u64>) -> (
    int,
    int,
) {
    (start.x + dir.x * move_used(hit, dt_ms), start.y + dir.y * move_used(hit, dt_ms))
}

/// Resolve a move: from `start`, along the unit direction `dir` (scaled by
/// [`DIR_SCALE`]), over `dt_ms` milliseconds, with the sweep's reported
/// time of impact `hit` (milli). The result stops exactly at the impact,
/// never beyond it, and covers the full distance when nothing was hit.
pub fn new_move_pos(start: Vec2, dir: Vec2, dt_ms: u64, hit: Option<u64>) -> (p: Vec2)
    requires
        -POS_LIMIT <= start.x <= POS_LIMIT,
        -POS_LIMIT <= start.y <= POS_LIMIT,
        -DIR_SCALE <= dir.x <= DIR_SCALE,
        -DIR_SCALE <= dir.y <= DIR_SCALE,
        dt_ms <= MAX_TICK_MS,
    ensures
        p.x == spec_move_pos(start, dir, dt_ms, hit).0,
        p.y == spec_move_pos(start, dir, dt_ms, hit).1,
        0 <= move_used(hit, dt_ms) <= move_dist(dt_ms),
{
    let dist = TANK_MOVE_SPEED * dt_ms;
    let used: u64 = match hit {
        Option::Some(t) => if t < dist {
            t
        } else {
            dist
        },
        Option::None => dist,
    };
    proof {
        lemma_step_product_bounded(dir.x as int, used as int);
        lemma_step_product_bounded(dir.y as int, used as int);
    }
    Vec2 { x: start.x + dir.x * used as i64, y: start.y + dir.y * used as i64 }
}

/// One tick of travel along a unit direction stays far within `i64`.
proof fn lemma_step_product_bounded(c: int, used: int)
    requires
        -DIR_SCALE <= c <= DIR_SCALE,
        0 <= used <= TANK_MOVE_SPEED * MAX_TICK_MS,
    ensures
        -0x10_0000_0000_0000 <= c * used <= 0x10_0000_0000_0000,
{
    assert(-0x10_0000_0000_0000 <= c * used <= 0x10_0000_0000_0000) by (nonlinear_arith)
        requires
            -65_536 <= c <= 65_536,
            0 <= used <= 100_000_000,
    ;
}

/// The tank after a resolved move along `dir`.
pub open spec fn moved_tank(t: Tank, dir: Vec2, dt_ms: u64, hit: Option<u64>) -> Tank {
    Tank {
        pos: Vec2 {
            x: spec_move_pos(t.pos, dir, dt_ms, hit).0 as i64,
            y: spec_move_pos(t.pos, dir, dt_ms, hit).1 as i64,
        },
        ..t
    }
}

/// The turret's rotation after spinning for `dt_ms` milliseconds,
/// clockwise for `SpinTurretLeft`, counter-clockwise for
/// `SpinTurretRight`; spinning asks no collision question.
pub open spec fn spec_spin_rot(rot: u32, left: bool, dt_ms: u64) -> int {
    if left {
        norm_angle(rot - TURRET_ROTATION_SPEED * dt_ms)
    } else {
        norm_angle(rot + TURRET_ROTATION_SPEED * dt_ms)
    }
}

/// The tank after a turret spin.
pub open spec fn spun_tank(t: Tank, left: bool, dt_ms: u64) -> Tank {
    Tank {
        turret: Turret { rot: spec_spin_rot(t.turret.rot, left, dt_ms) as u32, ..t.turret },
        ..t
    }
}

/// Spin the turret unconditionally at [`TURRET_ROTATION_SPEED`],
/// independent of the gun state.
pub fn spin_turret(tank: &mut Tank, left: bool, dt_ms: u64)
    requires
        old(tank).wf(),
        dt_ms <= MAX_TICK_MS,
    ensures
        *final(tank) == spun_tank(*old(tank), left, dt_ms),
        final(tank).wf(),
{
    let delta = TURRET_ROTATION_SPEED * dt_ms;
    let rot = if left {
        sub_angle(tank.turret.rot, delta)
    } else {
        add_angle(tank.turret.rot, delta)
    };
    tank.turret.rot = rot;
}

/// The question the service must answer before `inst` can be applied over
/// `dt_ms` milliseconds: the candidate orientation for rotations, the
/// sweep for moves, nothing otherwise.
pub fn instruction_query(tank: &Tank, inst: Instruction, dt_ms: u64) -> (q: QueryRequest)
    requires
        tank.wf(),
        dt_ms <= MAX_TICK_MS,
    ensures
        q == match inst {
            Instruction::RotateLeft => QueryRequest::RotationCheck {
                angle: spec_rotation_candidate(tank.facing, true, dt_ms) as u32,
            },
            Instruction::RotateRight => QueryRequest::RotationCheck {
                angle: spec_rotation_candidate(tank.facing, false, dt_ms) as u32,
            },
            Instruction::MoveForward => QueryRequest::MoveSweep {
                backward: false,
                dist: (move_dist(dt_ms) as u64),
            },
            Instruction::MoveBackward => QueryRequest::MoveSweep {
                backward: true,
                dist: (move_dist(dt_ms) as u64),
            },
            _ => QueryRequest::Nothing,
        },
{
    match inst {
        Instruction::RotateLeft => QueryRequest::RotationCheck {
            angle: rotation_candidate(tank, true, dt_ms),
        },
        Instruction::RotateRight => QueryRequest::RotationCheck {
            angle: rotation_candidate(tank, false, dt_ms),
        },
        Instruction::MoveForward => QueryRequest::MoveSweep {
            backward: false,
            dist: TANK_MOVE_SPEED * dt_ms,
        },
        Instruction::MoveBackward => QueryRequest::MoveSweep {
            backward: true,
            dist: TANK_MOVE_SPEED * dt_ms,
        },
        Instruction::SpinTurretLeft => QueryRequest::Nothing,
        Instruction::SpinTurretRight => QueryRequest::Nothing,
        Instruction::Shoot => QueryRequest::Nothing,
    }
}

/// The service answer fits the instruction, and carries values the
/// resolver's arithmetic can take.
pub open spec fn answer_fits(t: Tank, inst: Instruction, answer: QueryAnswer) -> bool {
    match inst {
        Instruction::RotateLeft | Instruction::RotateRight => answer is RotationCheck,
        Instruction::MoveForward | Instruction::MoveBackward => {
            &&& answer matches QueryAnswer::MoveSweep { dir, .. }
            &&& -DIR_SCALE <= dir.x <= DIR_SCALE
            &&& -DIR_SCALE <= dir.y <= DIR_SCALE
            &&& -POS_LIMIT <= t.pos.x <= POS_LIMIT
            &&& -POS_LIMIT <= t.pos.y <= POS_LIMIT
        },
        _ => answer is NoQuery,
    }
}

/// Apply one instruction to a tank over `dt_ms` milliseconds, given the
/// service's answer to [`instruction_query`]. Rotations are rejected
/// whole when blocked; moves are clamped to the reported impact; turret
/// spins are unconditional; a shot fires exactly when the gun is ready,
/// handing back the bullet to spawn. `source` names this tank for the
/// bullet's self-hit exclusion.
pub fn process_tank_instruction(
    tank: &mut Tank,
    source: usize,
    inst: Instruction,
    dt_ms: u64,
    answer: QueryAnswer,
) -> (shot: Option<NewBullet>)
    requires
        old(tank).wf(),
        dt_ms <= MAX_TICK_MS,
        answer_fits(*old(tank), inst, answer),
    ensures
        final(tank).wf(),
        match inst {
            Instruction::RotateLeft => answer matches QueryAnswer::RotationCheck { blocked }
                && *final(tank) == rotated_tank(*old(tank), true, dt_ms, blocked),
            Instruction::RotateRight => answer matches QueryAnswer::RotationCheck { blocked }
                && *final(tank) == rotated_tank(*old(tank), false, dt_ms, blocked),
            Instruction::MoveForward | Instruction::MoveBackward => answer matches
                QueryAnswer::MoveSweep { dir, hit } && *final(tank) == moved_tank(
                *old(tank),
                dir,
                dt_ms,
                hit,
            ),
            Instruction::SpinTurretLeft => *final(tank) == spun_tank(*old(tank), true, dt_ms),
            Instruction::SpinTurretRight => *final(tank) == spun_tank(*old(tank), false, dt_ms),
            Instruction::Shoot => {
                let step = gun_step(old(tank).turret.gun, GunEvent::Shoot);
                &&& final(tank).turret.gun == step.0
                &&& (shot is Some <==> step.1 == 1)
                &&& (old(tank).turret.gun == GunState::Ready ==> shot == Option::Some(
                    NewBullet {
                        start_pos: old(tank).pos,
                        dir: old(tank).spec_turret_world_rot() as u32,
                        source,
                    },
                ) && *final(tank) == (Tank {
                    turret: Turret {
                        gun: GunState::Reload(RELOAD_TIME_MS),
                        ..old(tank).turret
                    },
                    ..*old(tank)
                }))
                &&& (old(tank).turret.gun is Reload ==> *final(tank) == *old(tank))
            },
        },
        shot is Some ==> inst == Instruction::Shoot,
{
    match inst {
        Instruction::RotateLeft | Instruction::RotateRight => {
            let left = match inst {
                Instruction::RotateLeft => true,
                _ => false,
            };
            let blocked = match answer {
                QueryAnswer::RotationCheck { blocked } => blocked,
                _ => false,
            };
            update_rotation(tank, left, dt_ms, blocked);
            Option::None
        },
        Instruction::MoveForward | Instruction::MoveBackward => {
            let (dir, hit) = match answer {
                QueryAnswer::MoveSweep { dir, hit } => (dir, hit),
                _ => (Vec2 { x: 0, y: 0 }, Option::None),
            };
            tank.pos = new_move_pos(tank.pos, dir, dt_ms, hit);
            Option::None
        },
        Instruction::SpinTurretLeft => {
            spin_turret(tank, true, dt_ms);
            Option::None
        },
        Instruction::SpinTurretRight => {
            spin_turret(tank, false, dt_ms);
            Option::None
        },
        Instruction::Shoot => tank.shoot(source),
    }
}

} // verus!
