//! Angles, 2D fixed-point vectors, and the unit constants of the arena.
//!
//! Lengths are measured in "milli" units (thousandths of an arena
//! pixel). Positions are measured in "fine" units: one milli
//! equals [`DIR_SCALE`] fine units, so that moving a distance `d` milli along
//! a direction vector whose components are scaled by [`DIR_SCALE`] is the
//! exact integer product `dir * d`, with no rounding. Angles are measured in
//! millidegrees and normalized to `[0, FULL_TURN_MDEG)`; time is in
//! milliseconds.

use vstd::prelude::*;
use vstd::arithmetic::div_mod::{
    lemma_add_mod_noop_right, lemma_fundamental_div_mod, lemma_mod_multiples_vanish,
};

verus! {

/// A full turn, in millidegrees.
pub const FULL_TURN_MDEG: u32 = 360_000;

/// Components of a direction vector describing one milli of travel,
/// i.e. fine units per milli.
pub const DIR_SCALE: i64 = 65_536;

/// Positions handed to the motion functions must stay within this many fine
/// units of the origin, so that one tick of travel cannot overflow an `i64`.
pub const POS_LIMIT: i64 = 0x20_0000_0000_0000;

/// Largest simulation tick, in milliseconds, accepted by the motion and
/// reload functions; keeps per-tick displacements within `i64`.
pub const MAX_TICK_MS: u64 = 1_000_000;

/// A 2D point or vector in fine units.
#[derive(Clone, Copy, Debug, PartialEq, Eq, Structural)]
pub struct Vec2 {
    pub x: i64,
    pub y: i64,
}

/// An arbitrary angle in millidegrees, normalized to `[0, FULL_TURN_MDEG)`.
pub open spec fn norm_angle(a: int) -> int {
    a % (FULL_TURN_MDEG as int)
}

/// True of angle values stored in the library's states.
pub open spec fn valid_angle(a: u32) -> bool {
    a < FULL_TURN_MDEG
}

/// Turn the angle `a` counter-clockwise by `delta` millidegrees.
pub fn add_angle(a: u32, delta: u64) -> (r: u32)
    requires
        valid_angle(a),
    ensures
        valid_angle(r),
        r == norm_angle(a + delta),
{
    let n: u64 = FULL_TURN_MDEG as u64;
    let d: u64 = delta % n;
    let r: u64 = (a as u64 + d) % n;
    proof {
        lemma_add_mod_noop_right(a as int, delta as int, n as int);
    }
    r as u32
}

/// Turn the angle `a` clockwise by `delta` millidegrees.
pub fn sub_angle(a: u32, delta: u64) -> (r: u32)
    requires
        valid_angle(a),
    ensures
        valid_angle(r),
        r == norm_angle(a - delta),
{
    let n: u64 = FULL_TURN_MDEG as u64;
    let d: u64 = delta % n;
    let r: u64 = (a as u64 + n - d) % n;
    proof {
        let ni = n as int;
        let k = 1 + delta as int / ni;
        // a + n - d differs from a - delta by k turns.
        assert(a + n - d == ni * k + (a - delta)) by {
            lemma_fundamental_div_mod(delta as int, ni);
        };
        lemma_mod_multiples_vanish(k, a - delta, ni);
    }
    r as u32
}

} // verus!
