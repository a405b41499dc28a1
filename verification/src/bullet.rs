//! Bullets: spawn requests and live projectiles.
//!
//! A bullet is created from a [`NewBullet`] request when a `Shoot`
//! instruction finds the gun ready. It then advances along its fixed
//! direction at [`BULLET_SPEED`] milli per millisecond until it hits
//! something (resolved by [`crate::arena::Arena::bullet_collision`]) or has
//! travelled [`BULLET_MAX_TRAVEL`] milli; the travel bound keeps a bullet
//! that never meets geometry from living forever.

use vstd::prelude::*;

use crate::geometry::{valid_angle, Vec2, DIR_SCALE, POS_LIMIT};

verus! {

/// Bullet speed, in milli per millisecond (400 pixels per second).
pub const BULLET_SPEED: u64 = 400;

/// A bullet is destroyed once it has travelled this far, in milli.
pub const BULLET_MAX_TRAVEL: u64 = 10_000_000;

/// A request to spawn one bullet: fired from `start_pos` (fine units)
/// along the world direction `dir` (millidegrees), excluding the shooting
/// tank `source` from its collisions.
#[derive(Clone, Copy, Debug, PartialEq, Eq, Structural)]
pub struct NewBullet {
    pub start_pos: Vec2,
    pub dir: u32,
    pub source: usize,
}

/// A live bullet: its position in fine units, its flight direction as a
/// unit vector scaled by [`DIR_SCALE`], the tank that fired it, and how far
/// it has travelled so far in milli.
#[derive(Clone, Copy, Debug, PartialEq, Eq, Structural)]
pub struct Bullet {
    pub owner: usize,
    pub pos: Vec2,
    pub dir: Vec2,
    pub travel: u64,
}

/// A bullet the simulation can keep advancing: direction components within
/// the unit scale, position within the playable area, travel within bound.
pub open spec fn bullet_wf(b: Bullet) -> bool {
    &&& -DIR_SCALE <= b.dir.x <= DIR_SCALE
    &&& -DIR_SCALE <= b.dir.y <= DIR_SCALE
    &&& -POS_LIMIT <= b.pos.x <= POS_LIMIT
    &&& -POS_LIMIT <= b.pos.y <= POS_LIMIT
    &&& b.travel <= BULLET_MAX_TRAVEL
}

/// Build the bullet a [`NewBullet`] request asks for. The direction vector
/// `dir` must describe the request's `dir` angle; turning an angle into a
/// unit vector is trigonometry and is left to the spatial collaborator.
pub fn create_bullet_minimal(request: &NewBullet, dir: Vec2) -> (b: Bullet)
    requires
        valid_angle(request.dir),
        -DIR_SCALE <= dir.x <= DIR_SCALE,
        -DIR_SCALE <= dir.y <= DIR_SCALE,
        -POS_LIMIT <= request.start_pos.x <= POS_LIMIT,
        -POS_LIMIT <= request.start_pos.y <= POS_LIMIT,
    ensures
        b == (Bullet { owner: request.source, pos: request.start_pos, dir, travel: 0u64 }),
        bullet_wf(b),
{
    Bullet { owner: request.source, pos: request.start_pos, dir, travel: 0 }
}

} // verus!
