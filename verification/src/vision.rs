//! The ray-fan vision sensor.
//!
//! A sensor owns a fixed number of rays. Each tick the caller asks the
//! spatial query service to cast one ray per direction reported by
//! [`VisionRay::ray_directions`] and hands the raw results back through
//! [`VisionRay::update_from_casts`], which classifies every hit as a wall or
//! an enemy. A hit that the environment classifies as both or as neither is
//! an invariant violation and is reported as an error, never ignored.

use vstd::prelude::*;

use crate::geometry::{norm_angle, valid_angle, FULL_TURN_MDEG};
use crate::tank::{Tank, TANK_SIZE};

verus! {

/// Number of rays in the hull sensor's full-turn fan.
pub const NUM_OF_HULL_RAY: usize = 8;

/// Reach of a hull ray, in milli.
pub const HULL_RAY_MAX_DIST: u64 = TANK_SIZE * 4;

/// Angle between two neighbouring hull rays: a full turn split evenly,
/// in millidegrees.
pub const HULL_RAY_GAP: u32 = 45_000;

/// Width of the turret sensor's forward cone, in millidegrees (15 degrees).
pub const TURRET_VISION_ANGLE: u32 = 15_000;

/// Number of rays in the turret sensor's cone.
pub const NUM_OF_TURRET_RAY: usize = 5;

/// Reach of a turret ray, in milli.
pub const TURRET_RAY_MAX_DIST: u64 = TANK_SIZE * 10;

/// Angle between two neighbouring turret rays, in millidegrees.
pub const TURRET_RAY_GAP: u32 = 3_000;

/// First turret ray offset: half the cone width clockwise from the turret's
/// forward direction, normalized (that is, -7500 millidegrees).
pub const TURRET_RAY_START: u32 = 352_500;

/// What one vision ray saw: the nearest wall or enemy tank, with its
/// distance from the sensor origin in milli.
#[derive(Clone, Copy, Debug, PartialEq, Eq, Structural)]
pub enum VisionHit {
    Wall(u64),
    Enemy(u64),
}

/// A raw answer of the spatial query service for one ray: the distance to
/// the nearest collider and whether the environment lists that collider as
/// a tank and/or as a wall.
#[derive(Clone, Copy, Debug, PartialEq, Eq, Structural)]
pub struct CastHit {
    pub dist: u64,
    pub hit_tank: bool,
    pub hit_wall: bool,
}

/// The sensor saw a collider that the environment classifies as both a tank
/// and a wall, or as neither; a fatal data-model violation.
#[derive(Clone, Copy, Debug, PartialEq, Eq, Structural)]
pub enum VisionError {
    UnclassifiedHit,
}

/// A fan of vision rays: the most recent hit per ray together with the
/// sensor parameters (reach in milli, angular spacing and first-ray offset
/// in millidegrees).
#[derive(Clone, Debug)]
pub struct VisionRay {
    pub rays: Vec<Option<VisionHit>>,
    pub max_dist: u64,
    pub angle_gap: u32,
    pub start_angle: u32,
}

/// How [`VisionRay::update_from_casts`] reads one raw cast: no hit stays
/// empty, a tank is an enemy, a wall is a wall, and an ambiguous collider
/// (`None` here) is a fatal invariant violation.
pub open spec fn classify_cast(c: Option<CastHit>) -> Option<Option<VisionHit>> {
    match c {
        Option::None => Option::Some(Option::None),
        Option::Some(h) => {
            if h.hit_tank && !h.hit_wall {
                Option::Some(Option::Some(VisionHit::Enemy(h.dist)))
            } else if !h.hit_tank && h.hit_wall {
                Option::Some(Option::Some(VisionHit::Wall(h.dist)))
            } else {
                Option::None
            }
        },
    }
}

/// The distance recorded in a hit, if any, stays within `max` milli.
pub open spec fn hit_within(h: Option<VisionHit>, max: u64) -> bool {
    match h {
        Option::None => true,
        Option::Some(VisionHit::Wall(d)) => d <= max,
        Option::Some(VisionHit::Enemy(d)) => d <= max,
    }
}

impl VisionRay {
    /// The sensor's angles are normalized and no recorded hit lies beyond
    /// the sensor's reach.
    pub open spec fn wf(self) -> bool {
        &&& valid_angle(self.angle_gap)
        &&& valid_angle(self.start_angle)
        &&& forall|i: int|
            0 <= i < self.rays@.len() ==> hit_within(#[trigger] self.rays@[i], self.max_dist)
    }

    /// A fresh sensor with `ray_count` empty rays.
    pub fn new(ray_count: usize, max_dist: u64, angle_gap: u32, start_angle: u32) -> (s: Self)
        requires
            valid_angle(angle_gap),
            valid_angle(start_angle),
        ensures
            s.wf(),
            s.rays@.len() == ray_count,
            forall|i: int| 0 <= i < ray_count ==> s.rays@[i] is None,
            s.max_dist == max_dist,
            s.angle_gap == angle_gap,
            s.start_angle == start_angle,
    {
        let mut rays: Vec<Option<VisionHit>> = Vec::new();
        let mut i: usize = 0;
        while i < ray_count
            invariant
                i <= ray_count,
                rays@.len() == i,
                forall|j: int| 0 <= j < i ==> rays@[j] is None,
            decreases ray_count - i,
        {
            rays.push(Option::None);
            i += 1;
        }
        VisionRay { rays, max_dist, angle_gap, start_angle }
    }

    /// The directions the caller must cast this tick, given the owner's
    /// forward direction: the fan starts `start_angle` from `forward` and
    /// advances by `angle_gap` per ray.
    pub fn ray_directions(&self, forward: u32) -> (dirs: Vec<u32>)
        requires
            valid_angle(forward),
            self.wf(),
        ensures
            dirs@.len() == self.rays@.len(),
            forall|k: int|
                0 <= k < dirs@.len() ==> #[trigger] dirs@[k] == norm_angle(
                    forward + self.start_angle + k * self.angle_gap,
                ),
    {
        let n = self.rays.len();
        let mut dirs: Vec<u32> = Vec::new();
        let mut dir: u32 = crate::geometry::add_angle(forward, self.start_angle as u64);
        let mut k: usize = 0;
        while k < n
            invariant
                k <= n,
                dirs@.len() == k,
                valid_angle(dir),
                valid_angle(self.angle_gap),
                dir == norm_angle(forward + self.start_angle + k * self.angle_gap),
                forall|j: int|
                    0 <= j < k ==> #[trigger] dirs@[j] == norm_angle(
                        forward + self.start_angle + j * self.angle_gap,
                    ),
            decreases n - k,
        {
            dirs.push(dir);
            let prev = dir;
            dir = crate::geometry::add_angle(dir, self.angle_gap as u64);
            proof {
                let base = forward + self.start_angle as int;
                let n_mdeg = FULL_TURN_MDEG as int;
                assert((k + 1) * self.angle_gap == k * self.angle_gap + self.angle_gap)
                    by (nonlinear_arith);
                // Folding the running normalization into one step.
                vstd::arithmetic::div_mod::lemma_add_mod_noop(
                    base + k * self.angle_gap,
                    self.angle_gap as int,
                    n_mdeg,
                );
                vstd::arithmetic::div_mod::lemma_small_mod(
                    self.angle_gap as nat,
                    FULL_TURN_MDEG as nat,
                );
            }
            k += 1;
        }
        dirs
    }

    /// Record this tick's raw casts. On success every ray holds the
    /// classification of its cast; on an ambiguous hit nothing changes and
    /// the violation is reported.
    pub fn update_from_casts(&mut self, casts: &Vec<Option<CastHit>>) -> (r: Result<
        (),
        VisionError,
    >)
        requires
            old(self).wf(),
            casts@.len() == old(self).rays@.len(),
            forall|i: int|
                0 <= i < casts@.len() ==> (#[trigger] casts@[i] matches Option::Some(h) ==> h.dist
                    <= old(self).max_dist),
        ensures
            r is Ok <==> (forall|i: int| 0 <= i < casts@.len() ==> classify_cast(#[trigger] casts@[i]) is Some),
            r is Err ==> *final(self) == *old(self),
            r is Ok ==> {
                &&& final(self).rays@.len() == casts@.len()
                &&& forall|i: int|
                    0 <= i < casts@.len() ==> Option::Some(#[trigger] final(self).rays@[i])
                        == classify_cast(casts@[i])
                &&& final(self).max_dist == old(self).max_dist
                &&& final(self).angle_gap == old(self).angle_gap
                &&& final(self).start_angle == old(self).start_angle
            },
            final(self).wf(),
    {
        let n = casts.len();
        let mut fresh: Vec<Option<VisionHit>> = Vec::new();
        let mut i: usize = 0;
        while i < n
            invariant
                i <= n,
                n == casts@.len(),
                casts@.len() == old(self).rays@.len(),
                *self == *old(self),
                old(self).wf(),
                forall|j: int|
                    0 <= j < casts@.len() ==> (#[trigger] casts@[j] matches Option::Some(h)
                        ==> h.dist <= old(self).max_dist),
                fresh@.len() == i,
                forall|j: int|
                    0 <= j < i ==> Option::Some(#[trigger] fresh@[j]) == classify_cast(casts@[j]),
            decreases n - i,
        {
            match &casts[i] {
                Option::None => fresh.push(Option::None),
                Option::Some(h) => {
                    if h.hit_tank && !h.hit_wall {
                        fresh.push(Option::Some(VisionHit::Enemy(h.dist)));
                    } else if !h.hit_tank && h.hit_wall {
                        fresh.push(Option::Some(VisionHit::Wall(h.dist)));
                    } else {
                        return Result::Err(VisionError::UnclassifiedHit);
                    }
                },
            }
            i += 1;
        }
        assert forall|j: int| 0 <= j < casts@.len() implies classify_cast(
            #[trigger] casts@[j],
        ) is Some by {
            assert(Option::Some(fresh@[j]) == classify_cast(casts@[j]));
        }
        assert forall|j: int| 0 <= j < fresh@.len() implies hit_within(
            #[trigger] fresh@[j],
            self.max_dist,
        ) by {
            assert(Option::Some(fresh@[j]) == classify_cast(casts@[j]));
        }
        self.rays = fresh;
        Result::Ok(())
    }
}

/// Record this tick's hull-sensor casts for a tank: one raw cast per hull
/// ray, cast along [`VisionRay::ray_directions`] of the hull's facing and
/// excluding the tank itself. Only the hull sensor changes; an ambiguous
/// hit is fatal and changes nothing.
pub fn update_tank_vision_ray(tank: &mut Tank, casts: &Vec<Option<CastHit>>) -> (r: Result<
    (),
    VisionError,
>)
    requires
        old(tank).wf(),
        casts@.len() == old(tank).hull_vision.rays@.len(),
        forall|i: int|
            0 <= i < casts@.len() ==> (#[trigger] casts@[i] matches Option::Some(h) ==> h.dist
                <= old(tank).hull_vision.max_dist),
    ensures
        r is Ok <==> (forall|i: int|
            0 <= i < casts@.len() ==> classify_cast(#[trigger] casts@[i]) is Some),
        r is Err ==> *final(tank) == *old(tank),
        r is Ok ==> {
            &&& forall|i: int|
                0 <= i < casts@.len() ==> Option::Some(#[trigger] final(tank).hull_vision.rays@[i])
                    == classify_cast(casts@[i])
            &&& final(tank).hull_vision.rays@.len() == casts@.len()
            &&& *final(tank) == (Tank { hull_vision: final(tank).hull_vision, ..*old(tank) })
            &&& final(tank).hull_vision.max_dist == old(tank).hull_vision.max_dist
            &&& final(tank).hull_vision.angle_gap == old(tank).hull_vision.angle_gap
            &&& final(tank).hull_vision.start_angle == old(tank).hull_vision.start_angle
        },
        final(tank).wf(),
{
    tank.hull_vision.update_from_casts(casts)
}

/// Record this tick's turret-sensor casts for a tank: one raw cast per
/// turret ray, cast along [`VisionRay::ray_directions`] of the turret's
/// world orientation and excluding the tank itself. Only the turret
/// sensor changes; an ambiguous hit is fatal and changes nothing.
pub fn update_turret_vision_ray(tank: &mut Tank, casts: &Vec<Option<CastHit>>) -> (r: Result<
    (),
    VisionError,
>)
    requires
        old(tank).wf(),
        casts@.len() == old(tank).turret_vision.rays@.len(),
        forall|i: int|
            0 <= i < casts@.len() ==> (#[trigger] casts@[i] matches Option::Some(h) ==> h.dist
                <= old(tank).turret_vision.max_dist),
    ensures
        r is Ok <==> (forall|i: int|
            0 <= i < casts@.len() ==> classify_cast(#[trigger] casts@[i]) is Some),
        r is Err ==> *final(tank) == *old(tank),
        r is Ok ==> {
            &&& forall|i: int|
                0 <= i < casts@.len() ==> Option::Some(
                    #[trigger] final(tank).turret_vision.rays@[i],
                ) == classify_cast(casts@[i])
            &&& final(tank).turret_vision.rays@.len() == casts@.len()
            &&& *final(tank) == (Tank { turret_vision: final(tank).turret_vision, ..*old(tank) })
            &&& final(tank).turret_vision.max_dist == old(tank).turret_vision.max_dist
            &&& final(tank).turret_vision.angle_gap == old(tank).turret_vision.angle_gap
            &&& final(tank).turret_vision.start_angle == old(tank).turret_vision.start_angle
        },
        final(tank).wf(),
{
    tank.turret_vision.update_from_casts(casts)
}

} // verus!
