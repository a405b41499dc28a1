//! Tanks, turrets, and the gun's reload state machine.
//!
//! A tank owns exactly one turret; destroying the tank destroys the turret
//! with it, so the ownership invariant of the data model holds by
//! construction. The gun is `Ready` or `Reload(remaining)`; a shot is
//! accepted only when the gun is ready and immediately starts the reload
//! timer, and the timer is advanced once per tick by the elapsed
//! milliseconds.

use vstd::prelude::*;

use crate::bullet::NewBullet;
use crate::geometry::{norm_angle, valid_angle, Vec2};
use crate::vision::{
    VisionHit, VisionRay, HULL_RAY_GAP, HULL_RAY_MAX_DIST, NUM_OF_HULL_RAY, NUM_OF_TURRET_RAY,
    TURRET_RAY_GAP, TURRET_RAY_MAX_DIST, TURRET_RAY_START,
};

verus! {

/// Side length of a tank's square bounding shape, in milli (32 pixels).
pub const TANK_SIZE: u64 = 32_000;

/// Time one reload takes, in milliseconds.
pub const RELOAD_TIME_MS: u32 = 1_000;

/// The gun of a turret: ready to fire, or reloading with the given time
/// still to wait, in milliseconds.
#[derive(Clone, Copy, Debug, PartialEq, Eq, Structural)]
pub enum GunState {
    Ready,
    Reload(u32),
}

impl GunState {
    /// The state a gun enters right after an accepted shot: a full reload.
    pub fn reload() -> (g: GunState)
        ensures
            g == GunState::Reload(RELOAD_TIME_MS),
    {
        GunState::Reload(RELOAD_TIME_MS)
    }
}

impl Default for GunState {
    /// A gun starts out ready.
    fn default() -> (g: Self)
        ensures
            g == GunState::Ready,
    {
        GunState::Ready
    }
}

/// A turret: its gun and its own rotation relative to the hull, in
/// millidegrees.
#[derive(Clone, Copy, Debug, PartialEq, Eq, Structural)]
pub struct Turret {
    pub gun: GunState,
    pub rot: u32,
}

impl Default for Turret {
    /// A fresh turret: gun ready, aligned with the hull.
    fn default() -> (t: Self)
        ensures
            t == (Turret { gun: GunState::Ready, rot: 0u32 }),
    {
        Turret { gun: GunState::Ready, rot: 0 }
    }
}

/// Where a ticking reload timer ends up after `dt` elapsed milliseconds:
/// done once the remaining time is spent, otherwise still counting down.
pub open spec fn gun_after_tick(g: GunState, dt: u64) -> GunState {
    match g {
        GunState::Ready => GunState::Ready,
        GunState::Reload(r) => if r <= dt {
            GunState::Ready
        } else {
            GunState::Reload((r - dt) as u32)
        },
    }
}

/// An event the gun reacts to: a shot request, or `dt` milliseconds passing.
#[derive(Clone, Copy, Debug, PartialEq, Eq, Structural)]
pub enum GunEvent {
    Shoot,
    Tick(u64),
}

/// One step of the gun state machine, together with how many bullets the
/// step discharges: a shot fires only from `Ready` and starts the reload;
/// a shot during reload is dropped; time only winds the timer down.
pub open spec fn gun_step(g: GunState, ev: GunEvent) -> (GunState, nat) {
    match ev {
        GunEvent::Shoot => match g {
            GunState::Ready => (GunState::Reload(RELOAD_TIME_MS), 1nat),
            GunState::Reload(_) => (g, 0nat),
        },
        GunEvent::Tick(dt) => (gun_after_tick(g, dt), 0nat),
    }
}

/// Run the gun through a sequence of events, counting discharged bullets.
pub open spec fn run_gun(g: GunState, evs: Seq<GunEvent>) -> (GunState, nat)
    decreases evs.len(),
{
    if evs.len() == 0 {
        (g, 0nat)
    } else {
        let head = gun_step(g, evs[0]);
        let rest = run_gun(head.0, evs.drop_first());
        (rest.0, (head.1 + rest.1) as nat)
    }
}

/// Total time passing in a sequence of gun events, in milliseconds.
pub open spec fn ticks_total(evs: Seq<GunEvent>) -> int
    decreases evs.len(),
{
    if evs.len() == 0 {
        0
    } else {
        (match evs[0] {
            GunEvent::Tick(dt) => dt as int,
            GunEvent::Shoot => 0,
        }) + ticks_total(evs.drop_first())
    }
}

/// A reloading gun ignores `Shoot`: as long as less time has passed than
/// the reload has left, no sequence of shot requests and ticks discharges a
/// bullet, and the timer keeps counting the remaining time exactly.
pub proof fn lemma_reload_blocks_shots(r: u32, evs: Seq<GunEvent>)
    requires
        0 < r,
        ticks_total(evs) < r,
    ensures
        run_gun(GunState::Reload(r), evs).1 == 0,
        run_gun(GunState::Reload(r), evs).0 == GunState::Reload((r - ticks_total(evs)) as u32),
    decreases evs.len(),
{
    if evs.len() == 0 {
    } else {
        let rest = evs.drop_first();
        assert(ticks_total(rest) >= 0) by { lemma_ticks_total_nonneg(rest) };
        match evs[0] {
            GunEvent::Shoot => {
                lemma_reload_blocks_shots(r, rest);
            },
            GunEvent::Tick(dt) => {
                // dt <= ticks_total(evs) < r, so the timer keeps running.
                let r1 = (r - dt) as u32;
                lemma_reload_blocks_shots(r1, rest);
            },
        }
    }
}

/// Time never runs backwards in an event sequence.
pub proof fn lemma_ticks_total_nonneg(evs: Seq<GunEvent>)
    ensures
        ticks_total(evs) >= 0,
    decreases evs.len(),
{
    if evs.len() > 0 {
        lemma_ticks_total_nonneg(evs.drop_first());
    }
}

/// Repeated `Shoot` during a reload cycle yields exactly one bullet: from a
/// ready gun, the first shot fires, and whatever mix of further shot
/// requests and ticks follows within the reload time, nothing else comes
/// out.
pub proof fn lemma_one_shot_per_reload(evs: Seq<GunEvent>)
    requires
        ticks_total(evs) < RELOAD_TIME_MS,
    ensures
        run_gun(GunState::Ready, seq![GunEvent::Shoot] + evs).1 == 1,
{
    let all = seq![GunEvent::Shoot] + evs;
    assert(all[0] == GunEvent::Shoot);
    assert(all.drop_first() =~= evs);
    lemma_reload_blocks_shots(RELOAD_TIME_MS, evs);
}

/// A tank: its team, its one turret, its hull position (fine units) and
/// facing angle (millidegrees), and its two vision sensors.
#[derive(Clone, Debug)]
pub struct Tank {
    pub team_id: u8,
    pub turret: Turret,
    pub pos: Vec2,
    pub facing: u32,
    pub hull_vision: VisionRay,
    pub turret_vision: VisionRay,
}

impl Tank {
    /// Angles normalized, sensors well-formed, and a reloading gun's
    /// remaining time within the fixed reload duration.
    pub open spec fn wf(self) -> bool {
        &&& valid_angle(self.facing)
        &&& valid_angle(self.turret.rot)
        &&& (self.turret.gun matches GunState::Reload(r) ==> 0 < r <= RELOAD_TIME_MS)
        &&& self.hull_vision.wf()
        &&& self.turret_vision.wf()
    }

    /// The turret's orientation in the world: the hull's facing plus the
    /// turret's own rotation, normalized.
    pub open spec fn spec_turret_world_rot(self) -> int {
        norm_angle(self.facing + self.turret.rot)
    }

    /// Compute the turret's world orientation.
    pub fn turret_world_rot(&self) -> (r: u32)
        requires
            self.wf(),
        ensures
            r == self.spec_turret_world_rot(),
            valid_angle(r),
    {
        crate::geometry::add_angle(self.facing, self.turret.rot as u64)
    }

    /// Fire if the gun is ready: hand back the spawn request for exactly
    /// one bullet, started at the hull's position along the turret's world
    /// orientation, and start the reload. A shot during reload changes
    /// nothing and produces nothing.
    pub fn shoot(&mut self, source: usize) -> (r: Option<NewBullet>)
        requires
            old(self).wf(),
        ensures
            old(self).turret.gun == GunState::Ready ==> {
                &&& r == Option::Some(
                    NewBullet {
                        start_pos: old(self).pos,
                        dir: old(self).spec_turret_world_rot() as u32,
                        source,
                    },
                )
                &&& *final(self) == (Tank {
                    turret: Turret { gun: GunState::Reload(RELOAD_TIME_MS), ..old(self).turret },
                    ..*old(self)
                })
            },
            old(self).turret.gun is Reload ==> r is None && *final(self) == *old(self),
            // The accepted/dropped outcome is one step of the gun machine.
            ({
                let step = gun_step(old(self).turret.gun, GunEvent::Shoot);
                final(self).turret.gun == step.0 && (r is Some <==> step.1 == 1)
            }),
            final(self).wf(),
    {
        match self.turret.gun {
            GunState::Ready => {
                let dir = self.turret_world_rot();
                self.turret.gun = GunState::reload();
                Option::Some(NewBullet { start_pos: self.pos, dir, source })
            },
            GunState::Reload(_) => Option::None,
        }
    }
}

/// Advance a turret's reload timer by `dt` elapsed milliseconds.
pub fn tick_gun(turret: &mut Turret, dt_ms: u64)
    ensures
        final(turret).gun == gun_after_tick(old(turret).gun, dt_ms),
        final(turret).rot == old(turret).rot,
{
    match turret.gun {
        GunState::Ready => {},
        GunState::Reload(r) => {
            if (r as u64) <= dt_ms {
                turret.gun = GunState::Ready;
            } else {
                turret.gun = GunState::Reload(r - dt_ms as u32);
            }
        },
    }
}

/// Predicate form of [`create_minimal_tank`]'s result: a fresh tank of team
/// `team_id` standing at `(x, y)` facing up, turret ready and aligned, both
/// sensors empty and configured with the hull fan and turret cone
/// parameters.
pub open spec fn is_minimal_tank(t: Tank, x: i64, y: i64, team_id: u8) -> bool {
    &&& t.team_id == team_id
    &&& t.turret == (Turret { gun: GunState::Ready, rot: 0u32 })
    &&& t.pos == (Vec2 { x, y })
    &&& t.facing == 0
    &&& t.hull_vision.rays@ =~= Seq::new(NUM_OF_HULL_RAY as nat, |i: int| Option::<VisionHit>::None)
    &&& t.hull_vision.max_dist == HULL_RAY_MAX_DIST
    &&& t.hull_vision.angle_gap == HULL_RAY_GAP
    &&& t.hull_vision.start_angle == 0
    &&& t.turret_vision.rays@ =~= Seq::new(
        NUM_OF_TURRET_RAY as nat,
        |i: int| Option::<VisionHit>::None,
    )
    &&& t.turret_vision.max_dist == TURRET_RAY_MAX_DIST
    &&& t.turret_vision.angle_gap == TURRET_RAY_GAP
    &&& t.turret_vision.start_angle == TURRET_RAY_START
}

/// Create a tank of team `team_id` at `(x, y)` fine units: facing up, gun
/// ready, hull sensor an eight-ray full fan, turret sensor a five-ray
/// forward cone.
pub fn create_minimal_tank(x: i64, y: i64, team_id: u8) -> (t: Tank)
    ensures
        is_minimal_tank(t, x, y, team_id),
        t.wf(),
{
    let hull_vision = VisionRay::new(NUM_OF_HULL_RAY, HULL_RAY_MAX_DIST, HULL_RAY_GAP, 0);
    let turret_vision = VisionRay::new(
        NUM_OF_TURRET_RAY,
        TURRET_RAY_MAX_DIST,
        TURRET_RAY_GAP,
        TURRET_RAY_START,
    );
    proof {
        assert(hull_vision.rays@ =~= Seq::new(
            NUM_OF_HULL_RAY as nat,
            |i: int| Option::<VisionHit>::None,
        ));
        assert(turret_vision.rays@ =~= Seq::new(
            NUM_OF_TURRET_RAY as nat,
            |i: int| Option::<VisionHit>::None,
        ));
    }
    Tank {
        team_id,
        turret: Turret { gun: GunState::Ready, rot: 0 },
        pos: Vec2 { x, y },
        facing: 0,
        hull_vision,
        turret_vision,
    }
}

} // verus!
