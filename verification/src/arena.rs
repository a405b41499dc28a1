//! The arena: both tank slots, the live bullets, and the per-tick passes.
//!
//! Tank and turret are one record, so a destroyed tank takes its turret
//! with it atomically. Bullet collision answers come from the spatial
//! query service; a hit that the environment classifies as both wall and
//! tank, or as neither, is a fatal invariant violation: the pass reports
//! it and changes nothing.

use vstd::prelude::*;

use crate::bullet::{bullet_wf, Bullet, BULLET_MAX_TRAVEL, BULLET_SPEED};
use crate::geometry::{Vec2, MAX_TICK_MS, POS_LIMIT};
use crate::map::Step;
use crate::server::Report;
use crate::tank::{gun_after_tick, tick_gun, Tank, Turret};

verus! {

/// What a bullet's overlap query found: whether the environment lists the
/// collider as a wall, and the tank slot it belongs to if it lists it as a
/// tank.
#[derive(Clone, Copy, Debug, PartialEq, Eq, Structural)]
pub struct BulletHit {
    pub is_wall: bool,
    pub tank: Option<usize>,
}

/// A bullet hit a collider classified as both wall and tank, or as
/// neither; a fatal data-model violation.
#[derive(Clone, Copy, Debug, PartialEq, Eq, Structural)]
pub enum ArenaError {
    UnclassifiedHit,
}

/// The match state: setup stage, wall positions, one slot per player
/// (`None` once that tank is destroyed), and the live bullets.
#[derive(Clone, Debug)]
pub struct Arena {
    pub step: Step,
    pub walls: Vec<Vec2>,
    pub tanks: Vec<Option<Tank>>,
    pub bullets: Vec<Bullet>,
}

/// A bullet after `dt_ms` milliseconds of flight: advanced along its fixed
/// direction at bullet speed, its travel increased accordingly.
pub open spec fn advanced_bullet(b: Bullet, dt_ms: u64) -> Bullet {
    Bullet {
        pos: Vec2 {
            x: (b.pos.x + b.dir.x * (BULLET_SPEED * dt_ms)) as i64,
            y: (b.pos.y + b.dir.y * (BULLET_SPEED * dt_ms)) as i64,
        },
        travel: (b.travel + BULLET_SPEED * dt_ms) as u64,
        ..b
    }
}

/// Whether an advanced bullet stays alive: it has neither exhausted its
/// travel bound nor left the playable area.
pub open spec fn bullet_kept(b: Bullet) -> bool {
    &&& b.travel <= BULLET_MAX_TRAVEL
    &&& -POS_LIMIT <= b.pos.x <= POS_LIMIT
    &&& -POS_LIMIT <= b.pos.y <= POS_LIMIT
}

/// All bullets after one movement pass: each advanced, those past their
/// travel bound or outside the playable area dropped, order kept.
pub open spec fn advance_bullets(s: Seq<Bullet>, dt_ms: u64) -> Seq<Bullet>
    decreases s.len(),
{
    if s.len() == 0 {
        Seq::empty()
    } else {
        advance_bullets(s.drop_last(), dt_ms) + if bullet_kept(advanced_bullet(s.last(), dt_ms)) {
            seq![advanced_bullet(s.last(), dt_ms)]
        } else {
            Seq::empty()
        }
    }
}

/// A query answer the collision pass can act on: no hit, a wall hit, or a
/// tank hit naming exactly one of the two.
pub open spec fn valid_hit(h: Option<BulletHit>) -> bool {
    match h {
        Option::None => true,
        Option::Some(bh) => bh.is_wall != (bh.tank is Some),
    }
}

/// Whether this hit destroys the tank in slot `j`.
pub open spec fn kills_tank(h: Option<BulletHit>, j: int) -> bool {
    &&& h matches Option::Some(bh)
    &&& !bh.is_wall
    &&& bh.tank matches Option::Some(t)
    &&& t == j
}

/// Whether any of the tick's hits destroys the tank in slot `j`.
pub open spec fn hits_kill(hs: Seq<Option<BulletHit>>, j: int) -> bool {
    exists|i: int| 0 <= i < hs.len() && kills_tank(#[trigger] hs[i], j)
}

/// The bullets surviving the collision pass: exactly those whose query
/// found nothing, order kept.
pub open spec fn surviving_bullets(bs: Seq<Bullet>, hs: Seq<Option<BulletHit>>) -> Seq<Bullet>
    decreases bs.len(),
{
    if bs.len() == 0 {
        Seq::empty()
    } else {
        surviving_bullets(bs.drop_last(), hs) + if hs[bs.len() - 1] is None {
            seq![bs.last()]
        } else {
            Seq::empty()
        }
    }
}

/// Live tanks in the sequence.
pub open spec fn count_live(s: Seq<Option<Tank>>) -> int
    decreases s.len(),
{
    if s.len() == 0 {
        0
    } else {
        count_live(s.drop_last()) + if s.last() is Some {
            1int
        } else {
            0int
        }
    }
}

impl Arena {
    /// Every live tank and every bullet is well-formed.
    pub open spec fn wf(self) -> bool {
        &&& forall|j: int|
            0 <= j < self.tanks@.len() ==> (#[trigger] self.tanks@[j] matches Option::Some(t)
                ==> t.wf())
        &&& forall|i: int| 0 <= i < self.bullets@.len() ==> bullet_wf(#[trigger] self.bullets@[i])
    }

    /// Advance every live bullet along its direction at bullet speed for
    /// `dt_ms` milliseconds — no collision clamping on the movement step —
    /// and retire bullets that exhausted their travel bound or left the
    /// playable area.
    pub fn update_bullet_pos(&mut self, dt_ms: u64)
        requires
            old(self).wf(),
            dt_ms <= MAX_TICK_MS,
        ensures
            final(self).bullets@ == advance_bullets(old(self).bullets@, dt_ms),
            final(self).tanks@ == old(self).tanks@,
            final(self).walls@ == old(self).walls@,
            final(self).step == old(self).step,
            final(self).wf(),
    {
        let step_len: u64 = BULLET_SPEED * dt_ms;
        let n = self.bullets.len();
        let mut out: Vec<Bullet> = Vec::new();
        let mut i: usize = 0;
        while i < n
            invariant
                i <= n,
                n == self.bullets@.len(),
                *self == *old(self),
                old(self).wf(),
                step_len == BULLET_SPEED * dt_ms,
                dt_ms <= MAX_TICK_MS,
                out@ == advance_bullets(old(self).bullets@.subrange(0, i as int), dt_ms),
                forall|k: int| 0 <= k < out@.len() ==> bullet_wf(#[trigger] out@[k]),
            decreases n - i,
        {
            let b = self.bullets[i];
            proof {
                lemma_bullet_step_bounded(b.dir.x as int, step_len as int);
                lemma_bullet_step_bounded(b.dir.y as int, step_len as int);
            }
            let nx = b.pos.x + b.dir.x * step_len as i64;
            let ny = b.pos.y + b.dir.y * step_len as i64;
            let travel = b.travel + step_len;
            let adv = Bullet { pos: Vec2 { x: nx, y: ny }, travel, ..b };
            if travel <= BULLET_MAX_TRAVEL && -POS_LIMIT <= nx && nx <= POS_LIMIT && -POS_LIMIT
                <= ny && ny <= POS_LIMIT {
                out.push(adv);
            }
            proof {
                let bs = old(self).bullets@;
                assert(bs.subrange(0, i + 1).drop_last() =~= bs.subrange(0, i as int));
                assert(bs.subrange(0, i + 1).last() == bs[i as int]);
            }
            i += 1;
        }
        proof {
            assert(old(self).bullets@.subrange(0, n as int) =~= old(self).bullets@);
        }
        self.bullets = out;
    }

    /// Resolve this tick's bullet overlap queries, one answer per live
    /// bullet (each already excluding the bullet's own tank). A wall hit
    /// destroys the bullet alone; a tank hit destroys that tank — and with
    /// it, its turret — and the bullet; an unclassifiable hit is reported
    /// as fatal and nothing changes.
    pub fn bullet_collision(&mut self, hits: &Vec<Option<BulletHit>>) -> (r: Result<
        (),
        ArenaError,
    >)
        requires
            old(self).wf(),
            hits@.len() == old(self).bullets@.len(),
            forall|i: int|
                0 <= i < hits@.len() ==> (#[trigger] hits@[i] matches Option::Some(bh)
                    ==> (bh.tank matches Option::Some(t) ==> t < old(self).tanks@.len())),
        ensures
            r is Ok <==> (forall|i: int| 0 <= i < hits@.len() ==> valid_hit(#[trigger] hits@[i])),
            r is Err ==> *final(self) == *old(self),
            r is Ok ==> {
                &&& final(self).bullets@ == surviving_bullets(old(self).bullets@, hits@)
                &&& final(self).tanks@.len() == old(self).tanks@.len()
                &&& forall|j: int|
                    0 <= j < old(self).tanks@.len() ==> #[trigger] final(self).tanks@[j] == (
                    if hits_kill(hits@, j) {
                        Option::<Tank>::None
                    } else {
                        old(self).tanks@[j]
                    })
                &&& final(self).walls@ == old(self).walls@
                &&& final(self).step == old(self).step
            },
            final(self).wf(),
    {
        let n = hits.len();
        let mut i: usize = 0;
        // First pass: any unclassifiable hit aborts the tick untouched.
        while i < n
            invariant
                i <= n,
                n == hits@.len(),
                *self == *old(self),
                old(self).wf(),
                forall|k: int| 0 <= k < i ==> valid_hit(#[trigger] hits@[k]),
            decreases n - i,
        {
            match &hits[i] {
                Option::None => {},
                Option::Some(bh) => {
                    let tank_hit = bh.tank.is_some();
                    if bh.is_wall == tank_hit {
                        return Result::Err(ArenaError::UnclassifiedHit);
                    }
                },
            }
            i += 1;
        }
        // Second pass: apply the outcomes.
        let mut kept: Vec<Bullet> = Vec::new();
        let mut i: usize = 0;
        while i < n
            invariant
                i <= n,
                n == hits@.len(),
                hits@.len() == old(self).bullets@.len(),
                self.bullets@ == old(self).bullets@,
                self.walls@ == old(self).walls@,
                self.step == old(self).step,
                old(self).wf(),
                forall|k: int| 0 <= k < n ==> valid_hit(#[trigger] hits@[k]),
                forall|k: int|
                    0 <= k < hits@.len() ==> (#[trigger] hits@[k] matches Option::Some(bh)
                        ==> (bh.tank matches Option::Some(t) ==> t < old(self).tanks@.len())),
                self.tanks@.len() == old(self).tanks@.len(),
                forall|j: int|
                    0 <= j < self.tanks@.len() ==> #[trigger] self.tanks@[j] == (
                    if hits_kill(hits@.subrange(0, i as int), j) {
                        Option::<Tank>::None
                    } else {
                        old(self).tanks@[j]
                    }),
                kept@ == surviving_bullets(old(self).bullets@.subrange(0, i as int), hits@),
                forall|k: int| 0 <= k < kept@.len() ==> bullet_wf(#[trigger] kept@[k]),
            decreases n - i,
        {
            match &hits[i] {
                Option::None => {
                    kept.push(self.bullets[i]);
                },
                Option::Some(bh) => {
                    match bh.tank {
                        Option::Some(j) => {
                            self.tanks[j] = Option::None;
                        },
                        Option::None => {},
                    }
                },
            }
            proof {
                let hs = hits@;
                let bs = old(self).bullets@;
                assert(bs.subrange(0, i + 1).drop_last() =~= bs.subrange(0, i as int));
                assert(bs.subrange(0, i + 1).last() == bs[i as int]);
                // The kept-bullet fold only looks at the hit of the last index.
                assert(hs[bs.subrange(0, i + 1).len() - 1] == hs[i as int]);
                assert forall|j: int| 0 <= j < self.tanks@.len() implies #[trigger] self.tanks@[j]
                    == (if hits_kill(hs.subrange(0, i + 1), j) {
                    Option::<Tank>::None
                } else {
                    old(self).tanks@[j]
                }) by {
                    if hits_kill(hs.subrange(0, i + 1), j) {
                        let w = choose|w: int|
                            0 <= w < i + 1 && kills_tank(#[trigger] hs.subrange(0, i + 1)[w], j);
                        if w < i {
                            assert(kills_tank(hs.subrange(0, i as int)[w], j));
                            assert(hits_kill(hs.subrange(0, i as int), j));
                        } else {
                            assert(kills_tank(hs[i as int], j));
                        }
                    } else {
                        assert(hs.subrange(0, i + 1)[i as int] == hs[i as int]);
                        assert(!kills_tank(hs[i as int], j));
                        assert forall|w: int| 0 <= w < i implies !kills_tank(
                            #[trigger] hs.subrange(0, i as int)[w],
                            j,
                        ) by {
                            assert(hs.subrange(0, i + 1)[w] == hs.subrange(0, i as int)[w]);
                        }
                        assert(!hits_kill(hs.subrange(0, i as int), j));
                    }
                }
            }
            i += 1;
        }
        proof {
            assert(hits@.subrange(0, n as int) =~= hits@);
            assert(old(self).bullets@.subrange(0, n as int) =~= old(self).bullets@);
        }
        self.bullets = kept;
        Result::Ok(())
    }

    /// Advance every turret's reload timer by the elapsed milliseconds.
    pub fn reload_gun(&mut self, dt_ms: u64)
        requires
            old(self).wf(),
        ensures
            final(self).tanks@.len() == old(self).tanks@.len(),
            forall|j: int|
                0 <= j < old(self).tanks@.len() ==> #[trigger] final(self).tanks@[j] == (
                match old(self).tanks@[j] {
                    Option::None => Option::<Tank>::None,
                    Option::Some(t) => Option::Some(
                        Tank {
                            turret: Turret {
                                gun: gun_after_tick(t.turret.gun, dt_ms),
                                ..t.turret
                            },
                            ..t
                        },
                    ),
                }),
            final(self).bullets@ == old(self).bullets@,
            final(self).walls@ == old(self).walls@,
            final(self).step == old(self).step,
            final(self).wf(),
    {
        let n = self.tanks.len();
        let mut j: usize = 0;
        while j < n
            invariant
                j <= n,
                n == self.tanks@.len(),
                self.tanks@.len() == old(self).tanks@.len(),
                self.bullets@ == old(self).bullets@,
                self.walls@ == old(self).walls@,
                self.step == old(self).step,
                old(self).wf(),
                forall|k: int|
                    j <= k < n ==> #[trigger] self.tanks@[k] == old(self).tanks@[k],
                forall|k: int|
                    0 <= k < j ==> #[trigger] self.tanks@[k] == (match old(self).tanks@[k] {
                        Option::None => Option::<Tank>::None,
                        Option::Some(t) => Option::Some(
                            Tank {
                                turret: Turret {
                                    gun: gun_after_tick(t.turret.gun, dt_ms),
                                    ..t.turret
                                },
                                ..t
                            },
                        ),
                    }),
            decreases n - j,
        {
            let slot = &mut self.tanks[j];
            match slot {
                Option::None => {},
                Option::Some(t) => {
                    tick_gun(&mut t.turret, dt_ms);
                },
            }
            j += 1;
        }
    }

    /// The match-end message owed to the player in slot `player`, checked
    /// once per tick: a player whose own tank is gone has lost — even if
    /// both are gone — and a player whose opponents are all gone has won;
    /// otherwise the match goes on.
    pub fn end_game_msg(&self, player: usize) -> (r: Option<Report>)
        requires
            player < self.tanks@.len(),
        ensures
            r == {
                let own = if self.tanks@[player as int] is Some {
                    1int
                } else {
                    0int
                };
                let others = count_live(self.tanks@) - own;
                if own == 0 {
                    Option::Some(Report::Loss)
                } else if others == 0 {
                    Option::Some(Report::Win)
                } else {
                    Option::<Report>::None
                }
            },
    {
        let n = self.tanks.len();
        let mut live: u64 = 0;
        let mut j: usize = 0;
        while j < n
            invariant
                j <= n,
                n == self.tanks@.len(),
                live == count_live(self.tanks@.subrange(0, j as int)),
                live <= j,
            decreases n - j,
        {
            if self.tanks[j].is_some() {
                live = live + 1;
            }
            proof {
                let s = self.tanks@;
                assert(s.subrange(0, j + 1).drop_last() =~= s.subrange(0, j as int));
                assert(s.subrange(0, j + 1).last() == s[j as int]);
            }
            j += 1;
        }
        proof {
            assert(self.tanks@.subrange(0, n as int) =~= self.tanks@);
        }
        let own_alive = self.tanks[player].is_some();
        let own: u64 = if own_alive {
            1
        } else {
            0
        };
        proof {
            lemma_count_live_bounds(self.tanks@, player as int);
        }
        if !own_alive {
            Option::Some(Report::Loss)
        } else if live - own == 0 {
            Option::Some(Report::Win)
        } else {
            Option::None
        }
    }

    /// The headless winner announcement: `-1` when both slots are empty,
    /// the other player's flag when one is empty, nothing while both
    /// tanks live.
    pub fn end_game(&self, flag_1: u32, flag_2: u32) -> (r: Option<i64>)
        requires
            self.tanks@.len() == 2,
        ensures
            r == {
                let alive_1 = self.tanks@[0] is Some;
                let alive_2 = self.tanks@[1] is Some;
                if !alive_1 && !alive_2 {
                    Option::Some(-1i64)
                } else if !alive_1 {
                    Option::Some(flag_2 as i64)
                } else if !alive_2 {
                    Option::Some(flag_1 as i64)
                } else {
                    Option::<i64>::None
                }
            },
    {
        let alive_1 = self.tanks[0].is_some();
        let alive_2 = self.tanks[1].is_some();
        if !alive_1 && !alive_2 {
            Option::Some(-1)
        } else if !alive_1 {
            Option::Some(flag_2 as i64)
        } else if !alive_2 {
            Option::Some(flag_1 as i64)
        } else {
            Option::None
        }
    }
}

/// A live slot contributes exactly one to the live count, which never
/// exceeds the slot count.
proof fn lemma_count_live_bounds(s: Seq<Option<Tank>>, p: int)
    requires
        0 <= p < s.len(),
    ensures
        0 <= count_live(s) <= s.len(),
        s[p] is Some ==> count_live(s) >= 1,
    decreases s.len(),
{
    if s.len() > 0 {
        if p < s.len() - 1 {
            lemma_count_live_bounds(s.drop_last(), p);
        } else {
            if s.len() > 1 {
                lemma_count_live_bounds(s.drop_last(), 0);
            } else {
                assert(s.drop_last().len() == 0);
            }
        }
    }
}

/// One tick of bullet flight stays far within `i64`.
proof fn lemma_bullet_step_bounded(c: int, step_len: int)
    requires
        -crate::geometry::DIR_SCALE <= c <= crate::geometry::DIR_SCALE,
        0 <= step_len <= BULLET_SPEED * MAX_TICK_MS,
    ensures
        -0x40_0000_0000_0000 <= c * step_len <= 0x40_0000_0000_0000,
{
    assert(-0x40_0000_0000_0000 <= c * step_len <= 0x40_0000_0000_0000) by (nonlinear_arith)
        requires
            -65_536 <= c <= 65_536,
            0 <= step_len <= 400_000_000,
    ;
}

} // verus!
