//! The map description and match setup.
//!
//! A map is a read-only grid: dimensions, wall cells, and spawn cells. Setup
//! turns wall cells into world positions, puts the first tank on a randomly
//! chosen spawn point, and puts the second tank on the spawn point farthest
//! from the first (by squared cell distance, first such point winning ties).

use vstd::prelude::*;

use crate::arena::Arena;
use crate::geometry::Vec2;
use crate::tank::{create_minimal_tank, is_minimal_tank, Tank};

verus! {

/// A cell of the map grid.
pub type Coord = (usize, usize);

/// Side length of one wall cell in fine units (32 pixels).
pub const WALL_SIZE: i64 = 32_000 * 65_536;

/// Largest cell coordinate the setup arithmetic accepts; keeps cell-to-world
/// products far within `i64` and within the playable area.
pub const MAX_MAP_CELL: usize = 1_000_000;

/// A game map: grid dimensions, wall cells, and tank spawn cells.
#[derive(Debug, PartialEq, Eq)]
pub struct GameMap {
    pub dim: Coord,
    pub walls: Vec<Coord>,
    pub spawn_points: Vec<Coord>,
}

/// The stages of bringing a match up: load the map description, generate
/// the arena from it, then run.
#[derive(Clone, Copy, Debug, PartialEq, Eq, Structural, Hash)]
pub enum Step {
    LoadMap,
    GenerateMap,
    Finished,
}

impl Default for Step {
    /// A match starts by loading its map.
    fn default() -> (s: Self)
        ensures
            s == Step::LoadMap,
    {
        Step::LoadMap
    }
}

impl GameMap {
    /// All cell coordinates small enough for the setup arithmetic.
    pub open spec fn wf(self) -> bool {
        &&& self.dim.0 <= MAX_MAP_CELL && self.dim.1 <= MAX_MAP_CELL
        &&& forall|i: int|
            0 <= i < self.walls@.len() ==> (#[trigger] self.walls@[i]).0 <= MAX_MAP_CELL
                && self.walls@[i].1 <= MAX_MAP_CELL
        &&& forall|i: int|
            0 <= i < self.spawn_points@.len() ==> (#[trigger] self.spawn_points@[i]).0
                <= MAX_MAP_CELL && self.spawn_points@[i].1 <= MAX_MAP_CELL
    }

    /// The world position of a cell: its coordinates scaled by the wall
    /// size.
    pub open spec fn cell_pos(c: Coord) -> (int, int) {
        (c.0 * WALL_SIZE, c.1 * WALL_SIZE)
    }

    /// World positions of all wall cells, in the map's order.
    pub fn wall_positions(&self) -> (r: Vec<Vec2>)
        requires
            self.wf(),
        ensures
            r@.len() == self.walls@.len(),
            forall|i: int|
                0 <= i < r@.len() ==> #[trigger] r@[i] == (Vec2 {
                    x: Self::cell_pos(self.walls@[i]).0 as i64,
                    y: Self::cell_pos(self.walls@[i]).1 as i64,
                }),
    {
        let mut r: Vec<Vec2> = Vec::new();
        let n = self.walls.len();
        let mut i: usize = 0;
        while i < n
            invariant
                i <= n,
                n == self.walls@.len(),
                self.wf(),
                r@.len() == i,
                forall|j: int|
                    0 <= j < i ==> #[trigger] r@[j] == (Vec2 {
                        x: Self::cell_pos(self.walls@[j]).0 as i64,
                        y: Self::cell_pos(self.walls@[j]).1 as i64,
                    }),
            decreases n - i,
        {
            let (cx, cy) = self.walls[i];
            proof {
                lemma_cell_pos_bounded(cx as int);
                lemma_cell_pos_bounded(cy as int);
            }
            r.push(Vec2 { x: cx as i64 * WALL_SIZE, y: cy as i64 * WALL_SIZE });
            i += 1;
        }
        r
    }
}

/// A cell coordinate within [`MAX_MAP_CELL`] lands within the playable
/// area when scaled to world units.
proof fn lemma_cell_pos_bounded(c: int)
    requires
        0 <= c <= MAX_MAP_CELL,
    ensures
        0 <= c * WALL_SIZE <= crate::geometry::POS_LIMIT,
{
    assert(0 <= c * WALL_SIZE <= 0x20_0000_0000_0000) by (nonlinear_arith)
        requires
            0 <= c <= 1_000_000,
    ;
}

/// Squared distance between two cells, in cells.
pub open spec fn dist2(a: Coord, b: Coord) -> int {
    (a.0 - b.0) * (a.0 - b.0) + (a.1 - b.1) * (a.1 - b.1)
}

/// The left fold that picks the spawn point farthest from `from`: starting
/// at `from` itself with distance zero, every point strictly farther than
/// the best so far replaces it, so the first of several farthest points
/// wins. Returns the chosen point and its squared distance.
pub open spec fn farthest_spawn_spec(pts: Seq<Coord>, from: Coord) -> (Coord, int)
    decreases pts.len(),
{
    if pts.len() == 0 {
        (from, 0)
    } else {
        let acc = farthest_spawn_spec(pts.drop_last(), from);
        let p = pts.last();
        if p != from && dist2(p, from) > acc.1 {
            (p, dist2(p, from))
        } else {
            acc
        }
    }
}

/// The fold's distance is the distance of its chosen point (zero at the
/// start value `from`), and no listed point other than `from` lies
/// farther.
pub proof fn lemma_farthest_spawn_max(pts: Seq<Coord>, from: Coord)
    ensures
        ({
            let acc = farthest_spawn_spec(pts, from);
            &&& acc.1 == if acc.0 == from {
                0int
            } else {
                dist2(acc.0, from)
            }
            &&& acc.0 == from || pts.contains(acc.0)
            &&& forall|i: int|
                0 <= i < pts.len() && pts[i] != from ==> dist2(#[trigger] pts[i], from) <= acc.1
        }),
    decreases pts.len(),
{
    if pts.len() > 0 {
        lemma_farthest_spawn_max(pts.drop_last(), from);
        let prev = pts.drop_last();
        let acc_prev = farthest_spawn_spec(prev, from);
        let acc = farthest_spawn_spec(pts, from);
        assert(forall|i: int| 0 <= i < prev.len() ==> pts[i] == #[trigger] prev[i]);
        assert forall|q: Coord| prev.contains(q) implies pts.contains(q) by {
            let i = choose|i: int| 0 <= i < prev.len() && prev[i] == q;
            assert(pts[i] == q);
        }
        assert(pts.contains(pts.last()));
        assert(acc.1 >= acc_prev.1);
        assert forall|i: int| 0 <= i < pts.len() && pts[i] != from implies dist2(
            #[trigger] pts[i],
            from,
        ) <= acc.1 by {
            if i < pts.len() - 1 {
                assert(pts[i] == prev[i]);
                assert(dist2(prev[i], from) <= acc_prev.1);
            } else {
                assert(pts[i] == pts.last());
            }
        }
    }
}

/// Pick the spawn point farthest from `from`, exactly as the setup fold
/// does.
pub fn farthest_spawn(map: &GameMap, from: (usize, usize)) -> (r: (usize, usize))
    requires
        map.wf(),
        from.0 <= MAX_MAP_CELL,
        from.1 <= MAX_MAP_CELL,
    ensures
        r == farthest_spawn_spec(map.spawn_points@, from).0,
{
    let n = map.spawn_points.len();
    let mut best: (usize, usize) = from;
    let mut best_d: i64 = 0;
    let mut i: usize = 0;
    while i < n
        invariant
            i <= n,
            n == map.spawn_points@.len(),
            map.wf(),
            from.0 <= MAX_MAP_CELL,
            from.1 <= MAX_MAP_CELL,
            (best, best_d as int) == farthest_spawn_spec(map.spawn_points@.subrange(0, i as int), from),
        decreases n - i,
    {
        let p = map.spawn_points[i];
        let dx = p.0 as i64 - from.0 as i64;
        let dy = p.1 as i64 - from.1 as i64;
        proof {
            lemma_dist2_bounded(dx as int, dy as int);
        }
        let d = dx * dx + dy * dy;
        if (p.0 != from.0 || p.1 != from.1) && d > best_d {
            best = p;
            best_d = d;
        }
        proof {
            let pts = map.spawn_points@;
            assert(pts.subrange(0, i + 1).drop_last() =~= pts.subrange(0, i as int));
            assert(pts.subrange(0, i + 1).last() == pts[i as int]);
        }
        i += 1;
    }
    proof {
        assert(map.spawn_points@.subrange(0, n as int) =~= map.spawn_points@);
    }
    best
}

/// Cell differences square and sum without overflow.
proof fn lemma_dist2_bounded(dx: int, dy: int)
    requires
        -(MAX_MAP_CELL as int) <= dx <= MAX_MAP_CELL,
        -(MAX_MAP_CELL as int) <= dy <= MAX_MAP_CELL,
    ensures
        0 <= dx * dx <= 0x4_0000_0000_0000,
        0 <= dy * dy <= 0x4_0000_0000_0000,
{
    assert(0 <= dx * dx <= 0x4_0000_0000_0000 && 0 <= dy * dy <= 0x4_0000_0000_0000)
        by (nonlinear_arith)
        requires
            -1_000_000 <= dx <= 1_000_000,
            -1_000_000 <= dy <= 1_000_000,
    ;
}

/// Relies on rand::random: an arbitrary value of the asked-for type; the
/// contract promises nothing about which one.
pub assume_specification<T>[ rand::random::<T> ]() -> (r: T)
    where
        rand::distributions::Standard: rand::distributions::Distribution<T>,
;

/// Set up a match from a map: its walls placed in the world, the first tank
/// (team 0) on a randomly drawn spawn point, the second (team 1) on the
/// spawn point farthest from it, no bullets, and the setup flow finished.
pub fn generate_minimal_map(map: &GameMap) -> (a: Arena)
    requires
        map.wf(),
        map.spawn_points@.len() > 0,
    ensures
        a.step == Step::Finished,
        a.bullets@.len() == 0,
        a.walls@.len() == map.walls@.len(),
        forall|i: int|
            0 <= i < a.walls@.len() ==> #[trigger] a.walls@[i] == (Vec2 {
                x: GameMap::cell_pos(map.walls@[i]).0 as i64,
                y: GameMap::cell_pos(map.walls@[i]).1 as i64,
            }),
        a.tanks@.len() == 2,
        exists|i: int|
            #![trigger map.spawn_points@[i]]
            0 <= i < map.spawn_points@.len() && {
                let p1 = map.spawn_points@[i];
                let p2 = farthest_spawn_spec(map.spawn_points@, p1).0;
                &&& a.tanks@[0] matches Option::Some(t0) && is_minimal_tank(
                    t0,
                    GameMap::cell_pos(p1).0 as i64,
                    GameMap::cell_pos(p1).1 as i64,
                    0,
                )
                &&& a.tanks@[1] matches Option::Some(t1) && is_minimal_tank(
                    t1,
                    GameMap::cell_pos(p2).0 as i64,
                    GameMap::cell_pos(p2).1 as i64,
                    1,
                )
            },
        a.wf(),
{
    let walls = map.wall_positions();
    let n = map.spawn_points.len();
    let draw: usize = rand::random();
    let idx = draw % n;
    let p1 = map.spawn_points[idx];
    let p2 = farthest_spawn(map, p1);
    proof {
        lemma_farthest_spawn_max(map.spawn_points@, p1);
        if farthest_spawn_spec(map.spawn_points@, p1).0 != p1 {
            let pts = map.spawn_points@;
            let q = farthest_spawn_spec(pts, p1).0;
            assert(pts.contains(q));
        }
        lemma_cell_pos_bounded(p1.0 as int);
        lemma_cell_pos_bounded(p1.1 as int);
        lemma_cell_pos_bounded(p2.0 as int);
        lemma_cell_pos_bounded(p2.1 as int);
    }
    let t0: Tank = create_minimal_tank(p1.0 as i64 * WALL_SIZE, p1.1 as i64 * WALL_SIZE, 0);
    let t1: Tank = create_minimal_tank(p2.0 as i64 * WALL_SIZE, p2.1 as i64 * WALL_SIZE, 1);
    let mut tanks: Vec<Option<Tank>> = Vec::new();
    tanks.push(Option::Some(t0));
    tanks.push(Option::Some(t1));
    let a = Arena { step: Step::Finished, walls, tanks, bullets: Vec::new() };
    proof {
        assert(0 <= idx < map.spawn_points@.len());
    }
    a
}

} // verus!
