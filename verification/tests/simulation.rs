//! Motion, gun, vision, and arena behaviour on concrete values.

use tank_arena::arena::{Arena, ArenaError, BulletHit};
use tank_arena::bullet::{create_bullet_minimal, Bullet, BULLET_MAX_TRAVEL, BULLET_SPEED};
use tank_arena::geometry::{add_angle, sub_angle, Vec2, DIR_SCALE};
use tank_arena::instruction::{
    instruction_query, new_move_pos, process_tank_instruction, rotation_candidate, spin_turret,
    update_rotation, Instruction, QueryAnswer, QueryRequest,
};
use tank_arena::map::{Step, WALL_SIZE};
use tank_arena::server::{PlayerServer, Report};
use tank_arena::tank::{create_minimal_tank, tick_gun, GunState, Turret, RELOAD_TIME_MS, TANK_SIZE};
use tank_arena::vision::{
    update_tank_vision_ray, update_turret_vision_ray, CastHit, VisionHit, VisionRay,
    HULL_RAY_MAX_DIST, NUM_OF_HULL_RAY,
};

#[test]
fn angles_wrap_around_the_turn() {
    assert_eq!(add_angle(350_000, 20_000), 10_000);
    assert_eq!(sub_angle(10_000, 20_000), 350_000);
    assert_eq!(add_angle(0, 720_000_000), 0);
    assert_eq!(sub_angle(0, 90), 359_910);
}

#[test]
fn blocked_rotation_keeps_the_orientation() {
    // A rotation that would overlap another collider is rejected whole.
    let mut tank = create_minimal_tank(0, 0, 0);
    let cand = rotation_candidate(&tank, false, 500);
    assert_eq!(cand, 45_000);
    update_rotation(&mut tank, false, 500, true);
    assert_eq!(tank.facing, 0);
    // The same rotation with free space around turns exactly to the
    // candidate.
    update_rotation(&mut tank, false, 500, false);
    assert_eq!(tank.facing, 45_000);
    update_rotation(&mut tank, true, 1000, false);
    assert_eq!(tank.facing, 315_000);
}

#[test]
fn move_stops_exactly_at_the_impact() {
    // Swept query reports an impact at 30000 milli of the 100000 the move
    // asked for: the tank stops exactly there.
    let start = Vec2 { x: 0, y: 0 };
    let up = Vec2 { x: 0, y: DIR_SCALE };
    let hit = new_move_pos(start, up, 1000, Some(30_000));
    assert_eq!(hit.x, 0);
    assert_eq!(hit.y, 30_000 * DIR_SCALE);
    // No impact: the full displacement of 100 milli per millisecond.
    let free = new_move_pos(start, up, 1000, None);
    assert_eq!(free.y, 100_000 * DIR_SCALE);
    // An impact reported beyond the travel distance does not matter.
    let far = new_move_pos(start, up, 1000, Some(200_000));
    assert_eq!(far.y, 100_000 * DIR_SCALE);
}

#[test]
fn reloading_gun_ignores_shoot() {
    let mut tank = create_minimal_tank(0, 0, 0);
    // First shot fires and starts the reload.
    let first = tank.shoot(0);
    assert!(first.is_some());
    assert_eq!(tank.turret.gun, GunState::Reload(RELOAD_TIME_MS));
    // Repeated shots during the reload are dropped silently.
    assert!(tank.shoot(0).is_none());
    tick_gun(&mut tank.turret, 400);
    assert!(tank.shoot(0).is_none());
    tick_gun(&mut tank.turret, 400);
    assert!(tank.shoot(0).is_none());
    assert_eq!(tank.turret.gun, GunState::Reload(200));
    // Once the reload time has elapsed the gun is ready again.
    tick_gun(&mut tank.turret, 200);
    assert_eq!(tank.turret.gun, GunState::Ready);
    assert!(tank.shoot(0).is_some());
}

#[test]
fn shot_spawns_at_hull_along_turret() {
    let mut tank = create_minimal_tank(7 * DIR_SCALE, -3 * DIR_SCALE, 1);
    spin_turret(&mut tank, false, 1000);
    assert_eq!(tank.turret.rot, 270_000);
    let nb = tank.shoot(1).unwrap();
    assert_eq!(nb.start_pos, Vec2 { x: 7 * DIR_SCALE, y: -3 * DIR_SCALE });
    assert_eq!(nb.dir, 270_000);
    assert_eq!(nb.source, 1);
}

#[test]
fn dispatcher_matches_each_instruction() {
    let mut tank = create_minimal_tank(0, 0, 0);
    let q = instruction_query(&tank, Instruction::RotateRight, 100);
    assert_eq!(q, QueryRequest::RotationCheck { angle: 9_000 });
    let q = instruction_query(&tank, Instruction::MoveForward, 100);
    assert_eq!(q, QueryRequest::MoveSweep { backward: false, dist: 10_000 });
    let q = instruction_query(&tank, Instruction::Shoot, 100);
    assert_eq!(q, QueryRequest::Nothing);

    let shot = process_tank_instruction(
        &mut tank,
        0,
        Instruction::RotateRight,
        100,
        QueryAnswer::RotationCheck { blocked: false },
    );
    assert!(shot.is_none());
    assert_eq!(tank.facing, 9_000);

    let up = Vec2 { x: 0, y: DIR_SCALE };
    process_tank_instruction(
        &mut tank,
        0,
        Instruction::MoveForward,
        100,
        QueryAnswer::MoveSweep { dir: up, hit: None },
    );
    assert_eq!(tank.pos.y, 10_000 * DIR_SCALE);

    process_tank_instruction(&mut tank, 0, Instruction::SpinTurretLeft, 100, QueryAnswer::NoQuery);
    assert_eq!(tank.turret.rot, 333_000);

    let shot = process_tank_instruction(&mut tank, 0, Instruction::Shoot, 100, QueryAnswer::NoQuery);
    assert!(shot.is_some());
    let shot = process_tank_instruction(&mut tank, 0, Instruction::Shoot, 100, QueryAnswer::NoQuery);
    assert!(shot.is_none());
}

#[test]
fn dispatcher_rejects_blocked_rotation_whole() {
    let mut tank = create_minimal_tank(0, 0, 0);
    let before = tank.facing;
    let shot = process_tank_instruction(
        &mut tank,
        0,
        Instruction::RotateLeft,
        700,
        QueryAnswer::RotationCheck { blocked: true },
    );
    assert!(shot.is_none());
    assert_eq!(tank.facing, before);
}

#[test]
fn vision_with_no_obstacles_reports_no_hits() {
    // Eight rays over the full turn, nothing within range: eight times no
    // hit.
    let mut sensor = VisionRay::new(NUM_OF_HULL_RAY, HULL_RAY_MAX_DIST, 45_000, 0);
    let casts: Vec<Option<CastHit>> = vec![None; NUM_OF_HULL_RAY];
    sensor.update_from_casts(&casts).unwrap();
    assert_eq!(sensor.rays.len(), 8);
    for r in &sensor.rays {
        assert!(r.is_none());
    }
}

#[test]
fn vision_reports_wall_on_the_aligned_ray() {
    // A wall straight ahead at 5000 milli, nothing else: the forward ray
    // reports the wall at that distance, every other ray reports no hit.
    let mut sensor = VisionRay::new(NUM_OF_HULL_RAY, HULL_RAY_MAX_DIST, 45_000, 0);
    let dirs = sensor.ray_directions(0);
    assert_eq!(dirs, vec![0, 45_000, 90_000, 135_000, 180_000, 225_000, 270_000, 315_000]);
    let mut casts: Vec<Option<CastHit>> = vec![None; NUM_OF_HULL_RAY];
    casts[0] = Some(CastHit { dist: 5_000, hit_tank: false, hit_wall: true });
    sensor.update_from_casts(&casts).unwrap();
    assert_eq!(sensor.rays[0], Some(VisionHit::Wall(5_000)));
    for r in &sensor.rays[1..] {
        assert!(r.is_none());
    }
}

#[test]
fn tank_sensors_update_independently() {
    let mut tank = create_minimal_tank(0, 0, 0);
    let mut hull_casts: Vec<Option<CastHit>> = vec![None; 8];
    hull_casts[3] = Some(CastHit { dist: 9_000, hit_tank: true, hit_wall: false });
    update_tank_vision_ray(&mut tank, &hull_casts).unwrap();
    assert_eq!(tank.hull_vision.rays[3], Some(VisionHit::Enemy(9_000)));
    assert!(tank.turret_vision.rays.iter().all(|r| r.is_none()));

    let mut turret_casts: Vec<Option<CastHit>> = vec![None; 5];
    turret_casts[2] = Some(CastHit { dist: 40_000, hit_tank: false, hit_wall: true });
    update_turret_vision_ray(&mut tank, &turret_casts).unwrap();
    assert_eq!(tank.turret_vision.rays[2], Some(VisionHit::Wall(40_000)));
    assert_eq!(tank.hull_vision.rays[3], Some(VisionHit::Enemy(9_000)));
}

#[test]
fn vision_classifies_enemy_and_rejects_ambiguity() {
    let mut sensor = VisionRay::new(2, HULL_RAY_MAX_DIST, 180_000, 0);
    let casts = vec![
        Some(CastHit { dist: 700, hit_tank: true, hit_wall: false }),
        None,
    ];
    sensor.update_from_casts(&casts).unwrap();
    assert_eq!(sensor.rays[0], Some(VisionHit::Enemy(700)));
    // A collider listed as both tank and wall is a fatal invariant
    // violation, and the sensor keeps its previous report.
    let bad = vec![
        Some(CastHit { dist: 1, hit_tank: true, hit_wall: true }),
        None,
    ];
    assert!(sensor.update_from_casts(&bad).is_err());
    assert_eq!(sensor.rays[0], Some(VisionHit::Enemy(700)));
}

#[test]
fn bullets_advance_and_retire() {
    let mut arena = Arena { step: Step::Finished, walls: vec![], tanks: vec![], bullets: vec![] };
    let right = Vec2 { x: DIR_SCALE, y: 0 };
    arena.bullets.push(Bullet { owner: 0, pos: Vec2 { x: 0, y: 0 }, dir: right, travel: 0 });
    arena.update_bullet_pos(100);
    // 400 milli per millisecond for 100 milliseconds.
    assert_eq!(arena.bullets[0].pos.x, 40_000 * DIR_SCALE);
    assert_eq!(arena.bullets[0].travel, 40_000);
    // A bullet that exhausts its travel bound is retired.
    arena.bullets[0].travel = BULLET_MAX_TRAVEL - BULLET_SPEED * 10 + 1;
    arena.update_bullet_pos(10);
    assert!(arena.bullets.is_empty());
}

#[test]
fn bullet_hits_resolve_walls_tanks_and_violations() {
    let mut arena = Arena {
        step: Step::Finished,
        walls: vec![],
        tanks: vec![
            Some(create_minimal_tank(0, 0, 0)),
            Some(create_minimal_tank(100, 0, 1)),
        ],
        bullets: vec![],
    };
    let right = Vec2 { x: DIR_SCALE, y: 0 };
    arena.bullets.push(Bullet { owner: 0, pos: Vec2 { x: 0, y: 0 }, dir: right, travel: 0 });
    arena.bullets.push(Bullet { owner: 1, pos: Vec2 { x: 50, y: 0 }, dir: right, travel: 0 });

    // An unclassifiable hit aborts the pass and changes nothing.
    let bad = vec![Some(BulletHit { is_wall: true, tank: Some(1) }), None];
    assert_eq!(arena.bullet_collision(&bad), Err(ArenaError::UnclassifiedHit));
    assert_eq!(arena.bullets.len(), 2);
    assert!(arena.tanks[1].is_some());

    // A wall hit destroys the bullet alone; a tank hit destroys tank and
    // bullet, and the turret goes with its tank.
    let hits = vec![
        Some(BulletHit { is_wall: true, tank: None }),
        Some(BulletHit { is_wall: false, tank: Some(0) }),
    ];
    arena.bullet_collision(&hits).unwrap();
    assert!(arena.bullets.is_empty());
    assert!(arena.tanks[0].is_none());
    assert!(arena.tanks[1].is_some());
}

#[test]
fn reload_ticks_every_turret() {
    let mut arena = Arena {
        step: Step::Finished,
        walls: vec![],
        tanks: vec![Some(create_minimal_tank(0, 0, 0)), None],
        bullets: vec![],
    };
    if let Some(t) = arena.tanks[0].as_mut() {
        t.turret = Turret { gun: GunState::Reload(300), rot: 5_000 };
    }
    arena.reload_gun(200);
    assert_eq!(arena.tanks[0].as_ref().unwrap().turret.gun, GunState::Reload(100));
    arena.reload_gun(200);
    assert_eq!(arena.tanks[0].as_ref().unwrap().turret.gun, GunState::Ready);
    assert_eq!(arena.tanks[0].as_ref().unwrap().turret.rot, 5_000);
    assert!(arena.tanks[1].is_none());
}

#[test]
fn match_end_reports_by_player() {
    let alive = || Some(create_minimal_tank(0, 0, 0));
    let both = Arena { step: Step::Finished, walls: vec![], tanks: vec![alive(), alive()], bullets: vec![] };
    assert_eq!(both.end_game_msg(0), None);
    assert_eq!(both.end_game(0, 1), None);

    let second_down = Arena { step: Step::Finished, walls: vec![], tanks: vec![alive(), None], bullets: vec![] };
    assert_eq!(second_down.end_game_msg(0), Some(Report::Win));
    assert_eq!(second_down.end_game_msg(1), Some(Report::Loss));
    assert_eq!(second_down.end_game(0, 1), Some(0));

    let all_down = Arena { step: Step::Finished, walls: vec![], tanks: vec![None, None], bullets: vec![] };
    // A player with no tank left has lost, even when the opponent is gone
    // too.
    assert_eq!(all_down.end_game_msg(0), Some(Report::Loss));
    assert_eq!(all_down.end_game(0, 1), Some(-1));
}

/// How the spatial collaborator of these tests answers a bullet's overlap
/// query: a bullet touches a tank when it comes within half the tank's
/// size plus the bullet's radius (7 pixels) on both axes.
fn bullet_overlap_oracle(arena: &Arena, b: &Bullet) -> Option<BulletHit> {
    let reach = ((TANK_SIZE / 2 + 7_000) as i64) * DIR_SCALE;
    for (j, slot) in arena.tanks.iter().enumerate() {
        if j == b.owner {
            continue;
        }
        if let Some(t) = slot {
            if (b.pos.x - t.pos.x).abs() <= reach && (b.pos.y - t.pos.y).abs() <= reach {
                return Some(BulletHit { is_wall: false, tank: Some(j) });
            }
        }
    }
    None
}

#[test]
fn direct_shot_ends_the_match() {
    // Two tanks five cells apart on one row, no walls between them. Tank 0
    // aims straight at tank 1, fires, and the bullet's travel time later
    // the target and its turret are gone and both clients observe the
    // match end at their next termination check.
    let mut arena = Arena {
        step: Step::Finished,
        walls: vec![],
        tanks: vec![
            Some(create_minimal_tank(0, 0, 0)),
            Some(create_minimal_tank(5 * WALL_SIZE, 0, 1)),
        ],
        bullets: vec![],
    };
    let mut winner = PlayerServer::new("g-0", 200).unwrap();
    let mut loser = PlayerServer::new("g-1", 200).unwrap();

    // Point tank 0's turret along +x: one second of spinning right.
    let t0 = arena.tanks[0].as_mut().unwrap();
    spin_turret(t0, false, 1000);
    assert_eq!(t0.turret_world_rot(), 270_000);
    let nb = t0.shoot(0).unwrap();
    // The collaborator turns the 270-degree world angle into the +x unit
    // direction.
    let bullet = create_bullet_minimal(&nb, Vec2 { x: DIR_SCALE, y: 0 });
    arena.bullets.push(bullet);

    let mut ended = false;
    for _tick in 0..100 {
        arena.update_bullet_pos(100);
        let hits: Vec<Option<BulletHit>> =
            arena.bullets.iter().map(|b| bullet_overlap_oracle(&arena, b)).collect();
        arena.bullet_collision(&hits).unwrap();
        match (arena.end_game_msg(0), arena.end_game_msg(1)) {
            (Some(Report::Win), Some(Report::Loss)) => {
                winner.win();
                loser.lose();
                ended = true;
                break;
            }
            (None, None) => {}
            other => panic!("unexpected match state: {:?}", other),
        }
    }
    assert!(ended, "the bullet never reached its target");
    assert!(arena.tanks[1].is_none());
    assert!(arena.tanks[0].is_some());
    assert!(arena.bullets.is_empty());
    assert_eq!(winner.termination_report(), Some(Report::Win));
    assert_eq!(loser.termination_report(), Some(Report::Loss));
}
