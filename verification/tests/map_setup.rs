//! Map documents, spawn selection, and match setup.

use tank_arena::geometry::Vec2;
use tank_arena::key_board::{keyboard_input, PlayerKeyBind};
use tank_arena::map::{farthest_spawn, generate_minimal_map, GameMap, Step, WALL_SIZE};
use tank_arena::map_loader::{MapLoader, MapLoaderError};
use tank_arena::player::{Key, PlayerController, PlayerID};
use tank_arena::instruction::Instruction;

fn load(text: &str) -> Result<GameMap, MapLoaderError> {
    MapLoader.load(&text.as_bytes().to_vec())
}

#[test]
fn canonical_map_document_parses() {
    let gm = load("(dim: (4, 3), walls: [(0, 0), (1, 2)], spawn_points: [(1, 1), (3, 2)])")
        .unwrap();
    assert_eq!(gm.dim, (4, 3));
    assert_eq!(gm.walls, vec![(0, 0), (1, 2)]);
    assert_eq!(gm.spawn_points, vec![(1, 1), (3, 2)]);
}

#[test]
fn map_document_shape_is_flexible() {
    // A struct name, newlines, trailing commas, and empty lists all
    // belong to the format.
    let text = "GameMap (\n  dim: (10,10),\n  walls: [\n    (2,2),\n  ],\n  spawn_points: [],\n)\n";
    let gm = load(text).unwrap();
    assert_eq!(gm.dim, (10, 10));
    assert_eq!(gm.walls, vec![(2, 2)]);
    assert!(gm.spawn_points.is_empty());
}

#[test]
fn bad_map_documents_are_parsing_errors() {
    assert_eq!(load(""), Err(MapLoaderError::ParsingError));
    assert_eq!(load("(dim: (1, 1), walls: [])"), Err(MapLoaderError::ParsingError));
    assert_eq!(
        load("(dim: (1, 1), spawn_points: [], walls: [])"),
        Err(MapLoaderError::ParsingError),
    );
    // Cell numbers are bounded: eight digits or a value beyond the cell
    // limit are refused.
    assert_eq!(
        load("(dim: (12345678, 1), walls: [], spawn_points: [])"),
        Err(MapLoaderError::ParsingError),
    );
    assert_eq!(
        load("(dim: (1000001, 1), walls: [], spawn_points: [])"),
        Err(MapLoaderError::ParsingError),
    );
    // Nothing may follow the closing parenthesis but blank space.
    assert_eq!(
        load("(dim: (1, 1), walls: [], spawn_points: []) x"),
        Err(MapLoaderError::ParsingError),
    );
    assert_eq!(MapLoader.extensions(), "ron");
}

#[test]
fn farthest_spawn_maximizes_distance_first_wins() {
    let gm = GameMap {
        dim: (10, 10),
        walls: vec![],
        spawn_points: vec![(0, 0), (5, 5), (9, 1), (5, 5)],
    };
    // (5,5) is 50 cells squared away, (9,1) is 82: the farthest wins.
    assert_eq!(farthest_spawn(&gm, (0, 0)), (9, 1));
    // Ties keep the earlier point: both (5,5) are equally far from (9,1)
    // as each other; the first stays.
    let gm2 = GameMap { dim: (10, 10), walls: vec![], spawn_points: vec![(1, 0), (0, 1)] };
    assert_eq!(farthest_spawn(&gm2, (0, 0)), (1, 0));
    // With no other point, the start itself is the answer.
    let gm3 = GameMap { dim: (10, 10), walls: vec![], spawn_points: vec![(3, 3)] };
    assert_eq!(farthest_spawn(&gm3, (3, 3)), (3, 3));
}

#[test]
fn setup_places_walls_and_both_tanks() {
    let gm = GameMap {
        dim: (8, 8),
        walls: vec![(1, 0), (0, 2)],
        spawn_points: vec![(0, 0), (7, 7)],
    };
    let arena = generate_minimal_map(&gm);
    assert_eq!(arena.step, Step::Finished);
    assert!(arena.bullets.is_empty());
    assert_eq!(arena.walls, vec![
        Vec2 { x: WALL_SIZE, y: 0 },
        Vec2 { x: 0, y: 2 * WALL_SIZE },
    ]);
    assert_eq!(arena.tanks.len(), 2);
    let t0 = arena.tanks[0].as_ref().unwrap();
    let t1 = arena.tanks[1].as_ref().unwrap();
    assert_eq!(t0.team_id, 0);
    assert_eq!(t1.team_id, 1);
    // The first tank stands on one of the spawn points; the second on the
    // point farthest from it, which here is always the other one.
    let corners = [
        Vec2 { x: 0, y: 0 },
        Vec2 { x: 7 * WALL_SIZE, y: 7 * WALL_SIZE },
    ];
    assert!(corners.contains(&t0.pos));
    assert!(corners.contains(&t1.pos));
    assert_ne!(t0.pos, t1.pos);
    assert_eq!(t0.hull_vision.rays.len(), 8);
    assert_eq!(t0.turret_vision.rays.len(), 5);
}

#[test]
fn keyboard_mapping_fires_while_held() {
    let wasd = PlayerController::wasd();
    let bind = PlayerKeyBind::from(&wasd);
    let held = vec![Key::KeyW, Key::KeyD, Key::Space];
    assert_eq!(
        keyboard_input(&bind, &held),
        vec![Instruction::MoveForward, Instruction::RotateLeft, Instruction::Shoot],
    );
    // Forward wins over backward when both are held.
    let both = vec![Key::KeyW, Key::KeyS];
    assert_eq!(keyboard_input(&bind, &both), vec![Instruction::MoveForward]);
    assert_eq!(keyboard_input(&bind, &vec![]), vec![]);
    // The same keys mean nothing under the arrow binding.
    let arrow_bind = PlayerKeyBind::from(&PlayerController::arrow());
    assert_eq!(keyboard_input(&arrow_bind, &held), vec![]);
    let _ = PlayerID(1);
}
