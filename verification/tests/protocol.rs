//! The remote-agent protocol client: action vocabulary, polling
//! decisions, snapshot bodies, and lifecycle flags.

use tank_arena::geometry::Vec2;
use tank_arena::instruction::Instruction;
use tank_arena::server::{
    http_success, parse_action, poll_cycle, update_player_data, PlayerData, PlayerDataSerialized,
    PlayerServer, Report, ServerError,
};
use tank_arena::tank::create_minimal_tank;
use tank_arena::vision::VisionHit;
use tank_arena::wire::{i64_to_string, parse_brain_response, str_eq, u64_to_string};

#[test]
fn action_vocabulary_is_exact() {
    assert_eq!(parse_action("shoot"), Some(Instruction::Shoot));
    assert_eq!(parse_action("move_forward"), Some(Instruction::MoveForward));
    assert_eq!(parse_action("move_backward"), Some(Instruction::MoveBackward));
    assert_eq!(parse_action("rotate_left"), Some(Instruction::RotateLeft));
    assert_eq!(parse_action("rotate_right"), Some(Instruction::RotateRight));
    assert_eq!(parse_action("spin_left"), Some(Instruction::SpinTurretLeft));
    assert_eq!(parse_action("spin_right"), Some(Instruction::SpinTurretRight));
    assert_eq!(parse_action("wait"), None);
    assert_eq!(parse_action("nonsense"), None);
    assert_eq!(parse_action("Shoot"), None);
    assert_eq!(parse_action(""), None);
}

#[test]
fn poll_cycle_produces_at_most_one_instruction() {
    // A scripted decision answer of "shoot" yields exactly one Shoot.
    let shoot = Some((200u16, String::from("{\"action\":\"shoot\"}")));
    assert_eq!(poll_cycle(&shoot), Some(Instruction::Shoot));
    // An unrecognized action yields nothing for the cycle.
    let nonsense = Some((200u16, String::from("{\"action\":\"nonsense\"}")));
    assert_eq!(poll_cycle(&nonsense), None);
    // Failures are recovered locally: no answer, an error status, or a
    // malformed body produce nothing and the loop goes on.
    assert_eq!(poll_cycle(&None), None);
    let error = Some((500u16, String::from("{\"action\":\"shoot\"}")));
    assert_eq!(poll_cycle(&error), None);
    let malformed = Some((200u16, String::from("{\"act\":\"shoot\"}")));
    assert_eq!(poll_cycle(&malformed), None);
    // A body with blank space, as an outside serializer writes it.
    let spaced = Some((200u16, String::from("{\"action\": \"spin_right\"}")));
    assert_eq!(poll_cycle(&spaced), Some(Instruction::SpinTurretRight));
}

#[test]
fn brain_responses_parse_by_shape() {
    assert_eq!(parse_brain_response("{\"action\":\"wait\"}").as_deref(), Some("wait"));
    // Blank space between the tokens, as standard serializers emit it.
    assert_eq!(
        parse_brain_response("{\"action\": \"rotate_left\"}").as_deref(),
        Some("rotate_left"),
    );
    assert_eq!(
        parse_brain_response(" {\n  \"action\" : \"shoot\"\n} ").as_deref(),
        Some("shoot"),
    );
    assert_eq!(parse_brain_response("{\"action\":\"\"}").as_deref(), Some(""));
    assert_eq!(parse_brain_response("{\"action\":\"a\\\"b\"}"), None);
    assert_eq!(parse_brain_response("{\"action\":\"shoot\""), None);
    assert_eq!(parse_brain_response(""), None);
    assert_eq!(parse_brain_response("{}"), None);
}

#[test]
fn strings_and_numbers_render_exactly() {
    assert!(str_eq("abc", "abc"));
    assert!(!str_eq("abc", "abd"));
    assert!(!str_eq("abc", "abcd"));
    assert_eq!(u64_to_string(0), "0");
    assert_eq!(u64_to_string(907), "907");
    assert_eq!(u64_to_string(u64::MAX), "18446744073709551615");
    assert_eq!(i64_to_string(-45), "-45");
    assert_eq!(i64_to_string(12), "12");
}

#[test]
fn snapshot_body_is_compact_json() {
    let mut body = PlayerDataSerialized::new("match-7");
    let snapshot = PlayerData {
        pos: Vec2 { x: -3, y: 25 },
        turret_rot: 270_000,
        turret_vision: vec![None, Some(VisionHit::Enemy(12))],
        hull_vision: vec![Some(VisionHit::Wall(5_000))],
    };
    body.update(&snapshot);
    let json = body.to_json();
    assert_eq!(
        json,
        "{\"game_id\":\"match-7\",\"pos\":{\"x\":-3,\"y\":25},\"turret_rot\":270000,\
         \"turret_vision\":[null,{\"Enemy\":12}],\"hull_vision\":[{\"Wall\":5000}]}"
    );
    // The body is real JSON: an outside parser reads the same values back.
    let value: serde_json::Value = serde_json::from_str(&json).unwrap();
    assert_eq!(value["game_id"], "match-7");
    assert_eq!(value["pos"]["x"], -3);
    assert_eq!(value["pos"]["y"], 25);
    assert_eq!(value["turret_rot"], 270_000);
    assert!(value["turret_vision"][0].is_null());
    assert_eq!(value["turret_vision"][1]["Enemy"], 12);
    assert_eq!(value["hull_vision"][0]["Wall"], 5_000);
}

#[test]
fn snapshot_tagging_keeps_all_fields() {
    let pd = PlayerData {
        pos: Vec2 { x: 8, y: 9 },
        turret_rot: 123,
        turret_vision: vec![Some(VisionHit::Wall(1))],
        hull_vision: vec![None],
    };
    let tagged = PlayerDataSerialized::from((String::from("m"), pd));
    assert_eq!(tagged.game_id, "m");
    assert_eq!(tagged.pos, Vec2 { x: 8, y: 9 });
    assert_eq!(tagged.turret_rot, 123);
    assert_eq!(tagged.turret_vision, vec![Some(VisionHit::Wall(1))]);
    assert_eq!(tagged.hull_vision, vec![None]);
}

#[test]
fn snapshot_drain_keeps_only_the_latest() {
    let mut body = PlayerDataSerialized::new("g");
    let old_rot = body.turret_rot;
    body.apply_updates(&vec![]);
    assert_eq!(body.turret_rot, old_rot);
    let batch = vec![
        PlayerData { pos: Vec2 { x: 1, y: 1 }, turret_rot: 1, turret_vision: vec![], hull_vision: vec![] },
        PlayerData { pos: Vec2 { x: 2, y: 2 }, turret_rot: 2, turret_vision: vec![], hull_vision: vec![] },
        PlayerData { pos: Vec2 { x: 3, y: 4 }, turret_rot: 9, turret_vision: vec![], hull_vision: vec![] },
    ];
    body.apply_updates(&batch);
    assert_eq!(body.pos, Vec2 { x: 3, y: 4 });
    assert_eq!(body.turret_rot, 9);
    assert_eq!(body.game_id, "g");
}

#[test]
fn snapshot_reads_the_tank() {
    let mut tank = create_minimal_tank(10, 20, 0);
    tank.facing = 90_000;
    tank.turret.rot = 200_000;
    let d = update_player_data(&tank);
    assert_eq!(d.pos, Vec2 { x: 10, y: 20 });
    assert_eq!(d.turret_rot, 290_000);
    assert_eq!(d.hull_vision.len(), 8);
    assert_eq!(d.turret_vision.len(), 5);
}

#[test]
fn registration_is_fatal_on_failure() {
    assert!(http_success(200));
    assert!(http_success(299));
    assert!(!http_success(199));
    assert!(!http_success(300));
    assert!(!http_success(500));
    let ok = PlayerServer::new("id-1", 204).unwrap();
    assert_eq!(ok.game_id, "id-1");
    assert!(!ok.kill_flag);
    assert!(!ok.win_cond);
    assert!(matches!(PlayerServer::new("id-1", 403), Err(ServerError::RegistrationFailed)));
}

#[test]
fn termination_reports_the_recorded_outcome() {
    let mut s = PlayerServer::new("id", 200).unwrap();
    assert_eq!(s.termination_report(), None);
    assert!(s.lose());
    assert_eq!(s.termination_report(), Some(Report::Loss));
    let mut w = PlayerServer::new("id", 200).unwrap();
    assert!(w.win());
    assert_eq!(w.termination_report(), Some(Report::Win));
}
