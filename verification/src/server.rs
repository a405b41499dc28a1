//! The remote-agent protocol client, modelled as plain state and decisions.
//!
//! The outside world around this module is a background thread doing
//! blocking HTTP: it registers the match, then repeatedly sends the latest
//! sensor snapshot to the decision endpoint and maps the answer to at most
//! one instruction, and finally reports the outcome once the termination
//! flag is set. Everything that *decides* lives here with a contract; the
//! thread, the channels and the HTTP calls stay outside.

use vstd::prelude::*;

use crate::geometry::Vec2;
use crate::instruction::Instruction;
use crate::vision::{VisionHit, NUM_OF_HULL_RAY, NUM_OF_TURRET_RAY};
use crate::wire::{
    spec_hits_json, spec_i64_chars, spec_parse_brain, spec_u64_chars, str_eq,
};

verus! {

/// The outcome reported to the remote service when the match ends.
#[derive(Clone, Copy, Debug, PartialEq, Eq, Structural)]
pub enum Report {
    Win,
    Loss,
}

/// Match registration was refused by the remote service; fatal at
/// construction.
#[derive(Clone, Copy, Debug, PartialEq, Eq, Structural)]
pub enum ServerError {
    RegistrationFailed,
}

/// One sensor snapshot of a tank, as handed from the simulation to the
/// polling loop: hull position (fine units), turret world orientation
/// (millidegrees), and both vision-ray reports.
#[derive(Clone, Debug)]
pub struct PlayerData {
    pub pos: Vec2,
    pub turret_rot: u32,
    pub turret_vision: Vec<Option<VisionHit>>,
    pub hull_vision: Vec<Option<VisionHit>>,
}

/// Copy a vision report; its entries are plain values.
fn copy_hits(v: &Vec<Option<VisionHit>>) -> (r: Vec<Option<VisionHit>>)
    ensures
        r@ == v@,
{
    let mut r: Vec<Option<VisionHit>> = Vec::new();
    let n = v.len();
    let mut i: usize = 0;
    while i < n
        invariant
            i <= n,
            n == v@.len(),
            r@ == v@.subrange(0, i as int),
        decreases n - i,
    {
        r.push(v[i]);
        proof {
            assert(r@ =~= v@.subrange(0, i + 1));
        }
        i += 1;
    }
    proof {
        assert(v@.subrange(0, n as int) =~= v@);
    }
    r
}

/// A vision report of `n` empty rays.
fn none_hits(n: usize) -> (r: Vec<Option<VisionHit>>)
    ensures
        r@.len() == n,
        forall|i: int| 0 <= i < n ==> r@[i] is None,
{
    let mut r: Vec<Option<VisionHit>> = Vec::new();
    let mut i: usize = 0;
    while i < n
        invariant
            i <= n,
            r@.len() == i,
            forall|j: int| 0 <= j < i ==> r@[j] is None,
        decreases n - i,
    {
        r.push(Option::None);
        i += 1;
    }
    r
}

impl Default for PlayerData {
    /// The snapshot before the first real one: origin position, turret
    /// straight up, both sensors empty at their configured ray counts.
    fn default() -> (d: Self)
        ensures
            d.pos == (Vec2 { x: 0i64, y: 0i64 }),
            d.turret_rot == 0,
            d.turret_vision@.len() == NUM_OF_TURRET_RAY,
            forall|i: int| 0 <= i < d.turret_vision@.len() ==> d.turret_vision@[i] is None,
            d.hull_vision@.len() == NUM_OF_HULL_RAY,
            forall|i: int| 0 <= i < d.hull_vision@.len() ==> d.hull_vision@[i] is None,
    {
        PlayerData {
            pos: Vec2 { x: 0, y: 0 },
            turret_rot: 0,
            turret_vision: none_hits(NUM_OF_TURRET_RAY),
            hull_vision: none_hits(NUM_OF_HULL_RAY),
        }
    }
}

/// Build the snapshot of a tank for the polling loop: its position, its
/// turret's world orientation, and copies of both vision reports.
pub fn update_player_data(tank: &crate::tank::Tank) -> (d: PlayerData)
    requires
        tank.wf(),
    ensures
        d.pos == tank.pos,
        d.turret_rot == tank.spec_turret_world_rot(),
        d.turret_vision@ == tank.turret_vision.rays@,
        d.hull_vision@ == tank.hull_vision.rays@,
{
    PlayerData {
        pos: tank.pos,
        turret_rot: tank.turret_world_rot(),
        turret_vision: copy_hits(&tank.turret_vision.rays),
        hull_vision: copy_hits(&tank.hull_vision.rays),
    }
}

/// The request body the polling loop keeps up to date: the match identifier
/// together with the most recent snapshot.
#[derive(Clone, Debug)]
pub struct PlayerDataSerialized {
    pub game_id: String,
    pub pos: Vec2,
    pub turret_rot: u32,
    pub turret_vision: Vec<Option<VisionHit>>,
    pub hull_vision: Vec<Option<VisionHit>>,
}

impl PlayerDataSerialized {
    /// The body before any snapshot arrived: the default snapshot tagged
    /// with the match identifier.
    pub fn new(game_id: &str) -> (s: Self)
        ensures
            s.game_id@ == game_id@,
            s.pos == (Vec2 { x: 0i64, y: 0i64 }),
            s.turret_rot == 0,
            s.turret_vision@.len() == NUM_OF_TURRET_RAY,
            forall|i: int| 0 <= i < s.turret_vision@.len() ==> s.turret_vision@[i] is None,
            s.hull_vision@.len() == NUM_OF_HULL_RAY,
            forall|i: int| 0 <= i < s.hull_vision@.len() ==> s.hull_vision@[i] is None,
    {
        let d = PlayerData::default();
        PlayerDataSerialized {
            game_id: game_id.to_owned(),
            pos: d.pos,
            turret_rot: d.turret_rot,
            turret_vision: d.turret_vision,
            hull_vision: d.hull_vision,
        }
    }

    /// Replace the carried snapshot; the match identifier stays.
    pub fn update(&mut self, player_data: &PlayerData)
        ensures
            final(self).game_id@ == old(self).game_id@,
            final(self).pos == player_data.pos,
            final(self).turret_rot == player_data.turret_rot,
            final(self).turret_vision@ == player_data.turret_vision@,
            final(self).hull_vision@ == player_data.hull_vision@,
    {
        self.pos = player_data.pos;
        self.turret_rot = player_data.turret_rot;
        self.turret_vision = copy_hits(&player_data.turret_vision);
        self.hull_vision = copy_hits(&player_data.hull_vision);
    }

    /// Serialize this body as the decision endpoint's request JSON, per
    /// [`spec_player_data_json`]: the match identifier (emitted verbatim),
    /// the position in fine units, the turret's world orientation in
    /// millidegrees, and both vision reports.
    pub fn to_json(&self) -> (s: String)
        requires
            self.pos.x > i64::MIN,
            self.pos.y > i64::MIN,
        ensures
            s@ == spec_player_data_json(*self),
    {
        let mut s = String::from_str("{\"game_id\":\"");
        s.append(self.game_id.as_str());
        s.append("\",\"pos\":{\"x\":");
        s.append(crate::wire::i64_to_string(self.pos.x).as_str());
        s.append(",\"y\":");
        s.append(crate::wire::i64_to_string(self.pos.y).as_str());
        s.append("},\"turret_rot\":");
        s.append(crate::wire::u64_to_string(self.turret_rot as u64).as_str());
        s.append(",\"turret_vision\":");
        s.append(crate::wire::hits_json(&self.turret_vision).as_str());
        s.append(",\"hull_vision\":");
        s.append(crate::wire::hits_json(&self.hull_vision).as_str());
        s.append("}");
        proof {
            assert(s@ =~= spec_player_data_json(*self));
        }
        s
    }

    /// Drain a batch of snapshots, keeping only the most recent: after the
    /// call the body carries the last snapshot of the batch, or stays as it
    /// was when the batch is empty. Older snapshots are discarded, so the
    /// remote service always reasons about fresh state.
    pub fn apply_updates(&mut self, batch: &Vec<PlayerData>)
        ensures
            final(self).game_id@ == old(self).game_id@,
            batch@.len() == 0 ==> *final(self) == *old(self),
            batch@.len() > 0 ==> {
                let last = batch@[batch@.len() - 1];
                &&& final(self).pos == last.pos
                &&& final(self).turret_rot == last.turret_rot
                &&& final(self).turret_vision@ == last.turret_vision@
                &&& final(self).hull_vision@ == last.hull_vision@
            },
    {
        let n = batch.len();
        let mut i: usize = 0;
        while i < n
            invariant
                i <= n,
                n == batch@.len(),
                self.game_id@ == old(self).game_id@,
                i == 0 ==> *self == *old(self),
                i > 0 ==> {
                    let last = batch@[i - 1];
                    &&& self.pos == last.pos
                    &&& self.turret_rot == last.turret_rot
                    &&& self.turret_vision@ == last.turret_vision@
                    &&& self.hull_vision@ == last.hull_vision@
                },
            decreases n - i,
        {
            self.update(&batch[i]);
            i += 1;
        }
    }
}

impl From<(String, PlayerData)> for PlayerDataSerialized {
    /// Tag a snapshot with its match identifier.
    fn from(value: (String, PlayerData)) -> (r: Self) {
        let (game_id, player_data) = value;
        PlayerDataSerialized {
            game_id,
            pos: player_data.pos,
            turret_rot: player_data.turret_rot,
            turret_vision: player_data.turret_vision,
            hull_vision: player_data.hull_vision,
        }
    }
}

impl vstd::std_specs::convert::FromSpecImpl<(String, PlayerData)> for PlayerDataSerialized {
    open spec fn obeys_from_spec() -> bool {
        true
    }

    open spec fn from_spec(t: (String, PlayerData)) -> Self {
        PlayerDataSerialized {
            game_id: t.0,
            pos: t.1.pos,
            turret_rot: t.1.turret_rot,
            turret_vision: t.1.turret_vision,
            hull_vision: t.1.hull_vision,
        }
    }
}

/// The JSON body sent to the decision endpoint: the match identifier, the
/// position, the turret's world orientation, and both vision reports, in
/// the compact rendering a standard serializer produces for the
/// [`PlayerDataSerialized`] fields in order.
pub open spec fn spec_player_data_json(p: PlayerDataSerialized) -> Seq<char> {
    "{\"game_id\":\""@ + p.game_id@ + "\",\"pos\":{\"x\":"@ + spec_i64_chars(p.pos.x as int)
        + ",\"y\":"@ + spec_i64_chars(p.pos.y as int) + "},\"turret_rot\":"@ + spec_u64_chars(
        p.turret_rot as int,
    ) + ",\"turret_vision\":"@ + spec_hits_json(p.turret_vision@) + ",\"hull_vision\":"@
        + spec_hits_json(p.hull_vision@) + "}"@
}

/// Whether an HTTP status answers a request successfully (a 2xx code), as
/// the registration step and the polling loop judge it.
pub fn http_success(status: u16) -> (r: bool)
    ensures
        r == (200 <= status < 300),
{
    200 <= status && status < 300
}

/// The client side of one remote-controlled player: the match identifier
/// and the shared termination state. The simulation thread sets the flags
/// once at match end; the polling loop reads them every cycle and owes the
/// final report.
#[derive(Clone, Debug)]
pub struct PlayerServer {
    pub game_id: String,
    pub kill_flag: bool,
    pub win_cond: bool,
}

impl PlayerServer {
    /// Construction right after the registration call: succeeds exactly
    /// when the remote service answered the registration with success;
    /// a refused registration is fatal and no client exists.
    pub fn new(game_id: &str, register_status: u16) -> (r: Result<PlayerServer, ServerError>)
        ensures
            200 <= register_status < 300 ==> (r matches Result::Ok(s) && s.game_id@ == game_id@
                && !s.kill_flag && !s.win_cond),
            !(200 <= register_status < 300) ==> r == Result::<PlayerServer, ServerError>::Err(
                ServerError::RegistrationFailed,
            ),
    {
        if http_success(register_status) {
            Result::Ok(PlayerServer { game_id: game_id.to_owned(), kill_flag: false, win_cond: false })
        } else {
            Result::Err(ServerError::RegistrationFailed)
        }
    }

    /// Record a won match: sets the outcome and the termination flag; the
    /// polling loop sees both at its next check.
    pub fn win(&mut self) -> (r: bool)
        ensures
            final(self).kill_flag,
            final(self).win_cond,
            final(self).game_id@ == old(self).game_id@,
            r,
    {
        self.kill_flag = true;
        self.win_cond = true;
        true
    }

    /// Record a lost match: sets the termination flag; the recorded
    /// outcome stays a loss unless a win was recorded.
    pub fn lose(&mut self) -> (r: bool)
        ensures
            final(self).kill_flag,
            final(self).win_cond == old(self).win_cond,
            final(self).game_id@ == old(self).game_id@,
            r,
    {
        self.kill_flag = true;
        true
    }

    /// The polling loop's termination check: once the flag is set, the
    /// loop owes the remote service exactly one report of the recorded
    /// outcome and then exits; before that, nothing.
    pub fn termination_report(&self) -> (r: Option<Report>)
        ensures
            self.kill_flag ==> r == Option::Some(
                if self.win_cond {
                    Report::Win
                } else {
                    Report::Loss
                },
            ),
            !self.kill_flag ==> r is None,
    {
        if self.kill_flag {
            if self.win_cond {
                Option::Some(Report::Win)
            } else {
                Option::Some(Report::Loss)
            }
        } else {
            Option::None
        }
    }
}

/// The fixed action vocabulary of the decision endpoint: how one action
/// string maps to at most one instruction; `wait` and anything
/// unrecognized produce none.
pub open spec fn spec_parse_action(s: Seq<char>) -> Option<Instruction> {
    if s == "shoot"@ {
        Option::Some(Instruction::Shoot)
    } else if s == "move_forward"@ {
        Option::Some(Instruction::MoveForward)
    } else if s == "move_backward"@ {
        Option::Some(Instruction::MoveBackward)
    } else if s == "rotate_left"@ {
        Option::Some(Instruction::RotateLeft)
    } else if s == "rotate_right"@ {
        Option::Some(Instruction::RotateRight)
    } else if s == "spin_left"@ {
        Option::Some(Instruction::SpinTurretLeft)
    } else if s == "spin_right"@ {
        Option::Some(Instruction::SpinTurretRight)
    } else {
        Option::None
    }
}

/// What one polling cycle makes of the decision endpoint's answer: nothing
/// on a transport failure, a non-success status, or a malformed body —
/// the cycle is skipped, the loop goes on — and otherwise the instruction
/// the action string names, if any.
pub open spec fn spec_poll_cycle(resp: Option<(u16, Seq<char>)>) -> Option<Instruction> {
    match resp {
        Option::None => Option::None,
        Option::Some((status, body)) => if 200 <= status < 300 {
            match spec_parse_brain(body) {
                Option::Some(action) => spec_parse_action(action),
                Option::None => Option::None,
            }
        } else {
            Option::None
        },
    }
}

/// Decide one polling cycle: `response` is the decision endpoint's answer,
/// as status and body, or nothing when the request failed or timed out.
/// At most one instruction comes out, exactly per [`spec_poll_cycle`].
pub fn poll_cycle(response: &Option<(u16, String)>) -> (r: Option<Instruction>)
    ensures
        response is None ==> r is None,
        response matches Option::Some(p) ==> r == spec_poll_cycle(
            Option::Some((p.0, p.1@)),
        ),
{
    match response {
        Option::None => Option::None,
        Option::Some((status, body)) => {
            if http_success(*status) {
                match crate::wire::parse_brain_response(body.as_str()) {
                    Option::Some(action) => parse_action(action.as_str()),
                    Option::None => Option::None,
                }
            } else {
                Option::None
            }
        },
    }
}

/// Map an action string from the decision endpoint to its instruction,
/// exactly per the fixed vocabulary.
pub fn parse_action(action: &str) -> (r: Option<Instruction>)
    ensures
        r == spec_parse_action(action@),
{
    if str_eq(action, "shoot") {
        Option::Some(Instruction::Shoot)
    } else if str_eq(action, "move_forward") {
        Option::Some(Instruction::MoveForward)
    } else if str_eq(action, "move_backward") {
        Option::Some(Instruction::MoveBackward)
    } else if str_eq(action, "rotate_left") {
        Option::Some(Instruction::RotateLeft)
    } else if str_eq(action, "rotate_right") {
        Option::Some(Instruction::RotateRight)
    } else if str_eq(action, "spin_left") {
        Option::Some(Instruction::SpinTurretLeft)
    } else if str_eq(action, "spin_right") {
        Option::Some(Instruction::SpinTurretRight)
    } else {
        Option::None
    }
}

} // verus!
