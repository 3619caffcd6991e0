//! The navigator: which step of a walk comes next, and what its outcome
//! teaches.

use std::sync::Arc;

use vstd::prelude::*;

use crate::action::{Action, ActionV, Expectation, ExpectationV};
use crate::executor::Outcome;
use crate::input::{commands_of, ButtonSet, CommandV, ControllerCommand, Direction};
use crate::motion::syncer::{STEP_TIMEOUT, TILE_MS, WARP_TIMEOUT};
use crate::nav::{
    facing_spots, hop_toward, map_fits, plan_hop, run_hold, run_length, spots_in, straight_run,
    talk_spots, world_fits, Destination, DestinationV, MAX_FORGETS,
};
use crate::observe::{Observation, PlayerPose, PoseV};
use crate::route::{
    gone_set, has_spot, object_obstacles, obstacles, usable_for, usable_warp, Gone,
};
use crate::save::{count, counted};
use crate::search::Hop;
use crate::text::{cat, cat3, decimal, decimal_of, same, signed, signed_of};
use crate::world::{button_of, direction_button, MapData, Spot, Step, World};

verus! {

/// What the walk wants next.
#[derive(Debug)]
pub enum NavStatus {
    Act(Action),
    Arrived,
    Wait(String),
    Fail(String),
}

pub enum NavStatusV {
    Act(ActionV),
    Arrived,
    Wait(Seq<char>),
    Fail(Seq<char>),
}

impl View for NavStatus {
    type V = NavStatusV;

    open spec fn view(&self) -> NavStatusV {
        match *self {
            NavStatus::Act(a) => NavStatusV::Act(a@),
            NavStatus::Arrived => NavStatusV::Arrived,
            NavStatus::Wait(r) => NavStatusV::Wait(r@),
            NavStatus::Fail(r) => NavStatusV::Fail(r@),
        }
    }
}

/// A path that is wanted: on the map of `pose`, from its tile to one of
/// `goals`, clear of `obstacles`, looked for toward `toward` first. `what` says
/// where it goes, and `onto` is the warp tile it is to end on, where it is one
/// that fires when stepped on.
#[derive(Debug)]
pub struct PathQuestion {
    pub pose: PlayerPose,
    pub obstacles: Vec<Spot>,
    pub goals: Vec<Spot>,
    pub toward: (i64, i64),
    pub what: String,
    pub onto: Option<Spot>,
}

pub struct PathQuestionV {
    pub pose: PoseV,
    pub obstacles: Set<Spot>,
    pub goals: Set<Spot>,
    pub toward: (i64, i64),
    pub what: Seq<char>,
    pub onto: Option<Spot>,
}

impl View for PathQuestion {
    type V = PathQuestionV;

    open spec fn view(&self) -> PathQuestionV {
        PathQuestionV {
            pose: self.pose@,
            obstacles: self.obstacles@.to_set(),
            goals: self.goals@.to_set(),
            toward: self.toward,
            what: self.what@,
            onto: self.onto,
        }
    }
}

/// A step of the walk, or the path it is to follow first.
#[derive(Debug)]
pub enum NavStep {
    Status(NavStatus),
    Path(PathQuestion),
}

pub enum NavStepV {
    Status(NavStatusV),
    Path(PathQuestionV),
}

impl View for NavStep {
    type V = NavStepV;

    open spec fn view(&self) -> NavStepV {
        match *self {
            NavStep::Status(s) => NavStepV::Status(s@),
            NavStep::Path(q) => NavStepV::Path(q@),
        }
    }
}

#[derive(Debug)]
pub struct Navigator {
    pub world: Arc<World>,
    pub destination: Destination,
    /// Tiles learned to be blocked at runtime (NPCs, scripts), with their map.
    pub learned: Vec<(String, Spot)>,
    /// The map, each time the tiles learned there were forgotten.
    pub forgets: Vec<String>,
    /// Direction the player is believed to face (after a move or turn).
    pub facing: Option<Direction>,
    /// Taps in a row that did not move the player.
    pub stalled: u32,
    /// Moves left to make with taps instead of holds (after a short hold).
    pub single_steps: u32,
    pub pending: Option<(PlayerPose, Direction, Spot)>,
    /// First hop out of the current map toward the destination, or none to
    /// walk on this map (planned on entering each map).
    pub hop: Option<(String, Option<Hop>)>,
    /// Map objects no longer there (items and fossils taken): they don't block
    /// their tiles.
    pub gone: Gone,
}

/// What is known on the walk.
#[verifier::ext_equal]
pub struct NavV {
    pub destination: DestinationV,
    pub learned: Set<(Seq<char>, Spot)>,
    pub forgets: Seq<Seq<char>>,
    pub facing: Option<Direction>,
    pub stalled: u32,
    pub single_steps: u32,
    pub pending: Option<(PoseV, Direction, Spot)>,
    pub hop: Option<(Seq<char>, Option<Hop>)>,
    pub gone: Set<(Seq<char>, u32)>,
}

pub open spec fn learned_set(learned: Seq<(String, Spot)>) -> Set<(Seq<char>, Spot)> {
    Set::new(
        |l: (Seq<char>, Spot)|
            exists|i: int|
                0 <= i < learned.len() && (#[trigger] learned[i]).0@ == l.0 && learned[i].1 == l.1,
    )
}

pub open spec fn texts_of(texts: Seq<String>) -> Seq<Seq<char>> {
    Seq::new(texts.len(), |i: int| texts[i]@)
}

/// How often a name is among the first `n`.
pub open spec fn times(names: Seq<Seq<char>>, name: Seq<char>) -> nat
    decreases names.len(),
{
    if names.len() == 0 {
        0
    } else {
        times(names.drop_last(), name) + (if names.last() == name {
            1nat
        } else {
            0
        })
    }
}

impl View for Navigator {
    type V = NavV;

    open spec fn view(&self) -> NavV {
        NavV {
            destination: self.destination@,
            learned: learned_set(self.learned@),
            forgets: texts_of(self.forgets@),
            facing: self.facing,
            stalled: self.stalled,
            single_steps: self.single_steps,
            pending: match self.pending {
                Some(p) => Some((p.0@, p.1, p.2)),
                None => None,
            },
            hop: match self.hop {
                Some(h) => Some((h.0@, h.1)),
                None => None,
            },
            gone: gone_set(self.gone@),
        }
    }
}

/// What was learned on other maps than `map`.
pub open spec fn not_on(learned: Set<(Seq<char>, Spot)>, map: Seq<char>) -> Set<
    (Seq<char>, Spot),
> {
    learned.filter(|l: (Seq<char>, Spot)| l.0 != map)
}

fn elsewhere(learned: &Vec<(String, Spot)>, map: &str) -> (kept: Vec<(String, Spot)>)
    ensures
        learned_set(kept@) == not_on(learned_set(learned@), map@),
{
    let mut kept: Vec<(String, Spot)> = Vec::new();
    let mut i: usize = 0;
    assert(learned_set(kept@) =~= not_on(learned_set(learned@.take(0)), map@));
    while i < learned.len()
        invariant
            i <= learned@.len(),
            learned_set(kept@) == not_on(learned_set(learned@.take(i as int)), map@),
        decreases learned@.len() - i,
    {
        let ghost before = kept@;
        let ghost upto = learned@.take(i as int);
        let entry = (learned[i].0.clone(), learned[i].1);
        let ghost e = entry;
        let here = same(learned[i].0.as_str(), map);
        if !here {
            kept.push(entry);
        }
        proof {
            assert(learned@.take(i + 1) =~= upto.push(learned@[i as int]));
            assert(learned_set(kept@) =~= not_on(learned_set(learned@.take(i + 1)), map@)) by {
                assert forall|l: (Seq<char>, Spot)|
                    learned_set(kept@).contains(l) == not_on(
                        learned_set(learned@.take(i + 1)),
                        map@,
                    ).contains(l) by {
                    assert(learned_set(before).contains(l) == not_on(
                        learned_set(upto),
                        map@,
                    ).contains(l));
                    learned_more(upto, learned@[i as int], l.0, l.1);
                    learned_more(before, e, l.0, l.1);
                }
            }
        }
        i += 1;
    }
    assert(learned@.take(learned@.len() as int) =~= learned@);
    kept
}

/// "(3, -1)".
pub open spec fn spot_text(x: int, y: int) -> Seq<char> {
    "("@ + signed_of(x) + ", "@ + signed_of(y) + ")"@
}

fn write_spot(prefix: &str, x: i32, y: i32) -> (s: String)
    ensures
        s@ == prefix@ + spot_text(x as int, y as int),
{
    let mut s = prefix.to_owned();
    s.append("(");
    s.append(signed(x as i64).as_str());
    s.append(", ");
    s.append(signed(y as i64).as_str());
    s.append(")");
    assert(s@ =~= prefix@ + spot_text(x as int, y as int));
    s
}

pub open spec fn pushing(
    label: Seq<char>,
    dir: Direction,
    expect: ExpectationV,
    timeout: u64,
) -> NavStatusV {
    NavStatusV::Act(
        ActionV {
            label,
            commands: seq![CommandV::Press(button_of(dir))],
            expect,
            timeout_frames: timeout,
            interruptible: false,
            timing: None,
        },
    )
}

fn push(label: String, dir: Direction, expect: Expectation, timeout: u64) -> (s: NavStatus)
    ensures
        s@ == pushing(label@, dir, expect@, timeout),
{
    let mut commands: Vec<ControllerCommand> = Vec::new();
    commands.push(ControllerCommand::Press(direction_button(dir)));
    assert(commands_of(commands@) =~= seq![CommandV::Press(button_of(dir))]);
    NavStatus::Act(Action::new(label, commands, expect, timeout))
}

/// The map and tile where someone stands.
pub open spec fn spot_of(pose: PoseV) -> Spot {
    (pose.x, pose.y)
}

/// The nearest edge of the map (exits sit on edges); of equals the first of
/// up, down, left, right.
pub open spec fn nearest_edge(map: MapData, x: int, y: int) -> Direction {
    let up = y;
    let down = map.height - 1 - y;
    let left = x;
    let right = map.width - 1 - x;
    if up <= down && up <= left && up <= right {
        Direction::Up
    } else if down <= left && down <= right {
        Direction::Down
    } else if left <= right {
        Direction::Left
    } else {
        Direction::Right
    }
}

fn find_nearest_edge(map: &MapData, x: i32, y: i32) -> (d: Direction)
    ensures
        d == nearest_edge(*map, x as int, y as int),
{
    let up: i64 = y as i64;
    let down: i64 = map.height as i64 - 1 - y as i64;
    let left: i64 = x as i64;
    let right: i64 = map.width as i64 - 1 - x as i64;
    if up <= down && up <= left && up <= right {
        Direction::Up
    } else if down <= left && down <= right {
        Direction::Down
    } else if left <= right {
        Direction::Left
    } else {
        Direction::Right
    }
}

/// The tiles from which the walk continues over an edge.
pub open spec fn exits(map: MapData, dir: Direction) -> Set<Spot> {
    Set::new(
        |s: Spot|
            exists|i: int|
                0 <= i < map.crossings@.len() && (#[trigger] map.crossings@[i]).direction == dir
                    && map.crossings@[i].from == s,
    )
}

fn edge_tiles(map: &MapData, dir: Direction) -> (v: Vec<Spot>)
    ensures
        v@.to_set() == exits(*map, dir),
{
    let mut v: Vec<Spot> = Vec::new();
    let mut i: usize = 0;
    while i < map.crossings.len()
        invariant
            i <= map.crossings@.len(),
            forall|s: Spot| #[trigger]
                v@.contains(s) ==> exists|j: int|
                    0 <= j < i && (#[trigger] map.crossings@[j]).direction == dir
                        && map.crossings@[j].from == s,
            forall|j: int|
                0 <= j < i && (#[trigger] map.crossings@[j]).direction == dir ==> v@.contains(
                    map.crossings@[j].from,
                ),
        decreases map.crossings@.len() - i,
    {
        let c = map.crossings[i];
        if c.direction == dir {
            let ghost before = v@;
            v.push(c.from);
            proof {
                assert(map.crossings@[i as int].from == c.from);
                assert forall|s: Spot| #[trigger] v@.contains(s) implies exists|j: int|
                    0 <= j < i + 1 && (#[trigger] map.crossings@[j]).direction == dir
                        && map.crossings@[j].from == s by {
                    if !before.contains(s) {
                        let k = choose|k: int| 0 <= k < v@.len() && v@[k] == s;
                        if k < before.len() {
                            assert(before[k] == s);
                        }
                        assert(s == c.from);
                    }
                }
                assert forall|j: int|
                    0 <= j < i + 1 && (#[trigger] map.crossings@[j]).direction
                        == dir implies v@.contains(map.crossings@[j].from) by {
                    if j < i {
                        let s = map.crossings@[j].from;
                        let k = choose|k: int| 0 <= k < before.len() && before[k] == s;
                        assert(before.contains(s));
                        assert(v@[k] == s);
                    } else {
                        assert(v@[v@.len() - 1] == map.crossings@[j].from);
                    }
                }
            }
        }
        i += 1;
    }
    assert(v@.to_set() =~= exits(*map, dir));
    v
}

/// The first of the spots to talk from that is `s`.
pub open spec fn stands_at(spots: Seq<(Spot, Direction)>, s: Spot, i: int) -> bool {
    &&& 0 <= i < spots.len()
    &&& spots[i].0 == s
    &&& forall|j: int| 0 <= j < i ==> (#[trigger] spots[j]).0 != s
}

/// The direction to face from `s`, where it is one of the spots.
pub open spec fn faces(spots: Seq<(Spot, Direction)>, s: Spot) -> Option<Direction> {
    if exists|i: int| stands_at(spots, s, i) {
        Some(spots[choose|i: int| stands_at(spots, s, i)].1)
    } else {
        None
    }
}

fn facing_from(spots: &Vec<(Spot, Direction)>, x: i32, y: i32) -> (r: Option<Direction>)
    ensures
        r == faces(spots@, (x, y)),
{
    let mut i: usize = 0;
    while i < spots.len()
        invariant
            i <= spots@.len(),
            forall|j: int| 0 <= j < i ==> (#[trigger] spots@[j]).0 != (x, y),
        decreases spots@.len() - i,
    {
        if (spots[i].0).0 == x && (spots[i].0).1 == y {
            proof {
                assert(stands_at(spots@, (x, y), i as int));
                let c = choose|c: int| stands_at(spots@, (x, y), c);
                assert(c == i) by {
                    assert(spots@[c].0 == (x, y));
                    assert(spots@[i as int].0 == (x, y));
                }
            }
            return Some(spots[i].1);
        }
        i += 1;
    }
    assert forall|c: int| !stands_at(spots@, (x, y), c) by {
        if stands_at(spots@, (x, y), c) {
            assert(spots@[c].0 == (x, y));
        }
    }
    None
}

/// The map that a destination's warp leads to.
pub open spec fn leads_to(world: World, dest: DestinationV) -> Option<Seq<char>> {
    match dest {
        DestinationV::Warp { map, warp } => match world.map_of(map) {
            Some(m) => if warp < m.warps@.len() {
                world.named(m.warps@[warp as int].dest_map@)
            } else {
                None
            },
            None => None,
        },
        _ => None,
    }
}

/// "walk to (3, 7): Right ×4".
pub open spec fn run_label(what: Seq<char>, dir: Direction, run: int) -> Seq<char> {
    "walk "@ + what + ": "@ + dir.called() + " ×"@ + decimal_of(run as nat)
}

pub open spec fn walk_label(what: Seq<char>, dir: Direction) -> Seq<char> {
    "walk "@ + what + ": "@ + dir.called()
}

fn label_walk(what: &str, dir: Direction) -> (s: String)
    ensures
        s@ == walk_label(what@, dir),
{
    let mut s = cat3("walk ", what, ": ");
    s.append(dir.name());
    s
}

impl NavV {
    /// Nothing learned, nothing in flight.
    pub open spec fn fresh(destination: DestinationV) -> NavV {
        NavV {
            destination,
            learned: Set::empty(),
            forgets: Seq::empty(),
            facing: None,
            stalled: 0,
            single_steps: 0,
            pending: None,
            hop: None,
            gone: Set::empty(),
        }
    }

    /// Something was learned to be blocked on the map.
    pub open spec fn has_learned(self, map: Seq<char>) -> bool {
        exists|s: Spot| #[trigger] self.learned.contains((map, s))
    }

    /// The obstacles learned on `map` may be dropped once more.
    pub open spec fn may_forget(self, map: Seq<char>) -> bool {
        times(self.forgets, map) < MAX_FORGETS && self.has_learned(map)
    }

    pub open spec fn forgotten(self, map: Seq<char>) -> NavV {
        NavV {
            learned: not_on(self.learned, map),
            forgets: self.forgets.push(map),
            ..self
        }
    }

    /// The tiles in the way on a map, for someone standing on `s`.
    pub open spec fn in_the_way(self, map: MapData, s: Spot) -> Set<Spot> {
        Set::new(
            |t: Spot|
                t != s && (obstacles(map, self.gone).contains(t) || self.learned.contains(
                    (map.name@, t),
                )),
        )
    }

    pub open spec fn asking(
        self,
        map: MapData,
        pose: PoseV,
        goals: Set<Spot>,
        toward: (int, int),
        what: Seq<char>,
        onto: Option<Spot>,
    ) -> NavStepV {
        NavStepV::Path(
            PathQuestionV {
                pose,
                obstacles: self.in_the_way(map, spot_of(pose)),
                goals,
                toward: (toward.0 as i64, toward.1 as i64),
                what,
                onto,
            },
        )
    }

    /// Doors: stand below and push Up. Exit mats: stand on them and push
    /// their arrow. Stairs and other warps: walk onto them.
    pub open spec fn warping(self, map: MapData, pose: PoseV, asked: int) -> (NavV, NavStepV) {
        if !(0 <= asked < map.warps@.len()) {
            (
                self,
                NavStepV::Status(
                    NavStatusV::Fail(map.name@ + " has no warp "@ + decimal_of(asked as nat)),
                ),
            )
        } else {
            // A plain tile beside a marked warp to the same place: use that one.
            let index = usable_for(map, asked);
            let w = map.warps@[index];
            let tile = map.tile_at(w.x as int, w.y as int);
            let take = |dir: Direction|
                (
                    NavV { pending: None, ..self },
                    NavStepV::Status(
                        pushing(
                            "take warp "@ + decimal_of(index as nat) + " of "@ + map.name@ + " ("@
                                + dir.called() + ")"@,
                            dir,
                            ExpectationV::LeftMap(map.name@),
                            WARP_TIMEOUT,
                        ),
                    ),
                );
            if tile is Some && tile->0.pushes() is Some {
                if pose.x == w.x && pose.y == w.y {
                    take(tile->0.pushes()->0)
                } else {
                    (
                        self,
                        self.asking(
                            map,
                            pose,
                            set![(w.x, w.y)],
                            (w.x as int, w.y as int),
                            "to exit "@ + spot_text(w.x as int, w.y as int),
                            None,
                        ),
                    )
                }
            } else if tile is Some && tile->0.is_door() {
                if pose.x == w.x && pose.y == w.y + 1 {
                    take(Direction::Up)
                } else {
                    (
                        self,
                        self.asking(
                            map,
                            pose,
                            set![(w.x, (w.y + 1) as i32)],
                            (w.x as int, w.y + 1),
                            "to door "@ + spot_text(w.x as int, w.y as int),
                            None,
                        ),
                    )
                }
            } else if pose.x == w.x && pose.y == w.y {
                // A plain warp tile that didn't fire on arrival: push toward
                // the nearest map edge.
                take(nearest_edge(map, w.x as int, w.y as int))
            } else {
                (
                    self,
                    self.asking(
                        map,
                        pose,
                        set![(w.x, w.y)],
                        (w.x as int, w.y as int),
                        "to warp "@ + spot_text(w.x as int, w.y as int),
                        Some((w.x, w.y)),
                    ),
                )
            }
        }
    }

    /// Walk to a tile on the map's edge that continues into the neighbour,
    /// then step across.
    pub open spec fn crossing(self, map: MapData, pose: PoseV, dir: Direction) -> (
        NavV,
        NavStepV,
    ) {
        if exits(map, dir).contains(spot_of(pose)) {
            (
                NavV { pending: Some((pose, dir, spot_of(pose))), ..self },
                NavStepV::Status(
                    pushing(
                        "cross into the next map ("@ + dir.called() + ")"@,
                        dir,
                        ExpectationV::LeftMap(map.name@),
                        60,
                    ),
                ),
            )
        } else {
            (
                self,
                self.asking(
                    map,
                    pose,
                    exits(map, dir),
                    (pose.x + dir.dx() * 100, pose.y + dir.dy() * 100),
                    "to the "@ + dir.called() + " edge"@,
                    None,
                ),
            )
        }
    }

    /// The walk on the destination's own map.
    pub open spec fn arriving(self, map: MapData, pose: PoseV) -> (NavV, NavStepV) {
        match self.destination {
            DestinationV::Tile { x, y, .. } => if pose.x == x && pose.y == y {
                (self, NavStepV::Status(NavStatusV::Arrived))
            } else {
                (
                    self,
                    self.asking(
                        map,
                        pose,
                        set![(x, y)],
                        (x as int, y as int),
                        "to "@ + spot_text(x as int, y as int),
                        None,
                    ),
                )
            },
            DestinationV::Facing { x, y, .. } => {
                let spots = talk_spots(map, x as int, y as int, 4);
                match faces(spots, spot_of(pose)) {
                    Some(dir) => if self.facing == Some(dir) {
                        (self, NavStepV::Status(NavStatusV::Arrived))
                    } else {
                        // Tapping toward an occupied tile only turns the player.
                        (
                            NavV { pending: None, facing: Some(dir), ..self },
                            NavStepV::Status(
                                pushing(
                                    "face "@ + dir.called(),
                                    dir,
                                    ExpectationV::InputsDone,
                                    6,
                                ),
                            ),
                        )
                    },
                    None => (
                        self,
                        self.asking(
                            map,
                            pose,
                            spots_in(spots),
                            (x as int, y as int),
                            "next to "@ + spot_text(x as int, y as int),
                            None,
                        ),
                    ),
                }
            },
            DestinationV::Warp { warp, .. } => self.warping(map, pose, warp as int),
        }
    }

    /// The hop out of the current map, planned on entering it.
    pub open spec fn planned(self, world: World, pose: PlayerPose) -> NavV {
        match self.hop {
            Some(h) if h.0 == pose.map@ => self,
            _ => NavV {
                hop: Some(
                    (pose.map@, hop_toward(world, pose, self.destination, self.gone)),
                ),
                ..self
            },
        }
    }

    /// The next step of the walk.
    pub open spec fn stepped(self, world: World, o: Observation) -> (NavV, NavStepV) {
        match o.player {
            None => (self, NavStepV::Status(NavStatusV::Wait("locating the player"@))),
            Some(pose) => match world.map_of(pose.map@) {
                None => (
                    self,
                    NavStepV::Status(NavStatusV::Fail("unknown map "@ + pose.map@)),
                ),
                Some(map) => if leads_to(world, self.destination) == Some(pose.map@) {
                    // A warp is done once we stand on the map it leads to.
                    (self, NavStepV::Status(NavStatusV::Arrived))
                } else {
                    let n = self.planned(world, pose);
                    match (n.hop->0).1 {
                        Some(Hop::Warp(warp)) => n.warping(map, pose@, warp as int),
                        Some(Hop::Edge(dir)) => n.crossing(map, pose@, dir),
                        None => if pose.map@ != n.destination.on() {
                            (
                                n,
                                NavStepV::Status(
                                    NavStatusV::Fail(
                                        "no known route from "@ + pose.map@ + " to "@
                                            + n.destination.on(),
                                    ),
                                ),
                            )
                        } else {
                            n.arriving(map, pose@)
                        },
                    }
                },
            },
        }
    }

    /// No path: learned blocks may be stale (a wandering NPC moved on, or a
    /// step in a featureless corridor that did happen but couldn't be seen).
    pub open spec fn pathless(self, q: PathQuestionV) -> (NavV, NavStatusV) {
        if self.may_forget(q.pose.map) {
            (
                self.forgotten(q.pose.map),
                NavStatusV::Wait("no path "@ + q.what + "; forgetting learned obstacles"@),
            )
        } else {
            (self, NavStatusV::Fail("no path "@ + q.what + " on "@ + q.pose.map))
        }
    }

    pub open spec fn single(self, q: PathQuestionV, step: Step) -> (NavV, NavStatusV) {
        (
            NavV { pending: Some((q.pose, step.dir, step.to)), ..self },
            if q.onto == Some(step.to) {
                pushing(
                    walk_label(q.what, step.dir),
                    step.dir,
                    ExpectationV::LeftMap(q.pose.map),
                    WARP_TIMEOUT,
                )
            } else {
                pushing(
                    walk_label(q.what, step.dir),
                    step.dir,
                    ExpectationV::PlayerMovedFrom(q.pose),
                    STEP_TIMEOUT,
                )
            },
        )
    }

    /// A hold along a straight run.
    pub open spec fn running(self, q: PathQuestionV, path: Seq<Step>, run: int) -> (
        NavV,
        NavStatusV,
    ) {
        let step = path[0];
        let end = path[run - 1].to;
        (
            NavV { pending: Some((q.pose, step.dir, step.to)), ..self },
            NavStatusV::Act(
                ActionV {
                    label: run_label(q.what, step.dir, run),
                    commands: seq![
                        CommandV::Hold {
                            buttons: ButtonSet::only_spec(button_of(step.dir)),
                            millis: (TILE_MS * run - TILE_MS / 2) as u64,
                        },
                    ],
                    expect: ExpectationV::PlayerAt(
                        PoseV { map: q.pose.map, x: end.0, y: end.1 },
                    ),
                    // The last tile finishes after the release, and a moving
                    // sprite is located a little late.
                    timeout_frames: (STEP_TIMEOUT + 16 + 2 * run) as u64,
                    interruptible: true,
                    timing: None,
                },
            ),
        )
    }

    /// The walk along the path that was found.
    pub open spec fn following(self, q: PathQuestionV, path: Option<Seq<Step>>) -> (
        NavV,
        NavStatusV,
    ) {
        match path {
            None => self.pathless(q),
            Some(path) => if q.onto is Some {
                if path.len() == 0 {
                    self.pathless(q)
                } else {
                    self.single(q, path[0])
                }
            } else {
                let run = run_length(spot_of(q.pose), path);
                if run >= 2 && self.single_steps == 0 {
                    self.running(q, path, run)
                } else {
                    let n = NavV {
                        single_steps: if self.single_steps > 0 {
                            (self.single_steps - 1) as u32
                        } else {
                            0
                        },
                        ..self
                    };
                    if path.len() == 0 {
                        (n, NavStatusV::Arrived)
                    } else {
                        n.single(q, path[0])
                    }
                }
            },
        }
    }

    /// What an outcome teaches.
    pub open spec fn settled(self, expect: ExpectationV, outcome: Outcome) -> NavV {
        match self.pending {
            None => self,
            Some((from, dir, target)) => {
                let n = NavV { pending: None, ..self };
                if outcome == Outcome::Confirmed {
                    NavV { facing: Some(dir), stalled: 0, ..n }
                } else if expect is PlayerAt {
                    // A hold that fell short or was cut off: replan from
                    // wherever we are, with taps for a bit (they learn what
                    // blocks the way).
                    NavV {
                        facing: Some(dir),
                        single_steps: if outcome == Outcome::TimedOut {
                            2
                        } else {
                            n.single_steps
                        },
                        ..n
                    }
                } else if outcome == Outcome::TimedOut && expect is PlayerMovedFrom {
                    // First miss: the tap probably just turned the player.
                    // Second miss: something is in the way; avoid that tile.
                    let misses = counted(n.stalled);
                    if misses >= 2 {
                        NavV {
                            facing: Some(dir),
                            stalled: 0,
                            learned: n.learned.insert((from.map, target)),
                            ..n
                        }
                    } else {
                        NavV { facing: Some(dir), stalled: misses, ..n }
                    }
                } else {
                    NavV { stalled: counted(n.stalled), ..n }
                }
            },
        }
    }
}

impl Navigator {
    pub fn new(world: Arc<World>, destination: Destination) -> (n: Navigator)
        ensures
            n@ == NavV::fresh(destination@),
            n.world == world,
            n.destination == destination,
    {
        let n = Navigator {
            world,
            destination,
            learned: Vec::new(),
            forgets: Vec::new(),
            facing: None,
            stalled: 0,
            single_steps: 0,
            pending: None,
            hop: None,
            gone: Vec::new(),
        };
        assert(n@.learned =~= Set::empty());
        assert(n@.gone =~= Set::empty());
        assert(n@.forgets =~= Seq::empty());
        n
    }

    /// Objects known to be gone (taken items, fossils) don't block the way.
    pub fn with_gone(self, gone: Gone) -> (n: Navigator)
        ensures
            n@ == (NavV { gone: gone_set(gone@), ..self@ }),
            n.world == self.world,
    {
        let mut n = self;
        n.gone = gone;
        n
    }

    /// How many taps in a row failed to move the player.
    pub fn stalled(&self) -> (n: u32)
        ensures
            n == self@.stalled,
    {
        self.stalled
    }

    fn count_forgets(&self, map: &str) -> (n: usize)
        ensures
            n == times(self@.forgets, map@),
    {
        let ghost all = self@.forgets;
        let mut n: usize = 0;
        let mut i: usize = 0;
        assert(all.take(0) =~= Seq::empty());
        while i < self.forgets.len()
            invariant
                i <= self.forgets@.len(),
                all == texts_of(self.forgets@),
                n <= i,
                n == times(all.take(i as int), map@),
            decreases self.forgets@.len() - i,
        {
            assert(all.take(i + 1).drop_last() =~= all.take(i as int));
            if same(self.forgets[i].as_str(), map) {
                n += 1;
            }
            i += 1;
        }
        assert(all.take(all.len() as int) =~= all);
        n
    }

    fn knows_block(&self, map: &str) -> (r: bool)
        ensures
            r == self@.has_learned(map@),
    {
        let mut i: usize = 0;
        while i < self.learned.len()
            invariant
                i <= self.learned@.len(),
                forall|j: int| 0 <= j < i ==> (#[trigger] self.learned@[j]).0@ != map@,
            decreases self.learned@.len() - i,
        {
            if same(self.learned[i].0.as_str(), map) {
                assert(self@.learned.contains((map@, self.learned@[i as int].1)));
                return true;
            }
            i += 1;
        }
        false
    }

    /// Drops the obstacles learned on `map`, at most [`MAX_FORGETS`] times
    /// per map (a real block the world model lacks would otherwise be
    /// learned and forgotten forever). Whether anything was forgotten.
    fn forget_learned(&mut self, map: &str) -> (r: bool)
        ensures
            r == old(self)@.may_forget(map@),
            final(self)@ == (if r {
                old(self)@.forgotten(map@)
            } else {
                old(self)@
            }),
            final(self).world == old(self).world,
            final(self).destination == old(self).destination,
    {
        if self.count_forgets(map) >= MAX_FORGETS || !self.knows_block(map) {
            return false;
        }
        self.learned = elsewhere(&self.learned, map);
        let ghost old_forgets = self.forgets@;
        self.forgets.push(map.to_owned());
        assert(texts_of(self.forgets@) =~= texts_of(old_forgets).push(map@));
        true
    }

    /// The tiles in the way on `map`, for someone standing on `(x, y)`.
    fn blocked_tiles(&self, map: &MapData, x: i32, y: i32) -> (v: Vec<Spot>)
        ensures
            v@.to_set() == self@.in_the_way(*map, (x, y)),
    {
        let objects = object_obstacles(map, &self.gone);
        let ghost fixed = obstacles(*map, self@.gone);
        let ghost here = (x, y);
        let mut v: Vec<Spot> = Vec::new();
        let mut i: usize = 0;
        while i < objects.len()
            invariant
                i <= objects@.len(),
                here == (x, y),
                forall|s: Spot| #[trigger]
                    v@.contains(s) <==> s != here && objects@.take(i as int).contains(s),
            decreases objects@.len() - i,
        {
            let s = objects[i];
            let ghost before = v@;
            if !(s.0 == x && s.1 == y) {
                v.push(s);
            }
            proof {
                let upto = objects@.take(i as int);
                assert(objects@.take(i + 1) =~= upto.push(s));
                assert forall|t: Spot| #[trigger] v@.contains(t) <==> t != here
                    && objects@.take(i + 1).contains(t) by {
                    pushed_holds(upto, s, t);
                    pushed_holds(before, s, t);
                }
            }
            i += 1;
        }
        assert(objects@.take(objects@.len() as int) =~= objects@);
        let ghost objects_only = v@;
        assert forall|s: Spot| #[trigger] objects_only.contains(s) <==> s != here && fixed.contains(
            s,
        ) by {
            assert(objects@.to_set().contains(s) == fixed.contains(s));
        }
        let mut k: usize = 0;
        while k < self.learned.len()
            invariant
                k <= self.learned@.len(),
                here == (x, y),
                forall|s: Spot| #[trigger]
                    v@.contains(s) <==> s != here && (fixed.contains(s) || learned_set(
                        self.learned@.take(k as int),
                    ).contains((map.name@, s))),
            decreases self.learned@.len() - k,
        {
            let ghost before = v@;
            let entry = &self.learned[k];
            let s = entry.1;
            let mine = same(entry.0.as_str(), map.name.as_str());
            if mine && !(s.0 == x && s.1 == y) {
                v.push(s);
            }
            proof {
                let upto = self.learned@.take(k as int);
                assert(self.learned@.take(k + 1) =~= upto.push(*entry));
                assert forall|t: Spot| #[trigger] v@.contains(t) <==> t != here && (fixed.contains(
                    t,
                ) || learned_set(self.learned@.take(k + 1)).contains((map.name@, t))) by {
                    pushed_holds(before, s, t);
                    learned_more(upto, *entry, map.name@, t);
                }
            }
            k += 1;
        }
        assert(self.learned@.take(self.learned@.len() as int) =~= self.learned@);
        assert(v@.to_set() =~= self@.in_the_way(*map, here));
        v
    }

    fn ask(
        &self,
        map: &MapData,
        pose: &PlayerPose,
        goals: Vec<Spot>,
        toward: (i64, i64),
        what: String,
        onto: Option<Spot>,
    ) -> (s: NavStep)
        ensures
            s@ == self@.asking(
                *map,
                pose@,
                goals@.to_set(),
                (toward.0 as int, toward.1 as int),
                what@,
                onto,
            ),
    {
        let obstacles = self.blocked_tiles(map, pose.x, pose.y);
        NavStep::Path(PathQuestion { pose: pose.copy(), obstacles, goals, toward, what, onto })
    }

    /// Takes a warp by a push.
    fn take_warp(&mut self, map: &MapData, index: usize, dir: Direction) -> (s: NavStep)
        ensures
            final(self)@ == (NavV { pending: None, ..old(self)@ }),
            s@ == NavStepV::Status(
                pushing(
                    "take warp "@ + decimal_of(index as nat) + " of "@ + map.name@ + " ("@
                        + dir.called() + ")"@,
                    dir,
                    ExpectationV::LeftMap(map.name@),
                    WARP_TIMEOUT,
                ),
            ),
            final(self).world == old(self).world,
            final(self).destination == old(self).destination,
    {
        self.pending = None;
        let mut label = cat3("take warp ", decimal(index as u64).as_str(), " of ");
        label.append(map.name.as_str());
        label.append(" (");
        label.append(dir.name());
        label.append(")");
        NavStep::Status(push(label, dir, Expectation::LeftMap(map.name.clone()), WARP_TIMEOUT))
    }

    /// Doors: stand below and push Up. Exit mats: stand on them and push
    /// their arrow. Stairs and other warps: walk onto them.
    fn use_warp(&mut self, map: &MapData, pose: &PlayerPose, asked: usize) -> (s: NavStep)
        requires
            map_fits(*map),
        ensures
            final(self)@ == old(self)@.warping(*map, pose@, asked as int).0,
            s@ == old(self)@.warping(*map, pose@, asked as int).1,
            final(self).world == old(self).world,
            final(self).destination == old(self).destination,
    {
        if asked >= map.warps.len() {
            return NavStep::Status(
                NavStatus::Fail(
                    cat3(map.name.as_str(), " has no warp ", decimal(asked as u64).as_str()),
                ),
            );
        }
        let index = usable_warp(map, asked);
        let w = &map.warps[index];
        let tile = map.tile(w.x, w.y);
        let arrow = match tile {
            Some(t) => t.push(),
            None => None,
        };
        let on_it = pose.x == w.x && pose.y == w.y;
        let mut goals: Vec<Spot> = Vec::new();
        match arrow {
            Some(dir) => {
                if on_it {
                    return self.take_warp(map, index, dir);
                }
                goals.push((w.x, w.y));
                assert(goals@[0] == (w.x, w.y));
                assert(goals@.to_set() =~= set![(w.x, w.y)]);
                return self.ask(
                    map,
                    pose,
                    goals,
                    (w.x as i64, w.y as i64),
                    write_spot("to exit ", w.x, w.y),
                    None,
                );
            },
            None => {},
        }
        let door = match tile {
            Some(t) => t.door(),
            None => false,
        };
        if door {
            if pose.x == w.x && pose.y == w.y + 1 {
                return self.take_warp(map, index, Direction::Up);
            }
            let below: Spot = (w.x, w.y + 1);
            goals.push(below);
            assert(goals@[0] == below);
            assert(goals@.to_set() =~= set![below]);
            return self.ask(
                map,
                pose,
                goals,
                (w.x as i64, w.y as i64 + 1),
                write_spot("to door ", w.x, w.y),
                None,
            );
        }
        if on_it {
            let dir = find_nearest_edge(map, w.x, w.y);
            return self.take_warp(map, index, dir);
        }
        goals.push((w.x, w.y));
        assert(goals@[0] == (w.x, w.y));
        assert(goals@.to_set() =~= set![(w.x, w.y)]);
        self.ask(
            map,
            pose,
            goals,
            (w.x as i64, w.y as i64),
            write_spot("to warp ", w.x, w.y),
            Some((w.x, w.y)),
        )
    }

    /// Walk to a tile on the map's edge that continues into the neighbour,
    /// then step across.
    fn cross_edge(&mut self, map: &MapData, pose: &PlayerPose, dir: Direction) -> (s: NavStep)
        ensures
            final(self)@ == old(self)@.crossing(*map, pose@, dir).0,
            s@ == old(self)@.crossing(*map, pose@, dir).1,
            final(self).world == old(self).world,
            final(self).destination == old(self).destination,
    {
        let tiles = edge_tiles(map, dir);
        assert(tiles@.to_set().contains((pose.x, pose.y)) == tiles@.contains((pose.x, pose.y)));
        if has_spot(&tiles, pose.x, pose.y) {
            self.pending = Some((pose.copy(), dir, (pose.x, pose.y)));
            return NavStep::Status(
                push(
                    cat3("cross into the next map (", dir.name(), ")"),
                    dir,
                    Expectation::LeftMap(map.name.clone()),
                    STEP_TIMEOUT * 2,
                ),
            );
        }
        let (dx, dy) = dir.delta();
        self.ask(
            map,
            pose,
            tiles,
            (pose.x as i64 + dx as i64 * 100, pose.y as i64 + dy as i64 * 100),
            cat3("to the ", dir.name(), " edge"),
            None,
        )
    }

    /// The walk on the destination's own map.
    fn arrive(&mut self, map: &MapData, pose: &PlayerPose) -> (s: NavStep)
        requires
            map_fits(*map),
            old(self).destination@.fits(),
        ensures
            final(self)@ == old(self)@.arriving(*map, pose@).0,
            s@ == old(self)@.arriving(*map, pose@).1,
            final(self).world == old(self).world,
            final(self).destination == old(self).destination,
    {
        let mut goals: Vec<Spot> = Vec::new();
        match &self.destination {
            Destination::Tile { x, y, .. } => {
                if pose.x == *x && pose.y == *y {
                    return NavStep::Status(NavStatus::Arrived);
                }
                goals.push((*x, *y));
                assert(goals@[0] == (*x, *y));
                assert(goals@.to_set() =~= set![(*x, *y)]);
                self.ask(
                    map,
                    pose,
                    goals,
                    (*x as i64, *y as i64),
                    write_spot("to ", *x, *y),
                    None,
                )
            },
            Destination::Facing { x, y, .. } => {
                let (x, y) = (*x, *y);
                let spots = facing_spots(map, x, y);
                match facing_from(&spots, pose.x, pose.y) {
                    Some(dir) => {
                        let turned = match self.facing {
                            Some(d) => d == dir,
                            None => false,
                        };
                        if turned {
                            return NavStep::Status(NavStatus::Arrived);
                        }
                        self.pending = None;
                        self.facing = Some(dir);
                        NavStep::Status(
                            push(cat("face ", dir.name()), dir, Expectation::InputsDone, 6),
                        )
                    },
                    None => {
                        let goals = crate::nav::only_spots(&spots);
                        self.ask(
                            map,
                            pose,
                            goals,
                            (x as i64, y as i64),
                            write_spot("next to ", x, y),
                            None,
                        )
                    },
                }
            },
            Destination::Warp { warp, .. } => {
                let warp: usize = *warp;
                self.use_warp(map, pose, warp)
            },
        }
    }

    /// The next step of the walk, or the path it is to follow first
    /// ([`Navigator::follow`]).
    pub fn next(&mut self, observation: &Observation) -> (s: NavStep)
        requires
            world_fits(*old(self).world),
            old(self).destination@.fits(),
        ensures
            final(self)@ == old(self)@.stepped(*old(self).world, *observation).0,
            s@ == old(self)@.stepped(*old(self).world, *observation).1,
            final(self).world == old(self).world,
            final(self).destination == old(self).destination,
    {
        let pose = match &observation.player {
            Some(p) => p,
            None => {
                return NavStep::Status(NavStatus::Wait("locating the player".to_owned()));
            },
        };
        let world = self.world.clone();
        assert(world == self.world);
        let map = match world.map(pose.map.as_str()) {
            Some(map) => map,
            None => {
                return NavStep::Status(
                    NavStatus::Fail(cat("unknown map ", pose.map.as_str())),
                );
            },
        };
        let arrived = match &self.destination {
            Destination::Warp { map: from, warp } => match world.map(from.as_str()) {
                Some(m) => if *warp < m.warps.len() {
                    match world.name_of(m.warps[*warp].dest_map.as_str()) {
                        Some(name) => same(name, pose.map.as_str()),
                        None => false,
                    }
                } else {
                    false
                },
                None => false,
            },
            _ => false,
        };
        if arrived {
            return NavStep::Status(NavStatus::Arrived);
        }
        let ghost start = self@;
        let known = match &self.hop {
            Some(h) => if h.0 == pose.map {
                Some(h.1)
            } else {
                None
            },
            None => None,
        };
        let hop = match known {
            Some(hop) => hop,
            None => {
                let hop = plan_hop(&world, pose, &self.destination, &self.gone);
                self.hop = Some((pose.map.clone(), hop));
                hop
            },
        };
        assert(self@ == start.planned(*world, *pose));
        match hop {
            Some(Hop::Warp(warp)) => self.use_warp(map, pose, warp),
            Some(Hop::Edge(dir)) => self.cross_edge(map, pose, dir),
            None => {
                if !same(pose.map.as_str(), self.destination.map()) {
                    let mut reason = cat3("no known route from ", pose.map.as_str(), " to ");
                    reason.append(self.destination.map());
                    return NavStep::Status(NavStatus::Fail(reason));
                }
                self.arrive(map, pose)
            },
        }
    }

    fn without_path(&mut self, q: &PathQuestion) -> (s: NavStatus)
        ensures
            final(self)@ == old(self)@.pathless(q@).0,
            s@ == old(self)@.pathless(q@).1,
            final(self).world == old(self).world,
            final(self).destination == old(self).destination,
    {
        if self.forget_learned(q.pose.map.as_str()) {
            return NavStatus::Wait(
                cat3("no path ", q.what.as_str(), "; forgetting learned obstacles"),
            );
        }
        let mut reason = cat3("no path ", q.what.as_str(), " on ");
        reason.append(q.pose.map.as_str());
        NavStatus::Fail(reason)
    }

    fn step_once(&mut self, q: &PathQuestion, step: Step) -> (s: NavStatus)
        ensures
            final(self)@ == old(self)@.single(q@, step).0,
            s@ == old(self)@.single(q@, step).1,
            final(self).world == old(self).world,
            final(self).destination == old(self).destination,
    {
        self.pending = Some((q.pose.copy(), step.dir, step.to));
        let onto = match q.onto {
            Some(s) => s.0 == step.to.0 && s.1 == step.to.1,
            None => false,
        };
        let label = label_walk(q.what.as_str(), step.dir);
        if onto {
            push(label, step.dir, Expectation::LeftMap(q.pose.map.clone()), WARP_TIMEOUT)
        } else {
            push(label, step.dir, Expectation::PlayerMovedFrom(q.pose.copy()), STEP_TIMEOUT)
        }
    }

    /// Follows the path found for a question of [`Navigator::next`] (`None`
    /// where there is none): a hold along a straight run, else one tap.
    pub fn follow(&mut self, q: &PathQuestion, path: Option<&Vec<Step>>) -> (s: NavStatus)
        ensures
            ({
                let found = match path {
                    Some(p) => Some(p@),
                    None => None,
                };
                &&& final(self)@ == old(self)@.following(q@, found).0
                &&& s@ == old(self)@.following(q@, found).1
            }),
            final(self).world == old(self).world,
            final(self).destination == old(self).destination,
    {
        let path = match path {
            Some(path) => path,
            None => {
                return self.without_path(q);
            },
        };
        if q.onto.is_some() {
            if path.len() == 0 {
                return self.without_path(q);
            }
            return self.step_once(q, path[0]);
        }
        let run = straight_run((q.pose.x, q.pose.y), path);
        if run >= 2 && self.single_steps == 0 {
            let step = path[0];
            let end = path[run - 1].to;
            let target = PlayerPose { map: q.pose.map.clone(), x: end.0, y: end.1 };
            self.pending = Some((q.pose.copy(), step.dir, step.to));
            let mut label = label_walk(q.what.as_str(), step.dir);
            label.append(" ×");
            label.append(decimal(run as u64).as_str());
            let mut commands: Vec<ControllerCommand> = Vec::new();
            commands.push(
                ControllerCommand::Hold {
                    buttons: ButtonSet::only(direction_button(step.dir)),
                    millis: run_hold(run),
                },
            );
            assert(commands_of(commands@) =~= seq![
                CommandV::Hold {
                    buttons: ButtonSet::only_spec(button_of(step.dir)),
                    millis: (TILE_MS * run - TILE_MS / 2) as u64,
                },
            ]);
            return NavStatus::Act(
                Action::new(
                    label,
                    commands,
                    Expectation::PlayerAt(target),
                    STEP_TIMEOUT + 16 + 2 * run as u64,
                ).interruptible(),
            );
        }
        if self.single_steps > 0 {
            self.single_steps = self.single_steps - 1;
        }
        if path.len() == 0 {
            return NavStatus::Arrived;
        }
        self.step_once(q, path[0])
    }

    /// The executor's verdict on the step in flight.
    pub fn on_outcome(&mut self, action: &Action, outcome: Outcome)
        ensures
            final(self)@ == old(self)@.settled(action.expect@, outcome),
            final(self).world == old(self).world,
            final(self).destination == old(self).destination,
    {
        let (from, dir, target) = match self.pending.take() {
            Some(p) => p,
            None => {
                return;
            },
        };
        if outcome == Outcome::Confirmed {
            self.facing = Some(dir);
            self.stalled = 0;
        } else if matches!(action.expect, Expectation::PlayerAt(_)) {
            self.facing = Some(dir);
            if outcome == Outcome::TimedOut {
                self.single_steps = 2;
            }
        } else if outcome == Outcome::TimedOut && matches!(
            action.expect,
            Expectation::PlayerMovedFrom(_)
        ) {
            self.facing = Some(dir);
            self.stalled = count(self.stalled);
            if self.stalled >= 2 {
                let ghost before = self.learned@;
                let entry = (from.map, target);
                self.learned.push(entry);
                self.stalled = 0;
                proof {
                    assert(learned_set(self.learned@) =~= learned_set(before).insert(
                        (from.map@, target),
                    )) by {
                        assert forall|l: (Seq<char>, Spot)|
                            learned_set(self.learned@).contains(l) == learned_set(before).insert(
                                (from.map@, target),
                            ).contains(l) by {
                            learned_more(before, entry, l.0, l.1);
                        }
                    }
                }
            }
        } else {
            self.stalled = count(self.stalled);
        }
    }
}

proof fn pushed_holds(v: Seq<Spot>, s: Spot, t: Spot)
    ensures
        v.push(s).contains(t) == (v.contains(t) || s == t),
{
    if v.contains(t) {
        let k = choose|k: int| 0 <= k < v.len() && v[k] == t;
        assert(v.push(s)[k] == t);
    }
    if s == t {
        assert(v.push(s)[v.len() as int] == t);
    }
    if v.push(s).contains(t) && s != t {
        let k = choose|k: int| 0 <= k < v.push(s).len() && v.push(s)[k] == t;
        assert(v[k] == t);
    }
}

proof fn learned_more(v: Seq<(String, Spot)>, e: (String, Spot), map: Seq<char>, t: Spot)
    ensures
        learned_set(v.push(e)).contains((map, t)) == (learned_set(v).contains((map, t)) || (e.0@
            == map && e.1 == t)),
{
    if learned_set(v).contains((map, t)) {
        let k = choose|k: int| 0 <= k < v.len() && (#[trigger] v[k]).0@ == map && v[k].1 == t;
        assert(v.push(e)[k].0@ == map);
    }
    if e.0@ == map && e.1 == t {
        assert(v.push(e)[v.len() as int].0@ == map);
    }
    if learned_set(v.push(e)).contains((map, t)) {
        let k = choose|k: int|
            0 <= k < v.push(e).len() && (#[trigger] v.push(e)[k]).0@ == map && v.push(e)[k].1 == t;
        if k < v.len() {
            assert(v[k].0@ == map);
        }
    }
}

// ---- What holds of every walk ----

/// What was learned to be blocked is forgotten a bounded number of times on
/// each map: a question without a path makes the walk fail once the map's
/// forgets are used up.
pub proof fn forgetting_ends(n: NavV, q: PathQuestionV)
    ensures
        ({
            let step = n.following(q, None);
            if n.may_forget(q.pose.map) {
                &&& step.1 is Wait
                &&& times(step.0.forgets, q.pose.map) == times(n.forgets, q.pose.map) + 1
                &&& times(step.0.forgets, q.pose.map) <= MAX_FORGETS
                &&& !step.0.has_learned(q.pose.map)
            } else {
                step.1 is Fail && step.0 == n
            }
        }),
{
    if n.may_forget(q.pose.map) {
        assert(n.forgets.push(q.pose.map).drop_last() =~= n.forgets);
    }
}

/// After a forget that learned nothing since, a question without a path
/// fails.
pub proof fn a_walk_never_waits_twice_for_the_same_forget(n: NavV, q: PathQuestionV)
    ensures
        n.following(q, None).0.following(q, None).1 is Fail,
{
    forgetting_ends(n, q);
    let once = n.following(q, None).0;
    assert(!once.may_forget(q.pose.map));
}

/// Two misses in a row of a tap teach that its tile is blocked, and the next
/// path from another tile avoids it.
pub proof fn two_misses_teach_a_block(
    n: NavV,
    pose: PoseV,
    dir: Direction,
    to: Spot,
    from: PoseV,
    map: MapData,
)
    requires
        map.name@ == pose.map,
        spot_of(from) != to,
        n.stalled == 0,
    ensures
        ({
            let tap = NavV { pending: Some((pose, dir, to)), ..n };
            let missed = tap.settled(ExpectationV::PlayerMovedFrom(pose), Outcome::TimedOut);
            let again = NavV { pending: Some((pose, dir, to)), ..missed };
            let learned = again.settled(ExpectationV::PlayerMovedFrom(pose), Outcome::TimedOut);
            &&& missed.learned == n.learned
            &&& missed.stalled == 1
            &&& learned.stalled == 0
            &&& learned.in_the_way(map, spot_of(from)).contains(to)
        }),
{
}

/// A step that ends on the walk's warp tile is held to leave the map, any other
/// to move the player.
pub proof fn a_step_onto_a_warp_must_leave_the_map(n: NavV, q: PathQuestionV, path: Seq<Step>)
    requires
        q.onto is Some,
        path.len() > 0,
    ensures
        n.following(q, Some(path)).1 is Act,
        n.following(q, Some(path)).1->Act_0.expect == (if path[0].to == q.onto->0 {
            ExpectationV::LeftMap(q.pose.map)
        } else {
            ExpectationV::PlayerMovedFrom(q.pose)
        }),
{
}

/// A walk only asks for paths clear of what is in its way, and never takes the
/// player's own tile for blocked.
pub proof fn the_players_tile_is_never_in_the_way(n: NavV, map: MapData, pose: PoseV)
    ensures
        !n.in_the_way(map, spot_of(pose)).contains(spot_of(pose)),
{
}

} // verus!
