//! Closed-loop walking: hold a direction along straight runs of a planned path
//! (tap single tiles), and confirm by locating the player on screen. Holds are
//! cancelled as soon as something interrupts the walk.

use vstd::prelude::*;

use crate::input::Direction;
use crate::motion::syncer::TILE_MS;
use crate::observe::PlayerPose;
use crate::route::{
    ends_at, exit_toward, gone_set, place_of, route_exit, route_from, route_search, tiles,
    usable_for, usable_warp, Gone,
};
use crate::search::{searched, Hop};
use crate::text::same;
use crate::world::{Behavior, MapData, Spot, Step, World};

pub use crate::navigator::{NavStatus, NavStep, Navigator, PathQuestion};

verus! {

/// Times per map the learned obstacles may be forgotten to retry a path. In a
/// featureless corridor the view is the same at every tile, so each unseen step
/// is learned as a block and forgotten again (about one forget per tile): few
/// would strand the walk; this many let it cross the ambiguous stretch and
/// still bound a real block that the world model lacks.
pub const MAX_FORGETS: usize = 8;

/// Longest straight run walked with one hold.
pub const MAX_RUN: usize = 8;

/// Step `i` of the path is one plain tile on in the path's first direction.
pub open spec fn runs_on(from: Spot, path: Seq<Step>, i: int) -> bool {
    let before = if i == 0 {
        from
    } else {
        path[i - 1].to
    };
    let dir = path[i].dir;
    &&& dir == path[0].dir
    &&& path[i].to.0 == before.0 + dir.dx()
    &&& path[i].to.1 == before.1 + dir.dy()
}

/// How many of the first `n` steps run on without a break.
pub open spec fn run_from(from: Spot, path: Seq<Step>, i: int, n: int) -> int
    decreases n - i,
{
    if i < n && runs_on(from, path, i) {
        run_from(from, path, i + 1, n)
    } else {
        i
    }
}

/// The plain run at the start of a path, without the path's last step.
pub open spec fn run_length(from: Spot, path: Seq<Step>) -> int {
    if path.len() == 0 {
        0
    } else {
        let n = if path.len() - 1 < MAX_RUN {
            path.len() - 1
        } else {
            MAX_RUN as int
        };
        let run = run_from(from, path, 0, n);
        if run < 1 {
            1
        } else {
            run
        }
    }
}

/// Tiles to walk with one hold from the start of `path`: the run of plain
/// one-tile steps in the first direction, excluding the path's last step
/// (arriving at a warp, door or edge stays a tap). 1 means "just tap".
pub fn straight_run(from: Spot, path: &Vec<Step>) -> (run: usize)
    ensures
        run == run_length(from, path@),
        run <= path@.len(),
        run <= MAX_RUN,
{
    if path.len() == 0 {
        return 0;
    }
    let n: usize = if path.len() - 1 < MAX_RUN {
        path.len() - 1
    } else {
        MAX_RUN
    };
    let first = path[0];
    let mut prev = from;
    let mut run: usize = 0;
    while run < n
        invariant
            run <= n < path@.len(),
            n <= MAX_RUN,
            first == path@[0],
            prev == if run == 0 {
                from
            } else {
                path@[run - 1].to
            },
            n == path@.len() - 1 || n == MAX_RUN,
            n <= path@.len() - 1,
            run_from(from, path@, 0, n as int) == run_from(from, path@, run as int, n as int),
        decreases n - run,
    {
        let step = path[run];
        let (dx, dy) = step.dir.delta();
        let plain = step.to.0 as i64 == prev.0 as i64 + dx as i64 && step.to.1 as i64
            == prev.1 as i64 + dy as i64;
        if step.dir != first.dir || !plain {
            return if run < 1 {
                1
            } else {
                run
            };
        }
        prev = step.to;
        run += 1;
    }
    if run < 1 {
        1
    } else {
        run
    }
}

/// How long to hold a direction to walk `tiles` tiles, in milliseconds:
/// release inside the last tile, which the game then finishes.
pub fn run_hold(tiles: usize) -> (millis: u64)
    requires
        0 < tiles,
        TILE_MS * tiles <= u64::MAX,
    ensures
        millis == TILE_MS * tiles - TILE_MS / 2,
{
    TILE_MS * tiles as u64 - TILE_MS / 2
}

/// Where a walk is to end.
#[derive(Debug, Clone, PartialEq, Eq)]
pub enum Destination {
    Tile { map: String, x: i32, y: i32 },
    /// Stand next to `(x, y)` facing it (to talk or interact).
    Facing { map: String, x: i32, y: i32 },
    /// Use warp number `warp` of `map` (door, stairs, exit mat).
    Warp { map: String, warp: usize },
}

pub enum DestinationV {
    Tile { map: Seq<char>, x: i32, y: i32 },
    Facing { map: Seq<char>, x: i32, y: i32 },
    Warp { map: Seq<char>, warp: usize },
}

impl View for Destination {
    type V = DestinationV;

    open spec fn view(&self) -> DestinationV {
        match *self {
            Destination::Tile { map, x, y } => DestinationV::Tile { map: map@, x, y },
            Destination::Facing { map, x, y } => DestinationV::Facing { map: map@, x, y },
            Destination::Warp { map, warp } => DestinationV::Warp { map: map@, warp },
        }
    }
}

impl DestinationV {
    pub open spec fn on(self) -> Seq<char> {
        match self {
            DestinationV::Tile { map, .. } => map,
            DestinationV::Facing { map, .. } => map,
            DestinationV::Warp { map, .. } => map,
        }
    }

    /// The tiles to talk from are within the machine's numbers.
    pub open spec fn fits(self) -> bool {
        match self {
            DestinationV::Facing { x, y, .. } => i32::MIN + 2 <= x <= i32::MAX - 2 && i32::MIN + 2
                <= y <= i32::MAX - 2,
            _ => true,
        }
    }
}

impl Destination {
    pub fn map(&self) -> (s: &str)
        ensures
            s@ == self@.on(),
    {
        match self {
            Destination::Tile { map, .. } => map.as_str(),
            Destination::Facing { map, .. } => map.as_str(),
            Destination::Warp { map, .. } => map.as_str(),
        }
    }
}

/// The tiles below the map's warps are within the machine's numbers.
pub open spec fn map_fits(map: MapData) -> bool {
    forall|i: int| 0 <= i < map.warps@.len() ==> (#[trigger] map.warps@[i]).y < i32::MAX
}

pub open spec fn world_fits(world: World) -> bool {
    forall|name: Seq<char>|
        (#[trigger] world.map_of(name)) is Some ==> map_fits(world.map_of(name)->0)
}

// ---- Where to stand ----

pub open spec fn is_counter(map: MapData, x: int, y: int) -> bool {
    match map.tile_at(x, y) {
        Some(t) => t.behavior is Counter,
        None => false,
    }
}

/// The spots to talk to `(x, y)` from in the first `n` directions, with the
/// direction to face.
pub open spec fn talk_spots(map: MapData, x: int, y: int, n: nat) -> Seq<(Spot, Direction)>
    decreases n,
{
    if n == 0 {
        Seq::empty()
    } else {
        let rest = talk_spots(map, x, y, (n - 1) as nat);
        let dir = Direction::nth(n - 1);
        let near = rest.push((((x - dir.dx()) as i32, (y - dir.dy()) as i32), dir));
        if is_counter(map, x - dir.dx(), y - dir.dy()) {
            near.push((((x - 2 * dir.dx()) as i32, (y - 2 * dir.dy()) as i32), dir))
        } else {
            near
        }
    }
}

pub open spec fn spots_in(spots: Seq<(Spot, Direction)>) -> Set<Spot> {
    Set::new(
        |s: Spot| exists|i: int| 0 <= i < spots.len() && (#[trigger] spots[i]).0 == s,
    )
}

/// Where to talk to `(x, y)` from: an adjacent tile, or across a counter
/// (the tile between is a counter, e.g. nurses, clerks), with the direction to
/// face.
pub fn facing_spots(map: &MapData, x: i32, y: i32) -> (v: Vec<(Spot, Direction)>)
    requires
        i32::MIN + 2 <= x <= i32::MAX - 2,
        i32::MIN + 2 <= y <= i32::MAX - 2,
    ensures
        v@ == talk_spots(*map, x as int, y as int, 4),
{
    let mut v: Vec<(Spot, Direction)> = Vec::new();
    let mut i: usize = 0;
    while i < 4
        invariant
            i <= 4,
            i32::MIN + 2 <= x <= i32::MAX - 2,
            i32::MIN + 2 <= y <= i32::MAX - 2,
            v@ == talk_spots(*map, x as int, y as int, i as nat),
        decreases 4 - i,
    {
        let dir = Direction::number(i);
        let (dx, dy) = dir.delta();
        v.push(((x - dx, y - dy), dir));
        let across = match map.tile(x - dx, y - dy) {
            Some(t) => matches!(t.behavior, Behavior::Counter),
            None => false,
        };
        if across {
            v.push(((x - 2 * dx, y - 2 * dy), dir));
        }
        i += 1;
    }
    v
}

pub(crate) fn only_spots(spots: &Vec<(Spot, Direction)>) -> (v: Vec<Spot>)
    ensures
        v@.to_set() == spots_in(spots@),
{
    let mut v: Vec<Spot> = Vec::new();
    let mut i: usize = 0;
    while i < spots.len()
        invariant
            i <= spots@.len(),
            v@.len() == i,
            forall|j: int| 0 <= j < i ==> #[trigger] v@[j] == spots@[j].0,
        decreases spots@.len() - i,
    {
        v.push(spots[i].0);
        i += 1;
    }
    assert(v@.to_set() =~= spots_in(spots@)) by {
        assert forall|s: Spot| v@.to_set().contains(s) == spots_in(spots@).contains(s) by {
            if v@.contains(s) {
                let k = choose|k: int| 0 <= k < v@.len() && v@[k] == s;
                assert(spots@[k].0 == s);
            }
            if spots_in(spots@).contains(s) {
                let k = choose|k: int| 0 <= k < spots@.len() && (#[trigger] spots@[k]).0 == s;
                assert(v@[k] == s);
            }
        }
    }
    v
}

/// The tile to stand on to take warp `index`: below a door, else the warp
/// tile itself.
pub open spec fn approach(map: MapData, index: int) -> Option<Spot> {
    if 0 <= index < map.warps@.len() {
        let w = map.warps@[index];
        let below = match map.tile_at(w.x as int, w.y as int) {
            Some(t) => t.is_door() && t.pushes() is None,
            None => false,
        };
        Some(
            if below {
                (w.x, (w.y + 1) as i32)
            } else {
                (w.x, w.y)
            },
        )
    } else {
        None
    }
}

fn warp_approach(map: &MapData, index: usize) -> (r: Option<Spot>)
    requires
        map_fits(*map),
    ensures
        r == approach(*map, index as int),
{
    if index >= map.warps.len() {
        return None;
    }
    let w = &map.warps[index];
    let below = match map.tile(w.x, w.y) {
        Some(t) => t.door() && t.push().is_none(),
        None => false,
    };
    Some(
        if below {
            (w.x, w.y + 1)
        } else {
            (w.x, w.y)
        },
    )
}

/// Tiles of the destination's map from which the destination is reached.
pub open spec fn goals_of(world: World, dest: DestinationV) -> Set<Spot> {
    match world.map_of(dest.on()) {
        None => Set::empty(),
        Some(map) => match dest {
            DestinationV::Tile { x, y, .. } => set![(x, y)],
            DestinationV::Facing { x, y, .. } => spots_in(talk_spots(map, x as int, y as int, 4)),
            DestinationV::Warp { warp, .. } => match approach(
                map,
                usable_for(map, warp as int),
            ) {
                Some(s) => set![s],
                None => Set::empty(),
            },
        },
    }
}

/// Tiles of the destination's map from which the destination is reached
/// (the tile itself, the spots to talk from, or where a warp is taken).
pub fn goal_tiles(world: &World, dest: &Destination) -> (v: Vec<Spot>)
    requires
        world_fits(*world),
        dest@.fits(),
    ensures
        v@.to_set() == goals_of(*world, dest@),
{
    let mut v: Vec<Spot> = Vec::new();
    let map = match world.map(dest.map()) {
        Some(map) => map,
        None => {
            assert(v@.to_set() =~= Set::empty());
            return v;
        },
    };
    match dest {
        Destination::Tile { x, y, .. } => {
            v.push((*x, *y));
            assert(v@[0] == (*x, *y));
            assert(v@.to_set() =~= set![(*x, *y)]);
            v
        },
        Destination::Facing { x, y, .. } => only_spots(&facing_spots(map, *x, *y)),
        Destination::Warp { warp, .. } => {
            match warp_approach(map, usable_warp(map, *warp)) {
                Some(s) => {
                    v.push(s);
                    assert(v@[0] == s);
                    assert(v@.to_set() =~= set![s]);
                },
                None => {
                    assert(v@.to_set() =~= Set::empty());
                },
            }
            v
        },
    }
}

/// The first hop out of the player's map toward a destination.
pub open spec fn hop_toward(
    world: World,
    pose: PlayerPose,
    dest: DestinationV,
    gone: Set<(Seq<char>, u32)>,
) -> Option<Hop> {
    match searched(
        place_of(pose),
        tiles(world, gone, pose.map@),
        ends_at(dest.on(), Some(goals_of(world, dest))),
    ) {
        Some(hop) => hop,
        None => if pose.map@ == dest.on() {
            None
        } else {
            match searched(
                place_of(pose),
                tiles(world, Set::empty(), pose.map@),
                ends_at(dest.on(), None),
            ) {
                Some(Some(hop)) => Some(hop),
                _ => exit_toward(world, pose.map@, dest.on()),
            }
        },
    }
}

/// First hop out of the player's map toward `dest`, None to walk on this map.
/// Maps split into parts are entered through the warp that leads to the part
/// holding the destination; when the destination isn't reachable from here at
/// tile level, fall back to reaching its map.
pub fn plan_hop(world: &World, pose: &PlayerPose, dest: &Destination, gone: &Gone) -> (r: Option<
    Hop,
>)
    requires
        world_fits(*world),
        dest@.fits(),
    ensures
        r == hop_toward(*world, *pose, dest@, gone_set(gone@)),
{
    let goals = goal_tiles(world, dest);
    match route_search(world, pose, dest.map(), Some(&goals), gone) {
        Some(hop) => {
            return hop;
        },
        None => {},
    }
    if same(pose.map.as_str(), dest.map()) {
        return None;
    }
    match route_from(world, pose, dest.map()) {
        Some(hop) => Some(hop),
        None => route_exit(world, pose.map.as_str(), dest.map()),
    }
}

} // verus!
