//! Walking: every press leads where the path leads, and a walk ends where it was
//! to end.

use vstd::prelude::*;

use crate::action::{ActionV, ExpectationV};
use crate::executor::Outcome;
use crate::input::{Button, ButtonSet, CommandV, Direction};
use crate::nav::{hop_toward, run_from, run_length, runs_on, talk_spots, DestinationV};
use crate::navigator::{
    leads_to, nearest_edge, stands_at, times, NavStatusV, NavStepV, NavV, PathQuestionV,
};
use crate::observe::{Observation, PlayerPose, PoseV};
use crate::promises::cursor_after;
use crate::route::usable_for;
use crate::world::{Behavior, MapData, Spot, Step, World};

verus! {

/// The tile `n` steps along a direction.
pub open spec fn along(at: (int, int), dir: Direction, n: int) -> (int, int) {
    match dir {
        Direction::Up => (at.0, at.1 - n),
        Direction::Down => (at.0, at.1 + n),
        Direction::Left => (at.0 - n, at.1),
        Direction::Right => (at.0 + n, at.1),
    }
}

/// A press of the button moves a player as a step in the direction does.
pub open spec fn leads(b: Button, dir: Direction) -> bool {
    cursor_after((0, 0), b) == along((0, 0), dir, 1)
}

pub open spec fn is_down(s: ButtonSet, b: Button) -> bool {
    match b {
        Button::A => s.a,
        Button::B => s.b,
        Button::Start => s.start,
        Button::Select => s.select,
        Button::Up => s.up,
        Button::Down => s.down,
        Button::Left => s.left,
        Button::Right => s.right,
        Button::Home => s.home,
    }
}

/// The one button that is down.
pub open spec fn alone_down(s: ButtonSet, b: Button) -> bool {
    forall|x: Button| #[trigger] is_down(s, x) <==> x == b
}

pub open spec fn spot(s: Spot) -> (int, int) {
    (s.0 as int, s.1 as int)
}

pub open spec fn here(p: PoseV) -> (int, int) {
    (p.x as int, p.y as int)
}

proof fn a_run_goes_straight(from: Spot, path: Seq<Step>, i: int, n: int)
    requires
        0 <= i <= n < path.len(),
        forall|j: int|
            0 <= j < i ==> (#[trigger] path[j]).dir == path[0].dir && spot(path[j].to) == along(
                spot(from),
                path[0].dir,
                j + 1,
            ),
    ensures
        ({
            let run = run_from(from, path, i, n);
            &&& i <= run <= n
            &&& forall|j: int|
                0 <= j < run ==> (#[trigger] path[j]).dir == path[0].dir && spot(path[j].to)
                    == along(spot(from), path[0].dir, j + 1)
            &&& run < n ==> path[run].dir != path[0].dir || spot(path[run].to) != along(
                spot(from),
                path[0].dir,
                run + 1,
            )
        }),
    decreases n - i,
{
    if i > 0 {
        assert(path[i - 1].dir == path[0].dir);
    }
    if i < n && runs_on(from, path, i) {
        a_run_goes_straight(from, path, i + 1, n);
    }
}

/// A tile of a path is one that the path goes over in a straight line, in the
/// direction of its first step.
pub open spec fn straight(from: (int, int), path: Seq<Step>, n: int) -> bool {
    0 <= n <= path.len() && forall|j: int|
        0 <= j < n ==> (#[trigger] path[j]).dir == path[0].dir && spot(path[j].to) == along(
            from,
            path[0].dir,
            j + 1,
        )
}

/// A hold goes where the path goes: the one button that is held leads in the
/// direction of the path's first step, the tile that the player is expected at
/// is as many tiles on in that direction as the path goes straight (the path's
/// last step, and all beyond eight, left out), and it is held for all but half
/// of the last tile, at 268 ms each.
pub proof fn a_hold_goes_along_the_path(
    n: NavV,
    q: PathQuestionV,
    path: Seq<Step>,
    a: ActionV,
    buttons: ButtonSet,
    millis: u64,
)
    requires
        n.following(q, Some(path)).1 == NavStatusV::Act(a),
        a.commands.len() == 1,
        a.commands[0] == (CommandV::Hold { buttons, millis }),
    ensures
        exists|b: Button, run: int|
            {
                &&& #[trigger] alone_down(buttons, b)
                &&& leads(b, path[0].dir)
                &&& 2 <= run < path.len()
                &&& run <= 8
                &&& #[trigger] straight(here(q.pose), path, run)
                &&& run < 8 && run + 1 < path.len() ==> !straight(here(q.pose), path, run + 1)
                &&& a.expect is PlayerAt
                &&& a.expect->PlayerAt_0.map == q.pose.map
                &&& here(a.expect->PlayerAt_0) == along(here(q.pose), path[0].dir, run)
                &&& millis == 268 * run - 134
                &&& a.interruptible
            },
{
    let from = crate::navigator::spot_of(q.pose);
    let most = if path.len() - 1 < 8 {
        path.len() - 1
    } else {
        8
    };
    a_run_goes_straight(from, path, 0, most);
    let run = run_length(from, path);
    let b = match path[0].dir {
        Direction::Up => Button::Up,
        Direction::Down => Button::Down,
        Direction::Left => Button::Left,
        Direction::Right => Button::Right,
    };
    assert(alone_down(buttons, b));
    assert(path[run - 1].dir == path[0].dir);
    assert(straight(here(q.pose), path, run));
    if run < 8 && run + 1 < path.len() && straight(here(q.pose), path, run + 1) {
        assert(path[run].dir == path[0].dir);
    }
}

/// A tap takes the path's first step: its button leads in that step's direction,
/// the step is what is remembered as in flight, and the player is expected to
/// leave its tile (the map, where the step ends on the warp that is wanted).
pub proof fn a_tap_takes_the_first_step(
    n: NavV,
    q: PathQuestionV,
    path: Seq<Step>,
    a: ActionV,
    b: Button,
)
    requires
        n.following(q, Some(path)).1 == NavStatusV::Act(a),
        a.commands.len() == 1,
        a.commands[0] == CommandV::Press(b),
    ensures
        path.len() > 0,
        leads(b, path[0].dir),
        n.following(q, Some(path)).0.pending == Some((q.pose, path[0].dir, path[0].to)),
        a.expect == if q.onto == Some(path[0].to) {
            ExpectationV::LeftMap(q.pose.map)
        } else {
            ExpectationV::PlayerMovedFrom(q.pose)
        },
{
}

/// A path that is found is walked: with one command, a hold where the path
/// begins with two tiles straight on before its last step (and no taps are to be
/// made, nor a warp to be stepped on), else a tap. A path of no steps is one that
/// has arrived, unless it was to step on a warp.
pub proof fn a_path_is_walked(n: NavV, q: PathQuestionV, path: Seq<Step>)
    ensures
        ({
            let (next, s) = n.following(q, Some(path));
            &&& path.len() > 0 ==> {
                &&& s is Act
                &&& s->Act_0.commands.len() == 1
                &&& s->Act_0.commands[0] is Hold <==> q.onto is None && n.single_steps == 0
                    && path.len() >= 3 && straight(here(q.pose), path, 2)
                &&& !(s->Act_0.commands[0] is Hold) ==> s->Act_0.commands[0] is Press
                &&& next.pending == Some((q.pose, path[0].dir, path[0].to))
            }
            &&& path.len() == 0 && q.onto is None ==> s is Arrived
            &&& path.len() == 0 && q.onto is Some ==> s is Wait || s is Fail
            &&& next.destination == n.destination && next.gone == n.gone && next.facing == n.facing
            &&& q.onto is None && n.single_steps > 0 ==> next.single_steps == n.single_steps - 1
        }),
{
    let from = crate::navigator::spot_of(q.pose);
    if path.len() > 0 {
        let most = if path.len() - 1 < 8 {
            path.len() - 1
        } else {
            8
        };
        a_run_goes_straight(from, path, 0, most);
        let run = run_from(from, path, 0, most);
        if run >= 2 {
            assert(path[0].dir == path[0].dir && path[1].dir == path[0].dir);
            assert(straight(here(q.pose), path, 2));
        }
        if path.len() >= 3 && straight(here(q.pose), path, 2) {
            assert(path[0].dir == path[0].dir && path[1].dir == path[0].dir);
        }
    }
}

/// What an outcome teaches of a step in flight: a confirmed one leaves the
/// player facing its way and nothing stalled; a hold that fell short is followed
/// by two taps; a tile is taken for blocked exactly where a tap toward it did not
/// move the player for the second time in a row; and nothing else is learned.
pub proof fn what_an_outcome_teaches(
    n: NavV,
    from: PoseV,
    dir: Direction,
    target: Spot,
    expect: ExpectationV,
    outcome: Outcome,
)
    requires
        n.pending == Some((from, dir, target)),
        n.stalled < u32::MAX,
    ensures
        ({
            let next = n.settled(expect, outcome);
            let missed = outcome == Outcome::TimedOut && expect is PlayerMovedFrom;
            &&& next.pending is None
            &&& next.learned == if missed && n.stalled >= 1 {
                n.learned.insert((from.map, target))
            } else {
                n.learned
            }
            &&& outcome == Outcome::Confirmed ==> next.stalled == 0 && next.facing == Some(dir)
                && next.single_steps == n.single_steps
            &&& outcome != Outcome::Confirmed && expect is PlayerAt ==> next.facing == Some(dir)
                && next.stalled == n.stalled && next.single_steps == if outcome
                == Outcome::TimedOut {
                2
            } else {
                n.single_steps
            }
            &&& missed ==> next.facing == Some(dir) && next.stalled == if n.stalled >= 1 {
                0
            } else {
                1int
            }
            &&& outcome != Outcome::Confirmed && !(expect is PlayerAt) && !missed ==> next.stalled
                == n.stalled + 1 && next.facing == n.facing
        }),
{
}

// ---- Where a walk ends ----

/// Someone on `s` who faces `dir` talks to whoever is on `at`: from the tile
/// beside, or from across a counter.
pub open spec fn talks_to(map: MapData, s: (int, int), dir: Direction, at: (int, int)) -> bool {
    let mid = along(s, dir, 1);
    ||| mid == at
    ||| along(s, dir, 2) == at && map.tile_at(mid.0, mid.1) is Some && map.tile_at(
        mid.0,
        mid.1,
    )->0.behavior is Counter
}

proof fn spots_are_for_talking(map: MapData, x: int, y: int, i: int)
    requires
        i32::MIN + 2 <= x <= i32::MAX - 2,
        i32::MIN + 2 <= y <= i32::MAX - 2,
        0 <= i < talk_spots(map, x, y, 4).len(),
    ensures
        ({
            let s = talk_spots(map, x, y, 4)[i];
            talks_to(map, spot(s.0), s.1, (x, y))
        }),
{
    reveal_with_fuel(talk_spots, 5);
}

proof fn every_spot_is_listed(map: MapData, x: int, y: int, s: Spot, dir: Direction)
    requires
        i32::MIN + 2 <= x <= i32::MAX - 2,
        i32::MIN + 2 <= y <= i32::MAX - 2,
        talks_to(map, spot(s), dir, (x, y)),
    ensures
        exists|i: int|
            0 <= i < talk_spots(map, x, y, 4).len() && (#[trigger] talk_spots(map, x, y, 4)[i]).0
                == s,
{
    reveal_with_fuel(talk_spots, 5);
    let n: nat = match dir {
        Direction::Up => 1,
        Direction::Down => 2,
        Direction::Left => 3,
        Direction::Right => 4,
    };
    let all = talk_spots(map, x, y, 4);
    let upto = talk_spots(map, x, y, n);
    let before = talk_spots(map, x, y, (n - 1) as nat);
    assert(Direction::nth(n - 1) == dir);
    let k = if along(spot(s), dir, 1) == (x, y) {
        before.len() as int
    } else {
        before.len() as int + 1
    };
    assert(upto[k].0 == s);
    assert(all[k].0 == s);
}

/// Someone who is to be talked to: the walk has arrived only where the player
/// stands so that facing its way talks to them; a turn is made only on such a
/// tile, by the button that leads their way; and else a path is asked for to
/// exactly the tiles that they can be talked to from.
pub proof fn a_talk_is_face_to_face(
    n: NavV,
    world: World,
    o: Observation,
    pose: PlayerPose,
    map: MapData,
    x: i32,
    y: i32,
)
    requires
        o.player == Some(pose),
        world.map_of(pose.map@) == Some(map),
        n.destination == (DestinationV::Facing { map: pose.map@, x, y }),
        n.hop == Some((pose.map@, None::<crate::search::Hop>)),
        n.destination.fits(),
    ensures
        ({
            let at = (pose.x as int, pose.y as int);
            let goal = (x as int, y as int);
            let (next, s) = n.stepped(world, o);
            match s {
                NavStepV::Status(NavStatusV::Arrived) => n.facing is Some && talks_to(
                    map,
                    at,
                    n.facing->0,
                    goal,
                ),
                NavStepV::Status(NavStatusV::Act(a)) => {
                    &&& next.facing is Some && talks_to(map, at, next.facing->0, goal)
                    &&& a.commands.len() == 1 && a.commands[0] is Press && leads(
                        a.commands[0]->Press_0,
                        next.facing->0,
                    )
                },
                NavStepV::Path(q) => {
                    &&& q.pose == pose@
                    &&& forall|t: Spot| #[trigger]
                        q.goals.contains(t) <==> exists|d: Direction|
                            #[trigger] talks_to(map, spot(t), d, goal)
                    &&& forall|d: Direction| !#[trigger] talks_to(map, at, d, goal)
                },
                _ => false,
            }
        }),
{
    let spots = talk_spots(map, x as int, y as int, 4);
    let at = (pose.x, pose.y);
    if exists|i: int| stands_at(spots, at, i) {
        let i = choose|i: int| stands_at(spots, at, i);
        spots_are_for_talking(map, x as int, y as int, i);
    } else {
        assert forall|d: Direction| !#[trigger] talks_to(
            map,
            (pose.x as int, pose.y as int),
            d,
            (x as int, y as int),
        ) by {
            if talks_to(map, (pose.x as int, pose.y as int), d, (x as int, y as int)) {
                every_spot_is_listed(map, x as int, y as int, at, d);
                let i = choose|i: int| 0 <= i < spots.len() && (#[trigger] spots[i]).0 == at;
                a_first_stand(spots, at, i);
            }
        }
    }
    if let NavStepV::Path(q) = n.stepped(world, o).1 {
        assert forall|t: Spot| #[trigger] q.goals.contains(t) <==> exists|d: Direction|
            #[trigger] talks_to(map, spot(t), d, (x as int, y as int)) by {
            if q.goals.contains(t) {
                let i = choose|i: int| 0 <= i < spots.len() && (#[trigger] spots[i]).0 == t;
                spots_are_for_talking(map, x as int, y as int, i);
                assert(talks_to(map, spot(t), spots[i].1, (x as int, y as int)));
            }
            if exists|d: Direction| #[trigger] talks_to(map, spot(t), d, (x as int, y as int)) {
                let d = choose|d: Direction| #[trigger]
                    talks_to(map, spot(t), d, (x as int, y as int));
                every_spot_is_listed(map, x as int, y as int, t, d);
            }
        }
    }
}

proof fn a_first_stand(spots: Seq<(Spot, Direction)>, s: Spot, i: int)
    requires
        0 <= i < spots.len(),
        spots[i].0 == s,
    ensures
        exists|i: int| stands_at(spots, s, i),
    decreases i,
{
    if !stands_at(spots, s, i) {
        let j = choose|j: int| 0 <= j < i && (#[trigger] spots[j]).0 == s;
        a_first_stand(spots, s, j);
    }
}

/// A tile to walk to: the walk has arrived exactly where the player is on it, and
/// else asks for a path from where the player is to that tile alone, clear of
/// everything that stands still or was found in the way, but for the player's
/// own tile.
pub proof fn a_tile_is_walked_to(
    n: NavV,
    world: World,
    o: Observation,
    pose: PlayerPose,
    map: MapData,
    x: i32,
    y: i32,
)
    requires
        o.player == Some(pose),
        world.map_of(pose.map@) == Some(map),
        n.destination == (DestinationV::Tile { map: pose.map@, x, y }),
        n.hop == Some((pose.map@, None::<crate::search::Hop>)),
    ensures
        ({
            let (next, s) = n.stepped(world, o);
            if pose.x == x && pose.y == y {
                s == NavStepV::Status(NavStatusV::Arrived)
            } else {
                &&& s is Path
                &&& s->Path_0.pose == pose@
                &&& s->Path_0.onto is None
                &&& forall|t: Spot| s->Path_0.goals.contains(t) <==> t == (x, y)
                &&& clear_of(n, map, pose, s->Path_0)
            }
        }),
{
    if let NavStepV::Path(q) = n.stepped(world, o).1 {
        a_question_is_clear(n, map, pose, q);
    }
}

/// The tiles that a path is to be clear of: those of objects that stay and are
/// not gone, and those learned to be blocked on this map, but not the player's.
pub open spec fn clear_of(n: NavV, map: MapData, pose: PlayerPose, q: PathQuestionV) -> bool {
    forall|t: Spot| #[trigger]
        q.obstacles.contains(t) <==> t != (pose.x, pose.y) && (n.learned.contains((map.name@, t))
            || exists|i: int|
            {
                &&& 0 <= i < map.objects@.len()
                &&& (#[trigger] map.objects@[i]).x == Some(t.0)
                &&& map.objects@[i].y == Some(t.1)
                &&& crate::route::stays(map.objects@[i])
                &&& !n.gone.contains((map.name@, map.objects@[i].local_id))
            })
}

proof fn a_question_is_clear(n: NavV, map: MapData, pose: PlayerPose, q: PathQuestionV)
    requires
        q.obstacles == n.in_the_way(map, (pose.x, pose.y)),
    ensures
        clear_of(n, map, pose, q),
{
    assert forall|t: Spot| #[trigger]
        q.obstacles.contains(t) <==> t != (pose.x, pose.y) && (n.learned.contains((map.name@, t))
            || exists|i: int|
            {
                &&& 0 <= i < map.objects@.len()
                &&& (#[trigger] map.objects@[i]).x == Some(t.0)
                &&& map.objects@[i].y == Some(t.1)
                &&& crate::route::stays(map.objects@[i])
                &&& !n.gone.contains((map.name@, map.objects@[i].local_id))
            }) by {
        if crate::route::obstacles(map, n.gone).contains(t) {
            let i = choose|i: int| crate::route::stands_on(map, n.gone, i, t);
            assert(map.objects@[i].x == Some(t.0));
        }
        if exists|i: int|
            {
                &&& 0 <= i < map.objects@.len()
                &&& (#[trigger] map.objects@[i]).x == Some(t.0)
                &&& map.objects@[i].y == Some(t.1)
                &&& crate::route::stays(map.objects@[i])
                &&& !n.gone.contains((map.name@, map.objects@[i].local_id))
            } {
            let i = choose|i: int|
                {
                    &&& 0 <= i < map.objects@.len()
                    &&& (#[trigger] map.objects@[i]).x == Some(t.0)
                    &&& map.objects@[i].y == Some(t.1)
                    &&& crate::route::stays(map.objects@[i])
                    &&& !n.gone.contains((map.name@, map.objects@[i].local_id))
                };
            assert(crate::route::stands_on(map, n.gone, i, t));
        }
    }
}

/// A warp to take: nothing is pressed but on the tile it is taken from. On a mat
/// or on stairs that is the warp's own tile, and the press goes the way they
/// point; for a door it is the tile below, and the press goes up; on any other
/// warp it goes toward the nearest edge of the map. The player is then expected
/// to leave the map. Elsewhere a path to that one tile is asked for.
pub proof fn a_warp_is_taken_from_its_tile(
    n: NavV,
    world: World,
    o: Observation,
    pose: PlayerPose,
    map: MapData,
    asked: usize,
)
    requires
        o.player == Some(pose),
        world.map_of(pose.map@) == Some(map),
        n.hop == Some((pose.map@, Some(crate::search::Hop::Warp(asked)))),
        crate::navigator::leads_to(world, n.destination) != Some(pose.map@),
        asked < map.warps@.len(),
        0 <= usable_for(map, asked as int) < map.warps@.len(),
        map.warps@[usable_for(map, asked as int)].y < i32::MAX,
    ensures
        ({
            let w = map.warps@[usable_for(map, asked as int)];
            let tile = map.tile_at(w.x as int, w.y as int);
            let points = match tile {
                Some(t) => match t.behavior {
                    Behavior::Arrow(d) => Some(d),
                    Behavior::Stair(d) => Some(d),
                    _ => None,
                },
                None => None,
            };
            let door = points is None && tile is Some && (tile->0.behavior is Door
                || tile->0.collision != 0);
            let stand: (int, int) = (w.x as int, if door {
                w.y + 1
            } else {
                w.y as int
            });
            let (next, s) = n.stepped(world, o);
            if (pose.x as int, pose.y as int) == stand {
                &&& s is Status && s->Status_0 is Act
                &&& ({
                    let a = s->Status_0->Act_0;
                    let way = if points is Some {
                        points->0
                    } else if door {
                        Direction::Up
                    } else {
                        nearest_edge(map, w.x as int, w.y as int)
                    };
                    &&& a.commands.len() == 1 && a.commands[0] is Press
                    &&& leads(a.commands[0]->Press_0, way)
                    &&& a.expect == ExpectationV::LeftMap(map.name@)
                })
            } else {
                &&& s is Path
                &&& s->Path_0.pose == pose@
                &&& forall|t: Spot| s->Path_0.goals.contains(t) <==> spot(t) == stand
                &&& s->Path_0.onto == if points is None && !door {
                    Some((w.x, w.y))
                } else {
                    None
                }
                &&& clear_of(n, map, pose, s->Path_0)
            }
        }),
{
    if let NavStepV::Path(q) = n.stepped(world, o).1 {
        a_question_is_clear(n, map, pose, q);
    }
}

/// The nearest edge is the nearest: no other is fewer tiles away.
pub proof fn the_nearest_edge_is_nearest(map: MapData, x: int, y: int, other: Direction)
    ensures
        to_edge(map, x, y, nearest_edge(map, x, y)) <= to_edge(map, x, y, other),
{
}

/// How many tiles an edge is away.
pub open spec fn to_edge(map: MapData, x: int, y: int, dir: Direction) -> int {
    match dir {
        Direction::Up => y,
        Direction::Down => map.height - 1 - y,
        Direction::Left => x,
        Direction::Right => map.width - 1 - x,
    }
}

/// The terrain goes on over the edge from a tile.
pub open spec fn lets_out(map: MapData, dir: Direction, t: Spot) -> bool {
    exists|i: int|
        0 <= i < map.crossings@.len() && (#[trigger] map.crossings@[i]).direction == dir
            && map.crossings@[i].from == t
}

/// An edge to cross: from a tile that the terrain lets out over it, the press
/// goes over it and the player is expected to leave the map; elsewhere a path to
/// exactly those tiles is asked for.
pub proof fn an_edge_is_crossed_where_it_can_be(
    n: NavV,
    world: World,
    o: Observation,
    pose: PlayerPose,
    map: MapData,
    dir: Direction,
)
    requires
        o.player == Some(pose),
        world.map_of(pose.map@) == Some(map),
        n.hop == Some((pose.map@, Some(crate::search::Hop::Edge(dir)))),
        crate::navigator::leads_to(world, n.destination) != Some(pose.map@),
    ensures
        ({
            let (next, s) = n.stepped(world, o);
            if lets_out(map, dir, (pose.x, pose.y)) {
                &&& s is Status && s->Status_0 is Act
                &&& s->Status_0->Act_0.commands.len() == 1
                &&& s->Status_0->Act_0.commands[0] is Press
                &&& leads(s->Status_0->Act_0.commands[0]->Press_0, dir)
                &&& s->Status_0->Act_0.expect == ExpectationV::LeftMap(map.name@)
            } else {
                &&& s is Path
                &&& forall|t: Spot| #[trigger] s->Path_0.goals.contains(t) <==> lets_out(map, dir, t)
                &&& s->Path_0.pose == pose@ && s->Path_0.onto is None
                &&& clear_of(n, map, pose, s->Path_0)
            }
        }),
{
    if let NavStepV::Path(q) = n.stepped(world, o).1 {
        a_question_is_clear(n, map, pose, q);
    }
}

/// A hold lasts for all its tiles but half of one: a tile more is 268 ms more.
pub proof fn straight_runs_are_measured(from: Spot, path: Seq<Step>)
    requires
        path.len() > 0,
    ensures
        ({
            let run = run_length(from, path);
            &&& 1 <= run <= 8
            &&& run <= path.len()
            &&& run > 1 ==> run < path.len() && straight(spot(from), path, run)
            &&& run < 8 && run + 1 < path.len() ==> !straight(spot(from), path, run + 1)
        }),
{
    let most = if path.len() - 1 < 8 {
        path.len() - 1
    } else {
        8
    };
    a_run_goes_straight(from, path, 0, most);
    let run = run_from(from, path, 0, most);
    let r = run_length(from, path);
    if r < 8 && r + 1 < path.len() && straight(spot(from), path, r + 1) {
        assert(path[r].dir == path[0].dir);
        assert(path[0].dir == path[0].dir);
    }
}

// ---- Without a path ----

/// Without a path what was found in the way on this map is forgotten, so that it
/// is tried again, up to eight times for a map; what was found on other maps is
/// kept. Where nothing was found, or too often, there is no way.
pub proof fn without_a_path_obstacles_are_forgotten(
    n: NavV,
    q: PathQuestionV,
    other: Seq<char>,
    s: Spot,
)
    requires
        other != q.pose.map,
    ensures
        ({
            let (next, status) = n.pathless(q);
            let map = q.pose.map;
            let again = times(n.forgets, map) < 8 && exists|t: Spot| #[trigger]
                n.learned.contains((map, t));
            &&& again ==> status is Wait && !next.learned.contains((map, s)) && times(
                next.forgets,
                map,
            ) == times(n.forgets, map) + 1
            &&& again ==> next.learned.contains((other, s)) == n.learned.contains((other, s))
                && times(next.forgets, other) == times(n.forgets, other)
            &&& !again ==> status is Fail && next == n
        }),
{
    let more = n.forgets.push(q.pose.map);
    assert(more.drop_last() =~= n.forgets);
}

// ---- From map to map ----

/// A walk waits for the player to be seen, fails on a map it does not know, and
/// has arrived, on its way through a warp, where the warp leads. Else it goes by
/// the hop that was planned for this map: through its warp, over its edge, or, on
/// the map of its destination, to the destination itself.
pub proof fn a_walk_goes_by_its_hops(n: NavV, world: World, o: Observation)
    ensures
        ({
            let (next, step) = n.stepped(world, o);
            &&& o.player is None ==> step is Status && step->Status_0 is Wait && next == n
            &&& o.player is Some && world.map_of(o.player->0.map@) is None ==> step is Status
                && step->Status_0 is Fail
            &&& o.player is Some && world.map_of(o.player->0.map@) is Some ==> ({
                let pose = o.player->0;
                let map = world.map_of(pose.map@)->0;
                let planned = n.planned(world, pose);
                let there = leads_to(world, n.destination) == Some(pose.map@);
                let hop = (planned.hop->0).1;
                &&& there ==> step == NavStepV::Status(NavStatusV::Arrived) && next == n
                &&& !there && hop is Some && hop->0 is Warp ==> (next, step) == planned.warping(
                    map,
                    pose@,
                    hop->0->Warp_0 as int,
                )
                &&& !there && hop is Some && hop->0 is Edge ==> (next, step) == planned.crossing(
                    map,
                    pose@,
                    hop->0->Edge_0,
                )
                &&& !there && hop is None && pose.map@ != n.destination.on() ==> step is Status
                    && step->Status_0 is Fail
                &&& !there && hop is None && pose.map@ == n.destination.on() ==> (next, step)
                    == planned.arriving(map, pose@)
            })
        }),
{
}

/// A hop is planned when a map is entered, from where the player stands and
/// toward the destination, and kept while the player is on that map.
pub proof fn a_hop_is_planned_once_a_map(n: NavV, world: World, pose: PlayerPose, later: PlayerPose)
    requires
        later.map@ == pose.map@,
    ensures
        n.hop is None || (n.hop->0).0 != pose.map@ ==> n.planned(world, pose).hop == Some(
            (pose.map@, hop_toward(world, pose, n.destination, n.gone)),
        ),
        n.hop is Some && (n.hop->0).0 == pose.map@ ==> n.planned(world, pose) == n,
        n.planned(world, pose).planned(world, later) == n.planned(world, pose),
        n.planned(world, pose).destination == n.destination,
        n.planned(world, pose).learned == n.learned,
{
}

/// A warp of a map leads to the map that it names.
pub proof fn a_warp_leads_to_its_map(world: World, map: Seq<char>, warp: usize)
    ensures
        ({
            let to = leads_to(world, DestinationV::Warp { map, warp });
            let m = world.map_of(map);
            &&& m is None ==> to is None
            &&& m is Some && warp >= m->0.warps@.len() ==> to is None
            &&& m is Some && warp < m->0.warps@.len() ==> to == world.named(
                m->0.warps@[warp as int].dest_map@,
            )
        }),
{
}

} // verus!
