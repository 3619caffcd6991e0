//! The moves that a map offers, and where they lead.

use vstd::prelude::*;

use crate::input::Direction;
use crate::nav::{approach, goals_of, hop_toward, talk_spots, DestinationV};
use crate::observe::PlayerPose;
use crate::route::{
    beside, crosses, edge_from, edges_from, edges_out, ends_at, exit_toward, marked, moves_from,
    neighbour, obstacles, passage_at, stands_on, stays, steps_to, takes, tiles, twin, usable,
    usable_for, walks, warps_from, warps_out, ways_out, whole,
};
use crate::search::{searched, Hop};
use crate::text::within;
use crate::world::{MapData, MapObject, PlaceV, Spot, World};

verus! {

// ---- Steps ----

/// A step ends where the first passage from the tile that way leads, unless
/// something stands there; without a passage there is no step.
pub proof fn a_step_ends_where_its_passage_leads(
    map: MapData,
    s: Spot,
    dir: Direction,
    blocked: Set<Spot>,
    i: int,
)
    ensures
        passage_at(map, s, dir, i) && !blocked.contains(map.passages@[i].to) ==> steps_to(
            map,
            s,
            dir,
            blocked,
        ) == Some(map.passages@[i].to),
        passage_at(map, s, dir, i) && blocked.contains(map.passages@[i].to) ==> steps_to(
            map,
            s,
            dir,
            blocked,
        ) is None,
        (forall|k: int|
            0 <= k < map.passages@.len() ==> (#[trigger] map.passages@[k]).from != s
                || map.passages@[k].dir != dir) ==> steps_to(map, s, dir, blocked) is None,
{
    if passage_at(map, s, dir, i) {
        let k = choose|k: int| passage_at(map, s, dir, k);
        assert(passage_at(map, s, dir, k));
        if k < i {
            assert(map.passages@[k].from != s || map.passages@[k].dir != dir);
        }
        if i < k {
            assert(map.passages@[i].from != s || map.passages@[i].dir != dir);
        }
    }
}

/// Someone who stays on a tile stands in the way there; someone who walks about,
/// or is gone, does not.
pub proof fn who_stays_stands_in_the_way(map: MapData, gone: Set<(Seq<char>, u32)>, i: int, s: Spot)
    requires
        0 <= i < map.objects@.len(),
        map.objects@[i].x == Some(s.0),
        map.objects@[i].y == Some(s.1),
    ensures
        stays(map.objects@[i]) && !gone.contains((map.name@, map.objects@[i].local_id))
            ==> obstacles(map, gone).contains(s),
        (!stays(map.objects@[i]) || gone.contains((map.name@, map.objects@[i].local_id))) && (
        forall|k: int|
            0 <= k < map.objects@.len() && k != i ==> (#[trigger] map.objects@[k]).x != Some(s.0)
                || map.objects@[k].y != Some(s.1)) ==> !obstacles(map, gone).contains(s),
{
    if stays(map.objects@[i]) && !gone.contains((map.name@, map.objects@[i].local_id)) {
        assert(stands_on(map, gone, i, s));
    } else if obstacles(map, gone).contains(s) {
        let k = choose|k: int| stands_on(map, gone, k, s);
        assert(stands_on(map, gone, k, s));
        assert(map.objects@[k].x == Some(s.0));
    }
}

proof fn the_walks_are_the_steps(
    map: MapData,
    s: Spot,
    blocked: Set<Spot>,
    n: nat,
    q: PlaceV,
    hop: Option<Hop>,
)
    requires
        n <= 4,
    ensures
        walks(map, s, blocked, n).contains((q, hop)) <==> hop is None && q.map == map.name@
            && exists|k: int|
            0 <= k < n && #[trigger] steps_to(map, s, Direction::nth(k), blocked) == Some(
                (q.x, q.y),
            ),
    decreases n,
{
    let all = walks(map, s, blocked, n);
    if n > 0 {
        let rest = walks(map, s, blocked, (n - 1) as nat);
        the_walks_are_the_steps(map, s, blocked, (n - 1) as nat, q, hop);
        let last = steps_to(map, s, Direction::nth(n - 1), blocked);
        if rest.contains((q, hop)) {
            let i = choose|i: int| 0 <= i < rest.len() && rest[i] == (q, hop);
            assert(all[i] == (q, hop));
        }
        if all.contains((q, hop)) && !rest.contains((q, hop)) {
            let i = choose|i: int| 0 <= i < all.len() && all[i] == (q, hop);
            if i < rest.len() {
                assert(rest[i] == (q, hop));
            }
            assert(last == Some((q.x, q.y)));
        }
        if hop is None && q.map == map.name@ && last == Some((q.x, q.y)) {
            assert(q == (PlaceV { map: map.name@, x: q.x, y: q.y }));
            assert(all[rest.len() as int] == (q, hop));
        }
    }
}

// ---- Warps ----

/// A warp can be used where its own tile shows it, and else where none that leads
/// to the same place shows itself.
pub proof fn a_warp_that_shows_is_used(map: MapData, i: int, j: int)
    requires
        0 <= i < map.warps@.len(),
        0 <= j < map.warps@.len(),
    ensures
        marked(map, map.warps@[i]) ==> usable(map, i),
        !marked(map, map.warps@[i]) && map.warps@[j].dest_map@ == map.warps@[i].dest_map@
            && map.warps@[j].dest_warp == map.warps@[i].dest_warp && marked(map, map.warps@[j])
            ==> !usable(map, i),
{
    if !marked(map, map.warps@[i]) && map.warps@[j].dest_map@ == map.warps@[i].dest_map@
        && map.warps@[j].dest_warp == map.warps@[i].dest_warp && marked(map, map.warps@[j]) {
        assert(twin(map, map.warps@[i], j));
    }
}

/// A warp is taken from its own tile, or from the tile below where it is a door.
pub proof fn where_a_warp_is_taken(map: MapData, s: Spot, i: int)
    requires
        0 <= i < map.warps@.len(),
    ensures
        ({
            let w = map.warps@[i];
            let t = map.tile_at(w.x as int, w.y as int);
            let door = t is Some && (t->0.behavior is Door || t->0.collision != 0);
            takes(map, s, w) <==> s.0 == w.x && s.1 == w.y + if door {
                1int
            } else {
                0
            }
        }),
{
}

proof fn the_warps_are_those_that_can_be_taken(
    map: MapData,
    s: Spot,
    n: nat,
    q: PlaceV,
    hop: Option<Hop>,
)
    requires
        n <= map.warps@.len() <= usize::MAX,
    ensures
        warps_from(map, s, n).contains((q, hop)) <==> hop is Some && hop->0 is Warp && ({
            let i = hop->0->Warp_0;
            &&& i < n
            &&& map.warps@[i as int].dest_warp >= 0
            &&& usable(map, i as int)
            &&& takes(map, s, map.warps@[i as int])
            &&& map.warps@[i as int].lands is Some
            &&& map.warps@[i as int].lands->0@ == q
        }),
    decreases n,
{
    let all = warps_from(map, s, n);
    if n > 0 {
        let rest = warps_from(map, s, (n - 1) as nat);
        the_warps_are_those_that_can_be_taken(map, s, (n - 1) as nat, q, hop);
        if rest.contains((q, hop)) {
            let i = choose|i: int| 0 <= i < rest.len() && rest[i] == (q, hop);
            assert(all[i] == (q, hop));
        }
        if all.contains((q, hop)) && !rest.contains((q, hop)) {
            let i = choose|i: int| 0 <= i < all.len() && all[i] == (q, hop);
            if i < rest.len() {
                assert(rest[i] == (q, hop));
            }
        }
        if all.len() > rest.len() {
            assert(all[rest.len() as int].1 == Some(Hop::Warp((n - 1) as usize)));
        }
    }
}

// ---- Edges ----

proof fn the_crossings_of_one_edge(
    world: World,
    map: MapData,
    s: Spot,
    dir: Direction,
    n: nat,
    q: PlaceV,
    hop: Option<Hop>,
)
    requires
        n <= map.crossings@.len(),
    ensures
        edge_from(world, map, s, dir, n).contains((q, hop)) <==> hop == Some(Hop::Edge(dir))
            && neighbour(world, map, dir) == Some(q.map) && exists|i: int|
            0 <= i < n && (#[trigger] map.crossings@[i]).direction == dir && map.crossings@[i].from
                == s && map.crossings@[i].to == (q.x, q.y),
    decreases n,
{
    let all = edge_from(world, map, s, dir, n);
    if n > 0 {
        let rest = edge_from(world, map, s, dir, (n - 1) as nat);
        the_crossings_of_one_edge(world, map, s, dir, (n - 1) as nat, q, hop);
        let c = map.crossings@[n - 1];
        if rest.contains((q, hop)) {
            let i = choose|i: int| 0 <= i < rest.len() && rest[i] == (q, hop);
            assert(all[i] == (q, hop));
        }
        if all.contains((q, hop)) && !rest.contains((q, hop)) {
            let i = choose|i: int| 0 <= i < all.len() && all[i] == (q, hop);
            if i < rest.len() {
                assert(rest[i] == (q, hop));
            }
            assert(c.direction == dir && c.from == s && c.to == (q.x, q.y));
        }
        if hop == Some(Hop::Edge(dir)) && neighbour(world, map, dir) == Some(q.map) && c.direction
            == dir && c.from == s && c.to == (q.x, q.y) {
            assert(all[rest.len() as int] == (q, hop));
        }
    }
}

proof fn the_crossings_of_all_edges(
    world: World,
    map: MapData,
    s: Spot,
    n: nat,
    q: PlaceV,
    hop: Option<Hop>,
)
    requires
        n <= 4,
    ensures
        edges_from(world, map, s, n).contains((q, hop)) <==> exists|k: int|
            0 <= k < n && edge_from(
                world,
                map,
                s,
                #[trigger] Direction::nth(k),
                map.crossings@.len(),
            ).contains((q, hop)),
    decreases n,
{
    let all = edges_from(world, map, s, n);
    if n > 0 {
        let rest = edges_from(world, map, s, (n - 1) as nat);
        let last = edge_from(world, map, s, Direction::nth(n - 1), map.crossings@.len());
        the_crossings_of_all_edges(world, map, s, (n - 1) as nat, q, hop);
        joined_moves_hold(rest, last, (q, hop));
    }
}

proof fn joined_moves_hold(
    a: Seq<(PlaceV, Option<Hop>)>,
    b: Seq<(PlaceV, Option<Hop>)>,
    x: (PlaceV, Option<Hop>),
)
    ensures
        (a + b).contains(x) <==> a.contains(x) || b.contains(x),
{
    let all = a + b;
    if a.contains(x) {
        let i = choose|i: int| 0 <= i < a.len() && a[i] == x;
        assert(all[i] == x);
    }
    if b.contains(x) {
        let i = choose|i: int| 0 <= i < b.len() && b[i] == x;
        assert(all[a.len() + i] == x);
    }
    if all.contains(x) {
        let i = choose|i: int| 0 <= i < all.len() && all[i] == x;
        if i < a.len() {
            assert(a[i] == x);
        } else {
            assert(b[i - a.len()] == x);
        }
    }
}

// ---- All moves ----

/// The moves from a tile: a step each way that one can be made, every warp that
/// is taken there to where it lands, and every edge crossed there to the tile
/// beyond it. There are no others.
pub proof fn the_moves_from_a_tile(
    world: World,
    map: MapData,
    s: Spot,
    blocked: Set<Spot>,
    q: PlaceV,
    dir: Direction,
    warp: usize,
    i: int,
)
    requires
        map.warps@.len() <= usize::MAX,
    ensures
        ({
            let all = beside(world, map, s, blocked);
            &&& steps_to(map, s, dir, blocked) == Some((q.x, q.y)) && q.map == map.name@
                ==> all.contains((q, None))
            &&& all.contains((q, None)) ==> q.map == map.name@ && exists|d: Direction|
                #[trigger] steps_to(map, s, d, blocked) == Some((q.x, q.y))
            &&& all.contains((q, Some(Hop::Warp(warp)))) <==> {
                &&& warp < map.warps@.len()
                &&& map.warps@[warp as int].dest_warp >= 0
                &&& usable(map, warp as int)
                &&& takes(map, s, map.warps@[warp as int])
                &&& map.warps@[warp as int].lands is Some
                &&& map.warps@[warp as int].lands->0@ == q
            }
            &&& 0 <= i < map.crossings@.len() && map.crossings@[i].direction == dir
                && map.crossings@[i].from == s && map.crossings@[i].to == (q.x, q.y) && neighbour(
                world,
                map,
                dir,
            ) == Some(q.map) ==> all.contains((q, Some(Hop::Edge(dir))))
            &&& all.contains((q, Some(Hop::Edge(dir)))) ==> neighbour(world, map, dir) == Some(
                q.map,
            ) && exists|k: int|
                0 <= k < map.crossings@.len() && (#[trigger] map.crossings@[k]).direction == dir
                    && map.crossings@[k].from == s && map.crossings@[k].to == (q.x, q.y)
        }),
{
    let w = walks(map, s, blocked, 4);
    let p = warps_from(map, s, map.warps@.len());
    let e = edges_from(world, map, s, 4);
    let step: Option<Hop> = None;
    let through = Some(Hop::Warp(warp));
    let over = Some(Hop::Edge(dir));
    joined_moves_hold(w + p, e, (q, step));
    joined_moves_hold(w, p, (q, step));
    joined_moves_hold(w + p, e, (q, through));
    joined_moves_hold(w, p, (q, through));
    joined_moves_hold(w + p, e, (q, over));
    joined_moves_hold(w, p, (q, over));
    the_walks_are_the_steps(map, s, blocked, 4, q, step);
    the_walks_are_the_steps(map, s, blocked, 4, q, through);
    the_walks_are_the_steps(map, s, blocked, 4, q, over);
    the_warps_are_those_that_can_be_taken(map, s, map.warps@.len(), q, step);
    the_warps_are_those_that_can_be_taken(map, s, map.warps@.len(), q, through);
    the_warps_are_those_that_can_be_taken(map, s, map.warps@.len(), q, over);
    the_crossings_of_all_edges(world, map, s, 4, q, step);
    the_crossings_of_all_edges(world, map, s, 4, q, through);
    the_crossings_of_all_edges(world, map, s, 4, q, over);
    let n = map.crossings@.len();
    assert forall|k: int| 0 <= k < 4 implies !edge_from(
        world,
        map,
        s,
        #[trigger] Direction::nth(k),
        n,
    ).contains((q, step)) && !edge_from(world, map, s, Direction::nth(k), n).contains(
        (q, through),
    ) && (Direction::nth(k) != dir ==> !edge_from(
        world,
        map,
        s,
        Direction::nth(k),
        n,
    ).contains((q, over))) by {
        the_crossings_of_one_edge(world, map, s, Direction::nth(k), n, q, step);
        the_crossings_of_one_edge(world, map, s, Direction::nth(k), n, q, through);
        the_crossings_of_one_edge(world, map, s, Direction::nth(k), n, q, over);
    }
    the_crossings_of_one_edge(world, map, s, dir, n, q, over);
    let at: int = match dir {
        Direction::Up => 0,
        Direction::Down => 1,
        Direction::Left => 2,
        Direction::Right => 3,
    };
    assert(Direction::nth(at) == dir);
    assert(steps_to(map, s, Direction::nth(at), blocked) == steps_to(map, s, dir, blocked));
}

/// What leaves the map that one starts on is how one leaves it; a move within
/// that map is not remembered as a way out.
pub proof fn a_way_out_leaves_the_map(
    world: World,
    gone: Set<(Seq<char>, u32)>,
    home: Seq<char>,
    p: PlaceV,
    i: int,
)
    requires
        world.map_of(p.map) is Some,
        0 <= i < moves_from(world, gone, home, p).len(),
    ensures
        ({
            let map = world.map_of(p.map)->0;
            let plain = beside(world, map, (p.x, p.y), obstacles(map, gone));
            let told = moves_from(world, gone, home, p);
            &&& told.len() == plain.len()
            &&& told[i].0 == plain[i].0
            &&& p.map == home && told[i].0.map == home ==> told[i].1 is None
            &&& p.map != home || told[i].0.map != home ==> told[i].1 == plain[i].1
        }),
{
}

/// From a map to itself there is no way out to look for, and from one that is not
/// known there are no moves.
pub proof fn nothing_leads_where_one_is(
    world: World,
    gone: Set<(Seq<char>, u32)>,
    map: Seq<char>,
    p: PlaceV,
)
    ensures
        exit_toward(world, map, map) is None,
        world.map_of(p.map) is None ==> moves_from(world, gone, map, p).len() == 0,
{
}

// ---- Maps ----

/// A map is found by its name, the first of that name.
pub proof fn a_map_is_found_by_its_name(world: World, name: Seq<char>, i: int)
    requires
        0 <= i < world.maps@.len(),
    ensures
        world.maps@[i].name@ == name && (forall|k: int|
            0 <= k < i ==> (#[trigger] world.maps@[k]).name@ != name) ==> world.map_of(name)
            == Some(world.maps@[i]),
        (forall|k: int| 0 <= k < world.maps@.len() ==> (#[trigger] world.maps@[k]).name@ != name)
            ==> world.map_of(name) is None,
        world.maps@[i].id@ == name && (forall|k: int|
            0 <= k < i ==> (#[trigger] world.maps@[k]).id@ != name) ==> world.named(name) == Some(
            world.maps@[i].name@,
        ),
{
    if world.map_at(name, i) {
        let k = choose|k: int| world.map_at(name, k);
        assert(world.map_at(name, k));
        if k < i {
            assert(world.maps@[k].name@ != name);
        }
        if i < k {
            assert(world.maps@[i].name@ != name);
        }
    }
    if world.id_at(name, i) {
        let k = choose|k: int| world.id_at(name, k);
        assert(world.id_at(name, k));
        if k < i {
            assert(world.maps@[k].id@ != name);
        }
        if i < k {
            assert(world.maps@[i].id@ != name);
        }
    }
}

/// A tile is found by its row and its column, and none outside the map.
pub proof fn a_tile_is_found_by_row_and_column(map: MapData, x: int, y: int)
    ensures
        map.tile_at(x, y) is Some <==> 0 <= y < map.rows@.len() && 0 <= x < map.rows@[y]@.len(),
        map.tile_at(x, y) is Some ==> map.tile_at(x, y)->0 == map.rows@[y]@[x],
{
}

/// To go up is one row less, to go left one column less; the opposite ways undo
/// each other, and the four ways are all there are.
pub proof fn the_four_ways(d: Direction)
    ensures
        Direction::Up.dy() == -1 && Direction::Up.dx() == 0,
        Direction::Left.dx() == -1 && Direction::Left.dy() == 0,
        Direction::Down.dy() == -Direction::Up.dy() && Direction::Down.dx() == 0,
        Direction::Right.dx() == -Direction::Left.dx() && Direction::Right.dy() == 0,
        exists|k: int| 0 <= k < 4 && #[trigger] Direction::nth(k) == d,
{
    let at: int = match d {
        Direction::Up => 0,
        Direction::Down => 1,
        Direction::Left => 2,
        Direction::Right => 3,
    };
    assert(Direction::nth(at) == d);
}

// ---- From map to map ----

proof fn the_warps_that_lead_out(
    world: World,
    map: MapData,
    clear: bool,
    n: nat,
    q: PlaceV,
    hop: Option<Hop>,
)
    requires
        n <= map.warps@.len() <= usize::MAX,
    ensures
        warps_out(world, map, clear, n).contains((q, hop)) <==> hop is Some && hop->0 is Warp && ({
            let i = hop->0->Warp_0;
            &&& i < n
            &&& map.warps@[i as int].dest_warp >= 0
            &&& usable(map, i as int)
            &&& marked(map, map.warps@[i as int]) == clear
            &&& world.named(map.warps@[i as int].dest_map@) is Some
            &&& q == whole(world.named(map.warps@[i as int].dest_map@)->0)
        }),
    decreases n,
{
    let all = warps_out(world, map, clear, n);
    if n > 0 {
        let rest = warps_out(world, map, clear, (n - 1) as nat);
        the_warps_that_lead_out(world, map, clear, (n - 1) as nat, q, hop);
        if rest.contains((q, hop)) {
            let i = choose|i: int| 0 <= i < rest.len() && rest[i] == (q, hop);
            assert(all[i] == (q, hop));
        }
        if all.contains((q, hop)) && !rest.contains((q, hop)) {
            let i = choose|i: int| 0 <= i < all.len() && all[i] == (q, hop);
            if i < rest.len() {
                assert(rest[i] == (q, hop));
            }
        }
        if all.len() > rest.len() {
            assert(all[rest.len() as int].1 == Some(Hop::Warp((n - 1) as usize)));
        }
    }
}

proof fn the_edges_that_lead_out(world: World, map: MapData, n: nat, q: PlaceV, hop: Option<Hop>)
    requires
        n <= 4,
    ensures
        edges_out(world, map, n).contains((q, hop)) <==> hop is Some && hop->0 is Edge && exists|
            k: int,
        |
            0 <= k < n && #[trigger] Direction::nth(k) == hop->0->Edge_0 && crosses(
                map,
                Direction::nth(k),
            ) && neighbour(world, map, Direction::nth(k)) is Some && q == whole(
                neighbour(world, map, Direction::nth(k))->0,
            ),
    decreases n,
{
    let all = edges_out(world, map, n);
    if n > 0 {
        let rest = edges_out(world, map, (n - 1) as nat);
        the_edges_that_lead_out(world, map, (n - 1) as nat, q, hop);
        let dir = Direction::nth(n - 1);
        if rest.contains((q, hop)) {
            let i = choose|i: int| 0 <= i < rest.len() && rest[i] == (q, hop);
            assert(all[i] == (q, hop));
        }
        if all.contains((q, hop)) && !rest.contains((q, hop)) {
            let i = choose|i: int| 0 <= i < all.len() && all[i] == (q, hop);
            if i < rest.len() {
                assert(rest[i] == (q, hop));
            }
            assert(Direction::nth(n - 1) == hop->0->Edge_0);
        }
        if all.len() > rest.len() {
            assert(all[rest.len() as int] == (
                whole(neighbour(world, map, dir)->0),
                Some(Hop::Edge(dir)),
            ));
        }
    }
}

/// The ways out of a map, tile for tile unknown: every warp that can be used and
/// leads to a map that is known, and every edge that is crossed to a known
/// neighbour; and no others.
pub proof fn the_ways_out_of_a_map(
    world: World,
    from: Seq<char>,
    to: Seq<char>,
    warp: usize,
    dir: Direction,
)
    requires
        world.map_of(from) is Some,
        world.map_of(from)->0.warps@.len() <= usize::MAX,
    ensures
        ({
            let map = world.map_of(from)->0;
            let all = ways_out(world, whole(from));
            &&& all.contains((whole(to), Some(Hop::Warp(warp)))) <==> {
                &&& warp < map.warps@.len()
                &&& map.warps@[warp as int].dest_warp >= 0
                &&& usable(map, warp as int)
                &&& world.named(map.warps@[warp as int].dest_map@) == Some(to)
            }
            &&& all.contains((whole(to), Some(Hop::Edge(dir)))) <==> crosses(map, dir)
                && neighbour(world, map, dir) == Some(to)
            &&& !all.contains((whole(to), None))
        }),
{
    let map = world.map_of(from)->0;
    let n = map.warps@.len();
    let shown = warps_out(world, map, true, n);
    let plain = warps_out(world, map, false, n);
    let edges = edges_out(world, map, 4);
    let q = whole(to);
    let none: Option<Hop> = None;
    let at: int = match dir {
        Direction::Up => 0,
        Direction::Down => 1,
        Direction::Left => 2,
        Direction::Right => 3,
    };
    assert(Direction::nth(at) == dir);
    out_of_three(shown, plain, edges, (q, Some(Hop::Warp(warp))));
    out_of_three(shown, plain, edges, (q, Some(Hop::Edge(dir))));
    out_of_three(shown, plain, edges, (q, none));
    the_warps_that_lead_out(world, map, true, n, q, Some(Hop::Warp(warp)));
    the_warps_that_lead_out(world, map, false, n, q, Some(Hop::Warp(warp)));
    the_edges_that_lead_out(world, map, 4, q, Some(Hop::Warp(warp)));
    the_warps_that_lead_out(world, map, true, n, q, Some(Hop::Edge(dir)));
    the_warps_that_lead_out(world, map, false, n, q, Some(Hop::Edge(dir)));
    the_edges_that_lead_out(world, map, 4, q, Some(Hop::Edge(dir)));
    the_warps_that_lead_out(world, map, true, n, q, none);
    the_warps_that_lead_out(world, map, false, n, q, none);
    the_edges_that_lead_out(world, map, 4, q, none);
    if warp < n {
        let named = world.named(map.warps@[warp as int].dest_map@);
        if named is Some {
            assert(whole(named->0).map == named->0);
        }
    }
    if neighbour(world, map, dir) is Some {
        assert(whole(neighbour(world, map, dir)->0).map == neighbour(world, map, dir)->0);
    }
    assert(q.map == to);
}

proof fn out_of_three(
    a: Seq<(PlaceV, Option<Hop>)>,
    b: Seq<(PlaceV, Option<Hop>)>,
    c: Seq<(PlaceV, Option<Hop>)>,
    x: (PlaceV, Option<Hop>),
)
    ensures
        (a + b + c).contains(x) <==> a.contains(x) || b.contains(x) || c.contains(x),
{
    joined_moves_hold(a + b, c, x);
    joined_moves_hold(a, b, x);
}

/// Warps that show themselves are tried before those that do not, and edges last.
pub proof fn ways_that_show_come_first(world: World, from: Seq<char>, i: int, j: int)
    requires
        world.map_of(from) is Some,
        world.map_of(from)->0.warps@.len() <= usize::MAX,
        0 <= i < j < ways_out(world, whole(from)).len(),
    ensures
        ({
            let map = world.map_of(from)->0;
            let a = ways_out(world, whole(from))[i].1->0;
            let b = ways_out(world, whole(from))[j].1->0;
            &&& a is Edge ==> b is Edge
            &&& a is Warp && b is Warp && marked(map, map.warps@[b->Warp_0 as int]) ==> marked(
                map,
                map.warps@[a->Warp_0 as int],
            )
        }),
{
    let map = world.map_of(from)->0;
    let n = map.warps@.len();
    let shown = warps_out(world, map, true, n);
    let plain = warps_out(world, map, false, n);
    let edges = edges_out(world, map, 4);
    let all = ways_out(world, whole(from));
    assert(all == shown + plain + edges);
    assert forall|k: int| 0 <= k < all.len() implies ({
        let h = #[trigger] all[k].1;
        &&& k < shown.len() ==> h is Some && h->0 is Warp && marked(
            map,
            map.warps@[h->0->Warp_0 as int],
        )
        &&& shown.len() <= k < shown.len() + plain.len() ==> h is Some && h->0 is Warp && !marked(
            map,
            map.warps@[h->0->Warp_0 as int],
        )
        &&& k >= shown.len() + plain.len() ==> h is Some && h->0 is Edge
    }) by {
        let x = all[k];
        if k < shown.len() {
            assert(shown[k] == x);
            assert(shown.contains(x));
            the_warps_that_lead_out(world, map, true, n, x.0, x.1);
        } else if k < shown.len() + plain.len() {
            assert(plain[k - shown.len()] == x);
            assert(plain.contains(x));
            the_warps_that_lead_out(world, map, false, n, x.0, x.1);
        } else {
            assert(edges[k - shown.len() - plain.len()] == x);
            assert(edges.contains(x));
            the_edges_that_lead_out(world, map, 4, x.0, x.1);
        }
    }
    assert(all[i].1 == all[i].1 && all[j].1 == all[j].1);
}

/// Someone stays who only turns on the spot: who faces a way, or looks around.
pub proof fn who_turns_on_the_spot_stays(o: MapObject)
    ensures
        o.movement is None ==> !stays(o),
        o.movement is Some && within(o.movement->0@, "FACE"@) ==> stays(o),
        o.movement is Some && within(o.movement->0@, "LOOK_AROUND"@) ==> stays(o),
        o.movement is Some && !within(o.movement->0@, "FACE"@) && !within(
            o.movement->0@,
            "LOOK_AROUND"@,
        ) ==> !stays(o),
{
}

/// A warp is walked up to on its own tile, or on the tile below where it is a door
/// that does not push.
pub proof fn where_a_warp_is_walked_up_to(map: MapData, i: int)
    ensures
        ({
            let w = map.warps@[i];
            let t = map.tile_at(w.x as int, w.y as int);
            let door = t is Some && (t->0.behavior is Door || t->0.collision != 0) && !(
            t->0.behavior is Arrow) && !(t->0.behavior is Stair);
            &&& !(0 <= i < map.warps@.len()) ==> approach(map, i) is None
            &&& 0 <= i < map.warps@.len() && !door ==> approach(map, i) == Some((w.x, w.y))
            &&& 0 <= i < map.warps@.len() && door && w.y < i32::MAX ==> approach(map, i) == Some(
                (w.x, (w.y + 1) as i32),
            )
        }),
{
}

/// The next hop is that of the shortest way to the destination's tiles; on the
/// destination's map, where there is none, no hop is tried. On another it is that
/// of the shortest way to that map with everyone in place, and else the way out
/// toward it from map to map.
pub proof fn a_hop_goes_the_shortest_way(
    world: World,
    pose: PlayerPose,
    dest: DestinationV,
    gone: Set<(Seq<char>, u32)>,
)
    ensures
        ({
            let hop = hop_toward(world, pose, dest, gone);
            let start = PlaceV { map: pose.map@, x: pose.x, y: pose.y };
            let exact = searched(
                start,
                tiles(world, gone, pose.map@),
                ends_at(dest.on(), Some(goals_of(world, dest))),
            );
            let anywhere = searched(
                start,
                tiles(world, Set::empty(), pose.map@),
                ends_at(dest.on(), None),
            );
            &&& exact is Some ==> hop == exact->0
            &&& exact is None && pose.map@ == dest.on() ==> hop is None
            &&& exact is None && pose.map@ != dest.on() && anywhere is Some && anywhere->0 is Some
                ==> hop == anywhere->0
            &&& exact is None && pose.map@ != dest.on() && (anywhere is None || anywhere->0 is None)
                ==> hop == exit_toward(world, pose.map@, dest.on())
        }),
{
}

/// A place is a goal where it is on the map, on one of the tiles if those are
/// named.
pub proof fn a_goal_is_a_tile_of_its_map(to: Seq<char>, spots: Set<Spot>, p: PlaceV)
    ensures
        ends_at(to, None)(p) <==> p.map == to,
        ends_at(to, Some(spots))(p) <==> p.map == to && spots.contains((p.x, p.y)),
{
}

/// The tiles of a destination: a tile is its own; someone to talk to has those that
/// they are talked to from; a warp has the one it is walked up to on, its own or
/// that of the one that shows for it; and on a map that is not known there are
/// none.
pub proof fn the_tiles_of_a_destination(
    world: World,
    name: Seq<char>,
    x: i32,
    y: i32,
    warp: usize,
    s: Spot,
)
    ensures
        ({
            let tile = goals_of(world, DestinationV::Tile { map: name, x, y });
            let talk = goals_of(world, DestinationV::Facing { map: name, x, y });
            let way = goals_of(world, DestinationV::Warp { map: name, warp });
            let map = world.map_of(name);
            &&& map is None ==> !tile.contains(s) && !talk.contains(s) && !way.contains(s)
            &&& map is Some ==> (tile.contains(s) <==> s == (x, y))
            &&& map is Some ==> (way.contains(s) <==> approach(
                map->0,
                usable_for(map->0, warp as int),
            ) == Some(s))
            &&& map is Some ==> (talk.contains(s) <==> exists|i: int|
                0 <= i < talk_spots(map->0, x as int, y as int, 4).len() && (
                #[trigger] talk_spots(map->0, x as int, y as int, 4)[i]).0 == s)
        }),
{
}

} // verus!
