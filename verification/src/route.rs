//! Routes across maps: which exit of the player's map leads to where the walk
//! is to end.

use vstd::prelude::*;

use crate::input::Direction;
use crate::observe::PlayerPose;
use crate::search::{
    extended, finds_are_in_order, finds_can_be_reached, finds_stay, found_by_then, grown, hop_or,
    knows, nothing_left_means_no_goal, reaches, searched, stops_at, the_first_goal_is_nearest,
    the_first_goal_is_one, what_can_be_reached_is_found, Found, Hop,
};
use crate::text::{
    before, comes_before, contains, different_texts_are_ordered, order_is_transitive, same, within,
};
use crate::world::{MapData, MapObject, Place, PlaceV, Spot, Warp, World};

verus! {

/// Map objects known to be gone, as (map, local id).
pub type Gone = Vec<(String, u32)>;

pub open spec fn gone_set(gone: Seq<(String, u32)>) -> Set<(Seq<char>, u32)> {
    Set::new(
        |g: (Seq<char>, u32)|
            exists|i: int| 0 <= i < gone.len() && (#[trigger] gone[i]).0@ == g.0 && gone[i].1 == g.1,
    )
}

fn is_gone(gone: &Gone, map: &str, id: u32) -> (r: bool)
    ensures
        r == gone_set(gone@).contains((map@, id)),
{
    let mut i: usize = 0;
    while i < gone.len()
        invariant
            i <= gone@.len(),
            forall|j: int|
                0 <= j < i ==> !((#[trigger] gone@[j]).0@ == map@ && gone@[j].1 == id),
        decreases gone@.len() - i,
    {
        if gone[i].1 == id && same(gone[i].0.as_str(), map) {
            assert(gone@[i as int].0@ == map@);
            return true;
        }
        i += 1;
    }
    false
}

pub(crate) fn has_spot(spots: &Vec<Spot>, x: i32, y: i32) -> (r: bool)
    ensures
        r == spots@.contains((x, y)),
{
    let mut i: usize = 0;
    while i < spots.len()
        invariant
            i <= spots@.len(),
            forall|j: int| 0 <= j < i ==> #[trigger] spots@[j] != (x, y),
        decreases spots@.len() - i,
    {
        if spots[i].0 == x && spots[i].1 == y {
            assert(spots@[i as int] == (x, y));
            return true;
        }
        i += 1;
    }
    false
}

// ---- What stands in the way ----

/// The object stays on its tile: an NPC that only turns, a tree, a boulder, an
/// item ball.
pub open spec fn stays(o: MapObject) -> bool {
    match o.movement {
        Some(m) => within(m@, "FACE"@) || within(m@, "LOOK_AROUND"@),
        None => false,
    }
}

/// Object `i` of the map stands on `s`.
pub open spec fn stands_on(map: MapData, gone: Set<(Seq<char>, u32)>, i: int, s: Spot) -> bool {
    &&& 0 <= i < map.objects@.len()
    &&& stays(map.objects@[i])
    &&& !gone.contains((map.name@, map.objects@[i].local_id))
    &&& map.objects@[i].x == Some(s.0)
    &&& map.objects@[i].y == Some(s.1)
}

/// Tiles blocked by objects that don't move and are not gone.
pub open spec fn obstacles(map: MapData, gone: Set<(Seq<char>, u32)>) -> Set<Spot> {
    Set::new(|s: Spot| exists|i: int| stands_on(map, gone, i, s))
}

/// Tiles blocked by objects that don't move: NPCs that only turn, cut trees,
/// boulders, item balls. Wanderers are learned when met.
pub fn static_obstacles(map: &MapData) -> (v: Vec<Spot>)
    ensures
        v@.to_set() == obstacles(*map, Set::empty()),
{
    let none: Gone = Vec::new();
    assert(gone_set(none@) =~= Set::empty());
    object_obstacles(map, &none)
}

/// [`static_obstacles`] without the objects in `gone`.
pub fn object_obstacles(map: &MapData, gone: &Gone) -> (v: Vec<Spot>)
    ensures
        v@.to_set() == obstacles(*map, gone_set(gone@)),
{
    let ghost g = gone_set(gone@);
    let mut v: Vec<Spot> = Vec::new();
    let mut i: usize = 0;
    while i < map.objects.len()
        invariant
            i <= map.objects@.len(),
            g == gone_set(gone@),
            forall|s: Spot| #[trigger]
                v@.contains(s) ==> exists|j: int| 0 <= j < i && stands_on(*map, g, j, s),
            forall|j: int, s: Spot|
                0 <= j < i && #[trigger] stands_on(*map, g, j, s) ==> v@.contains(s),
        decreases map.objects@.len() - i,
    {
        let o = &map.objects[i];
        let still = match &o.movement {
            Some(m) => contains(m.as_str(), "FACE") || contains(m.as_str(), "LOOK_AROUND"),
            None => false,
        };
        let ghost before_push = v@;
        if still && !is_gone(gone, map.name.as_str(), o.local_id) {
            match (o.x, o.y) {
                (Some(x), Some(y)) => {
                    v.push((x, y));
                    assert(stands_on(*map, g, i as int, (x, y)));
                    assert forall|s: Spot| #[trigger] v@.contains(s) implies exists|j: int|
                        0 <= j < i + 1 && stands_on(*map, g, j, s) by {
                        if before_push.contains(s) {
                        } else {
                            let k = choose|k: int| 0 <= k < v@.len() && v@[k] == s;
                            if k < before_push.len() {
                                assert(before_push[k] == s);
                            }
                            assert(s == (x, y));
                        }
                    }
                    assert forall|j: int, s: Spot|
                        0 <= j < i + 1 && #[trigger] stands_on(*map, g, j, s) implies v@.contains(
                        s,
                    ) by {
                        if j < i {
                            let k = choose|k: int| 0 <= k < before_push.len() && before_push[k] == s;
                            assert(before_push.contains(s));
                            assert(v@[k] == s);
                        } else {
                            assert(v@[v@.len() - 1] == s);
                        }
                    }
                },
                _ => {},
            }
        }
        i += 1;
    }
    assert(v@.to_set() =~= obstacles(*map, g)) by {
        assert forall|s: Spot| v@.to_set().contains(s) == obstacles(*map, g).contains(s) by {
            if v@.contains(s) {
                let j = choose|j: int| 0 <= j < map.objects@.len() && stands_on(*map, g, j, s);
                assert(stands_on(*map, g, j, s));
            }
        }
    }
    v
}

// ---- Warps ----

/// The warp's tile says how it is used: an arrow mat, stairs, or a door.
pub open spec fn marked(map: MapData, w: Warp) -> bool {
    match map.tile_at(w.x as int, w.y as int) {
        Some(t) => t.pushes() is Some || t.is_door(),
        None => false,
    }
}

fn warp_is_marked(map: &MapData, w: &Warp) -> (r: bool)
    ensures
        r == marked(*map, *w),
{
    match map.tile(w.x, w.y) {
        Some(t) => t.push().is_some() || t.door(),
        None => false,
    }
}

/// A marked warp to the same place.
pub open spec fn twin(map: MapData, w: Warp, i: int) -> bool {
    &&& 0 <= i < map.warps@.len()
    &&& map.warps@[i].dest_map@ == w.dest_map@
    &&& map.warps@[i].dest_warp == w.dest_warp
    &&& marked(map, map.warps@[i])
}

pub open spec fn usable(map: MapData, index: int) -> bool {
    0 <= index < map.warps@.len() && (marked(map, map.warps@[index]) || forall|i: int|
        !twin(map, map.warps@[index], i))
}

pub open spec fn first_twin(map: MapData, w: Warp, i: int) -> bool {
    twin(map, w, i) && forall|j: int| 0 <= j < i ==> !twin(map, w, j)
}

/// The warp to take in place of `index`: itself, or the marked one beside it.
pub open spec fn usable_for(map: MapData, index: int) -> int {
    if !(0 <= index < map.warps@.len()) || usable(map, index) {
        index
    } else {
        choose|i: int| first_twin(map, map.warps@[index], i)
    }
}

fn find_twin(map: &MapData, w: &Warp) -> (r: Option<usize>)
    ensures
        match r {
            Some(i) => first_twin(*map, *w, i as int),
            None => forall|i: int| !twin(*map, *w, i),
        },
{
    let mut i: usize = 0;
    while i < map.warps.len()
        invariant
            i <= map.warps@.len(),
            forall|j: int| 0 <= j < i ==> !twin(*map, *w, j),
        decreases map.warps@.len() - i,
    {
        let other = &map.warps[i];
        if other.dest_warp == w.dest_warp && other.dest_map == w.dest_map && warp_is_marked(
            map,
            other,
        ) {
            return Some(i);
        }
        i += 1;
    }
    None
}

/// Whether warp `index` can be used. A warp event on a plain tile never
/// fires when the map has a marked warp (arrow mat, door, stairs) to the same
/// place beside it (e.g. the tiles flanking a lab's exit mat).
pub fn warp_usable(map: &MapData, index: usize) -> (r: bool)
    ensures
        r == usable(*map, index as int),
{
    if index >= map.warps.len() {
        return false;
    }
    let w = &map.warps[index];
    if warp_is_marked(map, w) {
        return true;
    }
    match find_twin(map, w) {
        Some(i) => {
            assert(twin(*map, *w, i as int));
            false
        },
        None => true,
    }
}

/// Warp `index`, or the marked warp to the same place beside it when warp
/// `index` sits on a plain tile that never fires.
pub fn usable_warp(map: &MapData, index: usize) -> (r: usize)
    ensures
        r == usable_for(*map, index as int),
        index < map.warps@.len() ==> r < map.warps@.len() && usable(*map, r as int),
{
    if index >= map.warps.len() {
        return index;
    }
    let w = &map.warps[index];
    if warp_is_marked(map, w) {
        return index;
    }
    match find_twin(map, w) {
        Some(i) => {
            proof {
                assert(twin(*map, *w, i as int));
                let c = choose|c: int| first_twin(*map, *w, c);
                assert(first_twin(*map, *w, i as int));
                assert(c == i);
            }
            i
        },
        None => index,
    }
}

/// A warp to take in place of another is taken in its own place.
pub proof fn a_usable_warp_is_taken_itself(map: MapData, index: int)
    requires
        0 <= index < map.warps@.len(),
    ensures
        usable(map, usable_for(map, index)),
        usable_for(map, usable_for(map, index)) == usable_for(map, index),
{
    if !usable(map, index) {
        let w = map.warps@[index];
        let t = choose|i: int| twin(map, w, i);
        first_of_the_twins(map, w, t);
    }
}

proof fn first_of_the_twins(map: MapData, w: Warp, t: int)
    requires
        twin(map, w, t),
    ensures
        exists|i: int| first_twin(map, w, i),
    decreases t,
{
    if !first_twin(map, w, t) {
        let j = choose|j: int| 0 <= j < t && twin(map, w, j);
        first_of_the_twins(map, w, j);
    }
}

// ---- Moves ----

pub open spec fn passage_at(map: MapData, s: Spot, dir: Direction, i: int) -> bool {
    &&& 0 <= i < map.passages@.len()
    &&& map.passages@[i].from == s
    &&& map.passages@[i].dir == dir
    &&& forall|j: int|
        0 <= j < i ==> (#[trigger] map.passages@[j]).from != s || map.passages@[j].dir != dir
}

/// Where a step from `s` toward `dir` ends: where the terrain lets it, unless
/// something stands there.
pub open spec fn steps_to(map: MapData, s: Spot, dir: Direction, blocked: Set<Spot>) -> Option<
    Spot,
> {
    if exists|i: int| passage_at(map, s, dir, i) {
        let to = map.passages@[choose|i: int| passage_at(map, s, dir, i)].to;
        if blocked.contains(to) {
            None
        } else {
            Some(to)
        }
    } else {
        None
    }
}

fn step(map: &MapData, x: i32, y: i32, dir: Direction, blocked: &Vec<Spot>) -> (r: Option<Spot>)
    ensures
        r == steps_to(*map, (x, y), dir, blocked@.to_set()),
{
    let mut i: usize = 0;
    while i < map.passages.len()
        invariant
            i <= map.passages@.len(),
            forall|j: int|
                0 <= j < i ==> (#[trigger] map.passages@[j]).from != (x, y)
                    || map.passages@[j].dir != dir,
        decreases map.passages@.len() - i,
    {
        let p = map.passages[i];
        if p.dir == dir && p.from.0 == x && p.from.1 == y {
            proof {
                assert(passage_at(*map, (x, y), dir, i as int));
                let c = choose|c: int| passage_at(*map, (x, y), dir, c);
                assert(c == i) by {
                    assert(map.passages@[c].from == (x, y));
                    assert(map.passages@[i as int].from == (x, y));
                }
            }
            return if has_spot(blocked, p.to.0, p.to.1) {
                None
            } else {
                Some(p.to)
            };
        }
        i += 1;
    }
    assert forall|c: int| !passage_at(*map, (x, y), dir, c) by {
        if passage_at(*map, (x, y), dir, c) {
            assert(map.passages@[c].from == (x, y));
        }
    }
    None
}

/// A move to another tile, and the hop it makes where it leaves the map.
pub type Moves = Vec<(Place, Option<Hop>)>;

pub open spec fn moves_of(moves: Seq<(Place, Option<Hop>)>) -> Seq<(PlaceV, Option<Hop>)> {
    Seq::new(moves.len(), |i: int| (moves[i].0@, moves[i].1))
}

fn add_move(moves: &mut Moves, place: Place, hop: Option<Hop>)
    ensures
        moves_of(final(moves)@) == moves_of(old(moves)@).push((place@, hop)),
{
    let ghost before_push = moves@;
    moves.push((place, hop));
    assert(moves_of(moves@) =~= moves_of(before_push).push((place@, hop)));
}

/// Walking within the map, in the first `n` directions.
pub open spec fn walks(map: MapData, s: Spot, blocked: Set<Spot>, n: nat) -> Seq<
    (PlaceV, Option<Hop>),
>
    decreases n,
{
    if n == 0 {
        Seq::empty()
    } else {
        let rest = walks(map, s, blocked, (n - 1) as nat);
        match steps_to(map, s, Direction::nth(n - 1), blocked) {
            Some(to) => rest.push((PlaceV { map: map.name@, x: to.0, y: to.1 }, None)),
            None => rest,
        }
    }
}

/// Standing on a warp (mats, stairs, plain), or below a door.
pub open spec fn takes(map: MapData, s: Spot, w: Warp) -> bool {
    let door = match map.tile_at(w.x as int, w.y as int) {
        Some(t) => t.is_door(),
        None => false,
    };
    s.0 == w.x && s.1 == (if door {
        w.y + 1
    } else {
        w.y as int
    })
}

/// The first `n` warps, where they can be taken from `s`.
pub open spec fn warps_from(map: MapData, s: Spot, n: nat) -> Seq<(PlaceV, Option<Hop>)>
    decreases n,
{
    if n == 0 {
        Seq::empty()
    } else {
        let rest = warps_from(map, s, (n - 1) as nat);
        let w = map.warps@[n - 1];
        if w.dest_warp >= 0 && usable(map, n - 1) && takes(map, s, w) && w.lands is Some {
            rest.push((w.lands->0@, Some(Hop::Warp((n - 1) as usize))))
        } else {
            rest
        }
    }
}

pub open spec fn connection_at(map: MapData, dir: Direction, i: int) -> bool {
    &&& 0 <= i < map.connections@.len()
    &&& map.connections@[i].direction == Some(dir)
    &&& forall|j: int|
        0 <= j < i ==> (#[trigger] map.connections@[j]).direction != Some(dir)
}

/// The name of the neighbour at an edge.
pub open spec fn neighbour(world: World, map: MapData, dir: Direction) -> Option<Seq<char>> {
    if exists|i: int| connection_at(map, dir, i) {
        world.named(map.connections@[choose|i: int| connection_at(map, dir, i)].map@)
    } else {
        None
    }
}

fn neighbour_name<'a>(world: &'a World, map: &MapData, dir: Direction) -> (r: Option<&'a str>)
    ensures
        match r {
            Some(s) => neighbour(*world, *map, dir) == Some(s@),
            None => neighbour(*world, *map, dir) is None,
        },
{
    let mut i: usize = 0;
    while i < map.connections.len()
        invariant
            i <= map.connections@.len(),
            forall|j: int|
                0 <= j < i ==> (#[trigger] map.connections@[j]).direction != Some(dir),
        decreases map.connections@.len() - i,
    {
        let here = match map.connections[i].direction {
            Some(d) => d == dir,
            None => false,
        };
        if here {
            proof {
                assert(connection_at(*map, dir, i as int));
                let c = choose|c: int| connection_at(*map, dir, c);
                assert(c == i) by {
                    assert(map.connections@[c].direction == Some(dir));
                    assert(map.connections@[i as int].direction == Some(dir));
                }
            }
            return world.name_of(map.connections[i].map.as_str());
        }
        i += 1;
    }
    assert forall|c: int| !connection_at(*map, dir, c) by {
        if connection_at(*map, dir, c) {
            assert(map.connections@[c].direction == Some(dir));
        }
    }
    None
}

/// The first `n` crossings of the map, where one leads over the edge from `s`.
pub open spec fn edge_from(world: World, map: MapData, s: Spot, dir: Direction, n: nat) -> Seq<
    (PlaceV, Option<Hop>),
>
    decreases n,
{
    if n == 0 {
        Seq::empty()
    } else {
        let rest = edge_from(world, map, s, dir, (n - 1) as nat);
        let c = map.crossings@[n - 1];
        if c.direction == dir && c.from == s && neighbour(world, map, dir) is Some {
            rest.push(
                (
                    PlaceV { map: neighbour(world, map, dir)->0, x: c.to.0, y: c.to.1 },
                    Some(Hop::Edge(dir)),
                ),
            )
        } else {
            rest
        }
    }
}

/// The edges of the map in the first `n` directions.
pub open spec fn edges_from(world: World, map: MapData, s: Spot, n: nat) -> Seq<
    (PlaceV, Option<Hop>),
>
    decreases n,
{
    if n == 0 {
        Seq::empty()
    } else {
        edges_from(world, map, s, (n - 1) as nat) + edge_from(
            world,
            map,
            s,
            Direction::nth(n - 1),
            map.crossings@.len(),
        )
    }
}

/// Tiles one move from `s` on a map: walking within the map, a warp (standing
/// on one, or below a door) or a map edge, each with the hop that leaves the
/// map (none when walking within it).
pub open spec fn beside(world: World, map: MapData, s: Spot, blocked: Set<Spot>) -> Seq<
    (PlaceV, Option<Hop>),
> {
    walks(map, s, blocked, 4) + warps_from(map, s, map.warps@.len()) + edges_from(world, map, s, 4)
}

fn add_walks(moves: &mut Moves, map: &MapData, x: i32, y: i32, blocked: &Vec<Spot>)
    ensures
        moves_of(final(moves)@) == moves_of(old(moves)@) + walks(
            *map,
            (x, y),
            blocked@.to_set(),
            4,
        ),
{
    let ghost start = moves_of(moves@);
    assert(start + Seq::<(PlaceV, Option<Hop>)>::empty() =~= start);
    let mut i: usize = 0;
    while i < 4
        invariant
            i <= 4,
            moves_of(moves@) == start + walks(*map, (x, y), blocked@.to_set(), i as nat),
        decreases 4 - i,
    {
        let ghost so_far = walks(*map, (x, y), blocked@.to_set(), i as nat);
        match step(map, x, y, Direction::number(i), blocked) {
            Some(to) => {
                add_move(moves, Place { map: map.name.clone(), x: to.0, y: to.1 }, None);
                assert(moves_of(moves@) =~= start + so_far.push(
                    (PlaceV { map: map.name@, x: to.0, y: to.1 }, None),
                ));
            },
            None => {},
        }
        i += 1;
    }
}

fn add_warps(moves: &mut Moves, map: &MapData, x: i32, y: i32)
    ensures
        moves_of(final(moves)@) == moves_of(old(moves)@) + warps_from(
            *map,
            (x, y),
            map.warps@.len(),
        ),
{
    let ghost start = moves_of(moves@);
    assert(start + Seq::<(PlaceV, Option<Hop>)>::empty() =~= start);
    let mut i: usize = 0;
    while i < map.warps.len()
        invariant
            i <= map.warps@.len(),
            moves_of(moves@) == start + warps_from(*map, (x, y), i as nat),
        decreases map.warps@.len() - i,
    {
        let ghost so_far = warps_from(*map, (x, y), i as nat);
        let w = &map.warps[i];
        let door = match map.tile(w.x, w.y) {
            Some(t) => t.door(),
            None => false,
        };
        let row: i64 = if door {
            w.y as i64 + 1
        } else {
            w.y as i64
        };
        if w.dest_warp >= 0 && x == w.x && y as i64 == row && warp_usable(map, i) {
            match &w.lands {
                Some(place) => {
                    add_move(moves, place.copy(), Some(Hop::Warp(i)));
                    assert(moves_of(moves@) =~= start + so_far.push(
                        (place@, Some(Hop::Warp(i))),
                    ));
                },
                None => {},
            }
        }
        i += 1;
    }
}

fn add_edge(moves: &mut Moves, world: &World, map: &MapData, x: i32, y: i32, dir: Direction)
    ensures
        moves_of(final(moves)@) == moves_of(old(moves)@) + edge_from(
            *world,
            *map,
            (x, y),
            dir,
            map.crossings@.len(),
        ),
{
    let ghost start = moves_of(moves@);
    assert(start + Seq::<(PlaceV, Option<Hop>)>::empty() =~= start);
    let mut i: usize = 0;
    while i < map.crossings.len()
        invariant
            i <= map.crossings@.len(),
            moves_of(moves@) == start + edge_from(*world, *map, (x, y), dir, i as nat),
        decreases map.crossings@.len() - i,
    {
        let ghost so_far = edge_from(*world, *map, (x, y), dir, i as nat);
        let c = map.crossings[i];
        if c.direction == dir && c.from.0 == x && c.from.1 == y {
            match neighbour_name(world, map, dir) {
                Some(other) => {
                    let place = Place { map: other.to_owned(), x: c.to.0, y: c.to.1 };
                    let ghost added = (place@, Some(Hop::Edge(dir)));
                    add_move(moves, place, Some(Hop::Edge(dir)));
                    assert(moves_of(moves@) =~= start + so_far.push(added));
                },
                None => {},
            }
        }
        i += 1;
    }
}

fn neighbours(world: &World, map: &MapData, x: i32, y: i32, blocked: &Vec<Spot>) -> (v: Moves)
    ensures
        moves_of(v@) == beside(*world, *map, (x, y), blocked@.to_set()),
{
    let mut moves: Moves = Vec::new();
    add_walks(&mut moves, map, x, y, blocked);
    add_warps(&mut moves, map, x, y);
    let ghost start = moves_of(moves@);
    assert(start + Seq::<(PlaceV, Option<Hop>)>::empty() =~= start);
    let mut i: usize = 0;
    while i < 4
        invariant
            i <= 4,
            moves_of(moves@) == start + edges_from(*world, *map, (x, y), i as nat),
        decreases 4 - i,
    {
        let ghost so_far = edges_from(*world, *map, (x, y), i as nat);
        add_edge(&mut moves, world, map, x, y, Direction::number(i));
        let ghost more = edge_from(
            *world,
            *map,
            (x, y),
            Direction::nth(i as int),
            map.crossings@.len(),
        );
        assert((start + so_far) + more =~= start + (so_far + more));
        i += 1;
    }
    assert(moves_of(moves@) =~= beside(*world, *map, (x, y), blocked@.to_set()));
    moves
}

/// Moves within the home map make no hop: the first hop is fixed once the way
/// leaves it.
pub open spec fn from_home(
    home: Seq<char>,
    here: Seq<char>,
    moves: Seq<(PlaceV, Option<Hop>)>,
) -> Seq<(PlaceV, Option<Hop>)> {
    Seq::new(
        moves.len(),
        |i: int|
            (
                moves[i].0,
                if here == home && moves[i].0.map == home {
                    None
                } else {
                    moves[i].1
                },
            ),
    )
}

/// The moves from a tile, on a search that began on map `home`.
pub open spec fn moves_from(
    world: World,
    gone: Set<(Seq<char>, u32)>,
    home: Seq<char>,
    p: PlaceV,
) -> Seq<(PlaceV, Option<Hop>)> {
    match world.map_of(p.map) {
        Some(map) => from_home(
            home,
            p.map,
            beside(world, map, (p.x, p.y), obstacles(map, gone)),
        ),
        None => Seq::empty(),
    }
}

/// The tiles across maps, as a search goes through them.
pub open spec fn tiles(world: World, gone: Set<(Seq<char>, u32)>, home: Seq<char>) -> spec_fn(
    PlaceV,
) -> Seq<(PlaceV, Option<Hop>)> {
    |p: PlaceV| moves_from(world, gone, home, p)
}

fn look_around(world: &World, gone: &Gone, home: &str, p: &Place) -> (v: Moves)
    ensures
        moves_of(v@) == moves_from(*world, gone_set(gone@), home@, p@),
{
    let map = match world.map(p.map.as_str()) {
        Some(map) => map,
        None => {
            let none: Moves = Vec::new();
            assert(moves_of(none@) =~= Seq::empty());
            return none;
        },
    };
    let blocked = object_obstacles(map, gone);
    let moves = neighbours(world, map, p.x, p.y, &blocked);
    if !same(p.map.as_str(), home) {
        assert(moves_of(moves@) =~= from_home(home@, p.map@, moves_of(moves@)));
        return moves;
    }
    let ghost all = moves_of(moves@);
    let mut v: Moves = Vec::new();
    assert(moves_of(v@) =~= from_home(home@, p.map@, all).take(0));
    let mut i: usize = 0;
    while i < moves.len()
        invariant
            i <= moves@.len(),
            all == moves_of(moves@),
            p.map@ == home@,
            moves_of(v@) == from_home(home@, p.map@, all).take(i as int),
        decreases moves@.len() - i,
    {
        let inside = same(moves[i].0.map.as_str(), home);
        let hop = if inside {
            None
        } else {
            moves[i].1
        };
        add_move(&mut v, moves[i].0.copy(), hop);
        assert(from_home(home@, p.map@, all).take(i + 1) =~= from_home(
            home@,
            p.map@,
            all,
        ).take(i as int).push(from_home(home@, p.map@, all)[i as int]));
        i += 1;
    }
    assert(from_home(home@, p.map@, all).take(all.len() as int) =~= from_home(
        home@,
        p.map@,
        all,
    ));
    v
}

// ---- The search ----

/// A tile found.
#[derive(Debug)]
pub struct FoundPlace {
    pub place: Place,
    pub hop: Option<Hop>,
    pub moves: usize,
}

pub open spec fn finds(found: Seq<FoundPlace>) -> Seq<Found<PlaceV>> {
    Seq::new(
        found.len(),
        |i: int|
            Found { node: found[i].place@, hop: found[i].hop, moves: found[i].moves as nat },
    )
}

pub(crate) fn begin(map: &str, x: i32, y: i32) -> (found: Vec<FoundPlace>)
    ensures
        finds(found@) == seq![
            Found { node: PlaceV { map: map@, x, y }, hop: None::<Hop>, moves: 0 },
        ],
        found@.len() == 1,
{
    let mut found: Vec<FoundPlace> = Vec::new();
    found.push(
        FoundPlace { place: Place { map: map.to_owned(), x, y }, hop: None, moves: 0 },
    );
    assert(finds(found@) =~= seq![
        Found { node: PlaceV { map: map@, x, y }, hop: None::<Hop>, moves: 0 },
    ]);
    found
}

fn is_known(found: &Vec<FoundPlace>, place: &Place) -> (r: bool)
    ensures
        r == knows(finds(found@), place@),
{
    let mut i: usize = 0;
    while i < found.len()
        invariant
            i <= found@.len(),
            forall|j: int| 0 <= j < i ==> (#[trigger] finds(found@)[j]).node != place@,
        decreases found@.len() - i,
    {
        if found[i].place.same(place) {
            assert(finds(found@)[i as int].node == place@);
            return true;
        }
        i += 1;
    }
    false
}

pub(crate) fn extend(found: &mut Vec<FoundPlace>, at: usize, next: &Moves)
    requires
        at < old(found)@.len(),
        forall|i: int| 0 <= i < old(found)@.len() ==> (#[trigger] old(found)@[i]).moves <= i,
    ensures
        finds(final(found)@) == extended(
            finds(old(found)@),
            finds(old(found)@)[at as int],
            moves_of(next@),
        ),
        final(found)@.len() >= old(found)@.len(),
{
    let ghost start = finds(found@);
    let ghost all = moves_of(next@);
    let hop = found[at].hop;
    let moves: usize = found[at].moves;
    assert(moves < usize::MAX) by {
        assert(found@[at as int].moves <= at);
        assert(at < found.len());
    }
    let ghost from = start[at as int];
    let ghost least = found@.len();
    let mut i: usize = 0;
    assert(all.take(0) =~= Seq::empty());
    while i < next.len()
        invariant
            i <= next@.len(),
            all == moves_of(next@),
            from.hop == hop,
            from.moves == moves,
            moves < usize::MAX,
            found@.len() >= least,
            finds(found@) == extended(start, from, all.take(i as int)),
        decreases next@.len() - i,
    {
        assert(all.take(i + 1).drop_last() =~= all.take(i as int));
        assert(all.take(i + 1).last() == all[i as int]);
        if !is_known(found, &next[i].0) {
            let ghost before_push = found@;
            let first = if hop.is_some() {
                hop
            } else {
                next[i].1
            };
            found.push(
                FoundPlace { place: next[i].0.copy(), hop: first, moves: moves + 1 },
            );
            assert(finds(found@) =~= finds(before_push).push(
                Found {
                    node: all[i as int].0,
                    hop: hop_or(from.hop, all[i as int].1),
                    moves: from.moves + 1,
                },
            ));
        }
        i += 1;
    }
    assert(all.take(all.len() as int) =~= all);
}

/// A tile of map `to`: one of the spots, or any where none are given.
pub open spec fn ends_at(to: Seq<char>, spots: Option<Set<Spot>>) -> spec_fn(PlaceV) -> bool {
    |p: PlaceV| p.map == to && (spots is Some ==> spots->0.contains((p.x, p.y)))
}

pub open spec fn spots_of(spots: Option<&Vec<Spot>>) -> Option<Set<Spot>> {
    match spots {
        Some(v) => Some(v@.to_set()),
        None => None,
    }
}

pub open spec fn place_of(pose: PlayerPose) -> PlaceV {
    PlaceV { map: pose.map@, x: pose.x, y: pose.y }
}

/// Breadth-first search over tiles across maps from `pose` to a tile of map
/// `to` (one of `spots`, or any where none are given): `None` when no such
/// tile is reachable, else the first hop out of the start map (none: walk
/// there on the start map).
pub fn route_search(
    world: &World,
    pose: &PlayerPose,
    to: &str,
    spots: Option<&Vec<Spot>>,
    gone: &Gone,
) -> (r: Option<Option<Hop>>)
    ensures
        r == searched(
            place_of(*pose),
            tiles(*world, gone_set(gone@), pose.map@),
            ends_at(to@, spots_of(spots)),
        ),
{
    let ghost start = place_of(*pose);
    let ghost next = tiles(*world, gone_set(gone@), pose.map@);
    let ghost goal = ends_at(to@, spots_of(spots));
    let mut found = begin(pose.map.as_str(), pose.x, pose.y);
    let mut at: usize = 0;
    while at < found.len()
        invariant
            at <= found@.len(),
            start == place_of(*pose),
            next == tiles(*world, gone_set(gone@), pose.map@),
            goal == ends_at(to@, spots_of(spots)),
            finds(found@) == grown(start, next, at as nat),
            forall|j: int| 0 <= j < at ==> !goal((#[trigger] finds(found@)[j]).node),
        decreases usize::MAX - at,
    {
        let here = &found[at].place;
        let there = same(here.map.as_str(), to) && match spots {
            Some(v) => has_spot(v, here.x, here.y),
            None => true,
        };
        assert(there == goal(finds(found@)[at as int].node));
        if there {
            proof {
                assert(stops_at(start, next, goal, at as nat));
                the_first_goal_is_one(start, next, goal, at as nat);
            }
            return Some(found[at].hop);
        }
        let around = look_around(world, gone, pose.map.as_str(), here);
        proof {
            finds_are_in_order(start, next, at as nat);
            finds_stay(start, next, at as nat, (at + 1) as nat);
            assert forall|i: int| 0 <= i < found@.len() implies (#[trigger] found@[i]).moves
                <= i by {
                assert(finds(found@)[i].moves <= i);
            }
        }
        let ghost before_step = finds(found@);
        extend(&mut found, at, &around);
        at += 1;
        assert forall|j: int| 0 <= j < at implies !goal((#[trigger] finds(found@)[j]).node) by {
            assert(finds(found@)[j] == before_step[j]);
        }
    }
    proof {
        nothing_left_means_no_goal(start, next, goal, at as nat);
    }
    None
}

/// First hop out of the player's map toward `to`, searching tiles across maps
/// (so a map split by trees or ledges only offers exits reachable from where
/// the player stands). Warps land on their destination warp tile; doors are
/// entered from the tile below; edges continue into the neighbour.
pub fn route_from(world: &World, pose: &PlayerPose, to: &str) -> (r: Option<Hop>)
    ensures
        r == (match searched(
            place_of(*pose),
            tiles(*world, Set::empty(), pose.map@),
            ends_at(to@, None),
        ) {
            Some(hop) => hop,
            None => None,
        }),
{
    let none: Gone = Vec::new();
    assert(gone_set(none@) =~= Set::empty());
    match route_search(world, pose, to, None, &none) {
        Some(hop) => hop,
        None => None,
    }
}

/// A route found leads, by the fewest moves there are, to a tile where the
/// walk may end; and none is found only where no such tile can be reached.
pub proof fn a_route_is_a_shortest_way(
    world: World,
    gone: Set<(Seq<char>, u32)>,
    pose: PlayerPose,
    to: Seq<char>,
    spots: Option<Set<Spot>>,
    k: nat,
    n: nat,
    p: PlaceV,
)
    requires
        stops_at(place_of(pose), tiles(world, gone, pose.map@), ends_at(to, spots), k),
        ends_at(to, spots)(p),
        reaches(place_of(pose), tiles(world, gone, pose.map@), n, p),
    ensures
        ({
            let found = grown(place_of(pose), tiles(world, gone, pose.map@), k)[k as int];
            &&& ends_at(to, spots)(found.node)
            &&& reaches(place_of(pose), tiles(world, gone, pose.map@), found.moves, found.node)
            &&& found.moves <= n
            &&& searched(place_of(pose), tiles(world, gone, pose.map@), ends_at(to, spots))
                == Some(found.hop)
        }),
{
    let start = place_of(pose);
    let next = tiles(world, gone, pose.map@);
    let goal = ends_at(to, spots);
    the_first_goal_is_nearest(start, next, goal, k, n, p);
    the_first_goal_is_one(start, next, goal, k);
}

// ---- The nearest of several maps ----

/// The tiles to reach on each of several maps.
pub type Goals = Vec<(String, Vec<Spot>)>;

pub open spec fn goal_tile(goals: Seq<(String, Vec<Spot>)>, i: int, p: PlaceV) -> bool {
    0 <= i < goals.len() && goals[i].0@ == p.map && goals[i].1@.contains((p.x, p.y))
}

/// One of the tiles to reach.
pub open spec fn among(goals: Seq<(String, Vec<Spot>)>) -> spec_fn(PlaceV) -> bool {
    |p: PlaceV| exists|i: int| goal_tile(goals, i, p)
}

/// A goal that can be reached, and none by fewer moves.
pub open spec fn nearest(
    start: PlaceV,
    next: spec_fn(PlaceV) -> Seq<(PlaceV, Option<Hop>)>,
    goal: spec_fn(PlaceV) -> bool,
    p: PlaceV,
    n: nat,
) -> bool {
    &&& goal(p)
    &&& reaches(start, next, n, p)
    &&& forall|m: nat, q: PlaceV| #[trigger] reaches(start, next, m, q) && goal(q) ==> n <= m
}

pub open spec fn names_of(names: Seq<String>) -> Seq<Seq<char>> {
    Seq::new(names.len(), |i: int| names[i]@)
}

/// Names in their order, each once.
pub open spec fn in_order(names: Seq<Seq<char>>) -> bool {
    forall|i: int, j: int|
        0 <= i < j < names.len() ==> before(#[trigger] names[i], #[trigger] names[j])
}

/// The maps of the nearest goals, in name order.
pub open spec fn nearest_maps(
    start: PlaceV,
    next: spec_fn(PlaceV) -> Seq<(PlaceV, Option<Hop>)>,
    goal: spec_fn(PlaceV) -> bool,
    names: Seq<Seq<char>>,
) -> bool {
    &&& in_order(names)
    &&& forall|name: Seq<char>| #[trigger]
        names.contains(name) <==> exists|p: PlaceV, n: nat|
            p.map == name && #[trigger] nearest(start, next, goal, p, n)
}

fn is_among(goals: &Goals, place: &Place) -> (r: bool)
    ensures
        r == among(goals@)(place@),
{
    let mut i: usize = 0;
    while i < goals.len()
        invariant
            i <= goals@.len(),
            forall|j: int| 0 <= j < i ==> !goal_tile(goals@, j, place@),
        decreases goals@.len() - i,
    {
        if goals[i].0 == place.map && has_spot(&goals[i].1, place.x, place.y) {
            assert(goal_tile(goals@, i as int, place@));
            return true;
        }
        i += 1;
    }
    false
}

/// Adds a name in its place, unless it is there.
fn add_name(names: &mut Vec<String>, name: &String)
    requires
        in_order(names_of(old(names)@)),
    ensures
        in_order(names_of(final(names)@)),
        forall|s: Seq<char>| #[trigger]
            names_of(final(names)@).contains(s) <==> s == name@ || names_of(
                old(names)@,
            ).contains(s),
{
    let ghost start = names_of(names@);
    let mut i: usize = 0;
    while i < names.len() && comes_before(names[i].as_str(), name.as_str())
        invariant
            i <= names@.len(),
            start == names_of(names@),
            forall|j: int| 0 <= j < i ==> before(#[trigger] start[j], name@),
        decreases names@.len() - i,
    {
        i += 1;
    }
    if i < names.len() && names[i] == *name {
        assert(start[i as int] == name@);
        return;
    }
    let ghost old_names = names@;
    names.insert(i, name.clone());
    proof {
        let end = names_of(names@);
        assert(end =~= start.insert(i as int, name@));
        assert forall|j: int| i <= j < start.len() implies before(name@, #[trigger] start[j]) by {
            different_texts_are_ordered(start[i as int], name@);
            if j > i {
                order_is_transitive(name@, start[i as int], start[j]);
            }
        }
        assert forall|a: int, b: int| 0 <= a < b < end.len() implies before(
            #[trigger] end[a],
            #[trigger] end[b],
        ) by {
            if b < i {
                assert(end[a] == start[a] && end[b] == start[b]);
            } else if b == i {
                assert(end[a] == start[a]);
            } else if a < i {
                assert(end[a] == start[a] && end[b] == start[b - 1]);
            } else if a == i {
                assert(end[b] == start[b - 1]);
            } else {
                assert(end[a] == start[a - 1] && end[b] == start[b - 1]);
            }
        }
        assert forall|s: Seq<char>| #[trigger] end.contains(s) <==> s == name@
            || start.contains(s) by {
            if s == name@ {
                assert(end[i as int] == s);
            } else if start.contains(s) {
                let k = choose|k: int| 0 <= k < start.len() && start[k] == s;
                if k < i {
                    assert(end[k] == s);
                } else {
                    assert(end[k + 1] == s);
                }
            } else if end.contains(s) {
                let k = choose|k: int| 0 <= k < end.len() && end[k] == s;
                if k < i {
                    assert(start[k] == s);
                } else if k > i {
                    assert(start[k - 1] == s);
                }
            }
        }
    }
}

/// A goal found at `j` among the first `at` finds, all at `moves` moves, and
/// every later find farther or none: its map is that of a nearest goal, and
/// every nearest goal is among the first `at` finds.
proof fn found_goals_are_the_nearest(
    start: PlaceV,
    next: spec_fn(PlaceV) -> Seq<(PlaceV, Option<Hop>)>,
    goal: spec_fn(PlaceV) -> bool,
    at: nat,
    first: int,
    names: Seq<Seq<char>>,
)
    requires
        ({
            let found = grown(start, next, at);
            let moves = found[first].moves;
            &&& at <= found.len()
            &&& 0 <= first < at
            &&& goal(found[first].node)
            &&& forall|j: int|
                0 <= j < at && goal((#[trigger] found[j]).node) ==> found[j].moves == moves
            &&& at == found.len() || found[at as int].moves > moves
            &&& in_order(names)
            &&& forall|name: Seq<char>| #[trigger]
                names.contains(name) <==> exists|j: int|
                    0 <= j < at && goal((#[trigger] found[j]).node) && found[j].node.map == name
        }),
    ensures
        nearest_maps(start, next, goal, names),
{
    let found = grown(start, next, at);
    let moves = found[first].moves;
    finds_are_in_order(start, next, at);
    assert forall|m: nat, q: PlaceV| #[trigger] reaches(start, next, m, q) && goal(q) implies moves
        <= m && exists|j: int| 0 <= j < found.len() && (#[trigger] found[j]).node == q
        && found[j].moves <= m || (moves <= m && moves < m) by {
        let w = what_can_be_reached_is_found(start, next, m, q);
        let top: nat = if w.0 < at {
            at
        } else {
            w.0
        };
        finds_stay(start, next, w.0, top);
        finds_stay(start, next, at, top);
        finds_are_in_order(start, next, top);
        let all = grown(start, next, top);
        assert(all[w.1] == grown(start, next, w.0)[w.1]);
        assert(all[first] == found[first]);
        if w.1 < at {
            assert(all[w.1] == found[w.1]);
        } else if at == found.len() {
            found_by_then(start, next, at, w.0, w.1);
        } else {
            assert(all[at as int] == found[at as int]);
            assert(all[at as int].moves <= all[w.1].moves);
        }
    }
    assert forall|name: Seq<char>| #[trigger] names.contains(name) <==> exists|p: PlaceV, n: nat|
        p.map == name && #[trigger] nearest(start, next, goal, p, n) by {
        if names.contains(name) {
            let j = choose|j: int|
                0 <= j < at && goal((#[trigger] found[j]).node) && found[j].node.map == name;
            finds_can_be_reached(start, next, at, j);
            assert(nearest(start, next, goal, found[j].node, moves));
        }
        if exists|p: PlaceV, n: nat|
            p.map == name && #[trigger] nearest(start, next, goal, p, n) {
            let (p, n) = choose|p: PlaceV, n: nat|
                p.map == name && #[trigger] nearest(start, next, goal, p, n);
            finds_can_be_reached(start, next, at, first);
            assert(n <= moves);
            let j = choose|j: int|
                0 <= j < found.len() && (#[trigger] found[j]).node == p && found[j].moves <= n;
            if j >= at {
                assert(found[at as int].moves <= found[j].moves);
            }
            assert(goal(found[j].node));
        }
    }
}

/// The maps among `goals` (map and tiles to reach) that can be walked to
/// from `pose` in the fewest moves (a warp or an edge counts as one), in
/// name order; empty when none is reachable.
pub fn nearest_reachable(world: &World, pose: &PlayerPose, goals: &Goals, gone: &Gone) -> (names:
    Vec<String>)
    ensures
        nearest_maps(
            place_of(*pose),
            tiles(*world, gone_set(gone@), pose.map@),
            among(goals@),
            names_of(names@),
        ),
{
    let ghost start = place_of(*pose);
    let ghost next = tiles(*world, gone_set(gone@), pose.map@);
    let ghost goal = among(goals@);
    let mut found = begin(pose.map.as_str(), pose.x, pose.y);
    let mut names: Vec<String> = Vec::new();
    let mut reached: Option<usize> = None;
    let ghost mut first: int = 0;
    let mut at: usize = 0;
    while at < found.len()
        invariant
            at <= found@.len(),
            start == place_of(*pose),
            next == tiles(*world, gone_set(gone@), pose.map@),
            goal == among(goals@),
            finds(found@) == grown(start, next, at as nat),
            in_order(names_of(names@)),
            forall|name: Seq<char>| #[trigger]
                names_of(names@).contains(name) <==> exists|j: int|
                    0 <= j < at && goal((#[trigger] finds(found@)[j]).node) && finds(
                        found@,
                    )[j].node.map == name,
            match reached {
                Some(moves) => {
                    &&& 0 <= first < at
                    &&& goal(finds(found@)[first].node)
                    &&& finds(found@)[first].moves == moves
                    &&& forall|j: int|
                        0 <= j < at && goal((#[trigger] finds(found@)[j]).node) ==> finds(
                            found@,
                        )[j].moves == moves
                },
                None => forall|j: int|
                    0 <= j < at ==> !goal((#[trigger] finds(found@)[j]).node),
            },
        decreases usize::MAX - at,
    {
        let farther = match reached {
            Some(moves) => found[at].moves > moves,
            None => false,
        };
        if farther {
            proof {
                found_goals_are_the_nearest(
                    start,
                    next,
                    goal,
                    at as nat,
                    first,
                    names_of(names@),
                );
            }
            return names;
        }
        proof {
            finds_are_in_order(start, next, at as nat);
            finds_stay(start, next, at as nat, (at + 1) as nat);
            assert forall|i: int| 0 <= i < found@.len() implies (#[trigger] found@[i]).moves
                <= i by {
                assert(finds(found@)[i].moves <= i);
            }
        }
        let ghost before_step = finds(found@);
        let ghost before_names = names_of(names@);
        let here = is_among(goals, &found[at].place);
        if here {
            add_name(&mut names, &found[at].place.map);
            proof {
                if reached is None {
                    first = at as int;
                }
            }
            reached = Some(found[at].moves);
        }
        let around = look_around(world, gone, pose.map.as_str(), &found[at].place);
        extend(&mut found, at, &around);
        at += 1;
        proof {
            let now = finds(found@);
            assert forall|j: int| 0 <= j < at implies #[trigger] now[j] == before_step[j] by {}
            assert forall|name: Seq<char>| #[trigger] names_of(names@).contains(name) <==> exists|
                j: int,
            |
                0 <= j < at && goal((#[trigger] now[j]).node) && now[j].node.map == name by {
                if before_names.contains(name) {
                    let j = choose|j: int|
                        0 <= j < at - 1 && goal((#[trigger] before_step[j]).node)
                            && before_step[j].node.map == name;
                    assert(now[j] == before_step[j]);
                }
                if exists|j: int|
                    0 <= j < at && goal((#[trigger] now[j]).node) && now[j].node.map == name {
                    let j = choose|j: int|
                        0 <= j < at && goal((#[trigger] now[j]).node) && now[j].node.map == name;
                    assert(now[j] == before_step[j]);
                    if j < at - 1 {
                        assert(before_names.contains(name));
                    }
                }
                if here {
                    assert(now[at - 1] == before_step[at - 1]);
                }
            }
            if reached is Some {
                assert forall|j: int| 0 <= j < at && goal((#[trigger] now[j]).node) implies
                    now[j].moves == reached->0 by {
                    assert(now[j] == before_step[j]);
                    assert(now[first] == before_step[first]);
                }
            } else {
                assert forall|j: int| 0 <= j < at implies !goal((#[trigger] now[j]).node) by {
                    assert(now[j] == before_step[j]);
                }
            }
        }
    }
    proof {
        if reached is Some {
            found_goals_are_the_nearest(start, next, goal, at as nat, first, names_of(names@));
        } else {
            nothing_left_means_no_goal(start, next, goal, at as nat);
        }
    }
    names
}

// ---- Routes over whole maps ----

/// A map, in a search over whole maps.
pub open spec fn whole(name: Seq<char>) -> PlaceV {
    PlaceV { map: name, x: 0, y: 0 }
}

/// The first `n` warps that lead to a map, of those whose tile says how they
/// are used or of the others.
pub open spec fn warps_out(world: World, map: MapData, clear: bool, n: nat) -> Seq<
    (PlaceV, Option<Hop>),
>
    decreases n,
{
    if n == 0 {
        Seq::empty()
    } else {
        let rest = warps_out(world, map, clear, (n - 1) as nat);
        let w = map.warps@[n - 1];
        if w.dest_warp >= 0 && usable(map, n - 1) && marked(map, w) == clear && world.named(
            w.dest_map@,
        ) is Some {
            rest.push((whole(world.named(w.dest_map@)->0), Some(Hop::Warp((n - 1) as usize))))
        } else {
            rest
        }
    }
}

/// Some tile continues into the neighbour at the edge.
pub open spec fn crosses(map: MapData, dir: Direction) -> bool {
    exists|i: int|
        0 <= i < map.crossings@.len() && (#[trigger] map.crossings@[i]).direction == dir
}

/// The edges that lead to a map, in the first `n` directions.
pub open spec fn edges_out(world: World, map: MapData, n: nat) -> Seq<(PlaceV, Option<Hop>)>
    decreases n,
{
    if n == 0 {
        Seq::empty()
    } else {
        let rest = edges_out(world, map, (n - 1) as nat);
        let dir = Direction::nth(n - 1);
        if crosses(map, dir) && neighbour(world, map, dir) is Some {
            rest.push((whole(neighbour(world, map, dir)->0), Some(Hop::Edge(dir))))
        } else {
            rest
        }
    }
}

/// The ways out of a map: warps whose tile says how to use them (arrow mats,
/// doors, stairs) first, then the others, then the edges.
pub open spec fn ways_out(world: World, p: PlaceV) -> Seq<(PlaceV, Option<Hop>)> {
    match world.map_of(p.map) {
        Some(map) => warps_out(world, map, true, map.warps@.len()) + warps_out(
            world,
            map,
            false,
            map.warps@.len(),
        ) + edges_out(world, map, 4),
        None => Seq::empty(),
    }
}

/// The maps, as a search goes through them.
pub open spec fn maps(world: World) -> spec_fn(PlaceV) -> Seq<(PlaceV, Option<Hop>)> {
    |p: PlaceV| ways_out(world, p)
}

fn add_warps_out(moves: &mut Moves, world: &World, map: &MapData, clear: bool)
    ensures
        moves_of(final(moves)@) == moves_of(old(moves)@) + warps_out(
            *world,
            *map,
            clear,
            map.warps@.len(),
        ),
{
    let ghost start = moves_of(moves@);
    assert(start + Seq::<(PlaceV, Option<Hop>)>::empty() =~= start);
    let mut i: usize = 0;
    while i < map.warps.len()
        invariant
            i <= map.warps@.len(),
            moves_of(moves@) == start + warps_out(*world, *map, clear, i as nat),
        decreases map.warps@.len() - i,
    {
        let ghost so_far = warps_out(*world, *map, clear, i as nat);
        let w = &map.warps[i];
        if w.dest_warp >= 0 && warp_is_marked(map, w) == clear && warp_usable(map, i) {
            match world.name_of(w.dest_map.as_str()) {
                Some(name) => {
                    let place = Place { map: name.to_owned(), x: 0, y: 0 };
                    let ghost added = (place@, Some(Hop::Warp(i)));
                    add_move(moves, place, Some(Hop::Warp(i)));
                    assert(moves_of(moves@) =~= start + so_far.push(added));
                },
                None => {},
            }
        }
        i += 1;
    }
}

fn has_crossing(map: &MapData, dir: Direction) -> (r: bool)
    ensures
        r == crosses(*map, dir),
{
    let mut i: usize = 0;
    while i < map.crossings.len()
        invariant
            i <= map.crossings@.len(),
            forall|j: int| 0 <= j < i ==> (#[trigger] map.crossings@[j]).direction != dir,
        decreases map.crossings@.len() - i,
    {
        if map.crossings[i].direction == dir {
            return true;
        }
        i += 1;
    }
    false
}

fn look_out(world: &World, p: &Place) -> (moves: Moves)
    ensures
        moves_of(moves@) == ways_out(*world, p@),
{
    let mut moves: Moves = Vec::new();
    assert(moves_of(moves@) =~= Seq::empty());
    let map = match world.map(p.map.as_str()) {
        Some(map) => map,
        None => {
            return moves;
        },
    };
    add_warps_out(&mut moves, world, map, true);
    add_warps_out(&mut moves, world, map, false);
    let ghost start = moves_of(moves@);
    assert(start + Seq::<(PlaceV, Option<Hop>)>::empty() =~= start);
    let mut i: usize = 0;
    while i < 4
        invariant
            i <= 4,
            moves_of(moves@) == start + edges_out(*world, *map, i as nat),
        decreases 4 - i,
    {
        let ghost so_far = edges_out(*world, *map, i as nat);
        let dir = Direction::number(i);
        if has_crossing(map, dir) {
            match neighbour_name(world, map, dir) {
                Some(name) => {
                    let place = Place { map: name.to_owned(), x: 0, y: 0 };
                    let ghost added = (place@, Some(Hop::Edge(dir)));
                    add_move(&mut moves, place, Some(Hop::Edge(dir)));
                    assert(moves_of(moves@) =~= start + so_far.push(added));
                },
                None => {},
            }
        }
        i += 1;
    }
    assert(moves_of(moves@) =~= ways_out(*world, p@));
    moves
}

/// The first hop of a route over whole maps.
pub open spec fn exit_toward(world: World, from: Seq<char>, to: Seq<char>) -> Option<Hop> {
    if from == to {
        None
    } else {
        match searched(whole(from), maps(world), ends_at(to, None)) {
            Some(hop) => hop,
            None => None,
        }
    }
}

/// First hop from `from` toward `to`: breadth-first over fixed warps and map
/// connections (deterministic: warps in order, then Up, Down, Left, Right).
/// None where the two are the same.
pub fn route_exit(world: &World, from: &str, to: &str) -> (r: Option<Hop>)
    ensures
        r == exit_toward(*world, from@, to@),
{
    if same(from, to) {
        return None;
    }
    let ghost start = whole(from@);
    let ghost next = maps(*world);
    let ghost goal = ends_at(to@, None);
    let mut found = begin(from, 0, 0);
    let mut at: usize = 0;
    while at < found.len()
        invariant
            at <= found@.len(),
            from@ != to@,
            start == whole(from@),
            next == maps(*world),
            goal == ends_at(to@, None),
            finds(found@) == grown(start, next, at as nat),
            forall|j: int| 0 <= j < at ==> !goal((#[trigger] finds(found@)[j]).node),
        decreases usize::MAX - at,
    {
        let here = &found[at].place;
        let there = same(here.map.as_str(), to);
        assert(there == goal(finds(found@)[at as int].node));
        if there {
            proof {
                assert(stops_at(start, next, goal, at as nat));
                the_first_goal_is_one(start, next, goal, at as nat);
            }
            return found[at].hop;
        }
        let around = look_out(world, here);
        proof {
            finds_are_in_order(start, next, at as nat);
            finds_stay(start, next, at as nat, (at + 1) as nat);
            assert forall|i: int| 0 <= i < found@.len() implies (#[trigger] found@[i]).moves
                <= i by {
                assert(finds(found@)[i].moves <= i);
            }
        }
        let ghost before_step = finds(found@);
        extend(&mut found, at, &around);
        at += 1;
        assert forall|j: int| 0 <= j < at implies !goal((#[trigger] finds(found@)[j]).node) by {
            assert(finds(found@)[j] == before_step[j]);
        }
    }
    proof {
        nothing_left_means_no_goal(start, next, goal, at as nat);
    }
    None
}

} // verus!
