//! Where to heal: nearby healers priced by the way to them and the added cost
//! of returning toward the interrupted destination, and the medicine at hand.
//! Encounter exposure is a map-density heuristic; it is deliberately not an
//! exact probability. Prices are times in nanoseconds.

use vstd::arithmetic::div_mod::{lemma_fundamental_div_mod, lemma_hoist_over_denominator};
use vstd::prelude::*;

use crate::event::{text_of, Pocket, Status};
use crate::gamedata::GameData;
use crate::nav::{facing_spots, talk_spots};
use crate::observe::PlayerPose;
use crate::route::{
    begin, extend, finds, moves_of, whole, FoundPlace, Moves,
};
use crate::scheduler::{health, health_need, hp_of, valid_hp};
use crate::search::{
    finds_are_in_order, finds_can_be_reached, finds_stay, found_by_then, grown,
    later_finds_are_farther, reaches, what_can_be_reached_is_found, Found, Hop,
};
use crate::state::{Details, GameState, Knowledge, MoveSlot, PartyMon};
use crate::text::{before, comes_before, different_texts_are_ordered, order_is_transitive, same};
use crate::world::{MapData, Place, PlaceV, Spot, World};

verus! {

/// How many hops away a healer is looked for.
pub const NEARBY_HOPS: usize = 5;

/// How many of the nearest healers are priced.
pub const MAX_HEALERS: usize = 8;

/// What healing at a healer takes.
pub const HEALER: u128 = 12_000_000_000_000_000_000;

/// What using medicine takes.
pub const MEDICINE: u128 = 15_000_000_000_000_000_000;

/// One second. Prices are in attoseconds: the parts of a second that a stretch
/// of grass comes to are told apart as finely as they matter.
pub const SECOND: u128 = 1_000_000_000_000_000_000;

/// What a unit of money is worth: ten of them are a second of avoided travel.
pub const MONEY: u128 = 100_000_000_000_000_000;

// ---- Nearby healers ----

/// The maps that the first `n` warps of a map lead to.
pub open spec fn warp_maps(world: World, map: MapData, n: nat) -> Seq<(PlaceV, Option<Hop>)>
    decreases n,
{
    if n == 0 {
        Seq::empty()
    } else {
        let rest = warp_maps(world, map, (n - 1) as nat);
        match world.named(map.warps@[n - 1].dest_map@) {
            Some(name) => rest.push((whole(name), None)),
            None => rest,
        }
    }
}

/// The maps that the first `n` connections of a map lead to.
pub open spec fn connected_maps(world: World, map: MapData, n: nat) -> Seq<
    (PlaceV, Option<Hop>),
>
    decreases n,
{
    if n == 0 {
        Seq::empty()
    } else {
        let rest = connected_maps(world, map, (n - 1) as nat);
        match world.named(map.connections@[n - 1].map@) {
            Some(name) => rest.push((whole(name), None)),
            None => rest,
        }
    }
}

/// The maps a hop away, gates or no gates.
pub open spec fn hops_from(world: World, p: PlaceV) -> Seq<(PlaceV, Option<Hop>)> {
    match world.map_of(p.map) {
        Some(map) => warp_maps(world, map, map.warps@.len()) + connected_maps(
            world,
            map,
            map.connections@.len(),
        ),
        None => Seq::empty(),
    }
}

pub open spec fn hops(world: World) -> spec_fn(PlaceV) -> Seq<(PlaceV, Option<Hop>)> {
    |p: PlaceV| hops_from(world, p)
}

fn look_for_maps(world: &World, p: &Place) -> (moves: Moves)
    ensures
        moves_of(moves@) == hops_from(*world, p@),
{
    let mut moves: Moves = Vec::new();
    assert(moves_of(moves@) =~= Seq::empty());
    let map = match world.map(p.map.as_str()) {
        Some(map) => map,
        None => {
            return moves;
        },
    };
    let mut i: usize = 0;
    while i < map.warps.len()
        invariant
            i <= map.warps@.len(),
            moves_of(moves@) == warp_maps(*world, *map, i as nat),
        decreases map.warps@.len() - i,
    {
        match world.name_of(map.warps[i].dest_map.as_str()) {
            Some(name) => {
                let ghost before_push = moves@;
                moves.push((Place { map: name.to_owned(), x: 0, y: 0 }, None));
                assert(moves_of(moves@) =~= moves_of(before_push).push((whole(name@), None)));
            },
            None => {},
        }
        i += 1;
    }
    let ghost start = moves_of(moves@);
    assert(start + Seq::<(PlaceV, Option<Hop>)>::empty() =~= start);
    let mut k: usize = 0;
    while k < map.connections.len()
        invariant
            k <= map.connections@.len(),
            moves_of(moves@) == start + connected_maps(*world, *map, k as nat),
        decreases map.connections@.len() - k,
    {
        let ghost so_far = connected_maps(*world, *map, k as nat);
        match world.name_of(map.connections[k].map.as_str()) {
            Some(name) => {
                let ghost before_push = moves@;
                moves.push((Place { map: name.to_owned(), x: 0, y: 0 }, None));
                assert(moves_of(moves@) =~= moves_of(before_push).push((whole(name@), None)));
                assert(moves_of(moves@) =~= start + so_far.push((whole(name@), None)));
            },
            None => {},
        }
        k += 1;
    }
    moves
}

/// A map with someone who heals.
pub open spec fn heals(world: World, name: Seq<char>) -> bool {
    match world.map_of(name) {
        Some(map) => map.healer is Some,
        None => false,
    }
}

/// A map `n` hops away and no fewer.
pub open spec fn hops_away(world: World, from: Seq<char>, name: Seq<char>, n: nat) -> bool {
    reaches(whole(from), hops(world), n, whole(name)) && forall|m: nat|
        m < n ==> !#[trigger] reaches(whole(from), hops(world), m, whole(name))
}

/// A nearby map and how far away it is.
#[derive(Debug)]
pub struct NearMap {
    pub name: String,
    pub hops: usize,
}

pub open spec fn near_maps(near: Seq<NearMap>) -> Seq<(Seq<char>, nat)> {
    Seq::new(near.len(), |i: int| (near[i].name@, near[i].hops as nat))
}

/// Nearer first, then by name.
pub open spec fn comes_first(a: (Seq<char>, nat), b: (Seq<char>, nat)) -> bool {
    a.1 < b.1 || (a.1 == b.1 && before(a.0, b.0))
}

/// Each once, nearer ones first.
pub open spec fn by_distance(near: Seq<(Seq<char>, nat)>) -> bool {
    forall|i: int, j: int|
        0 <= i < j < near.len() ==> comes_first(#[trigger] near[i], #[trigger] near[j])
}

/// The maps with a healer that are at most five hops away.
pub open spec fn healer_near(world: World, from: Seq<char>, m: (Seq<char>, nat)) -> bool {
    heals(world, m.0) && m.1 <= NEARBY_HOPS && hops_away(world, from, m.0, m.1)
}

/// All finds of a search over whole maps are whole maps.
proof fn finds_are_whole(world: World, from: Seq<char>, k: nat, i: int)
    requires
        0 <= i < grown(whole(from), hops(world), k).len(),
    ensures
        grown(whole(from), hops(world), k)[i].node == whole(
            grown(whole(from), hops(world), k)[i].node.map,
        ),
    decreases k,
{
    finds_can_be_reached(whole(from), hops(world), k, i);
    let found = grown(whole(from), hops(world), k)[i];
    let path = choose|path: Seq<PlaceV>|
        path.len() == found.moves + 1 && #[trigger] crate::search::way(
            whole(from),
            hops(world),
            path,
            found.node,
        );
    if path.len() > 1 {
        let last = path.len() - 1;
        assert(crate::search::leads(hops(world), path[last - 1], path[last]));
        let p = path[last - 1];
        let j = choose|j: int|
            0 <= j < hops(world)(p).len() && (#[trigger] hops(world)(p)[j]).0 == path[last];
        hops_are_whole(world, p, j);
    }
}

proof fn hops_are_whole(world: World, p: PlaceV, j: int)
    requires
        0 <= j < hops_from(world, p).len(),
    ensures
        hops_from(world, p)[j].0 == whole(hops_from(world, p)[j].0.map),
{
    let map = world.map_of(p.map)->0;
    let a = warp_maps(world, map, map.warps@.len());
    if j < a.len() {
        warps_are_whole(world, map, map.warps@.len(), j);
    } else {
        connections_are_whole(world, map, map.connections@.len(), j - a.len());
    }
}

proof fn warps_are_whole(world: World, map: MapData, n: nat, j: int)
    requires
        0 <= j < warp_maps(world, map, n).len(),
    ensures
        warp_maps(world, map, n)[j].0 == whole(warp_maps(world, map, n)[j].0.map),
    decreases n,
{
    if n > 0 {
        if j < warp_maps(world, map, (n - 1) as nat).len() {
            warps_are_whole(world, map, (n - 1) as nat, j);
        }
    }
}

proof fn connections_are_whole(world: World, map: MapData, n: nat, j: int)
    requires
        0 <= j < connected_maps(world, map, n).len(),
    ensures
        connected_maps(world, map, n)[j].0 == whole(connected_maps(world, map, n)[j].0.map),
    decreases n,
{
    if n > 0 {
        if j < connected_maps(world, map, (n - 1) as nat).len() {
            connections_are_whole(world, map, (n - 1) as nat, j);
        }
    }
}

/// Adds a map in its place.
fn add_near(near: &mut Vec<NearMap>, name: &String, hops: usize)
    requires
        by_distance(near_maps(old(near)@)),
        forall|i: int| 0 <= i < old(near)@.len() ==> (#[trigger] old(near)@[i]).name@ != name@,
    ensures
        by_distance(near_maps(final(near)@)),
        forall|m: (Seq<char>, nat)| #[trigger]
            near_maps(final(near)@).contains(m) <==> m == (name@, hops as nat) || near_maps(
                old(near)@,
            ).contains(m),
{
    let ghost start = near_maps(near@);
    let ghost new = (name@, hops as nat);
    let mut i: usize = 0;
    while i < near.len() && (near[i].hops < hops || (near[i].hops == hops && comes_before(
        near[i].name.as_str(),
        name.as_str(),
    )))
        invariant
            i <= near@.len(),
            start == near_maps(near@),
            new == (name@, hops as nat),
            forall|j: int| 0 <= j < i ==> comes_first(#[trigger] start[j], new),
        decreases near@.len() - i,
    {
        i += 1;
    }
    let ghost old_near = near@;
    near.insert(i, NearMap { name: name.clone(), hops });
    proof {
        let end = near_maps(near@);
        assert(end =~= start.insert(i as int, new));
        assert forall|j: int| i <= j < start.len() implies comes_first(new, #[trigger] start[j]) by {
            let at = start[i as int];
            assert(at.0 == old_near[i as int].name@);
            different_texts_are_ordered(at.0, new.0);
            if j > i {
                assert(comes_first(at, start[j]));
                if at.1 == new.1 && start[j].1 == at.1 {
                    order_is_transitive(new.0, at.0, start[j].0);
                }
            }
        }
        assert forall|a: int, b: int| 0 <= a < b < end.len() implies comes_first(
            #[trigger] end[a],
            #[trigger] end[b],
        ) by {
            if b < i {
                assert(end[a] == start[a] && end[b] == start[b]);
            } else if b == i {
                assert(end[a] == start[a]);
            } else if a < i {
                assert(end[a] == start[a] && end[b] == start[b - 1]);
            } else if a == i {
                assert(end[b] == start[b - 1]);
            } else {
                assert(end[a] == start[a - 1] && end[b] == start[b - 1]);
            }
        }
        assert forall|m: (Seq<char>, nat)| #[trigger] end.contains(m) <==> m == new
            || start.contains(m) by {
            if m == new {
                assert(end[i as int] == m);
            } else if start.contains(m) {
                let k = choose|k: int| 0 <= k < start.len() && start[k] == m;
                if k < i {
                    assert(end[k] == m);
                } else {
                    assert(end[k + 1] == m);
                }
            } else if end.contains(m) {
                let k = choose|k: int| 0 <= k < end.len() && end[k] == m;
                if k < i {
                    assert(start[k] == m);
                } else if k > i {
                    assert(start[k - 1] == m);
                }
            }
        }
    }
}

/// The maps with a healer at most five hops away, nearer ones first, then by
/// name.
pub fn healers_nearby(world: &World, from: &str) -> (near: Vec<NearMap>)
    ensures
        by_distance(near_maps(near@)),
        forall|m: (Seq<char>, nat)| #[trigger]
            near_maps(near@).contains(m) <==> healer_near(*world, from@, m),
{
    let found = maps_nearby(world, from);
    let ghost all = finds(found@);
    let mut near: Vec<NearMap> = Vec::new();
    let mut i: usize = 0;
    while i < found.len()
        invariant
            i <= found@.len(),
            all == finds(found@),
            by_distance(near_maps(near@)),
            no_map_twice(all),
            forall|m: (Seq<char>, nat)| #[trigger]
                near_maps(near@).contains(m) <==> exists|j: int|
                    0 <= j < i && heals(*world, m.0) && (#[trigger] all[j]).node.map == m.0
                        && all[j].moves == m.1,
        decreases found@.len() - i,
    {
        let ghost before_near = near_maps(near@);
        let f = &found[i];
        let healer = match world.map(f.place.map.as_str()) {
            Some(map) => map.healer.is_some(),
            None => false,
        };
        assert(healer == heals(*world, all[i as int].node.map));
        if healer {
            assert forall|k: int| 0 <= k < near@.len() implies (#[trigger] near@[k]).name@
                != f.place.map@ by {
                let m = before_near[k];
                assert(before_near.contains(m));
                let j = choose|j: int|
                    0 <= j < i && heals(*world, m.0) && (#[trigger] all[j]).node.map == m.0
                        && all[j].moves == m.1;
                assert(all[j].node.map != all[i as int].node.map);
            }
            add_near(&mut near, &f.place.map, f.moves);
        }
        proof {
            assert forall|m: (Seq<char>, nat)| #[trigger] near_maps(near@).contains(m)
                <==> exists|j: int|
                0 <= j < i + 1 && heals(*world, m.0) && (#[trigger] all[j]).node.map == m.0
                    && all[j].moves == m.1 by {
                let new = (all[i as int].node.map, all[i as int].moves);
                if near_maps(near@).contains(m) {
                    if healer && m == new {
                        assert(all[i as int].node.map == m.0);
                    } else {
                        assert(before_near.contains(m));
                    }
                }
                if exists|j: int|
                    0 <= j < i + 1 && heals(*world, m.0) && (#[trigger] all[j]).node.map == m.0
                        && all[j].moves == m.1 {
                    let j = choose|j: int|
                        0 <= j < i + 1 && heals(*world, m.0) && (#[trigger] all[j]).node.map
                            == m.0 && all[j].moves == m.1;
                    if j < i {
                        assert(before_near.contains(m));
                    } else {
                        assert(m == new);
                    }
                }
            }
        }
        i += 1;
    }
    proof {
        assert forall|m: (Seq<char>, nat)| #[trigger] near_maps(near@).contains(m)
            <==> healer_near(*world, from@, m) by {
            if near_maps(near@).contains(m) {
                let j = choose|j: int|
                    0 <= j < all.len() && heals(*world, m.0) && (#[trigger] all[j]).node.map == m.0
                        && all[j].moves == m.1;
                assert(nearby_find(*world, from@, all[j]));
            }
            if healer_near(*world, from@, m) {
                assert(exists|j: int|
                    0 <= j < all.len() && (#[trigger] all[j]).node.map == m.0 && all[j].moves
                        == m.1);
            }
        }
    }
    near
}

pub open spec fn no_map_twice(found: Seq<Found<PlaceV>>) -> bool {
    forall|i: int, j: int|
        0 <= i < j < found.len() ==> (#[trigger] found[i]).node.map != (
        #[trigger] found[j]).node.map
}

pub open spec fn nearby_find(world: World, from: Seq<char>, f: Found<PlaceV>) -> bool {
    f.moves <= NEARBY_HOPS && hops_away(world, from, f.node.map, f.moves)
}

/// No find is of a thing found before.
proof fn finds_differ(world: World, from: Seq<char>, k: nat)
    ensures
        no_map_twice(grown(whole(from), hops(world), k)),
    decreases k,
{
    let start = whole(from);
    let next = hops(world);
    crate::search::finds_are_different(start, next, k);
    let found = grown(start, next, k);
    assert forall|i: int, j: int| 0 <= i < j < found.len() implies (#[trigger] found[i]).node.map
        != (#[trigger] found[j]).node.map by {
        finds_are_whole(world, from, k, i);
        finds_are_whole(world, from, k, j);
    }
}

/// The maps at most five hops away.
fn maps_nearby(world: &World, from: &str) -> (found: Vec<FoundPlace>)
    ensures
        no_map_twice(finds(found@)),
        forall|i: int|
            0 <= i < found@.len() ==> nearby_find(*world, from@, #[trigger] finds(found@)[i]),
        forall|name: Seq<char>, n: nat|
            n <= NEARBY_HOPS && #[trigger] hops_away(*world, from@, name, n) ==> exists|i: int|
                0 <= i < found@.len() && (#[trigger] finds(found@)[i]).node.map == name && finds(
                    found@,
                )[i].moves == n,
{
    let ghost start = whole(from@);
    let ghost next = hops(*world);
    let mut found = begin(from, 0, 0);
    assert(finds(found@)[0].moves == 0);
    let mut at: usize = 0;
    while at < found.len() && found[at].moves < NEARBY_HOPS
        invariant
            at <= found@.len(),
            start == whole(from@),
            next == hops(*world),
            finds(found@) == grown(start, next, at as nat),
            forall|i: int| 0 <= i < found@.len() ==> (#[trigger] found@[i]).moves <= NEARBY_HOPS,
        decreases usize::MAX - at,
    {
        let around = look_for_maps(world, &found[at].place);
        proof {
            finds_are_in_order(start, next, at as nat);
            assert forall|i: int| 0 <= i < found@.len() implies (#[trigger] found@[i]).moves
                <= i by {
                assert(finds(found@)[i].moves <= i);
            }
        }
        let ghost here = finds(found@)[at as int];
        let ghost before_step = found@;
        extend(&mut found, at, &around);
        at += 1;
        proof {
            crate::search::extending_keeps(
                finds(before_step),
                here,
                moves_of(around@),
            );
            assert forall|i: int| 0 <= i < found@.len() implies (#[trigger] found@[i]).moves
                <= NEARBY_HOPS by {
                let f = finds(found@)[i];
                if i < before_step.len() {
                    assert(f == finds(before_step)[i]);
                    assert(before_step[i].moves <= NEARBY_HOPS);
                } else {
                    assert(f.moves == here.moves + 1);
                }
            }
        }
    }
    proof {
        let k = at as nat;
        let all = finds(found@);
        finds_differ(*world, from@, k);
        finds_are_in_order(start, next, k);
        assert forall|name: Seq<char>, n: nat|
            n <= NEARBY_HOPS && #[trigger] reaches(start, next, n, whole(name)) implies exists|
            i: int,
        |
            0 <= i < all.len() && (#[trigger] all[i]).node == whole(name) && all[i].moves <= n by {
            let w = what_can_be_reached_is_found(start, next, n, whole(name));
            near_enough(*world, from@, k, w.0, w.1, n);
        }
        assert forall|i: int| 0 <= i < found@.len() implies nearby_find(
            *world,
            from@,
            #[trigger] finds(found@)[i],
        ) by {
            let f = all[i];
            finds_can_be_reached(start, next, k, i);
            finds_are_whole(*world, from@, k, i);
            assert(found@[i].moves <= NEARBY_HOPS);
            assert forall|m: nat| m < f.moves implies !#[trigger] reaches(
                start,
                next,
                m,
                whole(f.node.map),
            ) by {
                if reaches(start, next, m, whole(f.node.map)) {
                    let j = choose|j: int|
                        0 <= j < all.len() && (#[trigger] all[j]).node == whole(f.node.map)
                            && all[j].moves <= m;
                    assert(all[j].node.map == all[i].node.map);
                }
            }
        }
        assert forall|name: Seq<char>, n: nat|
            n <= NEARBY_HOPS && #[trigger] hops_away(*world, from@, name, n) implies exists|i: int|
            0 <= i < found@.len() && (#[trigger] finds(found@)[i]).node.map == name && finds(
                found@,
            )[i].moves == n by {
            assert(reaches(start, next, n, whole(name)));
            let i = choose|i: int|
                0 <= i < all.len() && (#[trigger] all[i]).node == whole(name) && all[i].moves
                    <= n;
            finds_can_be_reached(start, next, k, i);
            assert(all[i].moves == n);
        }
    }
    found
}

/// Where the search stopped at maps five hops away, everything so near was
/// found.
proof fn near_enough(world: World, from: Seq<char>, k: nat, later: nat, i: int, n: nat)
    requires
        ({
            let found = grown(whole(from), hops(world), k);
            k >= found.len() || found[k as int].moves >= NEARBY_HOPS
        }),
        0 <= i < grown(whole(from), hops(world), later).len(),
        grown(whole(from), hops(world), later)[i].moves <= n,
        n <= NEARBY_HOPS,
    ensures
        i < grown(whole(from), hops(world), k).len(),
        grown(whole(from), hops(world), k)[i] == grown(whole(from), hops(world), later)[i],
{
    let start = whole(from);
    let next = hops(world);
    if later <= k {
        finds_stay(start, next, later, k);
    } else if k >= grown(start, next, k).len() {
        found_by_then(start, next, k, later, i);
    } else {
        finds_stay(start, next, k, later);
        if i >= grown(start, next, k).len() {
            later_finds_are_farther(start, next, k, later, i);
        }
    }
}

// ---- Questions and answers ----

/// A way that is wanted: to the tile of a map from which its healer is talked to.
#[derive(Debug)]
pub struct WayQuestion {
    pub map: String,
    pub x: i32,
    pub y: i32,
}

impl View for WayQuestion {
    type V = PlaceV;

    open spec fn view(&self) -> PlaceV {
        PlaceV { map: self.map@, x: self.x, y: self.y }
    }
}

pub open spec fn questions_of(qs: Seq<WayQuestion>) -> Seq<PlaceV> {
    Seq::new(qs.len(), |i: int| qs[i]@)
}

pub open spec fn object_at(map: MapData, id: u32, i: int) -> bool {
    &&& 0 <= i < map.objects@.len()
    &&& map.objects@[i].local_id == id
    &&& forall|j: int| 0 <= j < i ==> (#[trigger] map.objects@[j]).local_id != id
}

/// The tile of an object of a map.
pub open spec fn object_spot(map: MapData, id: u32) -> Option<Spot> {
    if exists|i: int| object_at(map, id, i) {
        let o = map.objects@[choose|i: int| object_at(map, id, i)];
        match (o.x, o.y) {
            (Some(x), Some(y)) => Some((x, y)),
            _ => None,
        }
    } else {
        None
    }
}

fn object_tile(map: &MapData, id: u32) -> (r: Option<Spot>)
    ensures
        r == object_spot(*map, id),
{
    let mut i: usize = 0;
    while i < map.objects.len()
        invariant
            i <= map.objects@.len(),
            forall|j: int| 0 <= j < i ==> (#[trigger] map.objects@[j]).local_id != id,
        decreases map.objects@.len() - i,
    {
        if map.objects[i].local_id == id {
            proof {
                assert(object_at(*map, id, i as int));
                let c = choose|c: int| object_at(*map, id, c);
                assert(c == i) by {
                    assert(map.objects@[c].local_id == id);
                    assert(map.objects@[i as int].local_id == id);
                }
            }
            return match (map.objects[i].x, map.objects[i].y) {
                (Some(x), Some(y)) => Some((x, y)),
                _ => None,
            };
        }
        i += 1;
    }
    assert forall|c: int| !object_at(*map, id, c) by {
        if object_at(*map, id, c) {
            assert(map.objects@[c].local_id == id);
        }
    }
    None
}

/// The tile of a map's healer.
pub open spec fn healer_spot(world: World, name: Seq<char>) -> Option<Spot> {
    match world.map_of(name) {
        Some(map) => match map.healer {
            Some(id) => object_spot(map, id),
            None => None,
        },
        None => None,
    }
}

/// The tiles around the healers are within the machine's numbers.
pub open spec fn healers_fit(world: World) -> bool {
    forall|name: Seq<char>|
        (#[trigger] healer_spot(world, name)) matches Some(s) ==> i32::MIN + 2 <= s.0 <= i32::MAX
            - 2 && i32::MIN + 2 <= s.1 <= i32::MAX - 2
}

/// The spots to talk from, as places of a map.
pub open spec fn places_on(name: Seq<char>, spots: Seq<(Spot, crate::input::Direction)>) -> Seq<
    PlaceV,
> {
    Seq::new(
        spots.len(),
        |i: int| PlaceV { map: name, x: (spots[i].0).0, y: (spots[i].0).1 },
    )
}

/// The ways wanted for the first `n` of the maps; none at all where the tile of
/// one of their healers is unknown.
pub open spec fn ways_wanted(world: World, near: Seq<(Seq<char>, nat)>, n: nat) -> Option<
    Seq<PlaceV>,
>
    decreases n,
{
    if n == 0 {
        Some(Seq::empty())
    } else {
        let name = near[n - 1].0;
        match (ways_wanted(world, near, (n - 1) as nat), healer_spot(world, name)) {
            (Some(rest), Some(s)) => Some(
                rest + places_on(
                    name,
                    talk_spots(world.map_of(name)->0, s.0 as int, s.1 as int, 4),
                ),
            ),
            _ => None,
        }
    }
}

/// How many of the maps are priced.
pub open spec fn priced_maps(near: Seq<(Seq<char>, nat)>) -> nat {
    if near.len() < MAX_HEALERS {
        near.len()
    } else {
        MAX_HEALERS as nat
    }
}

proof fn no_ways_stay_none(world: World, near: Seq<(Seq<char>, nat)>, i: nat, n: nat)
    requires
        i <= n,
        ways_wanted(world, near, i) is None,
    ensures
        ways_wanted(world, near, n) is None,
    decreases n,
{
    if i < n {
        no_ways_stay_none(world, near, i, (n - 1) as nat);
    }
}

/// The ways that are wanted to price the nearest healers: to every tile they
/// are talked to from. `None` where the tile of one of them is unknown.
pub fn ways_to_healers(world: &World, near: &Vec<NearMap>) -> (r: Option<Vec<WayQuestion>>)
    requires
        healers_fit(*world),
    ensures
        match r {
            Some(qs) => ways_wanted(*world, near_maps(near@), priced_maps(near_maps(near@)))
                == Some(questions_of(qs@)),
            None => ways_wanted(*world, near_maps(near@), priced_maps(near_maps(near@))) is None,
        },
{
    let ghost all = near_maps(near@);
    let n: usize = if near.len() < MAX_HEALERS {
        near.len()
    } else {
        MAX_HEALERS
    };
    let mut qs: Vec<WayQuestion> = Vec::new();
    assert(questions_of(qs@) =~= Seq::empty());
    let mut i: usize = 0;
    while i < n
        invariant
            i <= n,
            n <= near@.len(),
            n == priced_maps(all),
            all == near_maps(near@),
            healers_fit(*world),
            ways_wanted(*world, all, i as nat) == Some(questions_of(qs@)),
        decreases n - i,
    {
        let name = &near[i].name;
        assert(all[i as int].0 == name@);
        let map = match world.map(name.as_str()) {
            Some(map) => map,
            None => {
                proof {
                    assert(ways_wanted(*world, all, (i + 1) as nat) is None);
                    no_ways_stay_none(*world, all, (i + 1) as nat, n as nat);
                }
                return None;
            },
        };
        let spot = match map.healer {
            Some(id) => object_tile(map, id),
            None => None,
        };
        assert(spot == healer_spot(*world, name@));
        let (x, y) = match spot {
            Some(s) => s,
            None => {
                proof {
                    assert(ways_wanted(*world, all, (i + 1) as nat) is None);
                    no_ways_stay_none(*world, all, (i + 1) as nat, n as nat);
                }
                return None;
            },
        };
        let spots = facing_spots(map, x, y);
        let ghost before_map = questions_of(qs@);
        let ghost wanted = places_on(name@, spots@);
        let mut k: usize = 0;
        assert(before_map + wanted.take(0) =~= before_map);
        while k < spots.len()
            invariant
                k <= spots@.len(),
                wanted == places_on(name@, spots@),
                questions_of(qs@) == before_map + wanted.take(k as int),
            decreases spots@.len() - k,
        {
            let ghost before_push = qs@;
            let s = spots[k].0;
            qs.push(WayQuestion { map: name.clone(), x: s.0, y: s.1 });
            proof {
                assert(questions_of(qs@) =~= questions_of(before_push).push(wanted[k as int]));
                assert(wanted.take(k + 1) =~= wanted.take(k as int).push(wanted[k as int]));
                assert(before_map + wanted.take(k + 1) =~= (before_map + wanted.take(
                    k as int,
                )).push(wanted[k as int]));
            }
            k += 1;
        }
        assert(wanted.take(wanted.len() as int) =~= wanted);
        i += 1;
    }
    Some(qs)
}

/// A stretch of a way walked on one map.
#[derive(Debug)]
pub struct WalkLeg {
    pub map: String,
    pub tiles: u32,
}

/// What is known of a way: whether there is one, what it costs, what the way
/// back to the interrupted destination costs (0 without a destination, `None`
/// where there is none), and where it is walked.
#[derive(Debug)]
pub struct WayAnswer {
    pub found: bool,
    pub cost_atto: u128,
    pub back_atto: Option<u128>,
    pub legs: Vec<WalkLeg>,
}

/// A way to recover, and what it costs.
#[derive(Debug)]
pub struct Recovery {
    pub map: String,
    pub medicine: Option<String>,
    pub added_travel_atto: u128,
    pub encounter_risk_atto: u128,
    pub service_atto: u128,
    pub item_cost_atto: u128,
    pub score_atto: u128,
}

pub struct RecoveryV {
    pub map: Seq<char>,
    pub medicine: Option<Seq<char>>,
    pub added_travel_atto: u128,
    pub encounter_risk_atto: u128,
    pub service_atto: u128,
    pub item_cost_atto: u128,
    pub score_atto: u128,
}

impl View for Recovery {
    type V = RecoveryV;

    open spec fn view(&self) -> RecoveryV {
        RecoveryV {
            map: self.map@,
            medicine: text_of(self.medicine),
            added_travel_atto: self.added_travel_atto,
            encounter_risk_atto: self.encounter_risk_atto,
            service_atto: self.service_atto,
            item_cost_atto: self.item_cost_atto,
            score_atto: self.score_atto,
        }
    }
}

pub open spec fn recoveries_of(rs: Seq<Recovery>) -> Seq<RecoveryV> {
    Seq::new(rs.len(), |i: int| rs[i]@)
}

pub open spec fn at_most_max(n: int) -> u128 {
    if n < u128::MAX {
        n as u128
    } else {
        u128::MAX
    }
}

fn add_up(a: u128, b: u128) -> (r: u128)
    ensures
        r == at_most_max(a + b),
{
    if a < u128::MAX - b {
        a + b
    } else {
        u128::MAX
    }
}

// ---- Encounters ----

/// A tile that can be walked on.
pub open spec fn walkable_at(map: MapData, x: int, y: int) -> bool {
    map.tile_at(x, y) matches Some(t) && t.collision == 0
}

/// A tile that can be walked on, where wild Pokémon appear.
pub open spec fn grass_at(map: MapData, x: int, y: int) -> bool {
    map.tile_at(x, y) matches Some(t) && t.collision == 0 && t.encounters
}

/// The tiles of a row that can be walked on, and those with encounters, among
/// its first `n`.
pub open spec fn row_counts(map: MapData, y: int, n: nat) -> (nat, nat)
    decreases n,
{
    if n == 0 {
        (0, 0)
    } else {
        let rest = row_counts(map, y, (n - 1) as nat);
        (
            rest.0 + (if walkable_at(map, n - 1, y) {
                1nat
            } else {
                0
            }),
            rest.1 + (if grass_at(map, n - 1, y) {
                1nat
            } else {
                0
            }),
        )
    }
}

/// The same over the first `n` rows.
pub open spec fn map_counts(map: MapData, width: nat, n: nat) -> (nat, nat)
    decreases n,
{
    if n == 0 {
        (0, 0)
    } else {
        let rest = map_counts(map, width, (n - 1) as nat);
        let row = row_counts(map, n - 1, width);
        (rest.0 + row.0, rest.1 + row.1)
    }
}

pub open spec fn size(n: i32) -> nat {
    if n > 0 {
        n as nat
    } else {
        0
    }
}

/// The tiles of a map that can be walked on, and those of them with encounters.
pub open spec fn density(map: MapData) -> (nat, nat) {
    map_counts(map, size(map.width), size(map.height))
}

fn count_row(map: &MapData, y: i32) -> (r: (u64, u64))
    ensures
        r.0 == row_counts(*map, y as int, size(map.width)).0,
        r.1 == row_counts(*map, y as int, size(map.width)).1,
        r.1 <= r.0 <= size(map.width),
{
    let mut walkable: u64 = 0;
    let mut grass: u64 = 0;
    let mut x: i32 = 0;
    while x < map.width
        invariant
            0 <= x,
            x <= map.width || x == 0,
            walkable == row_counts(*map, y as int, x as nat).0,
            grass == row_counts(*map, y as int, x as nat).1,
            grass <= walkable <= x,
        decreases map.width - x,
    {
        match map.tile(x, y) {
            Some(t) => {
                if t.collision == 0 {
                    walkable += 1;
                    if t.encounters {
                        grass += 1;
                    }
                }
            },
            None => {},
        }
        x += 1;
    }
    (walkable, grass)
}

/// The tiles of a map that can be walked on, and those of them with encounters.
pub fn encounter_density(map: &MapData) -> (r: (u64, u64))
    ensures
        r.0 == density(*map).0,
        r.1 == density(*map).1,
        r.1 <= r.0 <= 0x7fff_ffff * 0x7fff_ffff,
{
    let mut walkable: u64 = 0;
    let mut grass: u64 = 0;
    let mut y: i32 = 0;
    while y < map.height
        invariant
            0 <= y,
            y <= map.height || y == 0,
            walkable == map_counts(*map, size(map.width), y as nat).0,
            grass == map_counts(*map, size(map.width), y as nat).1,
            grass <= walkable <= y * size(map.width),
            y * size(map.width) <= 0x7fff_ffff * 0x7fff_ffff,
        decreases map.height - y,
    {
        let row = count_row(map, y);
        assert((y + 1) * size(map.width) == y * size(map.width) + size(map.width))
            by (nonlinear_arith);
        assert((y + 1) * size(map.width) <= 0x7fff_ffff * 0x7fff_ffff) by (nonlinear_arith)
            requires
                0 <= y < 0x7fff_ffff,
                0 <= size(map.width) <= 0x7fff_ffff,
        ;
        walkable = walkable + row.0;
        grass = grass + row.1;
        y += 1;
    }
    (walkable, grass)
}

/// The risk of a stretch: its tiles, as far as wild Pokémon appear on its map,
/// at a second each (four where the need is urgent).
pub open spec fn leg_risk(world: World, map: Seq<char>, tiles: u32, urgent: bool) -> int {
    match world.map_of(map) {
        Some(m) => {
            let d = density(m);
            let walkable = if d.0 > 0 {
                d.0 as int
            } else {
                1
            };
            tiles * (if urgent {
                4 * SECOND
            } else {
                SECOND as int
            }) * d.1 / walkable
        },
        None => 0,
    }
}

fn price_leg(world: &World, leg: &WalkLeg, urgent: bool) -> (price: u128)
    ensures
        price == at_most_max(leg_risk(*world, leg.map@, leg.tiles, urgent)),
{
    let map = match world.map(leg.map.as_str()) {
        Some(map) => map,
        None => {
            return 0;
        },
    };
    let (walkable, grass) = encounter_density(map);
    let per: u128 = if urgent {
        4 * SECOND
    } else {
        SECOND
    };
    let tiles: u32 = leg.tiles;
    assert(0 <= tiles * per <= u32::MAX * (4 * SECOND)) by (nonlinear_arith)
        requires
            tiles <= u32::MAX,
            0 <= per <= 4 * SECOND,
    ;
    let whole: u128 = tiles as u128 * per;
    let by: u128 = if walkable > 0 {
        walkable as u128
    } else {
        1
    };
    let each: u128 = whole / by;
    let rest: u128 = whole % by;
    let g: u128 = grass as u128;
    assert(each * g <= whole) by (nonlinear_arith)
        requires
            each == whole as int / (by as int),
            by >= 1,
            g <= by,
    ;
    assert(rest * g <= 0x7fff_ffff * 0x7fff_ffff * (0x7fff_ffff * 0x7fff_ffff)) by (nonlinear_arith)
        requires
            0 <= rest <= 0x7fff_ffff * 0x7fff_ffff,
            0 <= g <= 0x7fff_ffff * 0x7fff_ffff,
    ;
    assert(0 <= each * g && 0 <= rest * g) by (nonlinear_arith);
    proof {
        lemma_fundamental_div_mod(whole as int, by as int);
        assert(whole * g == rest * g + (each * g) * by) by (nonlinear_arith)
            requires
                whole == by * each + rest,
        ;
        lemma_hoist_over_denominator(rest * g, each * g, by as nat);
    }
    each * g + rest * g / by
}

/// The risk of the first `n` stretches.
pub open spec fn risk_of(world: World, legs: Seq<WalkLeg>, urgent: bool, n: nat) -> u128
    decreases n,
{
    if n == 0 {
        0
    } else {
        at_most_max(
            risk_of(world, legs, urgent, (n - 1) as nat) + at_most_max(
                leg_risk(world, legs[n - 1].map@, legs[n - 1].tiles, urgent),
            ),
        )
    }
}

fn price_risk(world: &World, legs: &Vec<WalkLeg>, urgent: bool) -> (price: u128)
    ensures
        price == risk_of(*world, legs@, urgent, legs@.len()),
{
    let mut sum: u128 = 0;
    let mut i: usize = 0;
    while i < legs.len()
        invariant
            i <= legs@.len(),
            sum == risk_of(*world, legs@, urgent, i as nat),
        decreases legs@.len() - i,
    {
        sum = add_up(sum, price_leg(world, &legs[i], urgent));
        i += 1;
    }
    sum
}

// ---- Prices ----

/// The travel a way adds: all of it where the need is urgent or there is no way
/// to go on anyway; else what it adds to the way to the destination. `None`
/// where one could not come back.
pub open spec fn travel_of(a: WayAnswer, urgent: bool, baseline: Option<u128>) -> Option<u128> {
    if urgent || baseline is None {
        Some(a.cost_atto)
    } else {
        match a.back_atto {
            Some(back) => {
                let added = a.cost_atto + back - baseline->0;
                Some(
                    if added > 0 {
                        at_most_max(added)
                    } else {
                        0
                    },
                )
            },
            None => None,
        }
    }
}

fn added_travel(a: &WayAnswer, urgent: bool, baseline: Option<u128>) -> (r: Option<u128>)
    ensures
        r == travel_of(*a, urgent, baseline),
{
    let base: u128 = match baseline {
        Some(b) => b,
        None => {
            return Some(a.cost_atto);
        },
    };
    if urgent {
        return Some(a.cost_atto);
    }
    match a.back_atto {
        Some(back) => {
            Some(
                if back >= base {
                    add_up(a.cost_atto, back - base)
                } else if a.cost_atto > base - back {
                    a.cost_atto - (base - back)
                } else {
                    0
                },
            )
        },
        None => None,
    }
}

/// What going to a healer costs, where there is a way.
pub open spec fn healer_price(
    world: World,
    map: Seq<char>,
    a: WayAnswer,
    urgent: bool,
    baseline: Option<u128>,
) -> Option<RecoveryV> {
    match travel_of(a, urgent, baseline) {
        Some(travel) => if a.found {
            let risk = risk_of(world, a.legs@, urgent, a.legs@.len());
            Some(
                RecoveryV {
                    map,
                    medicine: None,
                    added_travel_atto: travel,
                    encounter_risk_atto: risk,
                    service_atto: HEALER,
                    item_cost_atto: 0,
                    score_atto: at_most_max(at_most_max(travel + risk) + HEALER),
                },
            )
        } else {
            None
        },
        None => None,
    }
}

/// What the first `n` ways come to, in their order.
pub open spec fn healer_prices(
    world: World,
    qs: Seq<PlaceV>,
    answers: Seq<WayAnswer>,
    urgent: bool,
    baseline: Option<u128>,
    n: nat,
) -> Seq<RecoveryV>
    decreases n,
{
    if n == 0 {
        Seq::empty()
    } else {
        let rest = healer_prices(world, qs, answers, urgent, baseline, (n - 1) as nat);
        match healer_price(world, qs[n - 1].map, answers[n - 1], urgent, baseline) {
            Some(r) => rest.push(r),
            None => rest,
        }
    }
}

/// The medicines, weakest first, and how much they heal.
pub open spec fn medicine_nth(i: int) -> (Seq<char>, u16) {
    if i == 0 {
        ("ITEM_POTION"@, 20)
    } else if i == 1 {
        ("ITEM_SUPER_POTION"@, 50)
    } else if i == 2 {
        ("ITEM_HYPER_POTION"@, 200)
    } else {
        ("ITEM_MAX_POTION"@, u16::MAX)
    }
}

fn medicine(i: usize) -> (r: (&'static str, u16))
    ensures
        r.0@ == medicine_nth(i as int).0,
        r.1 == medicine_nth(i as int).1,
{
    if i == 0 {
        ("ITEM_POTION", 20)
    } else if i == 1 {
        ("ITEM_SUPER_POTION", 50)
    } else if i == 2 {
        ("ITEM_HYPER_POTION", 200)
    } else {
        ("ITEM_MAX_POTION", u16::MAX)
    }
}

/// The items pocket is known to hold some of an item.
pub open spec fn at_hand(items: Option<Seq<(Seq<char>, u16)>>, item: Seq<char>) -> bool {
    items is Some && exists|i: int|
        0 <= i < items->0.len() && (#[trigger] items->0[i]).0 == item && items->0[i].1 > 0
}

fn is_at_hand(items: Option<&Vec<(String, u16)>>, item: &str) -> (r: bool)
    ensures
        r == at_hand(
            match items {
                Some(v) => Some(crate::event::items_of(v@)),
                None => None,
            },
            item@,
        ),
{
    let held = match items {
        Some(v) => v,
        None => {
            return false;
        },
    };
    let ghost all = crate::event::items_of(held@);
    let mut i: usize = 0;
    while i < held.len()
        invariant
            i <= held@.len(),
            items == Some(held),
            all == crate::event::items_of(held@),
            forall|j: int|
                0 <= j < i ==> !((#[trigger] all[j]).0 == item@ && all[j].1 > 0),
        decreases held@.len() - i,
    {
        if held[i].1 > 0 && same(held[i].0.as_str(), item) {
            proof {
                let known = Some(all);
                assert(known->0[i as int].0 == item@ && known->0[i as int].1 > 0);
                assert(at_hand(known, item@));
            }
            return true;
        }
        i += 1;
    }
    assert(!at_hand(Some(all), item@));
    false
}

/// The HP after medicine.
pub open spec fn healed_hp(hp: (u16, u16), heal: u16) -> (u16, u16) {
    (
        if hp.0 + heal < hp.1 {
            (hp.0 + heal) as u16
        } else {
            hp.1
        },
        hp.1,
    )
}

/// The party with its lead's HP changed.
pub open spec fn with_lead_hp(mons: Seq<PartyMon>, hp: (u16, u16)) -> Seq<PartyMon> {
    mons.update(
        0,
        PartyMon { hp: Knowledge { value: Some(hp), ..mons[0].hp }, ..mons[0] },
    )
}

/// Medicine `i`: held, priced, and enough to leave nothing to be healed.
pub open spec fn medicine_price(
    state: GameState,
    data: GameData,
    map: Seq<char>,
    mons: Seq<PartyMon>,
    hp: (u16, u16),
    i: int,
) -> Option<RecoveryV> {
    let m = medicine_nth(i);
    if at_hand(state.saved.holds(Pocket::Items), m.0) && data.item_of(m.0) is Some && health_need(
        Some(with_lead_hp(mons, healed_hp(hp, m.1))),
        data,
    ) is None {
        let cost = at_most_max(data.item_of(m.0)->0.price * MONEY);
        Some(
            RecoveryV {
                map,
                medicine: Some(m.0),
                added_travel_atto: 0,
                encounter_risk_atto: 0,
                service_atto: MEDICINE,
                item_cost_atto: cost,
                score_atto: at_most_max(MEDICINE + cost),
            },
        )
    } else {
        None
    }
}

/// The first `n` medicines that resolve the need.
pub open spec fn medicine_prices(
    state: GameState,
    data: GameData,
    map: Seq<char>,
    mons: Seq<PartyMon>,
    hp: (u16, u16),
    n: nat,
) -> Seq<RecoveryV>
    decreases n,
{
    if n == 0 {
        Seq::empty()
    } else {
        let rest = medicine_prices(state, data, map, mons, hp, (n - 1) as nat);
        match medicine_price(state, data, map, mons, hp, n - 1) {
            Some(r) => rest.push(r),
            None => rest,
        }
    }
}

/// The medicines that resolve the party's need: none where the lead has a
/// status (no potion heals it) or its HP is unknown.
pub open spec fn medicines_at_hand(state: GameState, data: GameData, map: Seq<char>) -> Seq<
    RecoveryV,
> {
    match state.saved.party.value {
        Some(v) => if v@.len() > 0 && v@[0].status.value == Some(Status::Healthy) && hp_of(
            v@[0],
        ) is Some {
            medicine_prices(state, data, map, v@, hp_of(v@[0])->0, 4)
        } else {
            Seq::empty()
        },
        None => Seq::empty(),
    }
}

fn copy_fact(k: &Knowledge<String>) -> (r: Knowledge<String>)
    ensures
        r == *k,
{
    Knowledge {
        value: match &k.value {
            Some(s) => Some(s.clone()),
            None => None,
        },
        source: k.source,
        frame: k.frame,
    }
}

fn copy_slot(slot: &Option<MoveSlot>) -> (r: Option<MoveSlot>)
    ensures
        r == *slot,
{
    match slot {
        Some(s) => Some(
            MoveSlot {
                mv: copy_fact(&s.mv),
                pp: Knowledge { value: s.pp.value, source: s.pp.source, frame: s.pp.frame },
            },
        ),
        None => None,
    }
}

fn copy_number<T: Copy>(k: &Knowledge<T>) -> (r: Knowledge<T>)
    ensures
        r == *k,
{
    Knowledge { value: k.value, source: k.source, frame: k.frame }
}

fn copy_mon(m: &PartyMon) -> (r: PartyMon)
    ensures
        r == *m,
{
    let moves = [
        copy_slot(&m.moves[0]),
        copy_slot(&m.moves[1]),
        copy_slot(&m.moves[2]),
        copy_slot(&m.moves[3]),
    ];
    assert(moves@ =~= m.moves@);
    assert(moves =~= m.moves);
    PartyMon {
        species: copy_fact(&m.species),
        level: copy_number(&m.level),
        hp: copy_number(&m.hp),
        status: copy_number(&m.status),
        moves,
        details: Details {
            attack: copy_number(&m.details.attack),
            defense: copy_number(&m.details.defense),
            speed: copy_number(&m.details.speed),
            sp_attack: copy_number(&m.details.sp_attack),
            sp_defense: copy_number(&m.details.sp_defense),
            ability: copy_fact(&m.details.ability),
        },
    }
}

/// The party with its lead's HP changed.
fn change_lead_hp(mons: &Vec<PartyMon>, hp: (u16, u16)) -> (v: Vec<PartyMon>)
    requires
        mons@.len() > 0,
    ensures
        v@ == with_lead_hp(mons@, hp),
{
    let mut v: Vec<PartyMon> = Vec::new();
    let mut i: usize = 0;
    while i < mons.len()
        invariant
            i <= mons@.len(),
            v@.len() == i,
            forall|j: int| 0 <= j < i ==> #[trigger] v@[j] == with_lead_hp(mons@, hp)[j],
        decreases mons@.len() - i,
    {
        let mut m = copy_mon(&mons[i]);
        if i == 0 {
            m.hp.value = Some(hp);
        }
        v.push(m);
        i += 1;
    }
    assert(v@ =~= with_lead_hp(mons@, hp));
    v
}

/// Only medicines at hand that resolve the queued health need.
pub fn medicines(state: &GameState, data: &GameData, map: &str) -> (v: Vec<Recovery>)
    ensures
        recoveries_of(v@) == medicines_at_hand(*state, *data, map@),
{
    let mut v: Vec<Recovery> = Vec::new();
    assert(recoveries_of(v@) =~= Seq::empty());
    let mons = match &state.saved.party.value {
        Some(mons) => mons,
        None => {
            return v;
        },
    };
    if mons.len() == 0 {
        return v;
    }
    match mons[0].status.value {
        Some(Status::Healthy) => {},
        _ => {
            return v;
        },
    }
    let hp = match valid_hp(&mons[0]) {
        Some(hp) => hp,
        None => {
            return v;
        },
    };
    let items = state.saved.pocket(Pocket::Items);
    let mut i: usize = 0;
    while i < 4
        invariant
            i <= 4,
            mons@.len() > 0,
            hp_of(mons@[0]) == Some(hp),
            match items {
                Some(items) => state.saved.holds(Pocket::Items) == Some(
                    crate::event::items_of(items@),
                ),
                None => state.saved.holds(Pocket::Items) is None,
            },
            recoveries_of(v@) == medicine_prices(*state, *data, map@, mons@, hp, i as nat),
        decreases 4 - i,
    {
        let (item, heal) = medicine(i);
        if is_at_hand(items, item) {
            match data.item(item) {
                Some(d) => {
                    let cur: u16 = if hp.0 as u32 + (heal as u32) < hp.1 as u32 {
                        hp.0 + heal
                    } else {
                        hp.1
                    };
                    let after = change_lead_hp(mons, (cur, hp.1));
                    if health(Some(&after), data).is_none() {
                        let cost: u128 = d.price as u128 * MONEY;
                        let ghost before_push = v@;
                        v.push(
                            Recovery {
                                map: map.to_owned(),
                                medicine: Some(item.to_owned()),
                                added_travel_atto: 0,
                                encounter_risk_atto: 0,
                                service_atto: MEDICINE,
                                item_cost_atto: cost,
                                score_atto: add_up(MEDICINE, cost),
                            },
                        );
                        assert(recoveries_of(v@) =~= recoveries_of(before_push).push(
                            v@[v@.len() - 1]@,
                        ));
                    }
                },
                None => {},
            }
        }
        i += 1;
    }
    v
}

// ---- The choice ----

/// A recovery that is preferred: cheaper, or as cheap and first by map.
pub open spec fn preferred(a: RecoveryV, b: RecoveryV) -> bool {
    a.score_atto < b.score_atto || (a.score_atto == b.score_atto && before(a.map, b.map))
}

/// The candidate that none is preferred to; the first of those.
pub open spec fn best_at(all: Seq<RecoveryV>, i: int) -> bool {
    &&& 0 <= i < all.len()
    &&& forall|j: int| 0 <= j < all.len() ==> !preferred(#[trigger] all[j], all[i])
    &&& forall|j: int| 0 <= j < i ==> preferred(all[i], #[trigger] all[j])
}

proof fn preferring(a: RecoveryV, b: RecoveryV, c: RecoveryV)
    ensures
        preferred(a, b) && preferred(b, c) ==> preferred(a, c),
        !preferred(a, a),
        !(preferred(a, b) && preferred(b, a)),
        !preferred(b, a) && !preferred(a, b) ==> a.score_atto == b.score_atto && a.map == b.map,
{
    crate::text::nothing_comes_before_itself(a.map);
    if before(a.map, b.map) && before(b.map, c.map) {
        order_is_transitive(a.map, b.map, c.map);
    }
    if a.map != b.map {
        different_texts_are_ordered(a.map, b.map);
    }
}

fn is_preferred(a: &Recovery, b: &Recovery) -> (r: bool)
    ensures
        r == preferred(a@, b@),
{
    a.score_atto < b.score_atto || (a.score_atto == b.score_atto && comes_before(
        a.map.as_str(),
        b.map.as_str(),
    ))
}

fn find_best(all: &Vec<Recovery>) -> (r: Option<usize>)
    ensures
        match r {
            Some(i) => best_at(recoveries_of(all@), i as int),
            None => all@.len() == 0,
        },
{
    if all.len() == 0 {
        return None;
    }
    let ghost v = recoveries_of(all@);
    let mut best: usize = 0;
    let mut i: usize = 1;
    proof {
        preferring(v[0], v[0], v[0]);
    }
    while i < all.len()
        invariant
            1 <= i <= all@.len(),
            best < i,
            v == recoveries_of(all@),
            forall|j: int| 0 <= j < i ==> !preferred(#[trigger] v[j], v[best as int]),
            forall|j: int| 0 <= j < best ==> preferred(v[best as int], #[trigger] v[j]),
        decreases all@.len() - i,
    {
        if is_preferred(&all[i], &all[best]) {
            proof {
                assert forall|j: int| 0 <= j < i implies preferred(
                    v[i as int],
                    #[trigger] v[j],
                ) by {
                    preferring(v[i as int], v[best as int], v[j]);
                    preferring(v[j], v[best as int], v[j]);
                    if !preferred(v[best as int], v[j]) {
                        preferring(v[best as int], v[j], v[j]);
                    }
                }
                assert forall|j: int| 0 <= j < i + 1 implies !preferred(
                    #[trigger] v[j],
                    v[i as int],
                ) by {
                    preferring(v[j], v[i as int], v[j]);
                }
            }
            best = i;
        }
        i += 1;
    }
    Some(best)
}

/// All candidates: the healers in the order of the ways to them, then the
/// medicines.
pub open spec fn candidates(
    world: World,
    state: GameState,
    data: GameData,
    from: Seq<char>,
    qs: Seq<PlaceV>,
    answers: Seq<WayAnswer>,
    urgent: bool,
    baseline: Option<u128>,
) -> Seq<RecoveryV> {
    healer_prices(world, qs, answers, urgent, baseline, answers.len()) + medicines_at_hand(
        state,
        data,
        from,
    )
}

pub open spec fn questions_seen(questions: Option<&Vec<WayQuestion>>) -> Option<Seq<PlaceV>> {
    match questions {
        Some(qs) => Some(questions_of(qs@)),
        None => None,
    }
}

pub open spec fn recovery_seen(r: Option<Recovery>) -> Option<RecoveryV> {
    match r {
        Some(r) => Some(r@),
        None => None,
    }
}

/// `r` is the cheapest of the ways to recover; there is none where no ways could
/// be asked for, or nothing came of them and no medicine is at hand.
pub open spec fn recovers(
    world: World,
    state: GameState,
    data: GameData,
    from: Seq<char>,
    questions: Option<Seq<PlaceV>>,
    answers: Seq<WayAnswer>,
    urgent: bool,
    baseline: Option<u128>,
    r: Option<RecoveryV>,
) -> bool {
    match questions {
        None => r is None,
        Some(qs) => {
            let all = candidates(world, state, data, from, qs, answers, urgent, baseline);
            match r {
                Some(best) => exists|i: int| best_at(all, i) && all[i] == best,
                None => all.len() == 0,
            }
        },
    }
}

/// The cheapest way to recover: the nearby healers by the ways to them, and the
/// medicine at hand. `questions` are those of [`ways_to_healers`] (none where
/// it gives none), `answers` what is known of each of those ways, and
/// `baseline` what the way to the interrupted destination costs from here (0
/// without a destination, `None` where there is no way).
pub fn recovery(
    world: &World,
    state: &GameState,
    data: &GameData,
    from: &PlayerPose,
    questions: Option<&Vec<WayQuestion>>,
    answers: &Vec<WayAnswer>,
    urgent: bool,
    baseline: Option<u128>,
) -> (r: Option<Recovery>)
    requires
        questions matches Some(qs) ==> qs@.len() == answers@.len(),
    ensures
        recovers(
            *world,
            *state,
            *data,
            from.map@,
            questions_seen(questions),
            answers@,
            urgent,
            baseline,
            recovery_seen(r),
        ),
{
    let qs = match questions {
        Some(qs) => qs,
        None => {
            return None;
        },
    };
    let mut all: Vec<Recovery> = Vec::new();
    assert(recoveries_of(all@) =~= Seq::empty());
    let mut i: usize = 0;
    while i < answers.len()
        invariant
            i <= answers@.len(),
            qs@.len() == answers@.len(),
            recoveries_of(all@) == healer_prices(
                *world,
                questions_of(qs@),
                answers@,
                urgent,
                baseline,
                i as nat,
            ),
        decreases answers@.len() - i,
    {
        let a = &answers[i];
        if a.found {
            match added_travel(a, urgent, baseline) {
                Some(travel) => {
                    let risk = price_risk(world, &a.legs, urgent);
                    let ghost before_push = all@;
                    all.push(
                        Recovery {
                            map: qs[i].map.clone(),
                            medicine: None,
                            added_travel_atto: travel,
                            encounter_risk_atto: risk,
                            service_atto: HEALER,
                            item_cost_atto: 0,
                            score_atto: add_up(add_up(travel, risk), HEALER),
                        },
                    );
                    assert(recoveries_of(all@) =~= recoveries_of(before_push).push(
                        all@[all@.len() - 1]@,
                    ));
                },
                None => {},
            }
        }
        i += 1;
    }
    let ghost healers = recoveries_of(all@);
    let mut cures = medicines(state, data, from.map.as_str());
    let ghost at_hand_now = recoveries_of(cures@);
    all.append(&mut cures);
    let ghost listed = candidates(
        *world,
        *state,
        *data,
        from.map@,
        questions_of(qs@),
        answers@,
        urgent,
        baseline,
    );
    assert(recoveries_of(all@) =~= healers + at_hand_now);
    assert(recoveries_of(all@) == listed);
    match find_best(&all) {
        Some(i) => {
            assert(best_at(listed, i as int));
            let best = all.swap_remove(i);
            assert(best@ == listed[i as int]);
            Some(best)
        },
        None => None,
    }
}

/// There is a recovery wherever there is a candidate, and none costs less than
/// the one chosen.
pub proof fn the_cheapest_recovery_is_chosen(all: Seq<RecoveryV>, i: int, j: int)
    requires
        best_at(all, i),
        0 <= j < all.len(),
    ensures
        all[i].score_atto <= all[j].score_atto,
{
    assert(!preferred(all[j], all[i]));
}

/// Medicine is only chosen where it leaves nothing to be healed.
pub proof fn medicine_resolves_the_need(
    state: GameState,
    data: GameData,
    map: Seq<char>,
    mons: Seq<PartyMon>,
    hp: (u16, u16),
    i: int,
)
    requires
        medicine_price(state, data, map, mons, hp, i) is Some,
    ensures
        health_need(Some(with_lead_hp(mons, healed_hp(hp, medicine_nth(i).1))), data) is None,
{
}

} // verus!
