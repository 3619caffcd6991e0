//! The healers nearby, and the tiles they are talked to from.

use vstd::prelude::*;

use crate::nav::talk_spots;
use crate::recovery::{
    comes_first, connected_maps, healer_near, healer_spot, heals, hops, hops_away, hops_from,
    object_at, object_spot, places_on, priced_maps, warp_maps, ways_wanted,
};
use crate::route::whole;
use crate::search::{leads, reaches, way, Hop};
use crate::world::{MapData, PlaceV, World};

verus! {

/// One map leads to another by a warp, or by a connection.
pub open spec fn one_hop(world: World, from: Seq<char>, to: Seq<char>) -> bool {
    &&& world.map_of(from) is Some
    &&& ({
        let map = world.map_of(from)->0;
        ||| exists|i: int|
            0 <= i < map.warps@.len() && world.named((#[trigger] map.warps@[i]).dest_map@) == Some(
                to,
            )
        ||| exists|i: int|
            0 <= i < map.connections@.len() && world.named((#[trigger] map.connections@[i]).map@)
                == Some(to)
    })
}

proof fn warps_lead_out(world: World, map: MapData, n: nat, to: Seq<char>)
    requires
        n <= map.warps@.len(),
    ensures
        (exists|i: int| 0 <= i < n && world.named((#[trigger] map.warps@[i]).dest_map@) == Some(to))
            <==> warp_maps(world, map, n).contains((whole(to), None)),
        forall|k: int|
            0 <= k < warp_maps(world, map, n).len() ==> (#[trigger] warp_maps(world, map, n)[k]).0
                == whole(warp_maps(world, map, n)[k].0.map) && warp_maps(world, map, n)[k].1
                is None,
    decreases n,
{
    let all = warp_maps(world, map, n);
    if n > 0 {
        let rest = warp_maps(world, map, (n - 1) as nat);
        warps_lead_out(world, map, (n - 1) as nat, to);
        let none: Option<Hop> = None;
        let x = (whole(to), none);
        let last = world.named(map.warps@[n - 1].dest_map@);
        if rest.contains(x) {
            let i = choose|i: int| 0 <= i < rest.len() && rest[i] == x;
            assert(all[i] == x);
        }
        if last == Some(to) {
            assert(all[rest.len() as int] == x);
        }
        if all.contains(x) && !rest.contains(x) {
            let i = choose|i: int| 0 <= i < all.len() && all[i] == x;
            if i < rest.len() {
                assert(rest[i] == x);
            }
            assert(whole(last->0).map == whole(to).map);
        }
    }
}

proof fn connections_lead_out(world: World, map: MapData, n: nat, to: Seq<char>)
    requires
        n <= map.connections@.len(),
    ensures
        (exists|i: int|
            0 <= i < n && world.named((#[trigger] map.connections@[i]).map@) == Some(to))
            <==> connected_maps(world, map, n).contains((whole(to), None)),
        forall|k: int|
            0 <= k < connected_maps(world, map, n).len() ==> (#[trigger] connected_maps(
                world,
                map,
                n,
            )[k]).0 == whole(connected_maps(world, map, n)[k].0.map) && connected_maps(
                world,
                map,
                n,
            )[k].1 is None,
    decreases n,
{
    let all = connected_maps(world, map, n);
    if n > 0 {
        let rest = connected_maps(world, map, (n - 1) as nat);
        connections_lead_out(world, map, (n - 1) as nat, to);
        let none: Option<Hop> = None;
        let x = (whole(to), none);
        let last = world.named(map.connections@[n - 1].map@);
        if rest.contains(x) {
            let i = choose|i: int| 0 <= i < rest.len() && rest[i] == x;
            assert(all[i] == x);
        }
        if last == Some(to) {
            assert(all[rest.len() as int] == x);
        }
        if all.contains(x) && !rest.contains(x) {
            let i = choose|i: int| 0 <= i < all.len() && all[i] == x;
            if i < rest.len() {
                assert(rest[i] == x);
            }
            assert(whole(last->0).map == whole(to).map);
        }
    }
}

/// The hops from a map are its warps and its connections, and no others.
pub proof fn hops_are_warps_and_connections(world: World, from: Seq<char>, to: Seq<char>)
    ensures
        leads(hops(world), whole(from), whole(to)) <==> one_hop(world, from, to),
{
    let next = hops_from(world, whole(from));
    assert(hops(world)(whole(from)) == next);
    if let Some(map) = world.map_of(from) {
        let w = warp_maps(world, map, map.warps@.len());
        let c = connected_maps(world, map, map.connections@.len());
        warps_lead_out(world, map, map.warps@.len(), to);
        connections_lead_out(world, map, map.connections@.len(), to);
        let none: Option<Hop> = None;
        let x = (whole(to), none);
        if w.contains(x) {
            let i = choose|i: int| 0 <= i < w.len() && w[i] == x;
            assert(next[i].0 == whole(to));
        }
        if c.contains(x) {
            let i = choose|i: int| 0 <= i < c.len() && c[i] == x;
            assert(next[w.len() + i].0 == whole(to));
        }
        if leads(hops(world), whole(from), whole(to)) {
            let i = choose|i: int| 0 <= i < next.len() && (#[trigger] next[i]).0 == whole(to);
            if i < w.len() {
                assert(w[i] == x);
            } else {
                assert(c[i - w.len()] == x);
            }
        }
    }
}

/// The healer of the map one is on is near, at no distance; one a hop away is
/// near, at one; one that is up to five hops away by the shortest way is; and none
/// that is more than five hops away is.
pub proof fn healers_near_by(world: World, from: Seq<char>, to: Seq<char>, n: nat)
    ensures
        heals(world, from) <==> healer_near(world, from, (from, 0)),
        to != from && heals(world, to) && one_hop(world, from, to) ==> healer_near(
            world,
            from,
            (to, 1),
        ),
        n > 5 ==> !healer_near(world, from, (to, n)),
        n <= 5 && heals(world, to) && hops_away(world, from, to, n) ==> healer_near(
            world,
            from,
            (to, n),
        ),
        healer_near(world, from, (to, n)) ==> world.map_of(to) is Some && world.map_of(
            to,
        )->0.healer is Some,
{
    let here = seq![whole(from)];
    assert(way(whole(from), hops(world), here, whole(from)));
    assert(reaches(whole(from), hops(world), 0, whole(from)));
    hops_are_warps_and_connections(world, from, to);
    if one_hop(world, from, to) {
        let path = seq![whole(from), whole(to)];
        assert forall|i: int| 0 < i < path.len() implies leads(
            hops(world),
            path[i - 1],
            #[trigger] path[i],
        ) by {
            assert(i == 1);
        }
        assert(way(whole(from), hops(world), path, whole(to)));
        assert(reaches(whole(from), hops(world), 1, whole(to)));
    }
    if to != from {
        assert(!reaches(whole(from), hops(world), 0, whole(to))) by {
            if reaches(whole(from), hops(world), 0, whole(to)) {
                let path = choose|path: Seq<PlaceV>|
                    path.len() == 1 && #[trigger] way(
                        whole(from),
                        hops(world),
                        path,
                        whole(to),
                    );
                assert(whole(from).map == whole(to).map);
            }
        }
    }
}

/// Of two healers the one with fewer hops comes first.
pub proof fn the_nearer_healer_comes_first(a: (Seq<char>, nat), b: (Seq<char>, nat))
    ensures
        a.1 < b.1 ==> comes_first(a, b) && !comes_first(b, a),
        a.1 != b.1 ==> comes_first(a, b) || comes_first(b, a),
{
}

/// A healer is where the object of its number stands.
pub proof fn a_healer_stands_where_it_stands(world: World, name: Seq<char>, i: int)
    requires
        world.map_of(name) is Some,
        world.map_of(name)->0.healer is Some,
        object_at(world.map_of(name)->0, world.map_of(name)->0.healer->0, i),
    ensures
        ({
            let o = world.map_of(name)->0.objects@[i];
            &&& o.x is Some && o.y is Some ==> healer_spot(world, name) == Some((o.x->0, o.y->0))
            &&& o.x is None || o.y is None ==> healer_spot(world, name) is None
        }),
{
    let map = world.map_of(name)->0;
    let id = map.healer->0;
    let k = choose|k: int| object_at(map, id, k);
    assert(object_at(map, id, k));
    if k < i {
        assert(map.objects@[k].local_id != id);
    }
    if i < k {
        assert(map.objects@[i].local_id != id);
    }
    assert(object_spot(map, id) == healer_spot(world, name));
}

/// The ways that are asked for go to every tile that one of the healers is talked
/// to from, and to no other; where one of them stands nowhere, none are asked
/// for. No more than eight healers are asked about.
pub proof fn ways_go_to_where_healers_are_talked_to(
    world: World,
    near: Seq<(Seq<char>, nat)>,
    n: nat,
    q: PlaceV,
)
    requires
        n <= near.len(),
    ensures
        ways_wanted(world, near, n) is None <==> exists|k: int|
            0 <= k < n && healer_spot(world, (#[trigger] near[k]).0) is None,
        ways_wanted(world, near, n) is Some ==> (ways_wanted(world, near, n)->0.contains(q)
            <==> exists|k: int| 0 <= k < n && is_way_to(world, #[trigger] near[k], q)),
        priced_maps(near) <= 8,
        priced_maps(near) <= near.len(),
        priced_maps(near) < 8 ==> priced_maps(near) == near.len(),
    decreases n,
{
    if n > 0 {
        ways_go_to_where_healers_are_talked_to(world, near, (n - 1) as nat, q);
        let last = near[n - 1];
        let rest = ways_wanted(world, near, (n - 1) as nat);
        if rest is Some && healer_spot(world, last.0) is Some {
            let s = healer_spot(world, last.0)->0;
            let spots = talk_spots(world.map_of(last.0)->0, s.0 as int, s.1 as int, 4);
            let more = places_on(last.0, spots);
            let all = ways_wanted(world, near, n)->0;
            assert(all == rest->0 + more);
            if rest->0.contains(q) {
                let i = choose|i: int| 0 <= i < rest->0.len() && rest->0[i] == q;
                assert(all[i] == q);
            }
            if is_way_to(world, last, q) {
                let i = choose|i: int|
                    0 <= i < spots.len() && (#[trigger] spots[i]).0 == (q.x, q.y);
                assert(more[i] == q);
                assert(all[rest->0.len() + i] == q);
            }
            if all.contains(q) && !rest->0.contains(q) {
                let i = choose|i: int| 0 <= i < all.len() && all[i] == q;
                if i < rest->0.len() {
                    assert(rest->0[i] == q);
                }
                let j = i - rest->0.len();
                assert(more[j] == q);
                assert(spots[j].0 == (q.x, q.y));
                assert(is_way_to(world, last, q));
            }
        }
    }
}

/// A tile on the healer's map that the healer is talked to from.
pub open spec fn is_way_to(world: World, near: (Seq<char>, nat), q: PlaceV) -> bool {
    let s = healer_spot(world, near.0);
    &&& s is Some
    &&& q.map == near.0
    &&& ({
        let spots = talk_spots(
            world.map_of(near.0)->0,
            (s->0).0 as int,
            (s->0).1 as int,
            4,
        );
        exists|i: int| 0 <= i < spots.len() && (#[trigger] spots[i]).0 == (q.x, q.y)
    })
}

} // verus!
