//! The nearest mart that sells an item, and the clerk to talk to.

use vstd::prelude::*;

use crate::gamedata::{GameData, Mart};
use crate::nav::{goal_tiles, goals_of, world_fits, Destination, DestinationV};
use crate::observe::PlayerPose;
use crate::route::{
    among, goal_tile, gone_set, names_of, nearest, nearest_reachable, place_of, tiles, Goals, Gone,
};
use crate::text::{before, same};
use crate::world::{MapData, PlaceV, World};

verus! {

/// Object `i` is a clerk whose tile is known.
pub open spec fn is_clerk(map: MapData, i: int) -> bool {
    &&& 0 <= i < map.objects@.len()
    &&& map.objects@[i].graphics is Some
    &&& map.objects@[i].graphics->0@ == "OBJ_EVENT_GFX_CLERK"@
    &&& map.objects@[i].x is Some
    &&& map.objects@[i].y is Some
}

/// The clerk with the least number; of those the first.
pub open spec fn clerk_at(map: MapData, i: int) -> bool {
    &&& is_clerk(map, i)
    &&& forall|j: int| #[trigger]
        is_clerk(map, j) ==> map.objects@[i].local_id < map.objects@[j].local_id || (
        map.objects@[i].local_id == map.objects@[j].local_id && i <= j)
}

pub open spec fn clerk_of(map: MapData) -> Option<(u32, i32, i32)> {
    if exists|i: int| clerk_at(map, i) {
        let o = map.objects@[choose|i: int| clerk_at(map, i)];
        Some((o.local_id, o.x->0, o.y->0))
    } else {
        None
    }
}

/// The clerk of the map of a name.
pub open spec fn clerk_on(world: World, name: Seq<char>) -> Option<(u32, i32, i32)> {
    match world.map_of(name) {
        Some(map) => clerk_of(map),
        None => None,
    }
}

fn find_clerk(map: &MapData) -> (r: Option<(u32, i32, i32)>)
    ensures
        r == clerk_of(*map),
{
    let mut best: Option<usize> = None;
    let mut i: usize = 0;
    while i < map.objects.len()
        invariant
            i <= map.objects@.len(),
            match best {
                Some(b) => b < i && is_clerk(*map, b as int) && forall|j: int|
                    j < i && #[trigger] is_clerk(*map, j) ==> map.objects@[b as int].local_id
                        < map.objects@[j].local_id || (map.objects@[b as int].local_id
                        == map.objects@[j].local_id && b <= j),
                None => forall|j: int| j < i ==> !#[trigger] is_clerk(*map, j),
            },
        decreases map.objects@.len() - i,
    {
        let o = &map.objects[i];
        let clerk = match &o.graphics {
            Some(g) => same(g.as_str(), "OBJ_EVENT_GFX_CLERK"),
            None => false,
        };
        if clerk && o.x.is_some() && o.y.is_some() {
            assert(is_clerk(*map, i as int));
            let better = match best {
                Some(b) => o.local_id < map.objects[b].local_id,
                None => true,
            };
            if better {
                best = Some(i);
            }
        }
        i += 1;
    }
    match best {
        Some(b) => {
            proof {
                assert(clerk_at(*map, b as int));
                let c = choose|c: int| clerk_at(*map, c);
                assert(is_clerk(*map, c) && is_clerk(*map, b as int));
                assert(c == b);
            }
            let o = &map.objects[b];
            match (o.x, o.y) {
                (Some(x), Some(y)) => Some((o.local_id, x, y)),
                _ => None,
            }
        },
        None => {
            assert forall|c: int| !clerk_at(*map, c) by {
                if clerk_at(*map, c) {
                    assert(is_clerk(*map, c));
                }
            }
            None
        },
    }
}

pub open spec fn sells(mart: Mart, item: Seq<char>) -> bool {
    exists|i: int| 0 <= i < mart.items@.len() && (#[trigger] mart.items@[i])@ == item
}

fn has_item(mart: &Mart, item: &str) -> (r: bool)
    ensures
        r == sells(*mart, item@),
{
    let mut i: usize = 0;
    while i < mart.items.len()
        invariant
            i <= mart.items@.len(),
            forall|j: int| 0 <= j < i ==> (#[trigger] mart.items@[j])@ != item@,
        decreases mart.items@.len() - i,
    {
        if same(mart.items[i].as_str(), item) {
            return true;
        }
        i += 1;
    }
    false
}

/// To stand where the clerk of a mart is talked to.
pub open spec fn counter(name: Seq<char>, clerk: (u32, i32, i32)) -> DestinationV {
    DestinationV::Facing { map: name, x: clerk.1, y: clerk.2 }
}

/// Mart `i` sells the item, has a clerk, and `p` is where the clerk is talked to.
pub open spec fn buys_at(world: World, data: GameData, item: Seq<char>, i: int, p: PlaceV)
    -> bool {
    &&& 0 <= i < data.marts@.len()
    &&& sells(data.marts@[i], item)
    &&& data.marts@[i].map@ == p.map
    &&& clerk_on(world, p.map) is Some
    &&& goals_of(world, counter(p.map, clerk_on(world, p.map)->0)).contains((p.x, p.y))
}

/// A tile from which the item can be bought.
pub open spec fn buying(world: World, data: GameData, item: Seq<char>) -> spec_fn(PlaceV) -> bool {
    |p: PlaceV| exists|i: int| buys_at(world, data, item, i, p)
}

/// The tiles around the clerks are within the machine's numbers.
pub open spec fn clerks_fit(world: World) -> bool {
    forall|name: Seq<char>|
        (#[trigger] clerk_on(world, name)) is Some ==> counter(
            name,
            clerk_on(world, name)->0,
        ).fits()
}

/// Tile `p` is one of the goals collected from mart `i`.
proof fn collected_one(
    world: World,
    data: GameData,
    item: Seq<char>,
    before_goals: Seq<(String, Vec<crate::world::Spot>)>,
    after: Seq<(String, Vec<crate::world::Spot>)>,
    n: int,
)
    requires
        0 <= n < data.marts@.len(),
        forall|p: PlaceV|
            #![trigger among(before_goals)(p)]
            among(before_goals)(p) <==> exists|i: int| i < n && buys_at(world, data, item, i, p),
        ({
            let name = data.marts@[n].map@;
            if sells(data.marts@[n], item) && clerk_on(world, name) is Some {
                &&& after.len() == before_goals.len() + 1
                &&& after.drop_last() == before_goals
                &&& after.last().0@ == name
                &&& after.last().1@.to_set() == goals_of(
                    world,
                    counter(name, clerk_on(world, name)->0),
                )
            } else {
                after == before_goals
            }
        }),
    ensures
        forall|p: PlaceV|
            #![trigger among(after)(p)]
            among(after)(p) <==> exists|i: int| i < n + 1 && buys_at(world, data, item, i, p),
{
    assert forall|p: PlaceV|
        #![trigger among(after)(p)]
        among(after)(p) <==> exists|i: int| i < n + 1 && buys_at(world, data, item, i, p) by {
        let name = data.marts@[n].map@;
        let more = sells(data.marts@[n], item) && clerk_on(world, name) is Some;
        if among(after)(p) {
            let k = choose|k: int| goal_tile(after, k, p);
            if k < before_goals.len() {
                assert(before_goals[k] == after[k]);
                assert(goal_tile(before_goals, k, p));
                assert(among(before_goals)(p));
            } else {
                assert(after.last().1@.to_set().contains((p.x, p.y)));
                assert(buys_at(world, data, item, n, p));
            }
        }
        if exists|i: int| i < n + 1 && buys_at(world, data, item, i, p) {
            let i = choose|i: int| i < n + 1 && buys_at(world, data, item, i, p);
            if i < n {
                assert(among(before_goals)(p));
                let k = choose|k: int| goal_tile(before_goals, k, p);
                assert(before_goals[k] == after[k]);
                assert(goal_tile(after, k, p));
            } else {
                assert(more);
                assert(after.last().1@.to_set().contains((p.x, p.y)));
                assert(goal_tile(after, after.len() - 1, p));
            }
        }
    }
}

/// The mart, and the number of its clerk, that the fewest moves lead to; of
/// several equally near the first by name. None where none can be walked to.
pub open spec fn is_nearest_mart(
    world: World,
    data: GameData,
    pose: PlayerPose,
    item: Seq<char>,
    gone: Set<(Seq<char>, u32)>,
    r: Option<(Seq<char>, u32)>,
) -> bool {
    let start = place_of(pose);
    let next = tiles(world, gone, pose.map@);
    let goal = buying(world, data, item);
    match r {
        Some(m) => {
            &&& exists|p: PlaceV, n: nat|
                p.map == m.0 && #[trigger] nearest(start, next, goal, p, n)
            &&& forall|p: PlaceV, n: nat| #[trigger]
                nearest(start, next, goal, p, n) ==> p.map == m.0 || before(m.0, p.map)
            &&& clerk_on(world, m.0) is Some
            &&& (clerk_on(world, m.0)->0).0 == m.1
        },
        None => forall|p: PlaceV, n: nat| !#[trigger] nearest(start, next, goal, p, n),
    }
}

pub open spec fn mart_seen(r: Option<(String, u32)>) -> Option<(Seq<char>, u32)> {
    match r {
        Some(m) => Some((m.0@, m.1)),
        None => None,
    }
}

/// The nearest mart selling `item` (fewest moves; of several equally near the
/// first by name), and the number of the clerk to talk to. None where no such
/// mart can be walked to.
pub fn nearest_mart(
    world: &World,
    data: &GameData,
    pose: &PlayerPose,
    item: &str,
    gone: &Gone,
) -> (r: Option<(String, u32)>)
    requires
        world_fits(*world),
        clerks_fit(*world),
    ensures
        is_nearest_mart(*world, *data, *pose, item@, gone_set(gone@), mart_seen(r)),
{
    let mut goals: Goals = Vec::new();
    let mut i: usize = 0;
    assert forall|p: PlaceV| #![trigger among(goals@)(p)] !among(goals@)(p) by {
        if among(goals@)(p) {
            let k = choose|k: int| goal_tile(goals@, k, p);
        }
    }
    while i < data.marts.len()
        invariant
            i <= data.marts@.len(),
            world_fits(*world),
            clerks_fit(*world),
            forall|p: PlaceV|
                #![trigger among(goals@)(p)]
                among(goals@)(p) <==> exists|k: int|
                    k < i && buys_at(*world, *data, item@, k, p),
        decreases data.marts@.len() - i,
    {
        let ghost before_goals = goals@;
        let mart = &data.marts[i];
        let clerk = match world.map(mart.map.as_str()) {
            Some(map) => find_clerk(map),
            None => None,
        };
        assert(clerk == clerk_on(*world, mart.map@));
        if has_item(mart, item) {
            match clerk {
                Some((_, x, y)) => {
                    let facing = Destination::Facing { map: mart.map.clone(), x, y };
                    let spots = goal_tiles(world, &facing);
                    goals.push((mart.map.clone(), spots));
                    assert(goals@.drop_last() =~= before_goals);
                },
                None => {},
            }
        }
        proof {
            collected_one(*world, *data, item@, before_goals, goals@, i as int);
        }
        i += 1;
    }
    let ghost start = place_of(*pose);
    let ghost next = tiles(*world, gone_set(gone@), pose.map@);
    let ghost goal = buying(*world, *data, item@);
    proof {
        assert forall|p: PlaceV| #[trigger] among(goals@)(p) == goal(p) by {
            if goal(p) {
                let k = choose|k: int| buys_at(*world, *data, item@, k, p);
                assert(k < i);
            }
            if among(goals@)(p) {
                let k = choose|k: int| k < i && buys_at(*world, *data, item@, k, p);
                assert(buys_at(*world, *data, item@, k, p));
            }
        }
        assert(among(goals@) =~= goal);
    }
    let names = nearest_reachable(world, pose, &goals, gone);
    let ghost listed = names_of(names@);
    if names.len() == 0 {
        assert forall|p: PlaceV, n: nat| !#[trigger] nearest(start, next, goal, p, n) by {
            if nearest(start, next, goal, p, n) {
                assert(listed.contains(p.map));
            }
        }
        return None;
    }
    let map = names[0].clone();
    proof {
        assert(listed[0] == map@);
        assert(listed.contains(map@));
        let (p, n) = choose|p: PlaceV, n: nat|
            p.map == map@ && #[trigger] nearest(start, next, goal, p, n);
        let k = choose|k: int| buys_at(*world, *data, item@, k, p);
        assert(buys_at(*world, *data, item@, k, p));
        assert forall|q: PlaceV, m: nat| #[trigger] nearest(start, next, goal, q, m) implies q.map
            == map@ || before(map@, q.map) by {
            assert(listed.contains(q.map));
            let j = choose|j: int| 0 <= j < listed.len() && listed[j] == q.map;
            if j > 0 {
                assert(before(listed[0], listed[j]));
            }
        }
    }
    let id = match world.map(map.as_str()) {
        Some(m) => match find_clerk(m) {
            Some((id, _, _)) => id,
            None => 0,
        },
        None => 0,
    };
    Some((map, id))
}

} // verus!
