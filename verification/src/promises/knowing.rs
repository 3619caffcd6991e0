//! Looking things up: by the name that was read, by the key, and on the map.

use vstd::prelude::*;

use crate::bag::reads_as;
use crate::event::{items_of, Pocket};
use crate::gamedata::{first_key, only_fit, row_of, sole_fit, Entry, GameData};
use crate::mart::{
    buying, buys_at, clerk_at, clerk_of, clerk_on, is_clerk, is_nearest_mart, sells,
};
use crate::observe::PlayerPose;
use crate::route::{nearest, place_of, tiles};
use crate::search::reaches;
use crate::state::{fact_of, first_fact, first_pocket, Knowledge, SavedKnowledge};
use crate::world::{MapData, PlaceV, World};

verus! {

/// A name that was read fits another of its length, letter by letter; a letter
/// that was not read fits any.
pub proof fn a_name_is_read_letter_by_letter(name: Seq<char>, read: Seq<char>, at: int)
    requires
        0 <= at < name.len(),
    ensures
        reads_as(name, name),
        reads_as(name, name.update(at, '?')),
        reads_as(name, read) ==> read.len() == name.len(),
        reads_as(name, read) ==> read[at] == '?' || read[at] == name[at],
{
}

/// What was read is the entry that it fits where it fits no other, and nothing
/// where it fits none or several.
pub proof fn a_reading_is_of_the_one_it_fits<T: Entry>(
    table: Seq<T>,
    read: Seq<char>,
    i: int,
    j: int,
)
    requires
        0 <= i < table.len(),
    ensures
        reads_as(table[i].named(), read) && (forall|k: int|
            0 <= k < table.len() && k != i ==> !reads_as((#[trigger] table[k]).named(), read))
            ==> sole_fit(table, read) == Some(i),
        0 <= j < table.len() && i != j && reads_as(table[i].named(), read) && reads_as(
            table[j].named(),
            read,
        ) ==> sole_fit(table, read) is None,
        (forall|k: int|
            0 <= k < table.len() ==> !reads_as((#[trigger] table[k]).named(), read)) ==> sole_fit(
            table,
            read,
        ) is None,
{
    if only_fit(table, read, i) {
        let k = choose|k: int| only_fit(table, read, k);
        assert(only_fit(table, read, k));
        if k != i {
            assert(!reads_as(table[i].named(), read));
        }
    }
    if exists|k: int| only_fit(table, read, k) {
        let k = choose|k: int| only_fit(table, read, k);
        assert(only_fit(table, read, k));
        if reads_as(table[i].named(), read) {
            assert(k == i);
        }
    }
}

/// A key finds the first entry that has it, and nothing where none has.
pub proof fn a_key_finds_its_entry<T: Entry>(table: Seq<T>, key: Seq<char>, i: int)
    requires
        0 <= i < table.len(),
    ensures
        table[i].keyed() == key && (forall|k: int|
            0 <= k < i ==> (#[trigger] table[k]).keyed() != key) ==> row_of(table, key) == Some(i),
        (forall|k: int| 0 <= k < table.len() ==> (#[trigger] table[k]).keyed() != key) ==> row_of(
            table,
            key,
        ) is None,
{
    if first_key(table, key, i) {
        let k = choose|k: int| first_key(table, key, k);
        assert(first_key(table, key, k));
        if k < i {
            assert(table[k].keyed() != key);
        }
        if i < k {
            assert(table[i].keyed() != key);
        }
    }
}

/// What is known under a name is the first entry of that name; under a name
/// without one nothing is known.
pub proof fn a_fact_is_found_by_its_name<T>(
    facts: Seq<(String, Knowledge<T>)>,
    name: Seq<char>,
    i: int,
)
    requires
        0 <= i < facts.len(),
    ensures
        facts[i].0@ == name && (forall|k: int| 0 <= k < i ==> (#[trigger] facts[k]).0@ != name)
            ==> fact_of(facts, name) == facts[i].1,
        (forall|k: int| 0 <= k < facts.len() ==> (#[trigger] facts[k]).0@ != name) ==> fact_of(
            facts,
            name,
        ).value is None,
{
    if first_fact(facts, name, i) {
        let k = choose|k: int| first_fact(facts, name, k);
        assert(first_fact(facts, name, k));
        if k < i {
            assert(facts[k].0@ != name);
        }
        if i < k {
            assert(facts[i].0@ != name);
        }
    }
}

/// A pocket holds what its first entry says; one without an entry, or whose entry
/// is not known, is not known.
pub proof fn a_pocket_is_found_by_its_name(s: SavedKnowledge, pocket: Pocket, i: int)
    requires
        0 <= i < s.pockets@.len(),
    ensures
        s.pockets@[i].0 == pocket && (forall|k: int|
            0 <= k < i ==> (#[trigger] s.pockets@[k]).0 != pocket) ==> ({
            let known = s.pockets@[i].1.value;
            &&& known is Some ==> s.holds(pocket) == Some(items_of(known->0@))
            &&& known is None ==> s.holds(pocket) is None
        }),
        (forall|k: int| 0 <= k < s.pockets@.len() ==> (#[trigger] s.pockets@[k]).0 != pocket)
            ==> s.holds(pocket) is None,
{
    let all = s.pockets@;
    if first_pocket(all, pocket, i) {
        let k = choose|k: int| first_pocket(all, pocket, k);
        assert(first_pocket(all, pocket, k));
        if k < i {
            assert(all[k].0 != pocket);
        }
        if i < k {
            assert(all[i].0 != pocket);
        }
    }
}

/// The clerk of a map is one of its clerks, and none of them has a lower number;
/// a map with a clerk on a tile has one.
pub proof fn the_clerk_is_the_first(map: MapData, j: int)
    requires
        is_clerk(map, j),
    ensures
        clerk_of(map) is Some,
        (clerk_of(map)->0).0 <= map.objects@[j].local_id,
        exists|i: int|
            0 <= i < map.objects@.len() && (#[trigger] map.objects@[i]).graphics is Some
                && map.objects@[i].graphics->0@ == "OBJ_EVENT_GFX_CLERK"@ && clerk_of(map) == Some(
                (map.objects@[i].local_id, map.objects@[i].x->0, map.objects@[i].y->0),
            ),
{
    some_clerk_is_first(map, j);
    let i = choose|i: int| clerk_at(map, i);
    assert(clerk_at(map, i));
    assert(map.objects@[i].graphics is Some);
}

proof fn some_clerk_is_first(map: MapData, j: int)
    requires
        is_clerk(map, j),
    ensures
        exists|i: int| clerk_at(map, i),
    decreases map.objects@[j].local_id, j,
{
    if !clerk_at(map, j) {
        let k = choose|k: int|
            #[trigger] is_clerk(map, k) && !(map.objects@[j].local_id < map.objects@[k].local_id || (
            map.objects@[j].local_id == map.objects@[k].local_id && j <= k));
        some_clerk_is_first(map, k);
    }
}

/// The nearest mart sells the item, and no tile from which its clerk, or that of
/// another mart with the item, is talked to is fewer moves away. Where one can be
/// walked to, one is found.
pub proof fn the_nearest_mart_sells_it(
    world: World,
    data: GameData,
    pose: PlayerPose,
    item: Seq<char>,
    gone: Set<(Seq<char>, u32)>,
    r: Option<(Seq<char>, u32)>,
    q: PlaceV,
    moves: nat,
    shop: int,
)
    requires
        is_nearest_mart(world, data, pose, item, gone, r),
    ensures
        r is Some ==> exists|i: int|
            0 <= i < data.marts@.len() && (#[trigger] data.marts@[i]).map@ == (r->0).0 && exists|
                k: int,
            |
                0 <= k < data.marts@[i].items@.len() && (#[trigger] data.marts@[i].items@[k])@
                    == item,
        r is Some && buys_at(world, data, item, shop, q) && reaches(
            place_of(pose),
            tiles(world, gone, pose.map@),
            moves,
            q,
        ) ==> exists|p: PlaceV, n: nat|
            p.map == (r->0).0 && n <= moves && #[trigger] reaches(
                place_of(pose),
                tiles(world, gone, pose.map@),
                n,
                p,
            ),
        r is Some ==> clerk_on(world, (r->0).0) is Some && (r->0).1 == (clerk_on(
            world,
            (r->0).0,
        )->0).0,
{
    if r is Some {
        let start = place_of(pose);
        let next = tiles(world, gone, pose.map@);
        let goal = buying(world, data, item);
        let (p, n) = choose|p: PlaceV, n: nat|
            p.map == (r->0).0 && #[trigger] nearest(start, next, goal, p, n);
        assert(goal(p));
        let i = choose|i: int| buys_at(world, data, item, i, p);
        assert(buys_at(world, data, item, i, p));
        assert(data.marts@[i].map@ == (r->0).0);
        assert(sells(data.marts@[i], item));
        if buys_at(world, data, item, shop, q) && reaches(start, next, moves, q) {
            assert(goal(q));
            assert(n <= moves);
            assert(reaches(start, next, n, p));
        }
    }
}

} // verus!
