//! Recovering: what each way costs, and that the cheapest is taken.

use vstd::prelude::*;

use crate::event::{GameEventV, Pocket, Status};
use crate::gamedata::GameData;
use crate::recovery::{
    best_at, candidates, density, healer_price, healer_prices, leg_risk, map_counts,
    medicine_price, medicine_prices, medicines_at_hand, preferred, recovers, risk_of, row_counts,
    size, RecoveryV, WalkLeg, WayAnswer,
};
use crate::scheduler::{health_need, hp_of, Need, SchedulerV};
use crate::state::{GameState, PartyMon};
use crate::text::before;
use crate::world::{MapData, PlaceV, World};

verus! {

/// A second, in the unit of the prices.
pub open spec fn second() -> int {
    1_000_000_000_000_000_000
}

/// The prices are within the machine's numbers.
pub open spec fn fits(n: int) -> bool {
    n < u128::MAX
}

/// A way to a healer costs its added travel, the risk on its legs, and twelve
/// seconds: all of the way where the need is urgent or there is no way on, else
/// what the detour adds to the way on, and never less than nothing. A way that
/// is not found, or from which there is no way back to the plan, is none.
pub proof fn what_a_healer_costs(
    world: World,
    map: Seq<char>,
    a: WayAnswer,
    urgent: bool,
    baseline: Option<u128>,
    risk: int,
)
    requires
        risk == risk_of(world, a.legs@, urgent, a.legs@.len()),
        fits(a.cost_atto + risk + 12 * second() + (match a.back_atto {
            Some(b) => b as int,
            None => 0,
        })),
    ensures
        ({
            let p = healer_price(world, map, a, urgent, baseline);
            let direct = urgent || baseline is None;
            let travel = if direct {
                a.cost_atto as int
            } else if a.cost_atto + a.back_atto->0 > baseline->0 {
                a.cost_atto + a.back_atto->0 - baseline->0
            } else {
                0
            };
            &&& p is Some <==> a.found && (direct || a.back_atto is Some)
            &&& p is Some ==> {
                &&& p->0.map == map
                &&& p->0.medicine is None
                &&& p->0.added_travel_atto == travel
                &&& p->0.encounter_risk_atto == risk
                &&& p->0.score_atto == travel + risk + 12 * second()
            }
        }),
{
}

/// Medicine costs fifteen seconds and a second for each ten of its price.
pub proof fn what_medicine_costs(
    state: GameState,
    data: GameData,
    map: Seq<char>,
    mons: Seq<PartyMon>,
    hp: (u16, u16),
    i: int,
)
    requires
        medicine_price(state, data, map, mons, hp, i) is Some,
    ensures
        ({
            let p = medicine_price(state, data, map, mons, hp, i)->0;
            &&& p.map == map
            &&& p.medicine is Some
            &&& data.item_of(p.medicine->0) is Some
            &&& 10 * (p.score_atto - 15 * second()) == data.item_of(p.medicine->0)->0.price
                * second()
            &&& exists|k: int|
                0 <= k < state.saved.holds(Pocket::Items)->0.len() && (
                #[trigger] state.saved.holds(Pocket::Items)->0[k]).0 == p.medicine->0
                    && state.saved.holds(Pocket::Items)->0[k].1 > 0
        }),
{
}

/// Potions, weakest first, and how much each heals.
pub open spec fn potion(i: int) -> (Seq<char>, int) {
    if i == 0 {
        ("ITEM_POTION"@, 20)
    } else if i == 1 {
        ("ITEM_SUPER_POTION"@, 50)
    } else if i == 2 {
        ("ITEM_HYPER_POTION"@, 200)
    } else {
        ("ITEM_MAX_POTION"@, 65535)
    }
}

/// The party with its lead healed by so much, up to its HP.
pub open spec fn healed_by(mons: Seq<PartyMon>, after: Seq<PartyMon>, heal: int) -> bool {
    &&& after.len() == mons.len()
    &&& forall|i: int| 1 <= i < mons.len() ==> #[trigger] after[i] == mons[i]
    &&& after[0].status == mons[0].status && after[0].moves == mons[0].moves && after[0].level
        == mons[0].level && after[0].species == mons[0].species
    &&& after[0].hp.value is Some && mons[0].hp.value is Some
    &&& (after[0].hp.value->0).1 == (mons[0].hp.value->0).1
    &&& (after[0].hp.value->0).0 == if (mons[0].hp.value->0).0 + heal < (mons[0].hp.value->0).1 {
        (mons[0].hp.value->0).0 + heal
    } else {
        (mons[0].hp.value->0).1 as int
    }
}

/// A potion at hand is a candidate wherever it is held and priced, and the party
/// with the lead healed by it (by 20, 50, 200 HP, or in full) needs nothing
/// more.
pub proof fn a_potion_that_helps_is_a_candidate(
    state: GameState,
    data: GameData,
    map: Seq<char>,
    i: int,
    after: Seq<PartyMon>,
)
    requires
        0 <= i < 4,
        state.saved.party.value is Some,
        state.saved.party.value->0@.len() > 0,
        state.saved.party.value->0@[0].status.value == Some(Status::Healthy),
        hp_of(state.saved.party.value->0@[0]) is Some,
        healed_by(state.saved.party.value->0@, after, potion(i).1),
        after[0].details == state.saved.party.value->0@[0].details,
        after[0].hp.source == state.saved.party.value->0@[0].hp.source,
        after[0].hp.frame == state.saved.party.value->0@[0].hp.frame,
    ensures
        ({
            let all = medicines_at_hand(state, data, map);
            let held = state.saved.holds(Pocket::Items) is Some && exists|k: int|
                0 <= k < state.saved.holds(Pocket::Items)->0.len() && (
                #[trigger] state.saved.holds(Pocket::Items)->0[k]).0 == potion(i).0
                    && state.saved.holds(Pocket::Items)->0[k].1 > 0;
            held && data.item_of(potion(i).0) is Some && health_need(Some(after), data) is None
                ==> exists|k: int| 0 <= k < all.len() && (#[trigger] all[k]).medicine == Some(
                potion(i).0,
            )
        }),
{
    let mons = state.saved.party.value->0@;
    let hp = hp_of(mons[0])->0;
    let m = crate::recovery::medicine_nth(i);
    let healed = crate::recovery::with_lead_hp(mons, crate::recovery::healed_hp(hp, m.1));
    assert(healed =~= after) by {
        assert(healed[0].hp == after[0].hp);
    }
    prices_are_listed(state, data, map, mons, hp, 4, i);
    let all = medicines_at_hand(state, data, map);
    if let Some(p) = medicine_price(state, data, map, mons, hp, i) {
        let k = choose|k: int| 0 <= k < all.len() && (#[trigger] all[k]) == p;
        assert(all[k].medicine == Some(potion(i).0));
    }
}

proof fn prices_are_listed(
    state: GameState,
    data: GameData,
    map: Seq<char>,
    mons: Seq<PartyMon>,
    hp: (u16, u16),
    n: nat,
    i: int,
)
    requires
        0 <= i < n,
    ensures
        medicine_price(state, data, map, mons, hp, i) matches Some(p) ==> exists|k: int|
            0 <= k < medicine_prices(state, data, map, mons, hp, n).len() && (
            #[trigger] medicine_prices(state, data, map, mons, hp, n)[k]) == p,
    decreases n,
{
    let all = medicine_prices(state, data, map, mons, hp, n);
    let rest = medicine_prices(state, data, map, mons, hp, (n - 1) as nat);
    if let Some(p) = medicine_price(state, data, map, mons, hp, i) {
        if i == n - 1 {
            assert(all[all.len() - 1] == p);
        } else {
            prices_are_listed(state, data, map, mons, hp, (n - 1) as nat, i);
            let k = choose|k: int| 0 <= k < rest.len() && (#[trigger] rest[k]) == p;
            assert(all[k] == p);
        }
    }
}

proof fn healers_are_listed(
    world: World,
    qs: Seq<PlaceV>,
    answers: Seq<WayAnswer>,
    urgent: bool,
    baseline: Option<u128>,
    n: nat,
    i: int,
)
    requires
        0 <= i < n,
    ensures
        healer_price(world, qs[i].map, answers[i], urgent, baseline) matches Some(p) ==> exists|
            k: int,
        |
            0 <= k < healer_prices(world, qs, answers, urgent, baseline, n).len() && (
            #[trigger] healer_prices(world, qs, answers, urgent, baseline, n)[k]) == p,
    decreases n,
{
    let all = healer_prices(world, qs, answers, urgent, baseline, n);
    let rest = healer_prices(world, qs, answers, urgent, baseline, (n - 1) as nat);
    if let Some(p) = healer_price(world, qs[i].map, answers[i], urgent, baseline) {
        if i == n - 1 {
            assert(all[all.len() - 1] == p);
        } else {
            healers_are_listed(world, qs, answers, urgent, baseline, (n - 1) as nat, i);
            let k = choose|k: int| 0 <= k < rest.len() && (#[trigger] rest[k]) == p;
            assert(all[k] == p);
        }
    }
}

/// Whatever is chosen, no way to a healer that was found is cheaper, and none of
/// the medicines at hand is.
pub proof fn nothing_cheaper_is_passed_over(
    world: World,
    state: GameState,
    data: GameData,
    from: Seq<char>,
    qs: Seq<PlaceV>,
    answers: Seq<WayAnswer>,
    urgent: bool,
    baseline: Option<u128>,
    best: int,
    way: int,
    cure: int,
)
    requires
        best_at(candidates(world, state, data, from, qs, answers, urgent, baseline), best),
    ensures
        ({
            let chosen = candidates(world, state, data, from, qs, answers, urgent, baseline)[best];
            &&& 0 <= way < answers.len() ==> (healer_price(
                world,
                qs[way].map,
                answers[way],
                urgent,
                baseline,
            ) matches Some(p) ==> chosen.score_atto <= p.score_atto)
            &&& 0 <= cure < medicines_at_hand(state, data, from).len() ==> chosen.score_atto
                <= medicines_at_hand(state, data, from)[cure].score_atto
        }),
{
    let all = candidates(world, state, data, from, qs, answers, urgent, baseline);
    let healers = healer_prices(world, qs, answers, urgent, baseline, answers.len());
    if 0 <= way < answers.len() {
        healers_are_listed(world, qs, answers, urgent, baseline, answers.len(), way);
        if let Some(p) = healer_price(world, qs[way].map, answers[way], urgent, baseline) {
            let k = choose|k: int| 0 <= k < healers.len() && (#[trigger] healers[k]) == p;
            assert(all[k] == p);
        }
    }
    if 0 <= cure < medicines_at_hand(state, data, from).len() {
        assert(all[healers.len() + cure] == medicines_at_hand(state, data, from)[cure]);
    }
}

// ---- The risk of a way ----

/// A tile of the map that one can walk on.
pub open spec fn free(map: MapData, x: int, y: int) -> bool {
    map.tile_at(x, y) is Some && map.tile_at(x, y)->0.collision == 0
}

proof fn rows_are_counted(map: MapData, y: int, n: nat)
    ensures
        row_counts(map, y, n).1 <= row_counts(map, y, n).0 <= n,
        (forall|x: int| 0 <= x < n && free(map, x, y) ==> !(#[trigger] map.tile_at(x, y))->0.encounters)
            ==> row_counts(map, y, n).1 == 0,
        (forall|x: int| 0 <= x < n && free(map, x, y) ==> (#[trigger] map.tile_at(x, y))->0.encounters)
            ==> row_counts(map, y, n).1 == row_counts(map, y, n).0,
        (exists|x: int| 0 <= x < n && #[trigger] free(map, x, y)) <==> row_counts(map, y, n).0 > 0,
        (forall|x: int| 0 <= x < n ==> #[trigger] free(map, x, y)) ==> row_counts(map, y, n).0 == n,
    decreases n,
{
    if n > 0 {
        rows_are_counted(map, y, (n - 1) as nat);
        assert(free(map, n - 1, y) || !free(map, n - 1, y));
        assert(map.tile_at(n - 1, y) is Some || map.tile_at(n - 1, y) is None);
        if exists|x: int| 0 <= x < n && #[trigger] free(map, x, y) {
            let x = choose|x: int| 0 <= x < n && #[trigger] free(map, x, y);
            assert(x < n - 1 ==> free(map, x, y));
        }
        if row_counts(map, y, n).0 > 0 && !free(map, n - 1, y) {
            let x = choose|x: int| 0 <= x < n - 1 && #[trigger] free(map, x, y);
            assert(free(map, x, y));
        }
    }
}

proof fn tiles_are_counted(map: MapData, w: nat, n: nat)
    ensures
        map_counts(map, w, n).1 <= map_counts(map, w, n).0,
        (forall|x: int, y: int|
            0 <= x < w && 0 <= y < n && free(map, x, y) ==> !(#[trigger] map.tile_at(x, y))->0.encounters)
            ==> map_counts(map, w, n).1 == 0,
        (forall|x: int, y: int|
            0 <= x < w && 0 <= y < n && free(map, x, y) ==> (#[trigger] map.tile_at(x, y))->0.encounters)
            ==> map_counts(map, w, n).1 == map_counts(map, w, n).0,
        (exists|x: int, y: int| 0 <= x < w && 0 <= y < n && #[trigger] free(map, x, y))
            <==> map_counts(map, w, n).0 > 0,
        (forall|x: int, y: int| 0 <= x < w && 0 <= y < n ==> #[trigger] free(map, x, y))
            ==> map_counts(map, w, n).0 == w * n,
    decreases n,
{
    if n > 0 {
        tiles_are_counted(map, w, (n - 1) as nat);
        rows_are_counted(map, n - 1, w);
        assert(w * n == w * (n - 1) + w) by (nonlinear_arith)
            requires
                n > 0,
        ;
        if exists|x: int, y: int| 0 <= x < w && 0 <= y < n && #[trigger] free(map, x, y) {
            let (x, y) = choose|x: int, y: int|
                0 <= x < w && 0 <= y < n && #[trigger] free(map, x, y);
            assert(y < n - 1 || y == n - 1);
            assert(free(map, x, y));
        }
        if map_counts(map, w, n).0 > 0 {
            if row_counts(map, n - 1, w).0 > 0 {
                let x = choose|x: int| 0 <= x < w && #[trigger] free(map, x, n - 1);
                assert(free(map, x, n - 1));
            } else {
                let (x, y) = choose|x: int, y: int|
                    0 <= x < w && 0 <= y < n - 1 && #[trigger] free(map, x, y);
                assert(free(map, x, y));
            }
        }
    }
}

/// The risk of a stretch is its tiles in seconds (in four where the need is
/// urgent), by the share of the map's free tiles that have encounters: none where
/// no free tile has them, all of it where every free tile has.
pub proof fn grass_is_a_risk(world: World, map: MapData, leg: WalkLeg, urgent: bool)
    requires
        world.map_of(leg.map@) == Some(map),
        map.width >= 0,
        map.height >= 0,
    ensures
        ({
            let r = leg_risk(world, leg.map@, leg.tiles, urgent);
            let whole = leg.tiles * (if urgent {
                4 * second()
            } else {
                second()
            });
            let none = forall|x: int, y: int|
                0 <= x < map.width && 0 <= y < map.height && free(map, x, y) ==> !(
                #[trigger] map.tile_at(x, y))->0.encounters;
            let all = forall|x: int, y: int|
                0 <= x < map.width && 0 <= y < map.height && free(map, x, y) ==> (
                #[trigger] map.tile_at(x, y))->0.encounters;
            let some = exists|x: int, y: int|
                0 <= x < map.width && 0 <= y < map.height && #[trigger] free(map, x, y);
            &&& 0 <= r <= whole
            &&& none ==> r == 0
            &&& all && some ==> r == whole
            &&& leg.tiles == 0 ==> r == 0
        }),
{
    tiles_are_counted(map, size(map.width), size(map.height));
    let d = density(map);
    let per: int = if urgent {
        4 * second()
    } else {
        second()
    };
    let whole = leg.tiles * per;
    let g = d.1 as int;
    let w = if d.0 > 0 {
        d.0 as int
    } else {
        1
    };
    assert(0 <= whole) by (nonlinear_arith)
        requires
            whole == leg.tiles * per,
            per > 0,
            leg.tiles >= 0,
    ;
    assert(0 <= whole * g / w <= whole) by (nonlinear_arith)
        requires
            0 <= whole,
            0 <= g <= w,
            w > 0,
    ;
    if g == w {
        assert(whole * g / w == whole) by (nonlinear_arith)
            requires
                g == w,
                w > 0,
        ;
    }
    if g == 0 {
        assert(whole * g / w == 0) by (nonlinear_arith)
            requires
                g == 0,
                w > 0,
        ;
    }
    if leg.tiles == 0 {
        assert(whole == 0);
        assert(whole * g / w == 0) by (nonlinear_arith)
            requires
                whole == 0,
                w > 0,
        ;
    }
}

/// Risks add up: a stretch more adds its own risk, and an urgent need makes each
/// stretch no cheaper.
pub proof fn risks_add_up(world: World, legs: Seq<WalkLeg>, leg: WalkLeg, urgent: bool)
    requires
        fits(
            risk_of(world, legs, urgent, legs.len()) + leg_risk(
                world,
                leg.map@,
                leg.tiles,
                urgent,
            ),
        ),
        leg_risk(world, leg.map@, leg.tiles, urgent) >= 0,
    ensures
        risk_of(world, legs.push(leg), urgent, legs.len() + 1) == risk_of(
            world,
            legs,
            urgent,
            legs.len(),
        ) + leg_risk(world, leg.map@, leg.tiles, urgent),
        risk_of(world, Seq::empty(), urgent, 0) == 0,
{
    same_risk(world, legs, legs.push(leg), urgent, legs.len());
}

proof fn same_risk(world: World, a: Seq<WalkLeg>, b: Seq<WalkLeg>, urgent: bool, n: nat)
    requires
        n <= a.len(),
        n <= b.len(),
        forall|i: int| 0 <= i < n ==> #[trigger] a[i] == b[i],
    ensures
        risk_of(world, a, urgent, n) == risk_of(world, b, urgent, n),
    decreases n,
{
    if n > 0 {
        assert(a[n - 1] == b[n - 1]);
        same_risk(world, a, b, urgent, (n - 1) as nat);
    }
}

// ---- The needs that wait ----

/// An event about the party (what was seen of it, a move used, a healing, the
/// end of a battle, an evolution) leaves exactly the party's need waiting; an
/// event that the plan rests on invalidates it where an assumption is known to
/// be false; every other leaves all as it was. Nothing happens while switched
/// off.
pub proof fn events_update_the_needs(
    s: SchedulerV,
    event: GameEventV,
    party: Option<Seq<PartyMon>>,
    data: GameData,
    contradicted: Option<Seq<char>>,
)
    ensures
        ({
            let (next, changed) = s.after(event, party, data, contradicted);
            let of_party = event is PartyAudited || event is PartyObserved || event is MovePpObserved
                || event is MoveUsed || event is MovesObserved || event is Healed || event
                is BattleEnded || event is Evolved;
            let of_plan = event is FlagObserved || event is FlagTracked || event is VarObserved
                || event is VarTracked || event is PocketObserved || event is ItemsChanged || event
                is MoneyObserved || event is MoneyChanged;
            &&& !s.enabled ==> next == s && !changed
            &&& s.enabled && of_party ==> {
                &&& next.queue == match health_need(party, data) {
                    Some(n) => seq![n],
                    None => Seq::<Need>::empty(),
                }
                &&& changed == (next.queue != s.queue)
                &&& next.invalidated == s.invalidated && next.destination == s.destination
                    && next.recovering == s.recovering
            }
            &&& s.enabled && of_plan ==> {
                &&& next.queue == s.queue
                &&& changed == (contradicted is Some)
                &&& contradicted is None ==> next == s
                &&& contradicted is Some ==> next.invalidated is Some
            }
            &&& s.enabled && !of_party && !of_plan ==> next == s && !changed
        }),
{
}

/// Of recoveries at the same price the one on the map whose name comes first is
/// taken, and of those on one map the first that was priced.
pub proof fn of_equals_the_first_is_taken(all: Seq<RecoveryV>, i: int, j: int)
    requires
        best_at(all, i),
        0 <= j < all.len(),
        all[j].score_atto == all[i].score_atto,
    ensures
        !before(all[j].map, all[i].map),
        j < i ==> before(all[i].map, all[j].map),
{
    if j < i {
        assert(preferred(all[i], all[j]));
    }
    assert(!preferred(all[j], all[i]));
}

proof fn medicines_are_priced_by_kind(
    state: GameState,
    data: GameData,
    map: Seq<char>,
    mons: Seq<PartyMon>,
    hp: (u16, u16),
    n: nat,
    i: int,
)
    requires
        0 <= i < medicine_prices(state, data, map, mons, hp, n).len(),
    ensures
        exists|k: int|
            0 <= k < n && #[trigger] medicine_price(state, data, map, mons, hp, k) == Some(
                medicine_prices(state, data, map, mons, hp, n)[i],
            ),
    decreases n,
{
    if n > 0 {
        let rest = medicine_prices(state, data, map, mons, hp, (n - 1) as nat);
        if i < rest.len() {
            medicines_are_priced_by_kind(state, data, map, mons, hp, (n - 1) as nat, i);
        } else {
            assert(medicine_price(state, data, map, mons, hp, n - 1) == Some(
                medicine_prices(state, data, map, mons, hp, n)[i],
            ));
        }
    }
}

/// Medicine is for a lead with nothing but wounds: one whose health is known and
/// whose status is healthy. It is taken where one stands, without a step, from
/// what is held.
pub proof fn medicine_is_for_wounds_alone(
    state: GameState,
    data: GameData,
    map: Seq<char>,
    i: int,
)
    requires
        0 <= i < medicines_at_hand(state, data, map).len(),
    ensures
        state.saved.party.value is Some,
        state.saved.party.value->0@.len() > 0,
        state.saved.party.value->0@[0].status.value == Some(Status::Healthy),
        hp_of(state.saved.party.value->0@[0]) is Some,
        ({
            let r = medicines_at_hand(state, data, map)[i];
            let held = state.saved.holds(Pocket::Items);
            &&& r.map == map && r.added_travel_atto == 0 && r.encounter_risk_atto == 0
            &&& r.medicine is Some
            &&& held is Some && exists|k: int|
                0 <= k < held->0.len() && (#[trigger] held->0[k]).0 == r.medicine->0
                    && held->0[k].1 > 0
        }),
{
    let mons = state.saved.party.value->0@;
    medicines_are_priced_by_kind(state, data, map, mons, hp_of(mons[0])->0, 4, i);
}

/// What is taken to recover is never dearer than a way to a healer that was found,
/// or than a medicine at hand; something is taken wherever there is one of them,
/// and nothing where no ways could be asked for.
pub proof fn the_cheapest_is_taken(
    world: World,
    state: GameState,
    data: GameData,
    from: Seq<char>,
    qs: Seq<PlaceV>,
    answers: Seq<WayAnswer>,
    urgent: bool,
    baseline: Option<u128>,
    r: Option<RecoveryV>,
    way: int,
    cure: int,
)
    requires
        recovers(world, state, data, from, Some(qs), answers, urgent, baseline, r),
    ensures
        0 <= way < answers.len() && healer_price(
            world,
            qs[way].map,
            answers[way],
            urgent,
            baseline,
        ) is Some ==> r is Some && r->0.score_atto <= healer_price(
            world,
            qs[way].map,
            answers[way],
            urgent,
            baseline,
        )->0.score_atto,
        0 <= cure < medicines_at_hand(state, data, from).len() ==> r is Some && r->0.score_atto
            <= medicines_at_hand(state, data, from)[cure].score_atto,
        forall|none: Option<RecoveryV>|
            #[trigger] recovers(
                world,
                state,
                data,
                from,
                None,
                answers,
                urgent,
                baseline,
                none,
            ) ==> none is None,
{
    let all = candidates(world, state, data, from, qs, answers, urgent, baseline);
    let healers = healer_prices(world, qs, answers, urgent, baseline, answers.len());
    if 0 <= way < answers.len() && healer_price(
        world,
        qs[way].map,
        answers[way],
        urgent,
        baseline,
    ) is Some {
        healers_are_listed(world, qs, answers, urgent, baseline, answers.len(), way);
    }
    assert(all.len() >= healers.len());
    if r is Some {
        let best = choose|i: int| best_at(all, i) && all[i] == r->0;
        nothing_cheaper_is_passed_over(
            world,
            state,
            data,
            from,
            qs,
            answers,
            urgent,
            baseline,
            best,
            way,
            cure,
        );
    }
}

} // verus!
