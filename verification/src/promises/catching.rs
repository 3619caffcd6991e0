//! Whether a wild Pokémon is caught, and with what; and which move is forgotten
//! for a new one.

use vstd::prelude::*;

use crate::catch::plan::{
    asked, budget, is_best, picked_over, picking_is_transitive, planned, throwable, FoeV,
};
use crate::catch_odds::OddsV;
use crate::event::{Pocket, Status};
use crate::gamedata::GameData;
use crate::moves::{
    best_choice, choice_worth, damage_sum, effect_worth, nothing_beats_the_choice, utility_sum,
    LearnChoice,
};
use crate::observe::lines_of;
use crate::party::Member;
use crate::state::GameState;
use crate::stock::balls_in;
use crate::text::{ends, nothing_comes_before_itself};

verus! {

/// The lead's status, as far as it is known, is no reason against a catch.
pub open spec fn lead_is_well(state: GameState) -> bool {
    match state.saved.party.value {
        Some(mons) => mons@.len() == 0 || mons@[0].status.value is None || mons@[0].status.value
            == Some(Status::Healthy),
        None => true,
    }
}

/// Balls that may be thrown, of the pocket as it is known.
pub open spec fn balls_known(data: GameData, state: GameState) -> Option<int> {
    match state.saved.holds(Pocket::PokeBalls) {
        Some(items) => Some(balls_in(data, items) as int),
        None => None,
    }
}

proof fn balls_are_throwable(data: GameData, items: Seq<(Seq<char>, u16)>)
    ensures
        balls_in(data, items) > 0 <==> exists|i: int| throwable(data, items, i),
    decreases items.len(),
{
    if items.len() > 0 {
        let rest = items.drop_last();
        balls_are_throwable(data, rest);
        if balls_in(data, items) > 0 {
            if balls_in(data, rest) > 0 {
                let i = choose|i: int| throwable(data, rest, i);
                assert(throwable(data, items, i));
            } else {
                assert(throwable(data, items, items.len() - 1));
            }
        }
        if exists|i: int| throwable(data, items, i) {
            let i = choose|i: int| throwable(data, items, i);
            if i < rest.len() {
                assert(throwable(data, rest, i));
            } else {
                assert(items.last() == items[i]);
            }
        }
    }
}

/// An ordinary wild Pokémon is caught exactly where it is not a trainer's, its
/// icon says that it was not caught, our lead has three quarters of its HP and
/// no status, more than five balls are known to be held, and the odds say
/// something other than RUN, are likely enough and not too risky.
pub proof fn when_an_ordinary_catch_is_tried(
    data: GameData,
    state: GameState,
    hp: (u16, u16),
    foe: FoeV,
    trainer: bool,
    odds: Option<OddsV>,
)
    requires
        !foe.shiny,
    ensures
        planned(data, state, hp, foe, trainer, false, odds) is Ok <==> {
            &&& !trainer
            &&& foe.caught == Some(false)
            &&& 4 * hp.0 >= 3 * hp.1
            &&& lead_is_well(state)
            &&& balls_known(data, state) is Some
            &&& balls_known(data, state)->0 > 5
            &&& odds is Some
            &&& !(odds->0.choice is Run)
            &&& odds->0.likely
            &&& !odds->0.risky
        },
{
    if let Some(items) = state.saved.holds(Pocket::PokeBalls) {
        balls_are_throwable(data, items);
    }
}

/// A shiny one, or the one that is hunted, is caught with less: a shiny wherever
/// it is not a trainer's, there may be a ball and the odds are known; the hunted
/// one also not where it was caught already, or the odds say RUN or are too
/// risky.
pub proof fn when_a_rare_catch_is_tried(
    data: GameData,
    state: GameState,
    hp: (u16, u16),
    foe: FoeV,
    trainer: bool,
    wanted: bool,
    odds: Option<OddsV>,
)
    requires
        foe.shiny || wanted,
    ensures
        planned(data, state, hp, foe, trainer, wanted, odds) is Ok <==> {
            &&& !trainer
            &&& balls_known(data, state) is None || balls_known(data, state)->0 > 0
            &&& odds is Some
            &&& foe.shiny || (foe.caught != Some(true) && !(odds->0.choice is Run)
                && !odds->0.risky)
        },
{
    if let Some(items) = state.saved.holds(Pocket::PokeBalls) {
        balls_are_throwable(data, items);
    }
}

/// The plan of a catch is of these odds and of this foe, with a ball that is
/// held: none of those held has a higher multiplier, and none with the same is
/// cheaper. An unknown pocket is planned for with Poké Balls.
pub proof fn the_best_ball_is_planned(
    data: GameData,
    state: GameState,
    hp: (u16, u16),
    foe: FoeV,
    wanted: bool,
    odds: Option<OddsV>,
    i: int,
)
    requires
        planned(data, state, hp, foe, false, wanted, odds) is Ok,
    ensures
        ({
            let plan = planned(data, state, hp, foe, false, wanted, odds)->Ok_0;
            &&& Some(plan.odds) == odds
            &&& plan.shiny == foe.shiny
            &&& plan.wanted == wanted
            &&& match state.saved.holds(Pocket::PokeBalls) {
                Some(items) => {
                    &&& exists|k: int|
                        0 <= k < items.len() && (#[trigger] items[k]).0 == plan.ball && items[k].1
                            > 0
                    &&& crate::stock::multiplier(data, plan.ball) is Some
                    &&& 0 <= i < items.len() && items[i].1 > 0 && crate::stock::multiplier(
                        data,
                        items[i].0,
                    ) is Some ==> {
                        let a = crate::stock::multiplier(data, plan.ball)->0;
                        let b = crate::stock::multiplier(data, items[i].0)->0;
                        a > b || (a == b && price_tag(data, plan.ball) <= price_tag(
                            data,
                            items[i].0,
                        ))
                    }
                },
                None => plan.ball == "ITEM_POKE_BALL"@,
            }
        }),
{
    if let Some(items) = state.saved.holds(Pocket::PokeBalls) {
        let t = choose|t: int| throwable(data, items, t);
        some_ball_is_best(data, items, items.len() as int, t);
        let b = choose|b: int|
            {
                &&& 0 <= b < items.len()
                &&& #[trigger] throwable(data, items, b)
                &&& forall|j: int|
                    0 <= j < items.len() && #[trigger] throwable(data, items, j) ==> !picked_over(
                        data,
                        items[j].0,
                        items[b].0,
                    )
            };
        assert(is_best(data, items, items[b].0));
        let best = choose|item: Seq<char>| is_best(data, items, item);
        assert(is_best(data, items, best));
        let k = choose|k: int| #[trigger] throwable(data, items, k) && items[k].0 == best;
        assert(items[k].0 == best);
        if throwable(data, items, i) {
            assert(!picked_over(data, items[i].0, best));
        }
    }
}

proof fn some_ball_is_best(data: GameData, items: Seq<(Seq<char>, u16)>, n: int, t: int)
    requires
        0 <= t < n <= items.len(),
        throwable(data, items, t),
    ensures
        exists|b: int|
            {
                &&& 0 <= b < n
                &&& #[trigger] throwable(data, items, b)
                &&& forall|j: int|
                    0 <= j < n && #[trigger] throwable(data, items, j) ==> !picked_over(
                        data,
                        items[j].0,
                        items[b].0,
                    )
            },
    decreases n,
{
    let last = n - 1;
    nothing_comes_before_itself(items[last].0);
    if exists|s: int| 0 <= s < last && throwable(data, items, s) {
        let s = choose|s: int| 0 <= s < last && throwable(data, items, s);
        some_ball_is_best(data, items, last, s);
        let b = choose|b: int|
            {
                &&& 0 <= b < last
                &&& #[trigger] throwable(data, items, b)
                &&& forall|j: int|
                    0 <= j < last && #[trigger] throwable(data, items, j) ==> !picked_over(
                        data,
                        items[j].0,
                        items[b].0,
                    )
            };
        assert(throwable(data, items, b));
        if throwable(data, items, last) && picked_over(data, items[last].0, items[b].0) {
            assert forall|j: int|
                0 <= j < n && #[trigger] throwable(data, items, j) implies !picked_over(
                data,
                items[j].0,
                items[last].0,
            ) by {
                if picked_over(data, items[j].0, items[last].0) {
                    picking_is_transitive(data, items[j].0, items[last].0, items[b].0);
                }
            }
        } else {
            assert forall|j: int|
                0 <= j < n && #[trigger] throwable(data, items, j) implies !picked_over(
                data,
                items[j].0,
                items[b].0,
            ) by {}
        }
    } else {
        assert(t == last);
        assert forall|j: int|
            0 <= j < n && #[trigger] throwable(data, items, j) implies !picked_over(
            data,
            items[j].0,
            items[last].0,
        ) by {}
    }
}

pub open spec fn price_tag(data: GameData, item: Seq<char>) -> int {
    match data.item_of(item) {
        Some(i) => i.price as int,
        None => u32::MAX as int,
    }
}

/// What the odds are asked for: this foe at this bar, our HP, and as many balls
/// as are held, for an ordinary foe without five of them.
pub proof fn the_odds_are_asked_for_what_is_known(
    data: GameData,
    state: GameState,
    hp: (u16, u16),
    foe: FoeV,
    wanted: bool,
)
    ensures
        ({
            let q = asked(data, state, hp, foe, wanted);
            &&& q.hp == hp && q.species == foe.species && q.level == foe.level
            &&& q.hp_per_mille == foe.hp_per_mille && q.status == foe.status && q.shiny
                == foe.shiny && q.wanted == wanted && q.status_allowed && q.disabled is None
            &&& balls_known(data, state) matches Some(n) ==> n <= 65535 ==> q.balls == (if foe.shiny
                || wanted {
                n
            } else if n > 5 {
                n - 5
            } else {
                0
            })
            &&& balls_known(data, state) is None ==> q.balls == if foe.shiny || wanted {
                5int
            } else {
                0
            }
        }),
{
}

/// What may be thrown, and five where it is no shiny, is what is held.
pub proof fn five_balls_are_kept(count: u16)
    ensures
        budget(count, true) == count,
        count >= 5 ==> budget(count, false) + 5 == count,
        count < 5 ==> budget(count, false) == 0,
{
}

// ---- A new move ----

proof fn sums_change_by_the_swap(
    data: GameData,
    species: Seq<char>,
    moves: Seq<Seq<char>>,
    slot: int,
    mv: Seq<char>,
)
    requires
        0 <= slot < moves.len(),
    ensures
        damage_sum(data, species, moves.update(slot, mv)) + damage_sum(
            data,
            species,
            seq![moves[slot]],
        ) == damage_sum(data, species, moves) + damage_sum(data, species, seq![mv]),
        utility_sum(data, moves.update(slot, mv)) + utility_sum(data, seq![moves[slot]])
            == utility_sum(data, moves) + utility_sum(data, seq![mv]),
    decreases moves.len(),
{
    let after = moves.update(slot, mv);
    assert(seq![mv].drop_last() =~= Seq::empty());
    assert(seq![moves[slot]].drop_last() =~= Seq::empty());
    assert(seq![mv].last() == mv);
    if slot == moves.len() - 1 {
        assert(after.drop_last() =~= moves.drop_last());
        assert(after.last() == mv);
    } else {
        assert(after.drop_last() =~= moves.drop_last().update(slot, mv));
        assert(after.last() == moves.last());
        assert(moves.drop_last()[slot] == moves[slot]);
        sums_change_by_the_swap(data, species, moves.drop_last(), slot, mv);
    }
}

/// What a move does on its own: its power times its accuracy, half as much again
/// where its type is one of the species'.
pub open spec fn strength(data: GameData, species: Seq<char>, mv: Seq<char>) -> int {
    match data.move_of(mv) {
        Some(m) => {
            let own = m.kind is Some && data.species_of(species) is Some && exists|i: int|
                0 <= i < data.species_of(species)->0.types@.len()
                    && (#[trigger] data.species_of(species)->0.types@[i])@ == m.kind->0@;
            if own {
                3 * (m.power * m.accuracy) / 2
            } else {
                m.power * m.accuracy
            }
        },
        None => 0,
    }
}

proof fn one_move_is_worth(data: GameData, species: Seq<char>, mv: Seq<char>)
    ensures
        damage_sum(data, species, seq![mv]) == strength(data, species, mv),
{
    assert(seq![mv].drop_last() =~= Seq::empty());
    assert(seq![mv].last() == mv);
    reveal_with_fuel(damage_sum, 2);
    if let Some(m) = data.move_of(mv) {
        assert(m.power * m.accuracy >= 0) by (nonlinear_arith);
        if let Some(s) = data.species_of(species) {
            if m.kind is Some {
                let types = lines_of(s.types@);
                if types.contains(m.kind->0@) {
                    let i = types.index_of(m.kind->0@);
                    assert(s.types@[i]@ == m.kind->0@);
                }
                if exists|i: int| 0 <= i < s.types@.len() && (#[trigger] s.types@[i])@ == m.kind->0@ {
                    let i = choose|i: int|
                        0 <= i < s.types@.len() && (#[trigger] s.types@[i])@ == m.kind->0@;
                    assert(types[i] == m.kind->0@);
                }
            }
        }
    }
}

/// The evaluation comes first: a slot whose evaluation is higher than that of
/// keeping the moves and of every other slot is the one that is forgotten; and
/// where keeping them is evaluated higher than every slot, none is.
pub proof fn the_highest_evaluation_decides(
    data: GameData,
    member: Member,
    new_move: Seq<char>,
    wins: Seq<i64>,
    slot: usize,
)
    requires
        slot < member.moves@.len() <= usize::MAX,
        wins.len() == member.moves@.len() + 1,
    ensures
        (forall|j: int| 0 <= j < wins.len() && j != slot + 1 ==> #[trigger] wins[j] < wins[slot + 1])
            ==> best_choice(data, member, new_move, wins) == LearnChoice::Forget(slot),
        (forall|j: int| 1 <= j < wins.len() ==> #[trigger] wins[j] < wins[0]) ==> best_choice(
            data,
            member,
            new_move,
            wins,
        ) == LearnChoice::Skip,
{
    let n = member.moves@.len();
    nothing_beats_the_choice(data, member, new_move, wins, n);
    let best = best_choice(data, member, new_move, wins);
    let w = choice_worth(data, member, new_move, wins, best);
    if forall|j: int| 0 <= j < wins.len() && j != slot + 1 ==> #[trigger] wins[j] < wins[slot + 1] {
        assert(!choice_worth(data, member, new_move, wins, LearnChoice::Forget(slot)).beats(w));
        match best {
            LearnChoice::Skip => {
                assert(wins[0] < wins[slot + 1]);
            },
            LearnChoice::Forget(s) => {
                if s != slot {
                    assert(wins[s + 1] < wins[slot + 1]);
                }
            },
        }
    }
    if forall|j: int| 1 <= j < wins.len() ==> #[trigger] wins[j] < wins[0] {
        if let LearnChoice::Forget(s) = best {
            assert(wins[s + 1] < wins[0]);
            assert(!choice_worth(data, member, new_move, wins, LearnChoice::Skip).beats(w));
        }
    }
}

/// Where the evaluations are all the same, strength decides: a move is forgotten
/// only for one at least as strong, it is forgotten wherever some move is weaker
/// than the new one, and then none of the others is weaker than it.
pub proof fn then_strength_decides(
    data: GameData,
    member: Member,
    new_move: Seq<char>,
    wins: Seq<i64>,
    other: usize,
)
    requires
        other < member.moves@.len() <= usize::MAX,
        wins.len() == member.moves@.len() + 1,
        forall|j: int| 0 <= j < wins.len() ==> #[trigger] wins[j] == wins[0],
    ensures
        ({
            let sp = member.species@;
            let best = best_choice(data, member, new_move, wins);
            &&& best matches LearnChoice::Forget(slot) ==> slot < member.moves@.len() && strength(
                data,
                sp,
                member.moves@[slot as int]@,
            ) <= strength(data, sp, new_move) && strength(
                data,
                sp,
                member.moves@[slot as int]@,
            ) <= strength(data, sp, member.moves@[other as int]@)
            &&& best is Skip ==> strength(data, sp, member.moves@[other as int]@) >= strength(
                data,
                sp,
                new_move,
            )
        }),
{
    let n = member.moves@.len();
    let sp = member.species@;
    let moves = lines_of(member.moves@);
    nothing_beats_the_choice(data, member, new_move, wins, n);
    let best = best_choice(data, member, new_move, wins);
    let w = choice_worth(data, member, new_move, wins, best);
    sums_change_by_the_swap(data, sp, moves, other as int, new_move);
    one_move_is_worth(data, sp, new_move);
    one_move_is_worth(data, sp, moves[other as int]);
    assert(wins[other + 1] == wins[0]);
    assert(!choice_worth(data, member, new_move, wins, LearnChoice::Forget(other)).beats(w));
    if let LearnChoice::Forget(slot) = best {
        sums_change_by_the_swap(data, sp, moves, slot as int, new_move);
        one_move_is_worth(data, sp, moves[slot as int]);
        assert(wins[slot + 1] == wins[0]);
    }
}

/// Putting to sleep is worth more than paralysing, that more than poisoning or
/// seeding, and that more than lowering a stat, which is worth something.
pub proof fn effects_are_ranked(lowers: Seq<char>, other: Seq<char>)
    requires
        ends(lowers, "_DOWN"@) || ends(lowers, "_DOWN_2"@),
    ensures
        effect_worth("EFFECT_SLEEP"@) == effect_worth("EFFECT_PARALYZE"@) + 1,
        effect_worth("EFFECT_PARALYZE"@) == effect_worth("EFFECT_POISON"@) + 1,
        effect_worth("EFFECT_POISON"@) == effect_worth("EFFECT_TOXIC"@),
        effect_worth("EFFECT_POISON"@) == effect_worth("EFFECT_LEECH_SEED"@),
        effect_worth("EFFECT_POISON"@) == effect_worth(lowers) + 1,
        effect_worth(lowers) == 1,
        effect_worth(other) <= effect_worth("EFFECT_SLEEP"@),
{
    reveal_strlit("EFFECT_SLEEP");
    reveal_strlit("EFFECT_PARALYZE");
    reveal_strlit("EFFECT_POISON");
    reveal_strlit("EFFECT_TOXIC");
    reveal_strlit("EFFECT_LEECH_SEED");
    reveal_strlit("_DOWN");
    reveal_strlit("_DOWN_2");
    assert("EFFECT_SLEEP"@.len() == 12 && "EFFECT_PARALYZE"@.len() == 15);
    assert("EFFECT_POISON"@.len() == 13 && "EFFECT_TOXIC"@.len() == 12);
    assert("EFFECT_TOXIC"@[7] == 'T' && "EFFECT_SLEEP"@[7] == 'S');
    assert("EFFECT_LEECH_SEED"@.len() == 17);
    let n = lowers.len();
    let tail = if ends(lowers, "_DOWN"@) {
        "_DOWN"@
    } else {
        "_DOWN_2"@
    };
    assert(lowers[n - 1] == tail[tail.len() - 1]);
    assert(lowers[n - 2] == tail[tail.len() - 2]);
}

} // verus!
