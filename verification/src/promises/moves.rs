//! What a move is worth, and which one makes room for another.

use vstd::prelude::*;

use crate::gamedata::{GameData, MoveData};
use crate::moves::{
    best_choice, best_of, choice_worth, damage_sum, damage_worth, effect_worth, same_type,
    utility_sum, LearnChoice,
};
use crate::observe::lines_of;
use crate::party::Member;
use crate::text::ends;

verus! {

/// The choices there are: to leave the moves as they are, or to forget one of
/// them.
pub open spec fn can_be_chosen(m: Member, c: LearnChoice) -> bool {
    match c {
        LearnChoice::Skip => true,
        LearnChoice::Forget(slot) => slot < m.moves@.len(),
    }
}

/// Nothing that can be chosen wins more battles than the choice; of what wins as
/// many, nothing does more damage; and of that, nothing is of more use.
pub proof fn the_choice_is_the_best_there_is(
    data: GameData,
    m: Member,
    new_move: Seq<char>,
    wins: Seq<i64>,
    other: LearnChoice,
)
    requires
        can_be_chosen(m, other),
        m.moves@.len() <= usize::MAX,
    ensures
        ({
            let c = best_choice(data, m, new_move, wins);
            let a = choice_worth(data, m, new_move, wins, c);
            let b = choice_worth(data, m, new_move, wins, other);
            &&& can_be_chosen(m, c)
            &&& a.wins >= b.wins
            &&& a.wins == b.wins ==> a.damage >= b.damage
            &&& a.wins == b.wins && a.damage == b.damage ==> a.utility >= b.utility
        }),
{
    the_best_so_far_is_best(data, m, new_move, wins, m.moves@.len(), other);
}

proof fn the_best_so_far_is_best(
    data: GameData,
    m: Member,
    new_move: Seq<char>,
    wins: Seq<i64>,
    n: nat,
    other: LearnChoice,
)
    requires
        n <= m.moves@.len() <= usize::MAX,
        other is Forget ==> other->Forget_0 < n,
    ensures
        ({
            let c = best_of(data, m, new_move, wins, n);
            let a = choice_worth(data, m, new_move, wins, c);
            let b = choice_worth(data, m, new_move, wins, other);
            &&& c is Forget ==> c->Forget_0 < n
            &&& a.wins >= b.wins
            &&& a.wins == b.wins ==> a.damage >= b.damage
            &&& a.wins == b.wins && a.damage == b.damage ==> a.utility >= b.utility
        }),
    decreases n,
{
    if n > 0 {
        let last = LearnChoice::Forget((n - 1) as usize);
        if other != last {
            the_best_so_far_is_best(data, m, new_move, wins, (n - 1) as nat, other);
        } else {
            the_best_so_far_is_best(data, m, new_move, wins, (n - 1) as nat, LearnChoice::Skip);
        }
    }
}

/// A move is forgotten only for something better: the moves after it win more, or
/// as many with more damage, or as many with as much damage and more use.
pub proof fn nothing_is_forgotten_for_nothing(
    data: GameData,
    m: Member,
    new_move: Seq<char>,
    wins: Seq<i64>,
)
    requires
        best_choice(data, m, new_move, wins) is Forget,
        m.moves@.len() <= usize::MAX,
    ensures
        ({
            let a = choice_worth(
                data,
                m,
                new_move,
                wins,
                best_choice(data, m, new_move, wins),
            );
            let b = choice_worth(data, m, new_move, wins, LearnChoice::Skip);
            a.wins > b.wins || (a.wins == b.wins && (a.damage > b.damage || (a.damage == b.damage
                && a.utility > b.utility)))
        }),
{
    a_choice_so_far_is_better_than_none(data, m, new_move, wins, m.moves@.len());
}

proof fn a_choice_so_far_is_better_than_none(
    data: GameData,
    m: Member,
    new_move: Seq<char>,
    wins: Seq<i64>,
    n: nat,
)
    requires
        n <= m.moves@.len() <= usize::MAX,
    ensures
        ({
            let c = best_of(data, m, new_move, wins, n);
            let a = choice_worth(data, m, new_move, wins, c);
            let b = choice_worth(data, m, new_move, wins, LearnChoice::Skip);
            c is Forget ==> a.wins > b.wins || (a.wins == b.wins && (a.damage > b.damage || (
            a.damage == b.damage && a.utility > b.utility)))
        }),
    decreases n,
{
    if n > 0 {
        a_choice_so_far_is_better_than_none(data, m, new_move, wins, (n - 1) as nat);
    }
}

/// The wins of a choice are those simulated for it: the first without the move,
/// then one for each place it could take.
pub proof fn wins_are_those_of_the_choice(
    data: GameData,
    m: Member,
    new_move: Seq<char>,
    wins: Seq<i64>,
    slot: usize,
)
    requires
        wins.len() == m.moves@.len() + 1,
        slot < m.moves@.len(),
    ensures
        choice_worth(data, m, new_move, wins, LearnChoice::Skip).wins == wins[0],
        choice_worth(data, m, new_move, wins, LearnChoice::Forget(slot)).wins == wins[slot + 1],
{
}

/// What one move does on average: its power times its accuracy, and half as much
/// again where it is of its user's type.
pub open spec fn deals(data: GameData, species: Seq<char>, mv: Seq<char>) -> int {
    match data.move_of(mv) {
        Some(m) => if same_type(data, species, m) {
            m.power * m.accuracy * 3 / 2
        } else {
            m.power * m.accuracy
        },
        None => 0,
    }
}

pub open spec fn serves(data: GameData, mv: Seq<char>) -> int {
    match data.move_of(mv) {
        Some(m) => if m.effect is Some {
            effect_worth(m.effect->0@) as int
        } else {
            0
        },
        None => 0,
    }
}

/// To learn a move in place of another gains what the one does and loses what the
/// other did, in damage and in use.
pub proof fn a_swap_gains_one_and_loses_the_other(
    data: GameData,
    m: Member,
    new_move: Seq<char>,
    wins: Seq<i64>,
    slot: usize,
)
    requires
        slot < m.moves@.len(),
    ensures
        ({
            let now = choice_worth(data, m, new_move, wins, LearnChoice::Skip);
            let then = choice_worth(data, m, new_move, wins, LearnChoice::Forget(slot));
            let old = m.moves@[slot as int]@;
            &&& then.damage + deals(data, m.species@, old) == now.damage + deals(
                data,
                m.species@,
                new_move,
            )
            &&& then.utility + serves(data, old) == now.utility + serves(data, new_move)
        }),
{
    let moves = lines_of(m.moves@);
    assert(moves[slot as int] == m.moves@[slot as int]@);
    a_place_changes_hands(data, m.species@, moves, slot as int, new_move);
}

proof fn a_place_changes_hands(
    data: GameData,
    species: Seq<char>,
    moves: Seq<Seq<char>>,
    at: int,
    new_move: Seq<char>,
)
    requires
        0 <= at < moves.len(),
    ensures
        damage_sum(data, species, moves.update(at, new_move)) + deals(data, species, moves[at])
            == damage_sum(data, species, moves) + deals(data, species, new_move),
        utility_sum(data, moves.update(at, new_move)) + serves(data, moves[at]) == utility_sum(
            data,
            moves,
        ) + serves(data, new_move),
    decreases moves.len(),
{
    let then = moves.update(at, new_move);
    reveal_strlit("");
    no_effect_is_worth_nothing();
    if at == moves.len() - 1 {
        assert(then.drop_last() =~= moves.drop_last());
    } else {
        a_place_changes_hands(data, species, moves.drop_last(), at, new_move);
        assert(then.drop_last() =~= moves.drop_last().update(at, new_move));
        assert(then.last() == moves.last());
    }
}

proof fn no_effect_is_worth_nothing()
    ensures
        effect_worth(""@) == 0,
{
    reveal_strlit("");
    reveal_strlit("EFFECT_SLEEP");
    reveal_strlit("EFFECT_PARALYZE");
    reveal_strlit("EFFECT_POISON");
    reveal_strlit("EFFECT_TOXIC");
    reveal_strlit("EFFECT_LEECH_SEED");
    reveal_strlit("_DOWN");
    reveal_strlit("_DOWN_2");
    assert(""@.len() == 0);
    assert("EFFECT_SLEEP"@.len() > 0 && "EFFECT_PARALYZE"@.len() > 0 && "EFFECT_POISON"@.len() > 0
        && "EFFECT_TOXIC"@.len() > 0 && "EFFECT_LEECH_SEED"@.len() > 0);
}

/// More power or more accuracy is never worth less, and the user's type is worth
/// half as much again.
pub proof fn a_stronger_move_is_worth_more(
    data: GameData,
    species: Seq<char>,
    a: MoveData,
    b: MoveData,
)
    requires
        a.power >= b.power,
        a.accuracy >= b.accuracy,
    ensures
        same_type(data, species, a) == same_type(data, species, b) ==> damage_worth(
            data,
            species,
            a,
        ) >= damage_worth(data, species, b),
        same_type(data, species, a) ==> 2 * damage_worth(data, species, a) + 1 >= 3 * (a.power
            * a.accuracy) >= 2 * damage_worth(data, species, a),
        !same_type(data, species, a) ==> damage_worth(data, species, a) == a.power * a.accuracy,
{
    assert(a.power * a.accuracy >= b.power * b.accuracy) by (nonlinear_arith)
        requires
            a.power >= b.power,
            a.accuracy >= b.accuracy,
    ;
}

/// To put to sleep serves best, then to paralyze, then to poison or seed, then to
/// lower a stat; nothing else serves.
pub proof fn effects_serve_in_order(stat: Seq<char>, effect: Seq<char>)
    ensures
        effect_worth("EFFECT_SLEEP"@) > effect_worth("EFFECT_PARALYZE"@),
        effect_worth("EFFECT_PARALYZE"@) > effect_worth("EFFECT_POISON"@),
        effect_worth("EFFECT_POISON"@) == effect_worth("EFFECT_TOXIC"@),
        effect_worth("EFFECT_POISON"@) == effect_worth("EFFECT_LEECH_SEED"@),
        effect_worth("EFFECT_POISON"@) > effect_worth(stat + "_DOWN"@),
        effect_worth(stat + "_DOWN"@) == effect_worth(stat + "_DOWN_2"@) > 0,
        effect_worth(effect) <= effect_worth("EFFECT_SLEEP"@),
        effect_worth(effect) > 0 ==> effect == "EFFECT_SLEEP"@ || effect == "EFFECT_PARALYZE"@
            || effect == "EFFECT_POISON"@ || effect == "EFFECT_TOXIC"@ || effect
            == "EFFECT_LEECH_SEED"@ || ends(effect, "_DOWN"@) || ends(effect, "_DOWN_2"@),
{
    reveal_strlit("EFFECT_SLEEP");
    reveal_strlit("EFFECT_PARALYZE");
    reveal_strlit("EFFECT_POISON");
    reveal_strlit("EFFECT_TOXIC");
    reveal_strlit("EFFECT_LEECH_SEED");
    reveal_strlit("_DOWN");
    reveal_strlit("_DOWN_2");
    let a = stat + "_DOWN"@;
    let b = stat + "_DOWN_2"@;
    assert(a.subrange(a.len() - 5, a.len() as int) =~= "_DOWN"@);
    assert(b.subrange(b.len() - 7, b.len() as int) =~= "_DOWN_2"@);
    assert(a.last() == 'N');
    assert(b.last() == '2');
    assert("EFFECT_SLEEP"@.last() == 'P');
    assert("EFFECT_PARALYZE"@.last() == 'E');
    assert("EFFECT_PARALYZE"@.len() != "EFFECT_SLEEP"@.len());
    assert("EFFECT_POISON"@.last() == 'N');
    assert("EFFECT_POISON"@[11] == 'O');
    assert(a[a.len() - 2] == 'W');
    assert("EFFECT_TOXIC"@.last() == 'C');
    assert("EFFECT_LEECH_SEED"@.last() == 'D');
    assert(ends(a, "_DOWN"@));
    assert(ends(b, "_DOWN_2"@));
}

} // verus!
