//! What is known of the game, as predicates are answered from it.

use vstd::prelude::*;

use crate::belief_view::{
    mon_knows, number_held, number_in, party_knows, slot_holds, truth_of, Predicate, Relation,
    Truth,
};
use crate::event::Pocket;
use crate::state::{fact_of, GameState};

verus! {

/// The answer to the opposite question.
pub open spec fn opposite(t: Truth) -> Truth {
    match t {
        Truth::True => Truth::False,
        Truth::False => Truth::True,
        Truth::Unknown => Truth::Unknown,
    }
}

/// A flag that was seen answers for what it was seen as, and against the
/// opposite; one that was not is unknown.
pub proof fn flags_answer(s: GameState, name: String)
    ensures
        ({
            let f = fact_of(s.saved.world.flags@, name@).value;
            let set = truth_of(s, Predicate::Flag { name, is: true });
            &&& set is True <==> f == Some(true)
            &&& set is False <==> f == Some(false)
            &&& truth_of(s, Predicate::Flag { name, is: false }) == opposite(set)
        }),
{
}

/// A variable that was seen is held against a number as written; less and at
/// least, more and at most, equal and different are opposites; one that was not
/// seen is unknown.
pub proof fn variables_answer(s: GameState, name: String, value: i64)
    ensures
        ({
            let v = fact_of(s.saved.world.vars@, name@).value;
            let of = |op: Relation| truth_of(s, Predicate::Var { name, op, value });
            &&& v is None <==> of(Relation::Equal) is Unknown
            &&& of(Relation::Equal) is True <==> v is Some && v->0 == value
            &&& v is Some ==> (of(Relation::Less) is True <==> v->0 < value)
            &&& v is Some ==> (of(Relation::More) is True <==> v->0 > value)
            &&& of(Relation::Different) == opposite(of(Relation::Equal))
            &&& of(Relation::AtLeast) == opposite(of(Relation::Less))
            &&& of(Relation::AtMost) == opposite(of(Relation::More))
        }),
{
}

/// To hold some of an item is to hold fewer of it too; what is not held is not
/// held in greater number either; to hold none or more is true once a pocket was
/// read; and nothing is denied before every pocket was.
pub proof fn items_are_counted(s: GameState, item: String, n: u32, more: u32)
    requires
        n <= more,
    ensures
        ({
            let few = truth_of(s, Predicate::HasItem { item, n });
            let many = truth_of(s, Predicate::HasItem { item, n: more });
            let seen = |p: Pocket| s.saved.holds(p) is Some;
            let all = seen(Pocket::Items) && seen(Pocket::KeyItems) && seen(Pocket::PokeBalls)
                && seen(Pocket::TmCase) && seen(Pocket::BerryPouch);
            let some = seen(Pocket::Items) || seen(Pocket::KeyItems) || seen(Pocket::PokeBalls)
                || seen(Pocket::TmCase) || seen(Pocket::BerryPouch);
            &&& many is True ==> few is True
            &&& few is False ==> many is False
            &&& few is False ==> all
            &&& all ==> !(few is Unknown)
            &&& !some ==> few is Unknown
            &&& some && n == 0 ==> few is True
        }),
{
}

/// What lies in a pocket counts in full, whichever pocket it is, and what lies in
/// several adds up.
pub proof fn every_pocket_counts(s: GameState, item: String, n: u32, p: Pocket)
    ensures
        s.saved.holds(p) is Some && number_in(s.saved.holds(p)->0, item@) >= n ==> truth_of(
            s,
            Predicate::HasItem { item, n },
        ) is True,
        s.saved.holds(p) is Some ==> number_held(s, item@) >= number_in(
            s.saved.holds(p)->0,
            item@,
        ),
{
}

/// A row counts for its own item, by its number, and for no other.
pub proof fn rows_are_counted(
    items: Seq<(Seq<char>, u16)>,
    row: (Seq<char>, u16),
    item: Seq<char>,
)
    ensures
        number_in(items.push(row), item) == number_in(items, item) + if row.0 == item {
            row.1 as int
        } else {
            0
        },
        number_in(Seq::empty(), item) == 0,
{
    assert(items.push(row).drop_last() =~= items);
}

/// Some Pokemon knows a move exactly where one of its four places holds it; of a
/// party that was not seen nothing is known.
pub proof fn known_moves_answer(s: GameState, mv: String)
    ensures
        ({
            let t = truth_of(s, Predicate::PartyHasMove { mv });
            let party = s.saved.party.value;
            &&& t is Unknown <==> party is None
            &&& t is True <==> party is Some && exists|i: int, j: int|
                0 <= i < party->0@.len() && 0 <= j < 4 && (#[trigger] party->0@[i].moves@[j])
                    is Some && party->0@[i].moves@[j]->0.mv.value is Some
                    && party->0@[i].moves@[j]->0.mv.value->0@ == mv@
        }),
{
    if let Some(mons) = s.saved.party.value {
        if party_knows(mons@, mv@) {
            let i = choose|i: int|
                0 <= i < mons@.len() && mon_knows(#[trigger] mons@[i], mv@);
            let m = mons@[i].moves@;
            assert(m[0] == m[0] && m[1] == m[1] && m[2] == m[2] && m[3] == m[3]);
            let j: int = if slot_holds(m[0], mv@) {
                0
            } else if slot_holds(m[1], mv@) {
                1
            } else if slot_holds(m[2], mv@) {
                2
            } else {
                3
            };
            assert(mons@[i].moves@[j] is Some);
        }
        if exists|i: int, j: int|
            0 <= i < mons@.len() && 0 <= j < 4 && (#[trigger] mons@[i].moves@[j]) is Some
                && mons@[i].moves@[j]->0.mv.value is Some && mons@[i].moves@[j]->0.mv.value->0@
                == mv@ {
            let (i, j) = choose|i: int, j: int|
                0 <= i < mons@.len() && 0 <= j < 4 && (#[trigger] mons@[i].moves@[j]) is Some
                    && mons@[i].moves@[j]->0.mv.value is Some && mons@[i].moves@[j]->0.mv.value->0@
                    == mv@;
            assert(j == 0 || j == 1 || j == 2 || j == 3);
            assert(mon_knows(mons@[i], mv@));
        }
    }
}

/// A badge's own flag answers for it; where that was not seen, the number of
/// badges does; and where neither was, it is unknown.
pub proof fn badges_answer(s: GameState, n: u8, flag: String)
    ensures
        ({
            let t = truth_of(s, Predicate::Badge { n, flag });
            let f = fact_of(s.saved.world.flags@, flag@).value;
            &&& f is Some ==> t == truth_of(s, Predicate::Flag { name: flag, is: true })
            &&& f is None && s.badges.value is None ==> t is Unknown
            &&& f is None && s.badges.value is Some ==> (t is True <==> s.badges.value->0@.len()
                >= n) && !(t is Unknown)
        }),
{
}

/// A place answers by where the player stands; a visit by whether one was noted.
pub proof fn places_answer(s: GameState, map: String)
    ensures
        ({
            let at = truth_of(s, Predicate::At { map });
            let been = truth_of(s, Predicate::Visited { map });
            let noted = fact_of(s.saved.world.visited@, map@).value;
            &&& at is Unknown <==> s.pose.value is None
            &&& at is True <==> s.pose.value is Some && s.pose.value->0.map@ == map@
            &&& been is True <==> noted == Some(true)
            &&& been is Unknown <==> noted is None
        }),
{
}

} // verus!
