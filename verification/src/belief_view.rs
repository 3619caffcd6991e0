//! The belief as the route and goal planners read it: what is known of the game
//! answering predicates.

use vstd::prelude::*;

use crate::event::Pocket;
use crate::state::{fact_of, fact_value, GameState, MoveSlot, PartyMon};
use crate::text::same;

verus! {

#[derive(Debug, Clone, Copy, PartialEq, Eq, Structural)]
pub enum Truth {
    True,
    False,
    Unknown,
}

/// How a variable is held against a number.
#[derive(Debug, Clone, Copy, PartialEq, Eq, Structural)]
pub enum Relation {
    Equal,
    Different,
    Less,
    AtMost,
    More,
    AtLeast,
}

impl Relation {
    pub open spec fn between(self, a: int, b: int) -> bool {
        match self {
            Relation::Equal => a == b,
            Relation::Different => a != b,
            Relation::Less => a < b,
            Relation::AtMost => a <= b,
            Relation::More => a > b,
            Relation::AtLeast => a >= b,
        }
    }

    pub fn holds(self, a: i64, b: i64) -> (r: bool)
        ensures
            r == self.between(a as int, b as int),
    {
        match self {
            Relation::Equal => a == b,
            Relation::Different => a != b,
            Relation::Less => a < b,
            Relation::AtMost => a <= b,
            Relation::More => a > b,
            Relation::AtLeast => a >= b,
        }
    }
}

/// Something that may hold of the game.
#[derive(Debug, Clone, PartialEq, Eq)]
pub enum Predicate {
    Flag { name: String, is: bool },
    Var { name: String, op: Relation, value: i64 },
    Visited { map: String },
    HasItem { item: String, n: u32 },
    PartyHasMove { mv: String },
    /// At least `n` badges, the `n`-th of which sets `flag`.
    Badge { n: u8, flag: String },
    At { map: String },
}

/// A fact with no value is unknown, whatever its provenance otherwise.
pub open spec fn known_as(v: Option<bool>) -> Truth {
    match v {
        Some(true) => Truth::True,
        Some(false) => Truth::False,
        None => Truth::Unknown,
    }
}

fn known(v: Option<bool>) -> (t: Truth)
    ensures
        t == known_as(v),
{
    match v {
        Some(true) => Truth::True,
        Some(false) => Truth::False,
        None => Truth::Unknown,
    }
}

/// How many of an item a list holds.
pub open spec fn number_in(items: Seq<(Seq<char>, u16)>, item: Seq<char>) -> nat
    decreases items.len(),
{
    if items.len() == 0 {
        0
    } else {
        number_in(items.drop_last(), item) + (if items.last().0 == item {
            items.last().1 as nat
        } else {
            0
        })
    }
}

pub open spec fn number_known(items: Option<Seq<(Seq<char>, u16)>>, item: Seq<char>) -> nat {
    match items {
        Some(items) => number_in(items, item),
        None => 0,
    }
}

/// How many of an item the known pockets hold.
pub open spec fn number_held(s: GameState, item: Seq<char>) -> nat {
    number_known(s.saved.holds(Pocket::Items), item) + number_known(
        s.saved.holds(Pocket::KeyItems),
        item,
    ) + number_known(s.saved.holds(Pocket::PokeBalls), item) + number_known(
        s.saved.holds(Pocket::TmCase),
        item,
    ) + number_known(s.saved.holds(Pocket::BerryPouch), item)
}

pub open spec fn some_pocket_known(s: GameState) -> bool {
    s.saved.holds(Pocket::Items) is Some || s.saved.holds(Pocket::KeyItems) is Some
        || s.saved.holds(Pocket::PokeBalls) is Some || s.saved.holds(Pocket::TmCase) is Some
        || s.saved.holds(Pocket::BerryPouch) is Some
}

pub open spec fn every_pocket_known(s: GameState) -> bool {
    s.saved.holds(Pocket::Items) is Some && s.saved.holds(Pocket::KeyItems) is Some
        && s.saved.holds(Pocket::PokeBalls) is Some && s.saved.holds(Pocket::TmCase) is Some
        && s.saved.holds(Pocket::BerryPouch) is Some
}

pub open spec fn slot_holds(slot: Option<MoveSlot>, mv: Seq<char>) -> bool {
    slot is Some && slot->0.mv.value is Some && slot->0.mv.value->0@ == mv
}

/// A member knows a move.
pub open spec fn mon_knows(mon: PartyMon, mv: Seq<char>) -> bool {
    slot_holds(mon.moves@[0], mv) || slot_holds(mon.moves@[1], mv) || slot_holds(mon.moves@[2], mv)
        || slot_holds(mon.moves@[3], mv)
}

pub open spec fn party_knows(mons: Seq<PartyMon>, mv: Seq<char>) -> bool {
    exists|i: int| 0 <= i < mons.len() && mon_knows(#[trigger] mons[i], mv)
}

/// What is known of a predicate.
pub open spec fn truth_of(s: GameState, p: Predicate) -> Truth {
    match p {
        Predicate::Flag { name, is } => match fact_of(s.saved.world.flags@, name@).value {
            Some(v) => known_as(Some(v == is)),
            None => Truth::Unknown,
        },
        Predicate::Var { name, op, value } => match fact_of(s.saved.world.vars@, name@).value {
            Some(v) => known_as(Some(op.between(v as int, value as int))),
            None => Truth::Unknown,
        },
        Predicate::Visited { map } => known_as(fact_of(s.saved.world.visited@, map@).value),
        Predicate::HasItem { item, n } => if some_pocket_known(s) && number_held(s, item@) >= n {
            Truth::True
        } else if every_pocket_known(s) {
            Truth::False
        } else {
            Truth::Unknown
        },
        Predicate::PartyHasMove { mv } => match s.saved.party.value {
            Some(mons) => known_as(Some(party_knows(mons@, mv@))),
            None => Truth::Unknown,
        },
        Predicate::Badge { n, flag } => match fact_of(s.saved.world.flags@, flag@).value {
            Some(v) => known_as(Some(v)),
            None => match s.badges.value {
                Some(badges) => known_as(Some(badges@.len() >= n)),
                None => Truth::Unknown,
            },
        },
        Predicate::At { map } => match s.pose.value {
            Some(p) => known_as(Some(p.map@ == map@)),
            None => Truth::Unknown,
        },
    }
}

fn holds_move(slot: &Option<MoveSlot>, mv: &str) -> (r: bool)
    ensures
        r == slot_holds(*slot, mv@),
{
    match slot {
        Some(s) => match &s.mv.value {
            Some(name) => same(name.as_str(), mv),
            None => false,
        },
        None => false,
    }
}

fn any_knows(mons: &Vec<PartyMon>, mv: &str) -> (r: bool)
    ensures
        r == party_knows(mons@, mv@),
{
    let mut i: usize = 0;
    while i < mons.len()
        invariant
            i <= mons@.len(),
            forall|j: int| 0 <= j < i ==> !mon_knows(#[trigger] mons@[j], mv@),
        decreases mons@.len() - i,
    {
        let m = &mons[i];
        if holds_move(&m.moves[0], mv) || holds_move(&m.moves[1], mv) || holds_move(
            &m.moves[2],
            mv,
        ) || holds_move(&m.moves[3], mv) {
            assert(mon_knows(mons@[i as int], mv@));
            return true;
        }
        i += 1;
    }
    false
}

/// What is counted of `total` while it is short of `n`.
pub open spec fn counts_up(have: u64, total: nat, n: u32) -> bool {
    if have < n {
        have == total
    } else {
        total >= n
    }
}

fn count_in(have: u64, items: Option<&Vec<(String, u16)>>, item: &str, n: u32, so_far: Ghost<nat>)
    -> (r: u64)
    requires
        counts_up(have, so_far@, n),
        have < u64::MAX - 65535,
    ensures
        counts_up(
            r,
            so_far@ + number_known(
                match items {
                    Some(v) => Some(crate::event::items_of(v@)),
                    None => None,
                },
                item@,
            ),
            n,
        ),
        r < u64::MAX - 65535,
{
    let items = match items {
        Some(v) => v,
        None => {
            return have;
        },
    };
    let ghost all = crate::event::items_of(items@);
    let mut r: u64 = have;
    let mut i: usize = 0;
    assert(all.take(0) =~= Seq::empty());
    while i < items.len()
        invariant
            i <= items@.len(),
            all == crate::event::items_of(items@),
            counts_up(r, so_far@ + number_in(all.take(i as int), item@), n),
            r < u64::MAX - 65535,
        decreases items@.len() - i,
    {
        proof {
            assert(all.take(i + 1).drop_last() =~= all.take(i as int));
            assert(all.take(i + 1).last() == all[i as int]);
        }
        if r < n as u64 && same(items[i].0.as_str(), item) {
            r = r + items[i].1 as u64;
        }
        i += 1;
    }
    assert(all.take(all.len() as int) =~= all);
    r
}

/// What is known of whether an item is held.
fn item_truth(s: &GameState, item: &str, n: u32) -> (t: Truth)
    ensures
        t == (if some_pocket_known(*s) && number_held(*s, item@) >= n {
            Truth::True
        } else if every_pocket_known(*s) {
            Truth::False
        } else {
            Truth::Unknown
        }),
{
    let a = s.saved.pocket(Pocket::Items);
    let b = s.saved.pocket(Pocket::KeyItems);
    let c = s.saved.pocket(Pocket::PokeBalls);
    let d = s.saved.pocket(Pocket::TmCase);
    let e = s.saved.pocket(Pocket::BerryPouch);
    let some = a.is_some() || b.is_some() || c.is_some() || d.is_some() || e.is_some();
    let every = a.is_some() && b.is_some() && c.is_some() && d.is_some() && e.is_some();
    let ghost na = number_known(s.saved.holds(Pocket::Items), item@);
    let ghost nb = number_known(s.saved.holds(Pocket::KeyItems), item@);
    let ghost nc = number_known(s.saved.holds(Pocket::PokeBalls), item@);
    let ghost nd = number_known(s.saved.holds(Pocket::TmCase), item@);
    let have: u64 = count_in(0, a, item, n, Ghost(0));
    let have: u64 = count_in(have, b, item, n, Ghost(na));
    let have: u64 = count_in(have, c, item, n, Ghost(na + nb));
    let have: u64 = count_in(have, d, item, n, Ghost(na + nb + nc));
    let have: u64 = count_in(have, e, item, n, Ghost(na + nb + nc + nd));
    if some && have >= n as u64 {
        Truth::True
    } else if every {
        Truth::False
    } else {
        Truth::Unknown
    }
}

/// What is known of the game, answering predicates.
pub struct StateBelief<'a>(pub &'a GameState);

impl StateBelief<'_> {
    pub fn eval(&self, p: &Predicate) -> (t: Truth)
        ensures
            t == truth_of(*self.0, *p),
    {
        let s = self.0;
        match p {
            Predicate::Flag { name, is } => match fact_value(
                &s.saved.world.flags,
                name.as_str(),
            ) {
                Some(v) => known(Some(v == *is)),
                None => Truth::Unknown,
            },
            Predicate::Var { name, op, value } => match fact_value(
                &s.saved.world.vars,
                name.as_str(),
            ) {
                Some(v) => known(Some(op.holds(v as i64, *value))),
                None => Truth::Unknown,
            },
            Predicate::Visited { map } => known(
                fact_value(&s.saved.world.visited, map.as_str()),
            ),
            Predicate::HasItem { item, n } => item_truth(s, item.as_str(), *n),
            Predicate::PartyHasMove { mv } => match &s.saved.party.value {
                Some(mons) => known(Some(any_knows(mons, mv.as_str()))),
                None => Truth::Unknown,
            },
            Predicate::Badge { n, flag } => match fact_value(
                &s.saved.world.flags,
                flag.as_str(),
            ) {
                Some(v) => known(Some(v)),
                None => match &s.badges.value {
                    Some(badges) => known(Some(badges.len() >= *n as usize)),
                    None => Truth::Unknown,
                },
            },
            Predicate::At { map } => match &s.pose.value {
                Some(p) => known(Some(same(p.map.as_str(), map.as_str()))),
                None => Truth::Unknown,
            },
        }
    }
}

/// A flag and its opposite are never both true, and are unknown together.
pub proof fn a_flag_and_its_opposite(s: GameState, name: String, is: bool)
    ensures
        ({
            let a = truth_of(s, Predicate::Flag { name, is });
            let b = truth_of(s, Predicate::Flag { name, is: !is });
            (a == Truth::Unknown <==> b == Truth::Unknown) && (a == Truth::True <==> b
                == Truth::False)
        }),
{
}

/// An item is known to be missing only where every pocket is known.
pub proof fn an_item_is_missing_only_where_all_is_known(s: GameState, item: String, n: u32)
    ensures
        truth_of(s, Predicate::HasItem { item, n }) == Truth::False ==> every_pocket_known(s),
        truth_of(s, Predicate::HasItem { item, n }) == Truth::True ==> some_pocket_known(s),
{
}

} // verus!
