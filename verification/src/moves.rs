//! Which move to forget when a Pokémon with four moves learns a new one.
//!
//! Candidate movesets (keep the current four, or replace one slot with the
//! new move) are ranked by, in order:
//! 1. the total win probability against the upcoming trainers, as evaluated;
//! 2. raw damage value (power × accuracy, STAB counted): the evaluation
//!    ignores PP, so a damaging move is never traded for a status move
//!    unless that wins battles;
//! 3. status utility (the evaluation only models damage): sleep > paralysis >
//!    poison / Leech Seed > stat drops;
//! 4. keeping the current moves, then forgetting the earliest slot.

use vstd::prelude::*;

use crate::gamedata::{GameData, MoveData};
use crate::observe::lines_of;
use crate::party::{copy_lines, Member};
use crate::text::{ends, ends_with, same};

verus! {

#[derive(Debug, Clone, Copy, PartialEq, Eq, Structural)]
pub enum LearnChoice {
    /// Forget the move in this slot (menu order) for the new one.
    Forget(usize),
    /// Don't learn the new move.
    Skip,
}

/// What a status effect is worth.
pub open spec fn effect_worth(effect: Seq<char>) -> nat {
    if effect == "EFFECT_SLEEP"@ {
        4
    } else if effect == "EFFECT_PARALYZE"@ {
        3
    } else if effect == "EFFECT_POISON"@ || effect == "EFFECT_TOXIC"@ || effect
        == "EFFECT_LEECH_SEED"@ {
        2
    } else if ends(effect, "_DOWN"@) || ends(effect, "_DOWN_2"@) {
        1
    } else {
        0
    }
}

fn effect_value(effect: &str) -> (n: u64)
    ensures
        n == effect_worth(effect@),
        n <= 4,
{
    if same(effect, "EFFECT_SLEEP") {
        4
    } else if same(effect, "EFFECT_PARALYZE") {
        3
    } else if same(effect, "EFFECT_POISON") || same(effect, "EFFECT_TOXIC") || same(
        effect,
        "EFFECT_LEECH_SEED",
    ) {
        2
    } else if ends_with(effect, "_DOWN") || ends_with(effect, "_DOWN_2") {
        1
    } else {
        0
    }
}

/// The types of a species; none where it is unknown.
pub open spec fn types_of(data: GameData, species: Seq<char>) -> Seq<Seq<char>> {
    match data.species_of(species) {
        Some(s) => lines_of(s.types@),
        None => Seq::empty(),
    }
}

/// The move's type is one of the species' own.
pub open spec fn same_type(data: GameData, species: Seq<char>, mv: MoveData) -> bool {
    mv.kind is Some && types_of(data, species).contains(mv.kind->0@)
}

/// Power × accuracy, half as much again for a move of the species' own type.
pub open spec fn damage_worth(data: GameData, species: Seq<char>, mv: MoveData) -> nat {
    let d = (mv.power * mv.accuracy) as nat;
    if same_type(data, species, mv) {
        d * 3 / 2
    } else {
        d
    }
}

fn is_same_type(data: &GameData, species: &str, mv: &MoveData) -> (r: bool)
    ensures
        r == same_type(*data, species@, *mv),
{
    let kind = match &mv.kind {
        Some(k) => k,
        None => {
            return false;
        },
    };
    let s = match data.species(species) {
        Some(s) => s,
        None => {
            return false;
        },
    };
    let ghost types = types_of(*data, species@);
    let mut i: usize = 0;
    while i < s.types.len()
        invariant
            i <= s.types@.len(),
            types == lines_of(s.types@),
            types == types_of(*data, species@),
            mv.kind == Some(*kind),
            forall|j: int| 0 <= j < i ==> types[j] != kind@,
        decreases s.types@.len() - i,
    {
        if s.types[i] == *kind {
            assert(types[i as int] == kind@);
            return true;
        }
        i += 1;
    }
    false
}

/// (win probability total in millionths, damage value, status utility).
pub struct Worth {
    pub wins: int,
    pub damage: nat,
    pub utility: nat,
}

/// The damage value of the moves that the data knows.
pub open spec fn damage_sum(data: GameData, species: Seq<char>, moves: Seq<Seq<char>>) -> nat
    decreases moves.len(),
{
    if moves.len() == 0 {
        0
    } else {
        damage_sum(data, species, moves.drop_last()) + match data.move_of(moves.last()) {
            Some(m) => damage_worth(data, species, m),
            None => 0,
        }
    }
}

/// The status utility of the moves that the data knows.
pub open spec fn utility_sum(data: GameData, moves: Seq<Seq<char>>) -> nat
    decreases moves.len(),
{
    if moves.len() == 0 {
        0
    } else {
        utility_sum(data, moves.drop_last()) + match data.move_of(moves.last()) {
            Some(m) => match m.effect {
                Some(e) => effect_worth(e@),
                None => effect_worth(""@),
            },
            None => 0,
        }
    }
}

/// The evaluated win probability at a place of the list; none counts as 0.
pub open spec fn wins_at(wins: Seq<i64>, i: int) -> int {
    if 0 <= i < wins.len() {
        wins[i] as int
    } else {
        0
    }
}

pub open spec fn worth(data: GameData, species: Seq<char>, moves: Seq<Seq<char>>, wins: int) -> Worth {
    Worth {
        wins,
        damage: damage_sum(data, species, moves),
        utility: utility_sum(data, moves),
    }
}

impl Worth {
    /// Better, by the first of the three that differs.
    pub open spec fn beats(self, other: Worth) -> bool {
        self.wins > other.wins || (self.wins == other.wins && (self.damage > other.damage || (
        self.damage == other.damage && self.utility > other.utility)))
    }
}

/// The moveset with the new move in this slot.
pub open spec fn replaced(moves: Seq<Seq<char>>, slot: int, new_move: Seq<char>) -> Seq<Seq<char>> {
    moves.update(slot, new_move)
}

/// The worth of a choice. `wins` holds the evaluation of the current moves,
/// then of the new move in each slot in turn.
pub open spec fn choice_worth(
    data: GameData,
    member: Member,
    new_move: Seq<char>,
    wins: Seq<i64>,
    choice: LearnChoice,
) -> Worth {
    let moves = lines_of(member.moves@);
    match choice {
        LearnChoice::Skip => worth(data, member.species@, moves, wins_at(wins, 0)),
        LearnChoice::Forget(slot) => worth(
            data,
            member.species@,
            replaced(moves, slot as int, new_move),
            wins_at(wins, slot + 1),
        ),
    }
}

/// The best choice among keeping the moves and forgetting one of the first
/// `n`; the earlier of two that are worth the same.
pub open spec fn best_of(
    data: GameData,
    member: Member,
    new_move: Seq<char>,
    wins: Seq<i64>,
    n: nat,
) -> LearnChoice
    decreases n,
{
    if n == 0 {
        LearnChoice::Skip
    } else {
        let before = best_of(data, member, new_move, wins, (n - 1) as nat);
        let next = LearnChoice::Forget((n - 1) as usize);
        if choice_worth(data, member, new_move, wins, next).beats(
            choice_worth(data, member, new_move, wins, before),
        ) {
            next
        } else {
            before
        }
    }
}

/// What to do about a new move.
pub open spec fn best_choice(data: GameData, member: Member, new_move: Seq<char>, wins: Seq<i64>)
    -> LearnChoice {
    best_of(data, member, new_move, wins, member.moves@.len())
}

/// The damage value and the status utility of a moveset.
fn value(data: &GameData, species: &str, moves: &Vec<String>) -> (r: (u64, u64))
    requires
        moves@.len() <= u32::MAX,
    ensures
        r.0 == damage_sum(*data, species@, lines_of(moves@)),
        r.1 == utility_sum(*data, lines_of(moves@)),
{
    let mut damage: u64 = 0;
    let mut utility: u64 = 0;
    let ghost all = lines_of(moves@);
    let mut i: usize = 0;
    assert(all.take(0) =~= Seq::empty());
    while i < moves.len()
        invariant
            i <= moves@.len() <= u32::MAX,
            all == lines_of(moves@),
            damage <= i * 97538,
            utility <= i * 4,
            damage == damage_sum(*data, species@, all.take(i as int)),
            utility == utility_sum(*data, all.take(i as int)),
        decreases moves@.len() - i,
    {
        assert(all.take(i + 1).drop_last() =~= all.take(i as int));
        assert(all.take(i + 1).last() == moves@[i as int]@);
        match data.move_(&moves[i]) {
            Some(mv) => {
                utility += match &mv.effect {
                    Some(e) => effect_value(e),
                    None => effect_value(""),
                };
                assert(mv.power * mv.accuracy <= 65025) by (nonlinear_arith)
                    requires
                        mv.power <= 255,
                        mv.accuracy <= 255,
                ;
                let d: u64 = mv.power as u64 * mv.accuracy as u64;
                damage += if is_same_type(data, species, mv) {
                    d * 3 / 2
                } else {
                    d
                };
            },
            None => {},
        }
        i += 1;
    }
    assert(all.take(moves@.len() as int) =~= all);
    (damage, utility)
}

fn win_value(wins: &Vec<i64>, i: usize) -> (n: i64)
    ensures
        n == wins_at(wins@, i as int),
{
    if i < wins.len() {
        wins[i]
    } else {
        0
    }
}

/// Decides what `member` (four moves known) does about `new_move`. `wins`
/// holds the evaluated win probability in millionths: of the current moves,
/// then of the new move in each slot in turn.
pub fn choose_slot(data: &GameData, member: &Member, new_move: &str, wins: &Vec<i64>) -> (c: LearnChoice)
    requires
        member.moves@.len() <= u32::MAX,
    ensures
        c == best_choice(*data, *member, new_move@, wins@),
{
    let mut best = LearnChoice::Skip;
    let mut best_wins: i64 = win_value(wins, 0);
    let mut best_value = value(data, &member.species, &member.moves);
    let mut slot: usize = 0;
    while slot < member.moves.len()
        invariant
            slot <= member.moves@.len() <= u32::MAX,
            best == best_of(*data, *member, new_move@, wins@, slot as nat),
            choice_worth(*data, *member, new_move@, wins@, best) == (Worth {
                wins: best_wins as int,
                damage: best_value.0 as nat,
                utility: best_value.1 as nat,
            }),
        decreases member.moves@.len() - slot,
    {
        let mut moves = copy_lines(&member.moves);
        moves.set(slot, new_move.to_owned());
        assert(lines_of(moves@) =~= replaced(lines_of(member.moves@), slot as int, new_move@));
        let v = value(data, &member.species, &moves);
        let w = win_value(wins, slot + 1);
        if w > best_wins || (w == best_wins && (v.0 > best_value.0 || (v.0 == best_value.0 && v.1
            > best_value.1))) {
            best = LearnChoice::Forget(slot);
            best_wins = w;
            best_value = v;
        }
        slot += 1;
    }
    best
}

/// No choice beats the one made, and keeping the moves, or an earlier slot,
/// wins a tie.
pub proof fn nothing_beats_the_choice(
    data: GameData,
    member: Member,
    new_move: Seq<char>,
    wins: Seq<i64>,
    n: nat,
)
    requires
        n <= usize::MAX,
    ensures
        ({
            let best = best_of(data, member, new_move, wins, n);
            let best_worth = choice_worth(data, member, new_move, wins, best);
            &&& !choice_worth(data, member, new_move, wins, LearnChoice::Skip).beats(best_worth)
            &&& forall|slot: usize|
                slot < n ==> !(#[trigger] choice_worth(
                    data,
                    member,
                    new_move,
                    wins,
                    LearnChoice::Forget(slot),
                )).beats(best_worth)
            &&& best is Forget ==> best->Forget_0 < n
            &&& best matches LearnChoice::Forget(slot) ==> best_worth.beats(
                choice_worth(data, member, new_move, wins, LearnChoice::Skip),
            ) && forall|earlier: usize|
                earlier < slot ==> best_worth.beats(
                    #[trigger] choice_worth(
                        data,
                        member,
                        new_move,
                        wins,
                        LearnChoice::Forget(earlier),
                    ),
                )
        }),
    decreases n,
{
    if n > 0 {
        nothing_beats_the_choice(data, member, new_move, wins, (n - 1) as nat);
    }
}

/// A forgotten slot is one the member has.
pub proof fn a_forgotten_slot_exists(
    data: GameData,
    member: Member,
    new_move: Seq<char>,
    wins: Seq<i64>,
)
    requires
        member.moves@.len() <= usize::MAX,
    ensures
        best_choice(data, member, new_move, wins) matches LearnChoice::Forget(slot) ==> slot
            < member.moves@.len(),
{
    nothing_beats_the_choice(data, member, new_move, wins, member.moves@.len());
}

} // verus!
