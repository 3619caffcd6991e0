//! What is known of the party, kept up to date from what shows (battle HUD:
//! name, level, HP) and from game data.

use vstd::prelude::*;

use crate::event::{events_of, report, text_of, GameEvent, GameEventV};
use crate::gamedata::GameData;
use crate::observe::{lines_of, BattleMenu, BattleObservation};
use crate::state::{GameState, MoveSlot, PartyMon};
use crate::text::{
    chars, cut_end, cut_start, same, swap, swapped, trim_end_matches, trim_start_matches,
};

verus! {

#[derive(Debug, Clone, PartialEq, Eq)]
pub struct Member {
    /// Party slot (0 = lead).
    pub slot: u8,
    pub species: String,
    pub level: u8,
    /// Moves in menu order (the order they were learned).
    pub moves: Vec<String>,
    /// Current and maximum HP, when last seen.
    pub hp: Option<(u16, u16)>,
    /// PP spent per move since the last full heal; the last entry of a move
    /// counts.
    pub pp_used: Vec<(String, u8)>,
    /// Attack, Defense, Speed, Sp. Atk, Sp. Def as read on the summary's
    /// Skills page (perhaps at an earlier level: see [`Member::stats`]).
    pub read_stats: Option<[u16; 5]>,
    /// Ability as the summary prints it (`OVERGROW`).
    pub ability: Option<String>,
}

/// PP spent on a move.
pub open spec fn spent(used: Seq<(String, u8)>, mv: Seq<char>) -> u8
    decreases used.len(),
{
    if used.len() == 0 {
        0
    } else if used.last().0@ == mv {
        used.last().1
    } else {
        spent(used.drop_last(), mv)
    }
}

pub open spec fn max_pp(data: GameData, mv: Seq<char>) -> u8 {
    match data.move_of(mv) {
        Some(m) => m.pp,
        None => 0,
    }
}

/// A move that does damage.
pub open spec fn damages(data: GameData, mv: Seq<char>) -> bool {
    match data.move_of(mv) {
        Some(m) => m.power > 0,
        None => false,
    }
}

pub(crate) fn max_pp_of(data: &GameData, mv: &str) -> (r: u8)
    ensures
        r == max_pp(*data, mv@),
{
    match data.move_(mv) {
        Some(m) => m.pp,
        None => 0,
    }
}

pub(crate) fn is_damaging(data: &GameData, mv: &str) -> (r: bool)
    ensures
        r == damages(*data, mv@),
{
    match data.move_(mv) {
        Some(m) => m.power > 0,
        None => false,
    }
}

/// Subtraction that stops at 0.
pub open spec fn less(a: u8, b: u8) -> u8 {
    if a >= b {
        (a - b) as u8
    } else {
        0
    }
}

/// The least and the most that a stat can be at a level: IVs 0–31, any EVs and
/// a nature.
pub open spec fn stat_range(base: u8, level: u8) -> (int, int) {
    (
        ((2 * base) * level / 100 + 5) * 9 / 10,
        ((2 * base + 31 + 63) * level / 100 + 5) * 11 / 10,
    )
}

impl Member {
    /// A freshly obtained Pokémon at `level` with these moves.
    pub fn new(species: &str, level: u8, moves: Vec<String>) -> (m: Member)
        ensures
            m.slot == 0,
            m.species@ == species@,
            m.level == level,
            m.moves == moves,
            m.hp is None,
            m.pp_used@.len() == 0,
            m.read_stats is None,
            m.ability is None,
    {
        Member {
            slot: 0,
            species: species.to_owned(),
            level,
            moves,
            hp: None,
            pp_used: Vec::new(),
            read_stats: None,
            ability: None,
        }
    }

    /// Every stat read can be one of this species at this level.
    pub open spec fn plausible_stats(self, base: Seq<u8>) -> bool {
        forall|i: int|
            0 <= i < 5 ==> stat_range(base[i + 1], self.level).0 <= (#[trigger] self.read_stats->0@[i])
                <= stat_range(base[i + 1], self.level).1
    }

    /// The stats are what was read, with the HP before them, where it can be true.
    pub open spec fn has_stats(self, data: GameData, r: Option<[u32; 6]>) -> bool {
        &&& r is Some <==> self.read_stats is Some && self.hp is Some && data.species_of(
            self.species@,
        ) is Some && self.plausible_stats(data.species_of(self.species@)->0.base@)
        &&& r matches Some(s) ==> s[0] == (self.hp->0).1 && forall|i: int|
            0 <= i < 5 ==> s@[i + 1] == #[trigger] self.read_stats->0@[i]
    }

    /// Battle stats (HP, Atk, Def, Spe, SpA, SpD) from the summary's
    /// reading and the maximum HP, when all are known and plausible at the
    /// current level: each within what IVs 0–31, any EVs and a nature
    /// allow. A reading from before a level-up falls out of the range and
    /// counts as unknown.
    pub fn stats(&self, data: &GameData) -> (r: Option<[u32; 6]>)
        ensures
            self.has_stats(*data, r),
    {
        let read = match &self.read_stats {
            Some(read) => read,
            None => {
                return None;
            },
        };
        let hp = match self.hp {
            Some(hp) => hp,
            None => {
                return None;
            },
        };
        let species = match data.species(&self.species) {
            Some(s) => s,
            None => {
                return None;
            },
        };
        let level: u32 = self.level as u32;
        let mut i: usize = 0;
        while i < 5
            invariant
                i <= 5,
                self.read_stats == Some(*read),
                data.species_of(self.species@) == Some(*species),
                level == self.level,
                forall|k: int|
                    0 <= k < i ==> stat_range(species.base@[k + 1], self.level).0 <= (
                    #[trigger] self.read_stats->0@[k]) <= stat_range(
                        species.base@[k + 1],
                        self.level,
                    ).1,
            decreases 5 - i,
        {
            let b: u32 = species.base[i + 1] as u32;
            assert((2 * b) * level <= 130050 && (2 * b + 94) * level <= 154020) by (nonlinear_arith)
                requires
                    b <= 255,
                    level <= 255,
            ;
            let low: u32 = ((2 * b) * level / 100 + 5) * 9 / 10;
            let high: u32 = ((2 * b + 31 + 63) * level / 100 + 5) * 11 / 10;
            let v: u32 = read[i] as u32;
            if v < low || v > high {
                assert(!(stat_range(species.base@[i + 1], self.level).0
                    <= self.read_stats->0@[i as int] <= stat_range(
                    species.base@[i + 1],
                    self.level,
                ).1));
                return None;
            }
            i += 1;
        }
        Some(
            [
                hp.1 as u32,
                read[0] as u32,
                read[1] as u32,
                read[2] as u32,
                read[3] as u32,
                read[4] as u32,
            ],
        )
    }

    /// Name as the game prints it (`SPECIES_BULBASAUR` → `BULBASAUR`).
    pub fn display_name(&self) -> (s: String)
        ensures
            s@ == displayed(self.species@),
    {
        display_name(&self.species)
    }

    /// PP that a move has left.
    pub open spec fn left(self, data: GameData, mv: Seq<char>) -> u8 {
        less(max_pp(data, mv), spent(self.pp_used@, mv))
    }

    pub fn pp_left(&self, data: &GameData, mv: &str) -> (r: u8)
        ensures
            r == self.left(*data, mv@),
    {
        let max = max_pp_of(data, mv);
        let used = self.used(mv);
        if max >= used {
            max - used
        } else {
            0
        }
    }

    fn used(&self, mv: &str) -> (r: u8)
        ensures
            r == spent(self.pp_used@, mv@),
    {
        let mut i: usize = self.pp_used.len();
        assert(self.pp_used@.take(i as int) =~= self.pp_used@);
        while i > 0
            invariant
                i <= self.pp_used@.len(),
                spent(self.pp_used@, mv@) == spent(self.pp_used@.take(i as int), mv@),
            decreases i,
        {
            i -= 1;
            let ghost shorter = self.pp_used@.take(i + 1);
            assert(shorter.last() == self.pp_used@[i as int]);
            assert(shorter.drop_last() =~= self.pp_used@.take(i as int));
            if same(&self.pp_used[i].0, mv) {
                return self.pp_used[i].1;
            }
        }
        0
    }

    /// PP that wild battles may spend on one move.
    pub open spec fn wild_pp(self, data: GameData, reserve: u8, mv: Seq<char>) -> nat {
        if !damages(data, mv) {
            0
        } else if max_pp(data, mv) >= 30 {
            self.left(data, mv) as nat
        } else {
            less(self.left(data, mv), reserve) as nat
        }
    }

    /// PP that wild battles may spend on the first `n` moves.
    pub open spec fn wild_pp_sum(self, data: GameData, reserve: u8, n: nat) -> nat
        decreases n,
    {
        if n == 0 {
            0
        } else {
            self.wild_pp_sum(data, reserve, (n - 1) as nat) + self.wild_pp(
                data,
                reserve,
                self.moves@[n - 1]@,
            )
        }
    }

    /// PP that wild battles may spend on damaging moves: moves with 30+ PP
    /// in full, others above the reserve kept for trainers.
    pub fn wild_attack_pp(&self, data: &GameData, reserve: u8) -> (r: u32)
        requires
            self.moves@.len() * 255 <= u32::MAX,
        ensures
            r == self.wild_pp_sum(*data, reserve, self.moves@.len()),
    {
        let mut sum: u32 = 0;
        let mut i: usize = 0;
        while i < self.moves.len()
            invariant
                i <= self.moves@.len(),
                self.moves@.len() * 255 <= u32::MAX,
                sum <= i * 255,
                sum == self.wild_pp_sum(*data, reserve, i as nat),
            decreases self.moves@.len() - i,
        {
            let mv = &self.moves[i];
            if is_damaging(data, mv) {
                let left = self.pp_left(data, mv);
                let part: u8 = if max_pp_of(data, mv) >= 30 {
                    left
                } else if left >= reserve {
                    left - reserve
                } else {
                    0
                };
                sum += part as u32;
            }
            i += 1;
        }
        sum
    }

    pub open spec fn healed_from(self, before: Member) -> bool {
        &&& self.hp == match before.hp {
            Some(hp) => Some((hp.1, hp.1)),
            None => None::<(u16, u16)>,
        }
        &&& self.pp_used@.len() == 0
        &&& self.slot == before.slot
        &&& self.species == before.species
        &&& self.level == before.level
        &&& self.moves == before.moves
        &&& self.read_stats == before.read_stats
        &&& self.ability == before.ability
    }

    /// Full HP and full PP.
    pub fn heal(&mut self)
        ensures
            final(self).healed_from(*old(self)),
    {
        self.hp = match self.hp {
            Some(hp) => Some((hp.1, hp.1)),
            None => None,
        };
        self.pp_used.clear();
    }

    /// A healed member has every move's PP.
    pub proof fn healed_means_full_pp(self, data: GameData, mv: Seq<char>)
        requires
            self.pp_used@.len() == 0,
        ensures
            self.left(data, mv) == max_pp(data, mv),
    {
    }
}

/// The name the game prints for a species constant.
pub open spec fn displayed(species: Seq<char>) -> Seq<char> {
    swapped(cut_end(cut_end(cut_start(species, "SPECIES_"@), "_M"@), "_F"@), '_', ' ')
}

pub fn display_name(species: &str) -> (s: String)
    ensures
        s@ == displayed(species@),
{
    let name = trim_start_matches(species, "SPECIES_");
    let name = trim_end_matches(trim_end_matches(name, "_M"), "_F");
    proof {
        reveal_strlit(" ");
    }
    swap(name, '_', " ")
}

#[derive(Debug, Clone, PartialEq, Eq)]
pub struct Party {
    pub members: Vec<Member>,
}

impl Default for Party {
    fn default() -> (p: Party)
        ensures
            p.members@.len() == 0,
    {
        Party { members: Vec::new() }
    }
}

/// The names of the filled move slots, in order; `?` for an unknown move.
pub open spec fn slot_names(slots: Seq<Option<MoveSlot>>) -> Seq<Seq<char>>
    decreases slots.len(),
{
    if slots.len() == 0 {
        Seq::empty()
    } else {
        let rest = slot_names(slots.drop_last());
        match slots.last() {
            Some(s) => rest.push(
                match s.mv.value {
                    Some(mv) => mv@,
                    None => "?"@,
                },
            ),
            None => rest,
        }
    }
}

/// PP spent of the moves whose name and PP are known, in order.
pub open spec fn slot_spent(slots: Seq<Option<MoveSlot>>) -> Seq<(Seq<char>, u8)>
    decreases slots.len(),
{
    if slots.len() == 0 {
        Seq::empty()
    } else {
        let rest = slot_spent(slots.drop_last());
        match slots.last() {
            Some(s) => if s.mv.value is Some && s.pp.value is Some {
                let pp = s.pp.value->0;
                rest.push((s.mv.value->0@, less(pp.1, pp.0)))
            } else {
                rest
            },
            None => rest,
        }
    }
}

pub open spec fn spent_of(used: Seq<(String, u8)>) -> Seq<(Seq<char>, u8)> {
    used.map_values(|u: (String, u8)| (u.0@, u.1))
}

/// The five stats that the summary prints, when all are known.
pub open spec fn stats_known(mon: PartyMon) -> Option<Seq<u16>> {
    let d = mon.details;
    if d.attack.value is Some && d.defense.value is Some && d.speed.value is Some
        && d.sp_attack.value is Some && d.sp_defense.value is Some {
        Some(
            seq![
                d.attack.value->0,
                d.defense.value->0,
                d.speed.value->0,
                d.sp_attack.value->0,
                d.sp_defense.value->0,
            ],
        )
    } else {
        None
    }
}

impl Member {
    /// The member says what is known of `mon`, a party member with a known
    /// species.
    pub open spec fn describes(self, mon: PartyMon, slot: int) -> bool {
        &&& mon.species.value is Some
        &&& self.slot == slot as u8
        &&& self.species@ == mon.species.value->0@
        &&& self.level == match mon.level.value {
            Some(l) => l,
            None => 0,
        }
        &&& lines_of(self.moves@) == slot_names(mon.moves@)
        &&& self.hp == mon.hp.value
        &&& spent_of(self.pp_used@) == slot_spent(mon.moves@)
        &&& match self.read_stats {
            Some(s) => stats_known(mon) == Some(s@),
            None => stats_known(mon) is None,
        }
        &&& text_of(self.ability) == text_of(mon.details.ability.value)
    }
}

/// The Pokémon of the party, as far as it is known.
pub open spec fn mons_in(state: GameState) -> Seq<PartyMon> {
    match state.saved.party.value {
        Some(mons) => mons@,
        None => Seq::empty(),
    }
}

/// The places of the party members with a known species, in order.
pub open spec fn known_slots(mons: Seq<PartyMon>) -> Seq<int>
    decreases mons.len(),
{
    if mons.len() == 0 {
        Seq::empty()
    } else {
        let rest = known_slots(mons.drop_last());
        if mons.last().species.value is Some {
            rest.push(mons.len() - 1)
        } else {
            rest
        }
    }
}

fn member_of(mon: &PartyMon, species: &str, slot: usize) -> (m: Member)
    requires
        mon.species.value is Some && mon.species.value->0@ == species@,
    ensures
        m.describes(*mon, slot as int),
{
    let mut moves: Vec<String> = Vec::new();
    let mut pp_used: Vec<(String, u8)> = Vec::new();
    let mut i: usize = 0;
    let ghost slots = mon.moves@;
    assert(slots.take(0) =~= Seq::empty());
    assert(lines_of(moves@) =~= Seq::empty());
    assert(spent_of(pp_used@) =~= Seq::empty());
    while i < 4
        invariant
            i <= 4,
            slots == mon.moves@,
            slots.len() == 4,
            lines_of(moves@) == slot_names(slots.take(i as int)),
            spent_of(pp_used@) == slot_spent(slots.take(i as int)),
        decreases 4 - i,
    {
        assert(slots.take(i + 1).drop_last() =~= slots.take(i as int));
        assert(slots.take(i + 1).last() == slots[i as int]);
        let ghost moves_before = moves@;
        let ghost used_before = pp_used@;
        match &mon.moves[i] {
            Some(s) => {
                match &s.mv.value {
                    Some(mv) => {
                        moves.push(mv.clone());
                        assert(lines_of(moves@) =~= lines_of(moves_before).push(mv@));
                        match s.pp.value {
                            Some(pp) => {
                                let left: u8 = if pp.1 >= pp.0 {
                                    pp.1 - pp.0
                                } else {
                                    0
                                };
                                pp_used.push((mv.clone(), left));
                                assert(spent_of(pp_used@) =~= spent_of(used_before).push(
                                    (mv@, left),
                                ));
                            },
                            None => {},
                        }
                    },
                    None => {
                        moves.push("?".to_owned());
                        assert(lines_of(moves@) =~= lines_of(moves_before).push("?"@));
                    },
                }
            },
            None => {},
        }
        i += 1;
    }
    assert(slots.take(4) =~= slots);
    let d = &mon.details;
    let read_stats: Option<[u16; 5]> = match (
        d.attack.value,
        d.defense.value,
        d.speed.value,
        d.sp_attack.value,
        d.sp_defense.value,
    ) {
        (Some(a), Some(b), Some(c), Some(e), Some(f)) => {
            let all: [u16; 5] = [a, b, c, e, f];
            assert(all@ =~= seq![a, b, c, e, f]);
            Some(all)
        },
        _ => None,
    };
    Member {
        slot: slot as u8,
        species: species.to_owned(),
        level: match mon.level.value {
            Some(l) => l,
            None => 0,
        },
        moves,
        hp: mon.hp.value,
        pp_used,
        read_stats,
        ability: match &d.ability.value {
            Some(a) => Some(a.clone()),
            None => None,
        },
    }
}

impl Party {
    pub open spec fn leader(self) -> Option<Member> {
        if self.members@.len() > 0 {
            Some(self.members@[0])
        } else {
            None
        }
    }

    pub fn lead(&self) -> (r: Option<&Member>)
        ensures
            match r {
                Some(m) => self.leader() == Some(*m),
                None => self.leader() is None,
            },
    {
        if self.members.len() > 0 {
            Some(&self.members[0])
        } else {
            None
        }
    }

    /// The members are those of the Pokémon with a known species, in order.
    pub open spec fn is_of(self, mons: Seq<PartyMon>) -> bool {
        &&& self.members@.len() == known_slots(mons).len()
        &&& forall|i: int|
            0 <= i < self.members@.len() ==> (#[trigger] self.members@[i]).describes(
                mons[known_slots(mons)[i]],
                known_slots(mons)[i],
            )
    }

    /// The party as the state knows it (members with a known species).
    pub fn from_state(state: &GameState) -> (p: Party)
        ensures
            p.is_of(mons_in(*state)),
    {
        let mut members: Vec<Member> = Vec::new();
        match &state.saved.party.value {
            Some(mons) => {
                let mut i: usize = 0;
                let ghost all = mons@;
                assert(all.take(0) =~= Seq::empty());
                while i < mons.len()
                    invariant
                        i <= mons@.len(),
                        all == mons@,
                        members@.len() == known_slots(all.take(i as int)).len(),
                        forall|k: int|
                            0 <= k < members@.len() ==> (#[trigger] members@[k]).describes(
                                all[known_slots(all.take(i as int))[k]],
                                known_slots(all.take(i as int))[k],
                            ),
                    decreases mons@.len() - i,
                {
                    assert(all.take(i + 1).drop_last() =~= all.take(i as int));
                    assert(all.take(i + 1).last() == all[i as int]);
                    match &mons[i].species.value {
                        Some(species) => members.push(member_of(&mons[i], species, i)),
                        None => {},
                    }
                    i += 1;
                }
                assert(all.take(mons@.len() as int) =~= all);
            },
            None => {},
        }
        Party { members }
    }
}

/// An HP reading that an ordinary Pokémon of this level can have.
pub open spec fn hp_plausible(read: (u16, u16), level: u8) -> bool {
    read.0 <= read.1 && read.1 >= level + 10
}

/// An HP reading that this species can have at this level.
pub open spec fn hp_plausible_for(
    read: (u16, u16),
    level: u8,
    species: Option<Seq<char>>,
) -> bool {
    hp_plausible(read, level) || (species == Some("SPECIES_SHEDINJA"@) && read.1 == 1 && read.0
        <= 1)
}

/// Reject impossible HUD totals before they can overwrite the party belief.
/// Ordinary Pokémon have at least level + 10 HP; use `plausible_hp_for`
/// when species is known so Shedinja's one HP is handled correctly.
/// Hardware readings have shown `22` as `2`, including on a nearly fainted lead.
pub fn plausible_hp(read: (u16, u16), level: u8) -> (r: bool)
    ensures
        r == hp_plausible(read, level),
{
    read.0 <= read.1 && read.1 >= level as u16 + 10
}

/// Species-aware validation, including Shedinja's fixed one HP.
pub fn plausible_hp_for(read: (u16, u16), level: u8, species: Option<&str>) -> (r: bool)
    ensures
        r == hp_plausible_for(
            read,
            level,
            match species {
                Some(s) => Some(s@),
                None => None,
            },
        ),
{
    plausible_hp(read, level) || match species {
        Some(s) => same(s, "SPECIES_SHEDINJA") && read.1 == 1 && read.0 <= 1,
        None => false,
    }
}

/// `read` could be `name`, with `?` for unrecognised letters; both take up as
/// many bytes.
pub open spec fn name_matches(name: Seq<char>, read: Seq<char>) -> bool {
    &&& vstd::utf8::encode_utf8(name).len() as usize == vstd::utf8::encode_utf8(read).len() as usize
    &&& forall|i: int|
        0 <= i < name.len() && i < read.len() ==> #[trigger] read[i] == '?' || read[i] == name[i]
}

/// `read` may contain `?` for unrecognised letters.
pub fn names_match(name: &str, read: &str) -> (r: bool)
    ensures
        r == name_matches(name@, read@),
{
    if name.len() != read.len() {
        return false;
    }
    let a = chars(name);
    let b = chars(read);
    let mut i: usize = 0;
    while i < a.len() && i < b.len()
        invariant
            i <= a@.len(),
            i <= b@.len(),
            a@ == name@,
            b@ == read@,
            forall|k: int| 0 <= k < i ==> #[trigger] b@[k] == '?' || b@[k] == a@[k],
        decreases a@.len() - i,
    {
        if b[i] != '?' && b[i] != a[i] {
            return false;
        }
        i += 1;
    }
    true
}

/// A name that was read without a fault matches itself.
pub proof fn a_name_matches_itself(name: Seq<char>)
    ensures
        name_matches(name, name),
{
}

/// The species that a species evolves into.
pub open spec fn evolutions_of(data: GameData, species: Seq<char>) -> Seq<Seq<char>> {
    match data.species_of(species) {
        Some(s) => lines_of(s.evolutions@),
        None => Seq::empty(),
    }
}

/// The species that some species evolve into, in order.
pub open spec fn next_generation(data: GameData, generation: Seq<Seq<char>>) -> Seq<Seq<char>>
    decreases generation.len(),
{
    if generation.len() == 0 {
        Seq::empty()
    } else {
        next_generation(data, generation.drop_last()) + evolutions_of(data, generation.last())
    }
}

/// The first species whose printed name matches `read`.
pub open spec fn first_match(generation: Seq<Seq<char>>, read: Seq<char>) -> Option<Seq<char>>
    decreases generation.len(),
{
    if generation.len() == 0 {
        None
    } else {
        match first_match(generation.drop_last(), read) {
            Some(species) => Some(species),
            None => if name_matches(displayed(generation.last()), read) {
                Some(generation.last())
            } else {
                None
            },
        }
    }
}

/// The first species whose printed name matches `read` among these, then
/// among what they evolve into, and so on for `depth` generations.
pub open spec fn seen(
    data: GameData,
    generation: Seq<Seq<char>>,
    read: Seq<char>,
    depth: nat,
) -> Option<Seq<char>>
    decreases depth,
{
    if depth == 0 {
        None
    } else {
        match first_match(generation, read) {
            Some(species) => Some(species),
            None => seen(data, next_generation(data, generation), read, (depth - 1) as nat),
        }
    }
}

/// `species` itself or the evolution of it whose name matches `read`. No line
/// of evolutions is longer than the species there are.
pub open spec fn explained(data: GameData, species: Seq<char>, read: Seq<char>) -> Option<
    Seq<char>,
> {
    seen(data, seq![species], read, data.species@.len() + 1)
}

proof fn nothing_to_see(data: GameData, read: Seq<char>, depth: nat)
    ensures
        seen(data, Seq::empty(), read, depth) is None,
    decreases depth,
{
    if depth > 0 {
        nothing_to_see(data, read, (depth - 1) as nat);
    }
}

fn add_evolutions(data: &GameData, species: &str, into: &mut Vec<String>)
    ensures
        lines_of(final(into)@) == lines_of(old(into)@) + evolutions_of(*data, species@),
{
    let ghost before = into@;
    match data.species(species) {
        Some(s) => {
            let mut i: usize = 0;
            assert(into@ =~= before + s.evolutions@.take(0));
            while i < s.evolutions.len()
                invariant
                    i <= s.evolutions@.len(),
                    into@ == before + s.evolutions@.take(i as int),
                decreases s.evolutions@.len() - i,
            {
                into.push(s.evolutions[i].clone());
                i += 1;
                assert(into@ =~= before + s.evolutions@.take(i as int));
            }
            assert(lines_of(into@) =~= lines_of(before) + evolutions_of(*data, species@));
        },
        None => {
            assert(lines_of(into@) =~= lines_of(before) + evolutions_of(*data, species@));
        },
    }
}

/// `species` itself or the evolution of it whose name matches `read`.
fn seen_as(data: &GameData, species: &str, read: &str) -> (r: Option<String>)
    ensures
        text_of(r) == explained(*data, species@, read@),
{
    let mut generation: Vec<String> = Vec::new();
    generation.push(species.to_owned());
    assert(lines_of(generation@) =~= seq![species@]);
    let total: usize = data.species.len();
    let mut round: usize = 0;
    while round <= total
        invariant
            round <= total + 1,
            total == data.species@.len(),
            explained(*data, species@, read@) == seen(
                *data,
                lines_of(generation@),
                read@,
                (total + 1 - round) as nat,
            ),
        decreases total + 1 - round,
    {
        let ghost all = lines_of(generation@);
        let mut next: Vec<String> = Vec::new();
        let mut i: usize = 0;
        assert(all.take(0) =~= Seq::empty());
        assert(lines_of(next@) =~= Seq::empty());
        if generation.len() == 0 {
            proof {
                assert(all =~= Seq::empty());
                nothing_to_see(*data, read@, (total + 1 - round) as nat);
            }
            return None;
        }
        while i < generation.len()
            invariant
                i <= generation@.len(),
                all == lines_of(generation@),
                round <= total,
                explained(*data, species@, read@) == seen(
                    *data,
                    all,
                    read@,
                    (total + 1 - round) as nat,
                ),
                first_match(all.take(i as int), read@) is None,
                lines_of(next@) == next_generation(*data, all.take(i as int)),
            decreases generation@.len() - i,
        {
            assert(all.take(i + 1).drop_last() =~= all.take(i as int));
            assert(all.take(i + 1).last() == generation@[i as int]@);
            if names_match(display_name(&generation[i]).as_str(), read) {
                proof {
                    first_match_stays(all, read@, i + 1);
                }
                return Some(generation[i].clone());
            }
            add_evolutions(data, &generation[i], &mut next);
            i += 1;
        }
        assert(all.take(generation@.len() as int) =~= all);
        generation = next;
        if round == total {
            assert(seen(*data, lines_of(generation@), read@, 0) is None);
            return None;
        }
        round += 1;
    }
    None
}

proof fn first_match_stays(generation: Seq<Seq<char>>, read: Seq<char>, n: int)
    requires
        0 <= n <= generation.len(),
        first_match(generation.take(n), read) is Some,
    ensures
        first_match(generation, read) == first_match(generation.take(n), read),
    decreases generation.len() - n,
{
    if n == generation.len() {
        assert(generation.take(n) =~= generation);
    } else {
        assert(generation.take(n + 1).drop_last() =~= generation.take(n));
        first_match_stays(generation, read, n + 1);
    }
}

/// The first member that the name on the HUD explains, and its species now.
pub open spec fn member_seen(data: GameData, members: Seq<Member>, read: Seq<char>) -> Option<
    (Member, Seq<char>),
>
    decreases members.len(),
{
    if members.len() == 0 {
        None
    } else {
        match member_seen(data, members.drop_last(), read) {
            Some(found) => Some(found),
            None => match explained(data, members.last().species@, read) {
                Some(species) => Some((members.last(), species)),
                None => None,
            },
        }
    }
}

proof fn member_seen_stays(data: GameData, members: Seq<Member>, read: Seq<char>, n: int)
    requires
        0 <= n <= members.len(),
        member_seen(data, members.take(n), read) is Some,
    ensures
        member_seen(data, members, read) == member_seen(data, members.take(n), read),
    decreases members.len() - n,
{
    if n == members.len() {
        assert(members.take(n) =~= members);
    } else {
        assert(members.take(n + 1).drop_last() =~= members.take(n));
        member_seen_stays(data, members, read, n + 1);
    }
}

fn find_seen(data: &GameData, members: &Vec<Member>, read: &str) -> (r: Option<(usize, String)>)
    ensures
        match r {
            Some(found) => found.0 < members@.len() && member_seen(*data, members@, read@) == Some(
                (members@[found.0 as int], found.1@),
            ),
            None => member_seen(*data, members@, read@) is None,
        },
{
    let mut i: usize = 0;
    assert(members@.take(0) =~= Seq::empty());
    while i < members.len()
        invariant
            i <= members@.len(),
            member_seen(*data, members@.take(i as int), read@) is None,
        decreases members@.len() - i,
    {
        assert(members@.take(i + 1).drop_last() =~= members@.take(i as int));
        assert(members@.take(i + 1).last() == members@[i as int]);
        match seen_as(data, &members[i].species, read) {
            Some(species) => {
                proof {
                    member_seen_stays(*data, members@, read@, i + 1);
                }
                return Some((i, species));
            },
            None => {},
        }
        i += 1;
    }
    assert(members@.take(members@.len() as int) =~= members@);
    None
}

/// The HP reading, where it is possible.
pub open spec fn hp_shown(battle: BattleObservation, member: Member) -> Option<(u16, u16)> {
    let level = match battle.player_level {
        Some(l) => l,
        None => member.level,
    };
    match battle.player_hp_numbers {
        Some(hp) => if hp_plausible_for(hp, level, Some(member.species@)) {
            Some(hp)
        } else {
            None
        },
        None => None,
    }
}

fn read_hp(battle: &BattleObservation, member: &Member) -> (r: Option<(u16, u16)>)
    ensures
        r == hp_shown(*battle, *member),
{
    let level = match battle.player_level {
        Some(l) => l,
        None => member.level,
    };
    match battle.player_hp_numbers {
        Some(hp) => if plausible_hp_for(hp, level, Some(member.species.as_str())) {
            Some(hp)
        } else {
            None
        },
        None => None,
    }
}

/// The level and the HP that the HUD shows and the member does not know yet.
pub open spec fn hud_news(battle: BattleObservation, member: Member) -> Seq<GameEventV> {
    let level = match battle.player_level {
        Some(l) => if l != member.level {
            Some(l)
        } else {
            None
        },
        None => None,
    };
    let hp = match hp_shown(battle, member) {
        Some(hp) => if Some(hp) != member.hp {
            Some(hp)
        } else {
            None
        },
        None => None,
    };
    if level is Some || hp is Some {
        seq![
            GameEventV::PartyObserved { slot: member.slot, species: None, level, hp, status: None },
        ]
    } else {
        Seq::empty()
    }
}

/// A row of the move menu that holds a move.
pub open spec fn filled(name: Seq<char>) -> bool {
    name.len() > 0 && name != "-"@
}

/// The moves of a move menu; `None` where a row does not read as one move.
pub open spec fn moves_read(data: GameData, names: Seq<Seq<char>>) -> Option<Seq<Seq<char>>>
    decreases names.len(),
{
    if names.len() == 0 {
        Some(Seq::empty())
    } else {
        match moves_read(data, names.drop_last()) {
            Some(moves) => if !filled(names.last()) {
                Some(moves)
            } else {
                match data.move_read(names.last()) {
                    Some(m) => Some(moves.push(m.key@)),
                    None => None,
                }
            },
            None => None,
        }
    }
}

proof fn unread_moves_stay_unread(data: GameData, names: Seq<Seq<char>>, n: int)
    requires
        0 <= n <= names.len(),
        moves_read(data, names.take(n)) is None,
    ensures
        moves_read(data, names) is None,
    decreases names.len() - n,
{
    if n == names.len() {
        assert(names.take(n) =~= names);
    } else {
        assert(names.take(n + 1).drop_last() =~= names.take(n));
        unread_moves_stay_unread(data, names, n + 1);
    }
}

pub(crate) fn read_moves(data: &GameData, names: &Vec<String>) -> (r: Option<Vec<String>>)
    ensures
        match r {
            Some(moves) => moves_read(*data, lines_of(names@)) == Some(lines_of(moves@)),
            None => moves_read(*data, lines_of(names@)) is None,
        },
{
    let mut moves: Vec<String> = Vec::new();
    let ghost all = lines_of(names@);
    let mut i: usize = 0;
    assert(all.take(0) =~= Seq::empty());
    assert(lines_of(moves@) =~= Seq::empty());
    while i < names.len()
        invariant
            i <= names@.len(),
            all == lines_of(names@),
            moves_read(*data, all.take(i as int)) == Some(lines_of(moves@)),
        decreases names@.len() - i,
    {
        assert(all.take(i + 1).drop_last() =~= all.take(i as int));
        assert(all.take(i + 1).last() == names@[i as int]@);
        let name = &names[i];
        if !name.as_str().is_empty() && !same(name, "-") {
            match data.move_named(name) {
                Some(m) => {
                    let ghost before = moves@;
                    moves.push(m.key.clone());
                    assert(lines_of(moves@) =~= lines_of(before).push(m.key@));
                },
                None => {
                    proof {
                        unread_moves_stay_unread(*data, all, i + 1);
                    }
                    return None;
                },
            }
        }
        i += 1;
    }
    assert(all.take(names@.len() as int) =~= all);
    Some(moves)
}

pub(crate) fn same_lines(a: &Vec<String>, b: &Vec<String>) -> (r: bool)
    ensures
        r == (lines_of(a@) == lines_of(b@)),
{
    if a.len() != b.len() {
        assert(lines_of(a@).len() != lines_of(b@).len());
        return false;
    }
    let mut i: usize = 0;
    while i < a.len()
        invariant
            i <= a@.len(),
            a@.len() == b@.len(),
            forall|k: int| 0 <= k < i ==> lines_of(a@)[k] == lines_of(b@)[k],
        decreases a@.len() - i,
    {
        if a[i] != b[i] {
            assert(lines_of(a@)[i as int] != lines_of(b@)[i as int]);
            return false;
        }
        i += 1;
    }
    assert(lines_of(a@) =~= lines_of(b@));
    true
}

pub(crate) fn copy_lines(lines: &Vec<String>) -> (v: Vec<String>)
    ensures
        v@ == lines@,
{
    let mut v: Vec<String> = Vec::new();
    let mut i: usize = 0;
    while i < lines.len()
        invariant
            i <= lines@.len(),
            v@ == lines@.take(i as int),
        decreases lines@.len() - i,
    {
        v.push(lines[i].clone());
        i += 1;
    }
    v
}

/// The moves that the menu shows, where all rows read and they are news.
pub open spec fn moves_news(data: GameData, battle: BattleObservation, member: Member) -> Option<
    Seq<Seq<char>>,
> {
    match moves_read(data, lines_of(battle.move_names@)) {
        Some(moves) => if moves.len() > 0 && moves != lines_of(member.moves@) {
            Some(moves)
        } else {
            None
        },
        None => None,
    }
}

/// What the move menu shows and the member does not know yet: other moves, and
/// the PP of the move under the ▶.
pub open spec fn menu_news(data: GameData, battle: BattleObservation, member: Member) -> Seq<
    GameEventV,
> {
    match battle.menu {
        Some(BattleMenu::Moves { column, row }) => {
            let news = moves_news(data, battle, member);
            let moves = match news {
                Some(moves) => moves,
                None => lines_of(member.moves@),
            };
            let at = row * 2 + column;
            let seen = match news {
                Some(moves) => seq![GameEventV::MovesObserved { slot: member.slot, moves }],
                None => Seq::<GameEventV>::empty(),
            };
            let pp = match battle.move_pp {
                Some(pp) => if at < moves.len() && !(at < member.moves@.len()
                    && member.moves@[at as int]@ == moves[at as int] && data.move_of(
                    moves[at as int],
                ) is Some && max_pp(data, moves[at as int]) == pp.1 && member.left(
                    data,
                    moves[at as int],
                ) == pp.0) {
                    seq![
                        GameEventV::MovePpObserved {
                            slot: member.slot,
                            move_slot: at as u8,
                            cur: pp.0,
                            max: pp.1,
                        },
                    ]
                } else {
                    Seq::<GameEventV>::empty()
                },
                None => Seq::<GameEventV>::empty(),
            };
            seen + pp
        },
        _ => Seq::empty(),
    }
}

/// Events for what the battle HUD and move menu show that the party view
/// doesn't know yet.
pub open spec fn battle_news(data: GameData, party: Party, battle: BattleObservation) -> Seq<
    GameEventV,
> {
    match battle.player_name {
        None => Seq::empty(),
        Some(name) => match member_seen(data, party.members@, name@) {
            // A species the knowledge can't explain (e.g. restored from
            // another save): with a single member it can only be that one, so
            // the HUD corrects it.
            None => if party.members@.len() == 1 && data.species_read(name@) is Some {
                seq![
                    GameEventV::PartyObserved {
                        slot: party.members@[0].slot,
                        species: Some(data.species_read(name@)->0.key@),
                        level: battle.player_level,
                        hp: hp_shown(battle, party.members@[0]),
                        status: None,
                    },
                ]
            } else {
                Seq::empty()
            },
            Some((member, species)) => (if species != member.species@ {
                seq![GameEventV::Evolved { slot: member.slot, species }]
            } else {
                Seq::<GameEventV>::empty()
            }) + hud_news(battle, member) + menu_news(data, battle, member),
        },
    }
}

fn report_menu(
    data: &GameData,
    battle: &BattleObservation,
    member: &Member,
    events: &mut Vec<GameEvent>,
)
    ensures
        events_of(final(events)@) == events_of(old(events)@) + menu_news(*data, *battle, *member),
{
    let ghost before = events_of(events@);
    let slot = member.slot;
    match battle.menu {
        Some(BattleMenu::Moves { column, row }) => {
            let mut moves = copy_lines(&member.moves);
            match read_moves(data, &battle.move_names) {
                Some(names) => {
                    if names.len() > 0 && !same_lines(&names, &member.moves) {
                        let ghost shown = lines_of(names@);
                        moves = copy_lines(&names);
                        report(events, GameEvent::MovesObserved { slot, moves: names });
                        assert(events_of(events@) =~= before + seq![
                            GameEventV::MovesObserved { slot, moves: shown },
                        ]);
                    }
                },
                None => {},
            }
            let ghost middle = events_of(events@);
            let at: usize = row as usize * 2 + column as usize;
            match battle.move_pp {
                Some(pp) => {
                    if at < moves.len() {
                        let mv = &moves[at];
                        let known = at < member.moves.len() && member.moves[at] == *mv
                            && data.move_(mv).is_some() && max_pp_of(data, mv) == pp.1
                            && member.pp_left(data, mv) == pp.0;
                        assert(lines_of(moves@)[at as int] == mv@);
                        if !known {
                            report(
                                events,
                                GameEvent::MovePpObserved {
                                    slot,
                                    move_slot: at as u8,
                                    cur: pp.0,
                                    max: pp.1,
                                },
                            );
                        }
                    }
                },
                None => {},
            }
            assert(events_of(events@) =~= before + menu_news(*data, *battle, *member));
        },
        _ => {
            assert(events_of(events@) =~= before + menu_news(*data, *battle, *member));
        },
    }
}

/// Events for what the battle HUD and move menu show that the party view
/// doesn't know yet. Nothing is emitted for unchanged or ambiguous readings.
pub fn battle_events(data: &GameData, party: &Party, battle: &BattleObservation) -> (events: Vec<
    GameEvent,
>)
    ensures
        events_of(events@) == battle_news(*data, *party, *battle),
{
    let mut events: Vec<GameEvent> = Vec::new();
    assert(events_of(events@) =~= Seq::empty());
    let name = match &battle.player_name {
        Some(name) => name,
        None => {
            return events;
        },
    };
    let (found, species) = match find_seen(data, &party.members, name) {
        Some(found) => found,
        None => {
            if party.members.len() == 1 {
                match data.species_named(name) {
                    Some(s) => {
                        let member = &party.members[0];
                        report(
                            &mut events,
                            GameEvent::PartyObserved {
                                slot: member.slot,
                                species: Some(s.key.clone()),
                                level: battle.player_level,
                                hp: read_hp(battle, member),
                                status: None,
                            },
                        );
                    },
                    None => {},
                }
            }
            assert(events_of(events@) =~= battle_news(*data, *party, *battle));
            return events;
        },
    };
    let member = &party.members[found];
    let ghost seen = species@;
    let evolved = species != member.species;
    if evolved {
        report(&mut events, GameEvent::Evolved { slot: member.slot, species });
    }
    let ghost first = events_of(events@);
    assert(first =~= if seen != member.species@ {
        seq![GameEventV::Evolved { slot: member.slot, species: seen }]
    } else {
        Seq::<GameEventV>::empty()
    });
    let level: Option<u8> = match battle.player_level {
        Some(l) => if l != member.level {
            Some(l)
        } else {
            None
        },
        None => None,
    };
    let hp: Option<(u16, u16)> = match read_hp(battle, member) {
        Some(hp) => {
            let known = match member.hp {
                Some(old) => old.0 == hp.0 && old.1 == hp.1,
                None => false,
            };
            if !known {
                Some(hp)
            } else {
                None
            }
        },
        None => None,
    };
    if level.is_some() || hp.is_some() {
        report(
            &mut events,
            GameEvent::PartyObserved { slot: member.slot, species: None, level, hp, status: None },
        );
    }
    assert(events_of(events@) =~= first + hud_news(*battle, *member));
    report_menu(data, battle, member, &mut events);
    events
}

/// A HUD that shows what the member knows says nothing new.
pub proof fn an_unchanged_hud_is_no_news(battle: BattleObservation, member: Member)
    requires
        battle.player_level is None || battle.player_level == Some(member.level),
        battle.player_hp_numbers is None || battle.player_hp_numbers == member.hp,
    ensures
        hud_news(battle, member).len() == 0,
{
}

/// An unread row of the move menu leaves the known moves alone.
pub proof fn an_unread_move_is_no_news(
    data: GameData,
    battle: BattleObservation,
    member: Member,
    i: int,
)
    requires
        0 <= i < battle.move_names@.len(),
        filled(battle.move_names@[i]@),
        data.move_read(battle.move_names@[i]@) is None,
    ensures
        moves_news(data, battle, member) is None,
{
    let names = lines_of(battle.move_names@);
    assert(names.take(i + 1).last() == battle.move_names@[i]@);
    assert(moves_read(data, names.take(i + 1)) is None);
    unread_moves_stay_unread(data, names, i + 1);
}

} // verus!
