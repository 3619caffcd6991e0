//! Battle control: menu navigation verified cursor by cursor, and move
//! choice (the best move against the identified opponent, keeping PP of strong
//! moves for trainer battles).

use vstd::prelude::*;
use vstd::string::{StrSliceExecFns, StringExecFns};

use crate::action::{Expectation, ExpectationV};
use crate::bag::{fits, reads_as};
use crate::catch::flow::{attempt_decision, CatchMemory, CatchV};
use crate::catch_odds::{odds_of, Odds, OddsV};
use crate::event::{events_of, text_of, GameEvent, GameEventV};
use crate::executor::{press, pressing, wait_for, Decision, DecisionV};
use crate::gamedata::GameData;
use crate::input::Button;
use crate::learn::{find_move, slot_of};
use crate::observe::{lines_of, BattleMenu, Observation, ScreenState};
use crate::party::{
    damages, display_name, displayed, is_damaging, max_pp, max_pp_of, Member, Party,
};
use crate::text::{
    begins, cat, cat3, contains, cut_start, decimal, decimal_of, ends, ends_with, same,
    starts_with, swap, swapped, trim_start_matches, within,
};

verus! {

#[derive(Debug, Clone, Copy, PartialEq, Eq, Structural)]
pub struct BattlePolicy {
    /// Try to RUN from wild battles when our HP bar is below this (per mille).
    pub flee_below: u16,
    /// RUN attempts per battle before fighting instead.
    pub max_run_attempts: u32,
    /// In wild battles, moves with at most this many PP left are saved for
    /// trainers (moves with 30+ PP are always usable).
    pub wild_pp_reserve: u8,
}

impl Default for BattlePolicy {
    fn default() -> (p: BattlePolicy)
        ensures
            p == (BattlePolicy { flee_below: 350, max_run_attempts: 3, wild_pp_reserve: 5 }),
    {
        BattlePolicy { flee_below: 350, max_run_attempts: 3, wild_pp_reserve: 5 }
    }
}

/// Per-battle memory.
#[derive(Debug)]
pub struct BattleMemory {
    pub run_attempts: u32,
    /// A trainer battle (can't flee; spend PP freely).
    pub trainer: bool,
    /// Last move chosen (for PP accounting).
    pub last_move: Option<String>,
    /// (party slot, move slot) of the last move chosen.
    pub last_slot: Option<(u8, u8)>,
    /// Identifying the wild opponent and catching it.
    pub catch: CatchMemory,
    /// Our lead's move under the foe's DISABLE, read from battle text; never
    /// chosen until "… is disabled no more!".
    pub disabled: Option<String>,
}

/// What is known of the battle.
pub struct BattleV {
    pub run_attempts: u32,
    pub trainer: bool,
    pub last_move: Option<Seq<char>>,
    pub last_slot: Option<(u8, u8)>,
    pub catch: CatchV,
    pub disabled: Option<Seq<char>>,
}

impl View for BattleMemory {
    type V = BattleV;

    open spec fn view(&self) -> BattleV {
        BattleV {
            run_attempts: self.run_attempts,
            trainer: self.trainer,
            last_move: text_of(self.last_move),
            last_slot: self.last_slot,
            catch: self.catch@,
            disabled: text_of(self.disabled),
        }
    }
}

impl Default for BattleMemory {
    fn default() -> (m: BattleMemory)
        ensures
            m@ == (BattleV {
                run_attempts: 0,
                trainer: false,
                last_move: None,
                last_slot: None,
                catch: CatchV::fresh(),
                disabled: None,
            }),
    {
        BattleMemory {
            run_attempts: 0,
            trainer: false,
            last_move: None,
            last_slot: None,
            catch: CatchMemory::default(),
            disabled: None,
        }
    }
}

/// What stands between a prefix and a suffix.
pub open spec fn inside(s: Seq<char>, prefix: Seq<char>, suffix: Seq<char>) -> Option<Seq<char>> {
    if begins(s, prefix) {
        let rest = s.subrange(prefix.len() as int, s.len() as int);
        if ends(rest, suffix) {
            Some(rest.subrange(0, rest.len() - suffix.len()))
        } else {
            None
        }
    } else {
        None
    }
}

fn between_affixes(s: &str, prefix: &str, suffix: &str) -> (r: Option<String>)
    ensures
        text_of(r) == inside(s@, prefix@, suffix@),
{
    if !starts_with(s, prefix) {
        return None;
    }
    let n: usize = prefix.unicode_len();
    let rest = s.substring_char(n, s.unicode_len());
    if !ends_with(rest, suffix) {
        return None;
    }
    let k: usize = suffix.unicode_len();
    Some(rest.substring_char(0, rest.unicode_len() - k).to_owned())
}

/// The move that a page says is disabled, or that none is any more.
pub open spec fn disable_told(page: Seq<char>, lead: Seq<char>, data: GameData) -> Option<
    Option<Seq<char>>,
> {
    let page = swapped(page, '’', '\'');
    let prefix = lead + "'s "@;
    let name = match inside(page, prefix, " was disabled!"@) {
        Some(name) => Some(name),
        None => inside(page, prefix, " is disabled!"@),
    };
    if page == lead + " is disabled no more!"@ {
        Some(None)
    } else {
        match name {
            Some(name) => match data.move_read(name) {
                Some(m) => Some(Some(m.key@)),
                None => None,
            },
            None => None,
        }
    }
}

/// DISABLE in battle text about our lead (`lead`, its printed name):
/// `Some(Some(move))` for "IVYSAUR's VINE WHIP was disabled!" (the foe used
/// DISABLE) and "… is disabled!" (the move was chosen anyway),
/// `Some(None)` for "IVYSAUR is disabled no more!". Pages about the foe
/// ("Foe …", "Wild …") never match. The font's apostrophe reads as `’`.
pub fn disable_text(page: &str, lead: &str, data: &GameData) -> (r: Option<Option<String>>)
    ensures
        match r {
            Some(m) => disable_told(page@, lead@, *data) == Some(text_of(m)),
            None => disable_told(page@, lead@, *data) is None,
        },
{
    proof {
        reveal_strlit("'");
    }
    let page = swap(page, '’', "'");
    if same(page.as_str(), cat(lead, " is disabled no more!").as_str()) {
        return Some(None);
    }
    let prefix = cat(lead, "'s ");
    let name = match between_affixes(page.as_str(), prefix.as_str(), " was disabled!") {
        Some(name) => name,
        None => match between_affixes(page.as_str(), prefix.as_str(), " is disabled!") {
            Some(name) => name,
            None => {
                return None;
            },
        },
    };
    match data.move_named(name.as_str()) {
        Some(m) => Some(Some(m.key.clone())),
        None => None,
    }
}

impl BattleV {
    /// What a page says of the lead's moves.
    pub open spec fn page_told(self, page: Seq<char>, party: Party, data: GameData) -> BattleV {
        let told = match party.leader() {
            Some(lead) => disable_told(page, displayed(lead.species@), data),
            None => None,
        };
        match told {
            Some(disabled) => BattleV { disabled, ..self },
            None => self,
        }
    }
}

/// Battle text read on two frames ([`crate::catch::observe`]): tracks
/// DISABLE on our lead.
pub fn observe_page(memory: &mut BattleMemory, page: &str, party: &Party, data: &GameData)
    ensures
        final(memory)@ == old(memory)@.page_told(page@, *party, *data),
{
    let lead = match party.lead() {
        Some(lead) => lead,
        None => {
            return;
        },
    };
    match disable_text(page, lead.display_name().as_str(), data) {
        Some(disabled) => memory.disabled = disabled,
        None => {},
    }
}

/// The display name of row `i` could read as `read`.
pub open spec fn shown_like(data: GameData, read: Seq<char>, i: int) -> bool {
    0 <= i < data.species@.len() && reads_as(displayed(data.species@[i].key@), read)
}

/// Row `i` is the first with the one display name that could read as `read`.
pub open spec fn only_shown(data: GameData, read: Seq<char>, i: int) -> bool {
    &&& shown_like(data, read, i)
    &&& forall|j: int|
        shown_like(data, read, j) ==> i <= j && displayed((#[trigger] data.species@[j]).key@)
            == displayed(data.species@[i].key@)
}

/// The species that the HUD shows: where exactly one display name could read as
/// `read`, the first with that name.
pub open spec fn species_shown(data: GameData, read: Seq<char>) -> Option<Seq<char>> {
    if exists|i: int| only_shown(data, read, i) {
        Some(data.species@[choose|i: int| only_shown(data, read, i)].key@)
    } else {
        None
    }
}

fn find_shown(data: &GameData, read: &str) -> (r: Option<String>)
    ensures
        match r {
            Some(s) => species_shown(*data, read@) == Some(s@),
            None => species_shown(*data, read@) is None,
        },
{
    let mut found: Option<usize> = None;
    let mut name = String::new();
    let mut i: usize = 0;
    while i < data.species.len()
        invariant
            i <= data.species@.len(),
            match found {
                Some(f) => {
                    &&& f < i
                    &&& shown_like(*data, read@, f as int)
                    &&& name@ == displayed(data.species@[f as int].key@)
                    &&& forall|j: int|
                        0 <= j < i && shown_like(*data, read@, j) ==> f <= j && displayed(
                            (#[trigger] data.species@[j]).key@,
                        ) == name@
                },
                None => forall|j: int| 0 <= j < i ==> !#[trigger] shown_like(*data, read@, j),
            },
        decreases data.species@.len() - i,
    {
        let shown = display_name(data.species[i].key.as_str());
        if fits(shown.as_str(), read) {
            assert(shown_like(*data, read@, i as int));
            match found {
                Some(f) => {
                    if shown != name {
                        proof {
                            assert forall|k: int| !only_shown(*data, read@, k) by {
                                if only_shown(*data, read@, k) {
                                    assert(displayed(data.species@[f as int].key@) == displayed(
                                        data.species@[k].key@,
                                    ));
                                    assert(displayed(data.species@[i as int].key@) == displayed(
                                        data.species@[k].key@,
                                    ));
                                }
                            }
                        }
                        return None;
                    }
                },
                None => {
                    found = Some(i);
                    name = shown;
                },
            }
        }
        i += 1;
    }
    match found {
        Some(f) => {
            proof {
                assert forall|j: int| shown_like(*data, read@, j) implies f <= j && displayed(
                    (#[trigger] data.species@[j]).key@,
                ) == displayed(data.species@[f as int].key@) by {}
                assert(only_shown(*data, read@, f as int));
                let c = choose|k: int| only_shown(*data, read@, k);
                assert(c == f) by {
                    assert(displayed(data.species@[f as int].key@) == displayed(
                        data.species@[c].key@,
                    ));
                    assert(displayed(data.species@[c].key@) == displayed(
                        data.species@[f as int].key@,
                    ));
                }
            }
            Some(data.species[f].key.clone())
        },
        None => None,
    }
}

/// The opponent's species and level, where both read.
pub open spec fn opponent(data: GameData, o: Observation) -> Option<(Seq<char>, u8)> {
    match o.battle {
        Some(b) => match (b.opponent_name, b.opponent_level) {
            (Some(name), Some(level)) => match species_shown(data, name@) {
                Some(key) => Some((key, level)),
                None => None,
            },
            _ => None,
        },
        None => None,
    }
}

/// The opponent's species and level, if its name and level can be read.
pub fn identify_opponent(data: &GameData, o: &Observation) -> (r: Option<(String, u8)>)
    ensures
        match r {
            Some(x) => opponent(*data, *o) == Some((x.0@, x.1)),
            None => opponent(*data, *o) is None,
        },
{
    match &o.battle {
        Some(b) => match (&b.opponent_name, b.opponent_level) {
            (Some(name), Some(level)) => match find_shown(data, name.as_str()) {
                Some(key) => Some((key, level)),
                None => None,
            },
            _ => None,
        },
        None => None,
    }
}

/// The display name of an opponent could read as the HUD's, and no other
/// display name could.
pub proof fn an_opponent_is_shown_by_its_name(data: GameData, o: Observation)
    requires
        opponent(data, o) is Some,
    ensures
        ({
            let read = o.battle->0.opponent_name->0@;
            &&& reads_as(displayed((opponent(data, o)->0).0), read)
            &&& forall|j: int|
                0 <= j < data.species@.len() && reads_as(
                    displayed((#[trigger] data.species@[j]).key@),
                    read,
                ) ==> displayed(data.species@[j].key@) == displayed((opponent(data, o)->0).0)
        }),
{
    let read = o.battle->0.opponent_name->0@;
    let i = choose|i: int| only_shown(data, read, i);
    assert(only_shown(data, read, i));
    assert forall|j: int|
        0 <= j < data.species@.len() && reads_as(
            displayed((#[trigger] data.species@[j]).key@),
            read,
        ) implies displayed(data.species@[j].key@) == displayed((opponent(data, o)->0).0) by {
        assert(shown_like(data, read, j));
    }
}

/// The evaluated best move, where there is one.
pub open spec fn best_of_moves(best: Option<&str>) -> Option<Seq<char>> {
    match best {
        Some(b) => Some(b@),
        None => None,
    }
}

/// A move that does damage and is not disabled.
pub open spec fn strikes(data: GameData, disabled: Option<Seq<char>>, mv: Seq<char>) -> bool {
    damages(data, mv) && disabled != Some(mv)
}

/// A move with PP to spare: any in a trainer battle; in a wild one, moves with
/// 30+ PP and those above the reserve.
pub open spec fn spare(
    data: GameData,
    member: Member,
    trainer: bool,
    reserve: u8,
    mv: Seq<char>,
) -> bool {
    let left = member.left(data, mv);
    left > 0 && (trainer || max_pp(data, mv) >= 30 || left > reserve)
}

/// The striking moves among the first `n` that have PP, or PP to spare.
pub open spec fn tier(
    data: GameData,
    member: Member,
    m: BattleV,
    reserve: u8,
    sparing: bool,
    n: nat,
) -> Seq<Seq<char>>
    decreases n,
{
    if n == 0 {
        Seq::empty()
    } else {
        let rest = tier(data, member, m, reserve, sparing, (n - 1) as nat);
        let mv = member.moves@[n - 1]@;
        if strikes(data, m.disabled, mv) && (if sparing {
            spare(data, member, m.trainer, reserve, mv)
        } else {
            member.left(data, mv) > 0
        }) {
            rest.push(mv)
        } else {
            rest
        }
    }
}

/// The moves to choose from: those with PP to spare; where there is none, the
/// trainer reserve too.
pub open spec fn candidates(data: GameData, member: Member, m: BattleV, policy: BattlePolicy) -> Seq<
    Seq<char>,
> {
    let first = tier(data, member, m, policy.wild_pp_reserve, true, member.moves@.len());
    if first.len() > 0 {
        first
    } else {
        tier(data, member, m, policy.wild_pp_reserve, false, member.moves@.len())
    }
}

pub open spec fn power(data: GameData, mv: Seq<char>) -> u8 {
    match data.move_of(mv) {
        Some(m) => m.power,
        None => 0,
    }
}

/// The strongest move by power; the last of those.
pub open spec fn strongest(data: GameData, moves: Seq<Seq<char>>) -> Seq<char>
    decreases moves.len(),
{
    if moves.len() <= 1 {
        moves[0]
    } else {
        let before = strongest(data, moves.drop_last());
        if power(data, moves.last()) >= power(data, before) {
            moves.last()
        } else {
            before
        }
    }
}

/// The move chosen: the evaluated best, or the strongest where none was
/// evaluated. `None` where there is nothing to choose from, or the evaluated
/// best is not one of the lead's moves.
pub open spec fn chosen_move(
    data: GameData,
    party: Party,
    best: Option<Seq<char>>,
    m: BattleV,
    policy: BattlePolicy,
) -> Option<(u8, Seq<char>)> {
    match party.leader() {
        None => None,
        Some(lead) => {
            let moves = candidates(data, lead, m, policy);
            if moves.len() == 0 {
                None
            } else {
                let mv = match best {
                    Some(b) => b,
                    None => strongest(data, moves),
                };
                match slot_of(lead.moves@, mv) {
                    Some(slot) => Some((slot as u8, mv)),
                    None => None,
                }
            }
        },
    }
}

fn collect_tier(data: &GameData, member: &Member, m: &BattleMemory, reserve: u8, sparing: bool)
    -> (v: Vec<String>)
    ensures
        lines_of(v@) == tier(*data, *member, m@, reserve, sparing, member.moves@.len()),
{
    let mut v: Vec<String> = Vec::new();
    assert(lines_of(v@) =~= Seq::empty());
    let mut i: usize = 0;
    while i < member.moves.len()
        invariant
            i <= member.moves@.len(),
            lines_of(v@) == tier(*data, *member, m@, reserve, sparing, i as nat),
        decreases member.moves@.len() - i,
    {
        let mv = &member.moves[i];
        let refused = match &m.disabled {
            Some(d) => *d == *mv,
            None => false,
        };
        if is_damaging(data, mv) && !refused {
            let left = member.pp_left(data, mv);
            let keep = if sparing {
                left > 0 && (m.trainer || max_pp_of(data, mv) >= 30 || left > reserve)
            } else {
                left > 0
            };
            if keep {
                let ghost before = v@;
                v.push(mv.clone());
                assert(lines_of(v@) =~= lines_of(before).push(mv@));
            }
        }
        i += 1;
    }
    v
}

/// The moves of our lead to choose from, for which an evaluation is wanted.
pub fn usable_moves(
    data: &GameData,
    party: &Party,
    memory: &BattleMemory,
    policy: &BattlePolicy,
) -> (v: Vec<String>)
    ensures
        lines_of(v@) == match party.leader() {
            Some(lead) => candidates(*data, lead, memory@, *policy),
            None => Seq::empty(),
        },
{
    match party.lead() {
        Some(lead) => {
            let first = collect_tier(data, lead, memory, policy.wild_pp_reserve, true);
            assert(lines_of(first@).len() == first@.len());
            if first.len() > 0 {
                first
            } else {
                collect_tier(data, lead, memory, policy.wild_pp_reserve, false)
            }
        },
        None => {
            let v: Vec<String> = Vec::new();
            assert(lines_of(v@) =~= Seq::empty());
            v
        },
    }
}

fn power_of(data: &GameData, mv: &str) -> (n: u8)
    ensures
        n == power(*data, mv@),
{
    match data.move_(mv) {
        Some(m) => m.power,
        None => 0,
    }
}

fn find_strongest(data: &GameData, moves: &Vec<String>) -> (i: usize)
    requires
        moves@.len() > 0,
    ensures
        i < moves@.len(),
        moves@[i as int]@ == strongest(*data, lines_of(moves@)),
{
    let ghost all = lines_of(moves@);
    let mut best: usize = 0;
    let mut i: usize = 1;
    while i < moves.len()
        invariant
            1 <= i <= moves@.len(),
            best < i,
            all == lines_of(moves@),
            moves@[best as int]@ == strongest(*data, all.take(i as int)),
        decreases moves@.len() - i,
    {
        assert(all.take(i + 1).drop_last() =~= all.take(i as int));
        if power_of(data, &moves[i]) >= power_of(data, &moves[best]) {
            best = i;
        }
        i += 1;
    }
    assert(all.take(moves@.len() as int) =~= all);
    best
}

/// The move slot to use: the evaluator's best damaging move among those
/// with PP to spare; in wild battles, the trainer reserve is spent only when
/// nothing else is left. A disabled move is never chosen (the game refuses
/// it and returns to the move menu). `None` when no damaging move has PP.
/// `best` is the evaluated best of [`usable_moves`].
pub fn choose_move(
    data: &GameData,
    party: &Party,
    best: Option<&str>,
    memory: &BattleMemory,
    policy: &BattlePolicy,
) -> (r: Option<(u8, String)>)
    ensures
        ({
            let chosen = chosen_move(
                *data,
                *party,
                best_of_moves(best),
                memory@,
                *policy,
            );
            match r {
                Some(x) => chosen == Some((x.0, x.1@)),
                None => chosen is None,
            }
        }),
{
    let lead = match party.lead() {
        Some(lead) => lead,
        None => {
            return None;
        },
    };
    let moves = usable_moves(data, party, memory, policy);
    assert(lines_of(moves@).len() == moves@.len());
    if moves.len() == 0 {
        return None;
    }
    let chosen = match best {
        Some(b) => b.to_owned(),
        None => moves[find_strongest(data, &moves)].clone(),
    };
    match find_move(&lead.moves, chosen.as_str()) {
        Some(slot) => Some((slot as u8, chosen)),
        None => None,
    }
}

/// Slot `i` holds the first move with PP that is not disabled.
pub open spec fn falls_back_at(data: GameData, lead: Member, disabled: Option<Seq<char>>, i: int)
    -> bool {
    &&& 0 <= i < lead.moves@.len()
    &&& lead.left(data, lead.moves@[i]@) > 0
    &&& disabled != Some(lead.moves@[i]@)
    &&& forall|j: int|
        0 <= j < i ==> lead.left(data, (#[trigger] lead.moves@[j])@) == 0 || disabled == Some(
            lead.moves@[j]@,
        )
}

/// Any move the game will accept.
pub open spec fn fallback(data: GameData, party: Party, m: BattleV) -> Option<(u8, Seq<char>)> {
    match party.leader() {
        None => None,
        Some(lead) => if exists|i: int| falls_back_at(data, lead, m.disabled, i) {
            let i = choose|i: int| falls_back_at(data, lead, m.disabled, i);
            Some((i as u8, lead.moves@[i]@))
        } else {
            None
        },
    }
}

/// Any move the game will accept when no damaging move can be chosen (the
/// only one is disabled or out of PP): the first non-disabled move with PP,
/// status moves included, in slot order. `None` when no move has PP (the
/// game then uses STRUGGLE by itself).
pub fn fallback_move(data: &GameData, party: &Party, memory: &BattleMemory) -> (r: Option<
    (u8, String),
>)
    ensures
        match r {
            Some(x) => fallback(*data, *party, memory@) == Some((x.0, x.1@)),
            None => fallback(*data, *party, memory@) is None,
        },
{
    let lead = match party.lead() {
        Some(lead) => lead,
        None => {
            return None;
        },
    };
    let mut i: usize = 0;
    while i < lead.moves.len()
        invariant
            i <= lead.moves@.len(),
            party.leader() == Some(*lead),
            forall|j: int|
                0 <= j < i ==> lead.left(*data, (#[trigger] lead.moves@[j])@) == 0
                    || memory@.disabled == Some(lead.moves@[j]@),
        decreases lead.moves@.len() - i,
    {
        let mv = &lead.moves[i];
        let refused = match &memory.disabled {
            Some(d) => *d == *mv,
            None => false,
        };
        if lead.pp_left(data, mv) > 0 && !refused {
            proof {
                assert(falls_back_at(*data, *lead, memory@.disabled, i as int));
                let c = choose|c: int| falls_back_at(*data, *lead, memory@.disabled, c);
                assert(c == i) by {
                    assert(lead.left(*data, lead.moves@[c]@) > 0);
                    assert(lead.left(*data, lead.moves@[i as int]@) > 0);
                }
            }
            return Some((i as u8, mv.clone()));
        }
        i += 1;
    }
    assert forall|c: int| !falls_back_at(*data, *lead, memory@.disabled, c) by {
        if falls_back_at(*data, *lead, memory@.disabled, c) {
            assert(lead.left(*data, lead.moves@[c]@) > 0);
        }
    }
    None
}

/// A cell of one of the two battle menus.
pub open spec fn cell(moves: bool, column: u8, row: u8) -> BattleMenu {
    if moves {
        BattleMenu::Moves { column, row }
    } else {
        BattleMenu::Command { column, row }
    }
}

/// One step of the ▶ toward a cell (first by row, then by column), or A there.
pub open spec fn stepping(
    at: (u8, u8),
    target: (u8, u8),
    moves: bool,
    name: Seq<char>,
    confirmed: ExpectationV,
) -> DecisionV {
    if at == target {
        pressing("choose "@ + name, Button::A, confirmed, 90)
    } else {
        let button = if at.1 != target.1 {
            if target.1 > at.1 {
                Button::Down
            } else {
                Button::Up
            }
        } else if target.0 > at.0 {
            Button::Right
        } else {
            Button::Left
        };
        let next = if at.1 != target.1 {
            cell(moves, at.0, target.1)
        } else {
            cell(moves, target.0, at.1)
        };
        pressing(
            "cursor to "@ + name + ": "@ + button.called(),
            button,
            ExpectationV::BattleMenuAt(next),
            45,
        )
    }
}

pub(crate) fn step_toward(
    at: (u8, u8),
    target: (u8, u8),
    moves: bool,
    name: &str,
    confirmed: Expectation,
) -> (d: Decision)
    ensures
        d@ == stepping(at, target, moves, name@, confirmed@),
{
    if at.0 == target.0 && at.1 == target.1 {
        return press(cat("choose ", name), Button::A, confirmed, 90);
    }
    let button = if at.1 != target.1 {
        if target.1 > at.1 {
            Button::Down
        } else {
            Button::Up
        }
    } else if target.0 > at.0 {
        Button::Right
    } else {
        Button::Left
    };
    let (column, row) = if at.1 != target.1 {
        (at.0, target.1)
    } else {
        (target.0, at.1)
    };
    let next = if moves {
        BattleMenu::Moves { column, row }
    } else {
        BattleMenu::Command { column, row }
    };
    let mut label = cat3("cursor to ", name, ": ");
    label.append(button.name());
    press(label, button, Expectation::BattleMenuAt(next), 45)
}

/// The battle ▶ reaches any cell of its menu in at most two steps that land.
pub proof fn two_steps_reach_a_cell(
    at: (u8, u8),
    target: (u8, u8),
    moves: bool,
    name: Seq<char>,
    confirmed: ExpectationV,
)
    requires
        at != target,
    ensures
        ({
            let first = stepping(at, target, moves, name, confirmed)->Act_0.expect;
            let next = if at.1 != target.1 {
                (at.0, target.1)
            } else {
                (target.0, at.1)
            };
            &&& first == ExpectationV::BattleMenuAt(cell(moves, next.0, next.1))
            &&& next == target || stepping(next, target, moves, name, confirmed)->Act_0.expect
                == ExpectationV::BattleMenuAt(cell(moves, target.0, target.1))
        }),
{
}

/// "move 3 (LEECH_SEED)".
pub open spec fn move_label(slot: u8, mv: Seq<char>) -> Seq<char> {
    "move "@ + decimal_of((slot + 1) as nat) + " ("@ + cut_start(mv, "MOVE_"@) + ")"@
}

pub(crate) fn label_move(slot: u8, mv: &str) -> (s: String)
    ensures
        s@ == move_label(slot, mv@),
{
    let mut s = cat3("move ", decimal(slot as u64 + 1).as_str(), " (");
    s.append(trim_start_matches(mv, "MOVE_"));
    s.append(")");
    s
}

impl BattleV {
    /// RUN: low HP, nothing to attack with, or a catch given up for its risk;
    /// in a wild battle, while RUN attempts are left.
    pub open spec fn flees(
        self,
        o: Observation,
        policy: BattlePolicy,
        party: Party,
        data: GameData,
    ) -> bool {
        let hp = o.battle->0.player_hp;
        let low = hp is Some && hp->0 < policy.flee_below;
        (low || chosen_move(data, party, None, self, policy) is None || self.catch.flee)
            && !self.trainer && self.run_attempts < policy.max_run_attempts
    }

    /// The battle without a catch: RUN or FIGHT, and the move.
    pub open spec fn fighting(
        self,
        o: Observation,
        policy: BattlePolicy,
        party: Party,
        data: GameData,
        best: Option<Seq<char>>,
    ) -> (BattleV, DecisionV) {
        let flee = self.flees(o, policy, party, data);
        match o.battle->0.menu->0 {
            BattleMenu::Command { column, row } => if flee {
                (
                    self,
                    stepping(
                        (column, row),
                        (1, 1),
                        false,
                        "RUN"@,
                        ExpectationV::ScreenIsNot(ScreenState::BattleCommand),
                    ),
                )
            } else {
                (
                    self,
                    stepping(
                        (column, row),
                        (0, 0),
                        false,
                        "FIGHT"@,
                        ExpectationV::ScreenIs(ScreenState::BattleMoveSelection),
                    ),
                )
            },
            BattleMenu::Moves { column, row } => if flee {
                (
                    self,
                    pressing(
                        "back to the command menu to RUN"@,
                        Button::B,
                        ExpectationV::ScreenIs(ScreenState::BattleCommand),
                        45,
                    ),
                )
            } else {
                let mv = match chosen_move(data, party, best, self, policy) {
                    Some(x) => Some(x),
                    None => fallback(data, party, self),
                };
                match mv {
                    None => (self, DecisionV::Fail("no move has PP left"@)),
                    Some(x) => (
                        BattleV {
                            last_move: Some(x.1),
                            last_slot: match party.leader() {
                                Some(lead) => Some((lead.slot, x.0)),
                                None => None,
                            },
                            ..self
                        },
                        stepping(
                            (column, row),
                            (x.0 % 2, x.0 / 2),
                            true,
                            move_label(x.0, x.1),
                            ExpectationV::ScreenIsNot(ScreenState::BattleMoveSelection),
                        ),
                    ),
                }
            },
        }
    }

    /// The next battle input, if a battle menu is open.
    pub open spec fn deciding(
        self,
        o: Observation,
        policy: BattlePolicy,
        party: Party,
        data: GameData,
        best: Option<Seq<char>>,
        odds: Option<OddsV>,
    ) -> (BattleV, Option<DecisionV>, Seq<GameEventV>) {
        if o.battle is None || o.battle->0.menu is None {
            (self, None, Seq::empty())
        } else {
            // A catch attempt drives the menus (its risk check replaces
            // fleeing); none means it was abandoned and the battle goes on as
            // usual.
            let attempt = if self.catch.attempt is Some {
                self.attempting(o, policy, party, data, odds)
            } else {
                (self, None, Seq::empty())
            };
            if attempt.1 is Some {
                attempt
            } else if !attempt.0.trainer && !attempt.0.catch.decided
                && o.battle->0.menu->0 is Command {
                // Wild battles: the opponent is identified (and the catch
                // decided) on the command menu before the first choice.
                (
                    attempt.0,
                    Some(DecisionV::Wait("identifying the wild opponent"@)),
                    attempt.2,
                )
            } else {
                let fight = attempt.0.fighting(o, policy, party, data, best);
                (fight.0, Some(fight.1), attempt.2)
            }
        }
    }
}

/// The next battle input, if a battle menu is open. `best` is the evaluated
/// best of [`usable_moves`], and `odds` are those of
/// [`crate::catch::attempt_question`].
pub fn decide(
    o: &Observation,
    policy: &BattlePolicy,
    memory: &mut BattleMemory,
    party: &Party,
    data: &GameData,
    best: Option<&str>,
    odds: Option<Odds>,
    events: &mut Vec<GameEvent>,
) -> (r: Option<Decision>)
    ensures
        ({
            let step = old(memory)@.deciding(
                *o,
                *policy,
                *party,
                *data,
                best_of_moves(best),
                odds_of(odds),
            );
            &&& final(memory)@ == step.0
            &&& match r {
                Some(d) => step.1 == Some(d@),
                None => step.1 is None,
            }
            &&& events_of(final(events)@) == events_of(old(events)@) + step.2
        }),
{
    let ghost before = events_of(events@);
    assert(before + Seq::<GameEventV>::empty() =~= before);
    let battle = match &o.battle {
        Some(b) => b,
        None => {
            return None;
        },
    };
    let menu = match battle.menu {
        Some(m) => m,
        None => {
            return None;
        },
    };
    if memory.catch.attempt.is_some() {
        match attempt_decision(o, policy, memory, party, data, odds, events) {
            Some(d) => {
                return Some(d);
            },
            None => {},
        }
    }
    if !memory.trainer && !memory.catch.decided && matches!(menu, BattleMenu::Command { .. }) {
        return Some(wait_for("identifying the wild opponent"));
    }
    let low = match battle.player_hp {
        Some(hp) => hp < policy.flee_below,
        None => false,
    };
    let no_attacks = choose_move(data, party, None, memory, policy).is_none();
    let flee = (low || no_attacks || memory.catch.flee) && !memory.trainer && memory.run_attempts
        < policy.max_run_attempts;
    Some(
        match menu {
            BattleMenu::Command { column, row } => if flee {
                step_toward(
                    (column, row),
                    (1, 1),
                    false,
                    "RUN",
                    Expectation::ScreenIsNot(ScreenState::BattleCommand),
                )
            } else {
                step_toward(
                    (column, row),
                    (0, 0),
                    false,
                    "FIGHT",
                    Expectation::ScreenIs(ScreenState::BattleMoveSelection),
                )
            },
            BattleMenu::Moves { column, row } => if flee {
                press(
                    "back to the command menu to RUN".to_owned(),
                    Button::B,
                    Expectation::ScreenIs(ScreenState::BattleCommand),
                    45,
                )
            } else {
                let chosen = match choose_move(data, party, best, memory, policy) {
                    Some(x) => Some(x),
                    None => fallback_move(data, party, memory),
                };
                match chosen {
                    None => Decision::Fail("no move has PP left".to_owned()),
                    Some((slot, name)) => {
                        let label = label_move(slot, name.as_str());
                        memory.last_move = Some(name);
                        memory.last_slot = match party.lead() {
                            Some(lead) => Some((lead.slot, slot)),
                            None => None,
                        };
                        step_toward(
                            (column, row),
                            (slot % 2, slot / 2),
                            true,
                            label.as_str(),
                            Expectation::ScreenIsNot(ScreenState::BattleMoveSelection),
                        )
                    },
                }
            },
        },
    )
}

/// "Will RED change POKéMON?": asked before a trainer sends the next
/// Pokémon, when the party has more than one.
pub fn is_switch_question(page: &str) -> (r: bool)
    ensures
        r == (begins(page@, "Will "@) && within(page@, " change"@) && within(page@, "POK"@)),
{
    starts_with(page, "Will ") && contains(page, " change") && contains(page, "POK")
}

/// The moves to choose from are the lead's own, do damage, have PP and are not
/// disabled.
pub proof fn candidates_can_be_used(
    data: GameData,
    member: Member,
    m: BattleV,
    reserve: u8,
    sparing: bool,
    n: nat,
    i: int,
)
    requires
        n <= member.moves@.len(),
        0 <= i < tier(data, member, m, reserve, sparing, n).len(),
    ensures
        ({
            let mv = tier(data, member, m, reserve, sparing, n)[i];
            &&& damages(data, mv)
            &&& m.disabled != Some(mv)
            &&& member.left(data, mv) > 0
            &&& exists|k: int| 0 <= k < n && (#[trigger] member.moves@[k])@ == mv
        }),
    decreases n,
{
    if n > 0 {
        let rest = tier(data, member, m, reserve, sparing, (n - 1) as nat);
        if i < rest.len() {
            candidates_can_be_used(data, member, m, reserve, sparing, (n - 1) as nat, i);
        } else {
            assert(member.moves@[n - 1]@ == tier(data, member, m, reserve, sparing, n)[i]);
        }
    }
}

proof fn strongest_is_one_of_them(data: GameData, moves: Seq<Seq<char>>)
    requires
        moves.len() > 0,
    ensures
        exists|i: int| 0 <= i < moves.len() && #[trigger] moves[i] == strongest(data, moves),
    decreases moves.len(),
{
    if moves.len() == 1 {
        assert(moves[0] == strongest(data, moves));
    } else {
        strongest_is_one_of_them(data, moves.drop_last());
        let i = choose|i: int|
            0 <= i < moves.drop_last().len() && #[trigger] moves.drop_last()[i] == strongest(
                data,
                moves.drop_last(),
            );
        assert(moves[i] == moves.drop_last()[i]);
        assert(moves[moves.len() - 1] == moves.last());
    }
}

/// A disabled move is never chosen, however the best is evaluated from the
/// moves there are to choose from.
pub proof fn a_disabled_move_is_never_chosen(
    data: GameData,
    party: Party,
    best: Option<Seq<char>>,
    m: BattleV,
    policy: BattlePolicy,
)
    requires
        chosen_move(data, party, best, m, policy) is Some,
        best matches Some(b) ==> candidates(data, party.leader()->0, m, policy).contains(b),
    ensures
        m.disabled != Some((chosen_move(data, party, best, m, policy)->0).1),
        party.leader()->0.left(data, (chosen_move(data, party, best, m, policy)->0).1) > 0,
{
    let lead = party.leader()->0;
    let moves = candidates(data, lead, m, policy);
    let n = lead.moves@.len();
    let first = tier(data, lead, m, policy.wild_pp_reserve, true, n);
    let mv = (chosen_move(data, party, best, m, policy)->0).1;
    if best is None {
        strongest_is_one_of_them(data, moves);
    }
    let i = choose|i: int| 0 <= i < moves.len() && moves[i] == mv;
    candidates_can_be_used(data, lead, m, policy.wild_pp_reserve, first.len() > 0, n, i);
}

/// A trainer's battle is never run from.
pub proof fn a_trainer_battle_is_never_run_from(
    m: BattleV,
    o: Observation,
    policy: BattlePolicy,
    party: Party,
    data: GameData,
)
    requires
        m.trainer,
    ensures
        !m.flees(o, policy, party, data),
{
}

/// A wild battle without a catch makes no choice on the command menu before
/// its opponent was identified or given up on.
pub proof fn nothing_is_chosen_before_the_opponent_is_identified(
    m: BattleV,
    o: Observation,
    policy: BattlePolicy,
    party: Party,
    data: GameData,
    best: Option<Seq<char>>,
    odds: Option<OddsV>,
)
    requires
        !m.trainer,
        !m.catch.decided,
        m.catch.attempt is None,
        o.battle is Some,
        o.battle->0.menu is Some,
        o.battle->0.menu->0 is Command,
    ensures
        m.deciding(o, policy, party, data, best, odds).1 == Some(
            DecisionV::Wait("identifying the wild opponent"@),
        ),
{
}

} // verus!
