//! Learning a move when four are already known, driven entirely by what is
//! on screen: the text names the offered move, the KNOWN MOVES list shows
//! the current moves, and the confirmation text says what was forgotten and
//! learned. Party changes are emitted as events only when that text is seen.

use vstd::prelude::*;
use vstd::string::{StrSliceExecFns, StringExecFns};

use crate::action::{Expectation, ExpectationV};
use crate::event::{events_of, report, GameEvent, GameEventV};
use crate::executor::{press, pressing, wait_for, Decision, DecisionV};
use crate::gamedata::GameData;
use crate::input::Button;
use crate::moves::{best_choice, choose_slot, LearnChoice};
use crate::observe::{lines_of, MoveListObservation};
use crate::party::{
    copy_lines, displayed, max_pp, max_pp_of, name_matches, names_match, same_lines, Member, Party,
};
use crate::text::{
    after_last_space, cat, cat3, contains, cut_start, decimal, decimal_of, find, first_at, join,
    joined, last_word, occurs_at, same, trim, trim_start_matches, trimmed, within,
};

verus! {

/// Rows on the KNOWN MOVES list: four moves, then the offered one.
pub const NEW_MOVE_ROW: u8 = 4;

/// What one page of text says about moves and evolution.
#[derive(Debug, Clone, PartialEq, Eq)]
pub enum TextFact {
    /// `<name> is trying to learn <move>.`
    Offered { pokemon: String, mv: String },
    /// `<name> forgot <move>.`
    Forgot { pokemon: String, mv: String },
    /// `<name> learned <move>!`
    Learned { pokemon: String, mv: String },
    /// `<name> did not learn <move>.`
    DidNotLearn { pokemon: String, mv: String },
    /// `… your <name> evolved into <species>!`
    Evolved { pokemon: String, into: String },
}

pub enum TextFactV {
    Offered { pokemon: Seq<char>, mv: Seq<char> },
    Forgot { pokemon: Seq<char>, mv: Seq<char> },
    Learned { pokemon: Seq<char>, mv: Seq<char> },
    DidNotLearn { pokemon: Seq<char>, mv: Seq<char> },
    Evolved { pokemon: Seq<char>, into: Seq<char> },
}

impl View for TextFact {
    type V = TextFactV;

    open spec fn view(&self) -> TextFactV {
        match *self {
            TextFact::Offered { pokemon, mv } => TextFactV::Offered {
                pokemon: pokemon@,
                mv: mv@,
            },
            TextFact::Forgot { pokemon, mv } => TextFactV::Forgot { pokemon: pokemon@, mv: mv@ },
            TextFact::Learned { pokemon, mv } => TextFactV::Learned {
                pokemon: pokemon@,
                mv: mv@,
            },
            TextFact::DidNotLearn { pokemon, mv } => TextFactV::DidNotLearn {
                pokemon: pokemon@,
                mv: mv@,
            },
            TextFact::Evolved { pokemon, into } => TextFactV::Evolved {
                pokemon: pokemon@,
                into: into@,
            },
        }
    }
}

pub open spec fn facts_of(s: Seq<TextFact>) -> Seq<TextFactV> {
    s.map_values(|f: TextFact| f@)
}

/// The name before the first `marker` and what follows it up to the first
/// `end`, where both say something.
pub open spec fn said(page: Seq<char>, marker: Seq<char>, end: Seq<char>) -> Option<
    (Seq<char>, Seq<char>),
> {
    if !within(page, marker) {
        None
    } else {
        let at = choose|at: int| first_at(page, marker, at);
        let pokemon = last_word(page.subrange(0, at));
        let rest = page.subrange(at + marker.len(), page.len() as int);
        if !within(rest, end) {
            None
        } else {
            let to = choose|to: int| first_at(rest, end, to);
            let mv = trimmed(rest.subrange(0, to));
            if pokemon.len() > 0 && mv.len() > 0 {
                Some((pokemon, mv))
            } else {
                None
            }
        }
    }
}

fn between(page: &str, marker: &str, end: &str) -> (r: Option<(String, String)>)
    ensures
        match r {
            Some(x) => said(page@, marker@, end@) == Some((x.0@, x.1@)),
            None => said(page@, marker@, end@) is None,
        },
{
    let at = match find(page, marker) {
        Some(at) => at,
        None => {
            return None;
        },
    };
    proof {
        assert(first_at(page@, marker@, at as int));
        assert(occurs_at(page@, marker@, at as int));
        let c = choose|k: int| first_at(page@, marker@, k);
        assert(c == at);
    }
    let size: usize = page.unicode_len();
    let n: usize = marker.unicode_len();
    let pokemon = after_last_space(page.substring_char(0, at));
    let rest = page.substring_char(at + n, size);
    let to = match find(rest, end) {
        Some(to) => to,
        None => {
            return None;
        },
    };
    proof {
        assert(first_at(rest@, end@, to as int));
        assert(occurs_at(rest@, end@, to as int));
        let c = choose|k: int| first_at(rest@, end@, k);
        assert(c == to);
    }
    let mv = trim(rest.substring_char(0, to));
    if !pokemon.is_empty() && !mv.is_empty() {
        Some((pokemon.to_owned(), mv.to_owned()))
    } else {
        None
    }
}

/// Facts on one page (its lines joined with spaces).
pub open spec fn parsed(page: Seq<char>) -> Seq<TextFactV> {
    (match said(page, " is trying to learn "@, "."@) {
        Some(x) => seq![TextFactV::Offered { pokemon: x.0, mv: x.1 }],
        None => Seq::<TextFactV>::empty(),
    }) + (match said(page, " forgot "@, "."@) {
        Some(x) => seq![TextFactV::Forgot { pokemon: x.0, mv: x.1 }],
        None => Seq::<TextFactV>::empty(),
    }) + (match said(page, " did not learn "@, "."@) {
        Some(x) => seq![TextFactV::DidNotLearn { pokemon: x.0, mv: x.1 }],
        None => Seq::<TextFactV>::empty(),
    }) + (match said(page, " learned "@, "!"@) {
        Some(x) => seq![TextFactV::Learned { pokemon: x.0, mv: x.1 }],
        None => Seq::<TextFactV>::empty(),
    }) + (match said(page, " evolved into "@, "!"@) {
        Some(x) => seq![TextFactV::Evolved { pokemon: x.0, into: x.1 }],
        None => Seq::<TextFactV>::empty(),
    })
}

fn add_fact(facts: &mut Vec<TextFact>, fact: TextFact)
    ensures
        facts_of(final(facts)@) == facts_of(old(facts)@) + seq![fact@],
{
    let ghost before = facts@;
    facts.push(fact);
    assert(facts_of(facts@) =~= facts_of(before) + seq![fact@]);
}

/// Facts on one page (its lines joined with spaces).
pub fn parse(page: &str) -> (facts: Vec<TextFact>)
    ensures
        facts_of(facts@) == parsed(page@),
{
    let mut facts: Vec<TextFact> = Vec::new();
    match between(page, " is trying to learn ", ".") {
        Some((pokemon, mv)) => add_fact(&mut facts, TextFact::Offered { pokemon, mv }),
        None => {},
    }
    match between(page, " forgot ", ".") {
        Some((pokemon, mv)) => add_fact(&mut facts, TextFact::Forgot { pokemon, mv }),
        None => {},
    }
    match between(page, " did not learn ", ".") {
        Some((pokemon, mv)) => add_fact(&mut facts, TextFact::DidNotLearn { pokemon, mv }),
        None => {},
    }
    match between(page, " learned ", "!") {
        Some((pokemon, mv)) => add_fact(&mut facts, TextFact::Learned { pokemon, mv }),
        None => {},
    }
    match between(page, " evolved into ", "!") {
        Some((pokemon, into)) => add_fact(&mut facts, TextFact::Evolved { pokemon, into }),
        None => {},
    }
    assert(facts_of(facts@) =~= parsed(page@));
    facts
}

/// The move currently being offered and the decision taken about it.
#[derive(Debug, Clone)]
pub struct Offer {
    pub pokemon: String,
    pub mv: String,
    pub choice: LearnChoice,
}

/// A move forgotten, awaiting "… learned X!".
#[derive(Debug, Clone)]
pub struct Forgotten {
    /// Party slot of the Pokémon that forgot it.
    pub party_slot: u8,
    pub mv: String,
    /// Move slot it occupied.
    pub move_slot: usize,
}

#[derive(Debug, Clone)]
pub struct MoveLearning {
    pub offer: Option<Offer>,
    pub forgot_slot: Option<Forgotten>,
    /// Last page interpreted: each page is read once.
    pub last_page: String,
}

pub struct OfferV {
    pub pokemon: Seq<char>,
    pub mv: Seq<char>,
    pub choice: LearnChoice,
}

pub struct ForgottenV {
    pub party_slot: u8,
    pub mv: Seq<char>,
    pub move_slot: usize,
}

/// What is known of the learning under way.
pub struct LearningV {
    pub offer: Option<OfferV>,
    pub forgot_slot: Option<ForgottenV>,
    pub last_page: Seq<char>,
}

impl View for MoveLearning {
    type V = LearningV;

    open spec fn view(&self) -> LearningV {
        LearningV {
            offer: match self.offer {
                Some(o) => Some(OfferV { pokemon: o.pokemon@, mv: o.mv@, choice: o.choice }),
                None => None,
            },
            forgot_slot: match self.forgot_slot {
                Some(f) => Some(
                    ForgottenV { party_slot: f.party_slot, mv: f.mv@, move_slot: f.move_slot },
                ),
                None => None,
            },
            last_page: self.last_page@,
        }
    }
}

impl Default for MoveLearning {
    fn default() -> (l: MoveLearning)
        ensures
            l@ == (LearningV { offer: None, forgot_slot: None, last_page: Seq::empty() }),
    {
        MoveLearning { offer: None, forgot_slot: None, last_page: String::new() }
    }
}

/// Member `i` is the first that `read` names.
pub open spec fn first_named(members: Seq<Member>, read: Seq<char>, i: int) -> bool {
    &&& 0 <= i < members.len()
    &&& name_matches(displayed(members[i].species@), read)
    &&& forall|j: int|
        0 <= j < i ==> !name_matches(displayed((#[trigger] members[j]).species@), read)
}

/// The first member that `read` names.
pub open spec fn named_member(party: Party, read: Seq<char>) -> Option<Member> {
    if exists|i: int| first_named(party.members@, read, i) {
        Some(party.members@[choose|i: int| first_named(party.members@, read, i)])
    } else {
        None
    }
}

pub fn member_named<'a>(party: &'a Party, read: &str) -> (r: Option<&'a Member>)
    ensures
        match r {
            Some(m) => named_member(*party, read@) == Some(*m) && party.members@.contains(*m),
            None => named_member(*party, read@) is None,
        },
{
    let mut i: usize = 0;
    while i < party.members.len()
        invariant
            i <= party.members@.len(),
            forall|j: int|
                0 <= j < i ==> !name_matches(
                    displayed((#[trigger] party.members@[j]).species@),
                    read@,
                ),
        decreases party.members@.len() - i,
    {
        if names_match(party.members[i].display_name().as_str(), read) {
            proof {
                assert(first_named(party.members@, read@, i as int));
                let c = choose|k: int| first_named(party.members@, read@, k);
                assert(c == i) by {
                    assert(name_matches(displayed(party.members@[c].species@), read@));
                    assert(name_matches(displayed(party.members@[i as int].species@), read@));
                }
            }
            return Some(&party.members[i]);
        }
        i += 1;
    }
    None
}

/// The choice in words.
pub open spec fn described(member: Member, choice: LearnChoice) -> Seq<char> {
    match choice {
        LearnChoice::Forget(slot) => "forget "@ + if slot < member.moves@.len() {
            cut_start(member.moves@[slot as int]@, "MOVE_"@)
        } else {
            "?"@
        },
        LearnChoice::Skip => "don't learn it"@,
    }
}

pub fn describe(member: &Member, choice: LearnChoice) -> (s: String)
    ensures
        s@ == described(*member, choice),
{
    match choice {
        LearnChoice::Forget(slot) => if slot < member.moves.len() {
            cat("forget ", trim_start_matches(&member.moves[slot], "MOVE_"))
        } else {
            cat("forget ", "?")
        },
        LearnChoice::Skip => "don't learn it".to_owned(),
    }
}

/// The first slot that holds this move.
pub open spec fn holds_at(moves: Seq<String>, key: Seq<char>, i: int) -> bool {
    &&& 0 <= i < moves.len()
    &&& moves[i]@ == key
    &&& forall|j: int| 0 <= j < i ==> (#[trigger] moves[j])@ != key
}

pub open spec fn slot_of(moves: Seq<String>, key: Seq<char>) -> Option<usize> {
    if exists|i: int| holds_at(moves, key, i) {
        Some((choose|i: int| holds_at(moves, key, i)) as usize)
    } else {
        None
    }
}

pub(crate) fn find_move(moves: &Vec<String>, key: &str) -> (r: Option<usize>)
    ensures
        r == slot_of(moves@, key@),
        match r {
            Some(i) => holds_at(moves@, key@, i as int),
            None => forall|i: int| 0 <= i < moves@.len() ==> (#[trigger] moves@[i])@ != key@,
        },
{
    let mut i: usize = 0;
    while i < moves.len()
        invariant
            i <= moves@.len(),
            forall|j: int| 0 <= j < i ==> (#[trigger] moves@[j])@ != key@,
        decreases moves@.len() - i,
    {
        if same(&moves[i], key) {
            proof {
                assert(holds_at(moves@, key@, i as int));
                let c = choose|k: int| holds_at(moves@, key@, k);
                assert(c == i) by {
                    assert(moves@[c]@ == key@);
                    assert(moves@[i as int]@ == key@);
                }
            }
            return Some(i);
        }
        i += 1;
    }
    None
}

/// What a fact makes of the learning, the events it implies and the log.
pub struct ToldV {
    pub now: LearningV,
    pub events: Seq<GameEventV>,
    pub log: Seq<Seq<char>>,
}

impl LearningV {
    pub open spec fn silent(self) -> ToldV {
        ToldV { now: self, events: Seq::empty(), log: Seq::empty() }
    }

    /// A move is offered. Whatever was forgotten before is over.
    pub open spec fn offered(
        self,
        pokemon: Seq<char>,
        mv: Seq<char>,
        data: GameData,
        party: Party,
        wins: Seq<i64>,
    ) -> ToldV {
        let fresh = LearningV { forgot_slot: None, ..self };
        match data.move_read(mv) {
            None => ToldV {
                now: fresh,
                events: Seq::empty(),
                log: seq!["unknown move offered: "@ + mv],
            },
            Some(m) => match named_member(party, pokemon) {
                None => fresh.silent(),
                Some(member) => {
                    let choice = best_choice(data, member, m.key@, wins);
                    ToldV {
                        now: LearningV {
                            offer: Some(OfferV { pokemon, mv: m.key@, choice }),
                            ..fresh
                        },
                        events: Seq::empty(),
                        log: seq![
                            pokemon + " is offered "@ + mv + ": "@ + described(member, choice),
                        ],
                    }
                },
            },
        }
    }

    pub open spec fn forgot(
        self,
        pokemon: Seq<char>,
        mv: Seq<char>,
        data: GameData,
        party: Party,
    ) -> ToldV {
        match (named_member(party, pokemon), data.move_read(mv)) {
            (Some(member), Some(m)) => match slot_of(member.moves@, m.key@) {
                Some(slot) => LearningV {
                    forgot_slot: Some(
                        ForgottenV { party_slot: member.slot, mv: m.key@, move_slot: slot },
                    ),
                    ..self
                }.silent(),
                None => self.silent(),
            },
            _ => self.silent(),
        }
    }

    /// The move forgotten just before is one that this member has there.
    pub open spec fn forgotten_by(self, member: Member) -> bool {
        match self.forgot_slot {
            Some(f) => f.party_slot == member.slot && f.move_slot < member.moves@.len()
                && member.moves@[f.move_slot as int]@ == f.mv,
            None => false,
        }
    }

    pub open spec fn learned(
        self,
        pokemon: Seq<char>,
        mv: Seq<char>,
        data: GameData,
        party: Party,
    ) -> ToldV {
        match (data.move_read(mv), named_member(party, pokemon)) {
            (Some(m), Some(member)) => {
                let key = m.key@;
                let done = LearningV { offer: None, forgot_slot: None, ..self };
                if self.forgotten_by(member) {
                    let f = self.forgot_slot->0;
                    ToldV {
                        now: done,
                        events: seq![
                            GameEventV::MoveReplaced {
                                slot: member.slot,
                                move_slot: f.move_slot as u8,
                                old: f.mv,
                                new: key,
                                max_pp: max_pp(data, key),
                            },
                        ],
                        log: seq![pokemon + " forgot "@ + f.mv + " and learned "@ + mv],
                    }
                } else if slot_of(member.moves@, key) is None && member.moves@.len() < 4 {
                    ToldV {
                        now: done,
                        events: seq![
                            GameEventV::MoveLearned {
                                slot: member.slot,
                                move_slot: member.moves@.len() as u8,
                                mv: key,
                                max_pp: max_pp(data, key),
                            },
                        ],
                        log: seq![pokemon + " learned "@ + mv],
                    }
                } else {
                    done.silent()
                }
            },
            _ => self.silent(),
        }
    }

    pub open spec fn evolved(
        self,
        pokemon: Seq<char>,
        into: Seq<char>,
        data: GameData,
        party: Party,
    ) -> ToldV {
        match (named_member(party, pokemon), data.species_read(into)) {
            (Some(member), Some(s)) => ToldV {
                now: self,
                events: seq![GameEventV::Evolved { slot: member.slot, species: s.key@ }],
                log: seq![pokemon + " evolved into "@ + into],
            },
            _ => self.silent(),
        }
    }

    /// What one fact makes of the learning.
    pub open spec fn told(
        self,
        fact: TextFactV,
        data: GameData,
        party: Party,
        wins: Seq<i64>,
    ) -> ToldV {
        match fact {
            TextFactV::Offered { pokemon, mv } => self.offered(pokemon, mv, data, party, wins),
            TextFactV::Forgot { pokemon, mv } => self.forgot(pokemon, mv, data, party),
            TextFactV::Learned { pokemon, mv } => self.learned(pokemon, mv, data, party),
            TextFactV::DidNotLearn { pokemon, mv } => ToldV {
                now: LearningV { offer: None, forgot_slot: None, ..self },
                events: Seq::empty(),
                log: seq![pokemon + " did not learn "@ + mv],
            },
            TextFactV::Evolved { pokemon, into } => self.evolved(pokemon, into, data, party),
        }
    }

    /// What facts make of the learning, in order.
    pub open spec fn told_all(
        self,
        facts: Seq<TextFactV>,
        data: GameData,
        party: Party,
        wins: Seq<i64>,
    ) -> ToldV
        decreases facts.len(),
    {
        if facts.len() == 0 {
            self.silent()
        } else {
            let before = self.told_all(facts.drop_last(), data, party, wins);
            let last = before.now.told(facts.last(), data, party, wins);
            ToldV {
                now: last.now,
                events: before.events + last.events,
                log: before.log + last.log,
            }
        }
    }

    /// What a page makes of the learning: an empty page, or the one just
    /// read, says nothing.
    pub open spec fn page_read(
        self,
        page: Seq<char>,
        data: GameData,
        party: Party,
        wins: Seq<i64>,
    ) -> ToldV {
        if page.len() == 0 || page == self.last_page {
            self.silent()
        } else {
            LearningV { last_page: page, ..self }.told_all(parsed(page), data, party, wins)
        }
    }

    /// What the move list leads to.
    pub open spec fn list_taken(
        self,
        list: MoveListObservation,
        data: GameData,
        party: Party,
        wins: Seq<i64>,
        next: LearningV,
        d: DecisionV,
        events: Seq<GameEventV>,
    ) -> bool {
        &&& self.offer is None ==> {
            &&& d == DecisionV::Fail("move list open but no move is being offered"@)
            &&& events.len() == 0
            &&& next == self
        }
        &&& self.offer is Some && named_member(party, self.offer->0.pokemon) is None ==> {
            &&& d == DecisionV::Fail(self.offer->0.pokemon + " is not in the party"@)
            &&& events.len() == 0
            &&& next == self
        }
        &&& self.offer is Some && named_member(party, self.offer->0.pokemon) is Some ==> {
            let member = named_member(party, self.offer->0.pokemon)->0;
            let news = list_news(data, list, member);
            &&& news is None ==> {
                &&& d == toward_row(list, choice_row(self.offer->0.choice))
                &&& events.len() == 0
                &&& next == self
            }
            &&& news is Some ==> {
                &&& events == seq![
                    GameEventV::MovesObserved { slot: member.slot, moves: news->0 },
                ]
                &&& next.offer is Some
                &&& d == toward_row(list, choice_row(next.offer->0.choice))
                &&& next == (LearningV {
                    offer: Some(OfferV { choice: next.offer->0.choice, ..self.offer->0 }),
                    ..self
                })
                &&& forall|seen: Member|
                    #![trigger with_moves(member, seen, news->0)]
                    with_moves(member, seen, news->0) ==> next.offer->0.choice
                        == best_choice(data, seen, self.offer->0.mv, wins)
            }
        }
    }

    /// The answer to a YES/NO question about the offered move, if the page
    /// is one.
    pub open spec fn answering(self, page: Seq<char>) -> Option<bool> {
        match self.offer {
            Some(offer) => if within(page, "Delete a move to make room for"@) {
                Some(offer.choice is Forget)
            } else if within(page, "Stop learning"@) {
                Some(offer.choice is Skip)
            } else {
                None
            },
            None => None,
        }
    }
}

/// No member has more moves than can be counted.
pub open spec fn countable(party: Party) -> bool {
    forall|i: int|
        0 <= i < party.members@.len() ==> (#[trigger] party.members@[i]).moves@.len() <= u32::MAX
}

fn add_line(log: &mut Vec<String>, line: String)
    ensures
        lines_of(final(log)@) == lines_of(old(log)@).push(line@),
{
    let ghost before = log@;
    log.push(line);
    assert(lines_of(log@) =~= lines_of(before).push(line@));
}

impl MoveLearning {
    /// Takes in one fact.
    fn tell(
        &mut self,
        fact: &TextFact,
        data: &GameData,
        party: &Party,
        wins: &Vec<i64>,
        events: &mut Vec<GameEvent>,
        log: &mut Vec<String>,
    )
        requires
            countable(*party),
        ensures
            final(self)@ == old(self)@.told(fact@, *data, *party, wins@).now,
            events_of(final(events)@) == events_of(old(events)@) + old(self)@.told(
                fact@,
                *data,
                *party,
                wins@,
            ).events,
            lines_of(final(log)@) == lines_of(old(log)@) + old(self)@.told(
                fact@,
                *data,
                *party,
                wins@,
            ).log,
    {
        let ghost start = self@;
        let ghost told = start.told(fact@, *data, *party, wins@);
        let ghost events_before = events_of(events@);
        let ghost log_before = lines_of(log@);
        assert(events_before + Seq::<GameEventV>::empty() =~= events_before);
        assert(log_before + Seq::<Seq<char>>::empty() =~= log_before);
        match fact {
            TextFact::Offered { pokemon, mv } => {
                self.forgot_slot = None;
                match data.move_named(mv) {
                    None => add_line(log, cat("unknown move offered: ", mv.as_str())),
                    Some(m) => match member_named(party, pokemon) {
                        None => {},
                        Some(member) => {
                            let choice = choose_slot(data, member, &m.key, wins);
                            let mut line = cat3(pokemon.as_str(), " is offered ", mv.as_str());
                            line.append(": ");
                            line.append(describe(member, choice).as_str());
                            add_line(log, line);
                            self.offer = Some(
                                Offer { pokemon: pokemon.clone(), mv: m.key.clone(), choice },
                            );
                        },
                    },
                }
            },
            TextFact::Forgot { pokemon, mv } => {
                match (member_named(party, pokemon), data.move_named(mv)) {
                    (Some(member), Some(m)) => match find_move(&member.moves, &m.key) {
                        Some(slot) => {
                            self.forgot_slot = Some(
                                Forgotten {
                                    party_slot: member.slot,
                                    mv: m.key.clone(),
                                    move_slot: slot,
                                },
                            );
                        },
                        None => {},
                    },
                    _ => {},
                }
            },
            TextFact::Learned { pokemon, mv } => {
                match (data.move_named(mv), member_named(party, pokemon)) {
                    (Some(m), Some(member)) => {
                        let max = max_pp_of(data, &m.key);
                        let replaced = match &self.forgot_slot {
                            Some(f) => f.party_slot == member.slot && f.move_slot
                                < member.moves.len() && member.moves[f.move_slot] == f.mv,
                            None => false,
                        };
                        let forgotten = self.forgot_slot.take();
                        match forgotten {
                            Some(f) if replaced => {
                                let mut line = cat3(pokemon.as_str(), " forgot ", f.mv.as_str());
                                line.append(" and learned ");
                                line.append(mv.as_str());
                                add_line(log, line);
                                report(
                                    events,
                                    GameEvent::MoveReplaced {
                                        slot: member.slot,
                                        move_slot: f.move_slot as u8,
                                        old: f.mv,
                                        new: m.key.clone(),
                                        max_pp: max,
                                    },
                                );
                            },
                            _ => {
                                if find_move(&member.moves, &m.key).is_none()
                                    && member.moves.len() < 4 {
                                    add_line(
                                        log,
                                        cat3(pokemon.as_str(), " learned ", mv.as_str()),
                                    );
                                    report(
                                        events,
                                        GameEvent::MoveLearned {
                                            slot: member.slot,
                                            move_slot: member.moves.len() as u8,
                                            mv: m.key.clone(),
                                            max_pp: max,
                                        },
                                    );
                                }
                            },
                        }
                        self.offer = None;
                    },
                    _ => {},
                }
            },
            TextFact::DidNotLearn { pokemon, mv } => {
                add_line(log, cat3(pokemon.as_str(), " did not learn ", mv.as_str()));
                self.offer = None;
                self.forgot_slot = None;
            },
            TextFact::Evolved { pokemon, into } => {
                match (member_named(party, pokemon), data.species_named(into)) {
                    (Some(member), Some(s)) => {
                        add_line(log, cat3(pokemon.as_str(), " evolved into ", into.as_str()));
                        report(
                            events,
                            GameEvent::Evolved { slot: member.slot, species: s.key.clone() },
                        );
                    },
                    _ => {},
                }
            },
        }
        assert(events_of(events@) =~= events_before + told.events);
        assert(lines_of(log@) =~= log_before + told.log);
    }

    /// Interprets a fully printed page. Returns the party events it implies
    /// and what changed, for the log. `wins` is the evaluation that a move
    /// offered on the page is judged by (see [`crate::moves::choose_slot`]).
    pub fn observe_page(
        &mut self,
        lines: &Vec<String>,
        data: &GameData,
        party: &Party,
        wins: &Vec<i64>,
    ) -> (r: (Vec<GameEvent>, Vec<String>))
        requires
            countable(*party),
        ensures
            ({
                let told = old(self)@.page_read(
                    joined(lines_of(lines@), " "@),
                    *data,
                    *party,
                    wins@,
                );
                &&& final(self)@ == told.now
                &&& events_of(r.0@) == told.events
                &&& lines_of(r.1@) == told.log
            }),
    {
        let mut events: Vec<GameEvent> = Vec::new();
        let mut log: Vec<String> = Vec::new();
        assert(events_of(events@) =~= Seq::empty());
        assert(lines_of(log@) =~= Seq::empty());
        let page = join(lines, " ");
        if page.as_str().is_empty() || page == self.last_page {
            return (events, log);
        }
        let facts = parse(page.as_str());
        self.last_page = page;
        let ghost start = self@;
        let ghost all = facts_of(facts@);
        let mut i: usize = 0;
        assert(all.take(0) =~= Seq::empty());
        while i < facts.len()
            invariant
                i <= facts@.len(),
                countable(*party),
                all == facts_of(facts@),
                self@ == start.told_all(all.take(i as int), *data, *party, wins@).now,
                events_of(events@) == start.told_all(
                    all.take(i as int),
                    *data,
                    *party,
                    wins@,
                ).events,
                lines_of(log@) == start.told_all(all.take(i as int), *data, *party, wins@).log,
            decreases facts@.len() - i,
        {
            assert(all.take(i + 1).drop_last() =~= all.take(i as int));
            assert(all.take(i + 1).last() == facts@[i as int]@);
            self.tell(&facts[i], data, party, wins, &mut events, &mut log);
            i += 1;
        }
        assert(all.take(facts@.len() as int) =~= all);
        (events, log)
    }

    /// The member and the move that a page offers, for which an evaluation is
    /// wanted; `None` where the page offers nothing that is known.
    pub fn offer_on<'a>(&self, lines: &Vec<String>, data: &GameData, party: &'a Party) -> (r:
        Option<(&'a Member, String)>)
        ensures
            ({
                let offer = said(joined(lines_of(lines@), " "@), " is trying to learn "@, "."@);
                match r {
                    Some(x) => offer is Some && named_member(*party, (offer->0).0) == Some(*x.0)
                        && data.move_read((offer->0).1) is Some && data.move_read(
                        (offer->0).1,
                    )->0.key@ == x.1@,
                    None => offer is None || named_member(*party, (offer->0).0) is None
                        || data.move_read((offer->0).1) is None,
                }
            }),
    {
        let page = join(lines, " ");
        match between(page.as_str(), " is trying to learn ", ".") {
            Some((pokemon, mv)) => match (
                member_named(party, pokemon.as_str()),
                data.move_named(mv.as_str()),
            ) {
                (Some(member), Some(m)) => Some((member, m.key.clone())),
                _ => None,
            },
            None => None,
        }
    }

    /// The answer to a YES/NO question about the offered move, if the page
    /// is one: `Some(true)` = YES.
    pub fn answer(&self, lines: &Vec<String>) -> (r: Option<bool>)
        ensures
            r == self@.answering(joined(lines_of(lines@), " "@)),
    {
        let page = join(lines, " ");
        match &self.offer {
            Some(offer) => {
                if contains(page.as_str(), "Delete a move to make room for") {
                    return Some(
                        match offer.choice {
                            LearnChoice::Forget(_) => true,
                            LearnChoice::Skip => false,
                        },
                    );
                }
                if contains(page.as_str(), "Stop learning") {
                    return Some(offer.choice == LearnChoice::Skip);
                }
                None
            },
            None => None,
        }
    }
}

/// The four moves at the top of the KNOWN MOVES list, where all read.
pub open spec fn list_moves(data: GameData, names: Seq<Seq<char>>, n: nat) -> Option<Seq<Seq<char>>>
    decreases n,
{
    if n == 0 {
        Some(Seq::empty())
    } else {
        match list_moves(data, names, (n - 1) as nat) {
            Some(moves) => match data.move_read(names[n - 1]) {
                Some(m) => Some(moves.push(m.key@)),
                None => None,
            },
            None => None,
        }
    }
}

proof fn unread_list_stays_unread(data: GameData, names: Seq<Seq<char>>, n: nat, all: nat)
    requires
        n <= all,
        list_moves(data, names, n) is None,
    ensures
        list_moves(data, names, all) is None,
    decreases all - n,
{
    if n < all {
        unread_list_stays_unread(data, names, n + 1, all);
    }
}

/// The moves that the list shows, where all four read and they are not the
/// member's.
pub open spec fn list_news(data: GameData, list: MoveListObservation, member: Member) -> Option<
    Seq<Seq<char>>,
> {
    let names = lines_of(list.moves@);
    if names.len() < 4 {
        None
    } else {
        match list_moves(data, names, 4) {
            Some(moves) => if moves != lines_of(member.moves@) {
                Some(moves)
            } else {
                None
            },
            None => None,
        }
    }
}

fn read_list(data: &GameData, list: &MoveListObservation) -> (r: Option<Vec<String>>)
    ensures
        match r {
            Some(moves) => list.moves@.len() >= 4 && list_moves(*data, lines_of(list.moves@), 4)
                == Some(lines_of(moves@)) && moves@.len() == 4,
            None => list.moves@.len() < 4 || list_moves(*data, lines_of(list.moves@), 4) is None,
        },
{
    if list.moves.len() < 4 {
        return None;
    }
    let ghost names = lines_of(list.moves@);
    let mut moves: Vec<String> = Vec::new();
    assert(lines_of(moves@) =~= Seq::empty());
    let mut i: usize = 0;
    while i < 4
        invariant
            i <= 4,
            list.moves@.len() >= 4,
            names == lines_of(list.moves@),
            moves@.len() == i,
            list_moves(*data, names, i as nat) == Some(lines_of(moves@)),
        decreases 4 - i,
    {
        match data.move_named(&list.moves[i]) {
            Some(m) => {
                let ghost before = moves@;
                moves.push(m.key.clone());
                assert(lines_of(moves@) =~= lines_of(before).push(m.key@));
            },
            None => {
                proof {
                    unread_list_stays_unread(*data, names, (i + 1) as nat, 4);
                }
                return None;
            },
        }
        i += 1;
    }
    Some(moves)
}

/// The moves are those of a member with these moves: only the moves and the
/// species matter to a choice.
pub open spec fn with_moves(member: Member, other: Member, moves: Seq<Seq<char>>) -> bool {
    other.species == member.species && lines_of(other.moves@) == moves
}

/// The row of a choice on the KNOWN MOVES list.
pub open spec fn choice_row(choice: LearnChoice) -> u8 {
    match choice {
        LearnChoice::Forget(slot) => slot as u8,
        LearnChoice::Skip => NEW_MOVE_ROW,
    }
}

/// Moves the frame to a row, and presses A there.
pub open spec fn toward_row(list: MoveListObservation, target: u8) -> DecisionV {
    match list.selected {
        None => DecisionV::Wait("move list: no selection yet"@),
        Some(at) => if at == target {
            pressing(
                "pick row "@ + decimal_of((target + 1) as nat) + " ("@ + (if target
                    < list.moves@.len() {
                    list.moves@[target as int]@
                } else {
                    "?"@
                }) + ")"@,
                Button::A,
                ExpectationV::MoveListClosed,
                120,
            )
        } else if at < target {
            pressing(
                "move list: "@ + "Down"@ + " toward row "@ + decimal_of((target + 1) as nat),
                Button::Down,
                ExpectationV::MoveListAt((at + 1) as u8),
                45,
            )
        } else {
            pressing(
                "move list: "@ + "Up"@ + " toward row "@ + decimal_of((target + 1) as nat),
                Button::Up,
                ExpectationV::MoveListAt((at - 1) as u8),
                45,
            )
        },
    }
}

fn go_to_row(list: &MoveListObservation, target: u8) -> (d: Decision)
    ensures
        d@ == toward_row(*list, target),
{
    match list.selected {
        None => wait_for("move list: no selection yet"),
        Some(at) => {
            let row = decimal(target as u64 + 1);
            if at == target {
                let mut label = cat3("pick row ", row.as_str(), " (");
                if (target as usize) < list.moves.len() {
                    label.append(&list.moves[target as usize]);
                } else {
                    label.append("?");
                }
                label.append(")");
                press(label, Button::A, Expectation::MoveListClosed, 120)
            } else if at < target {
                let mut label = cat3("move list: ", "Down", " toward row ");
                label.append(row.as_str());
                press(label, Button::Down, Expectation::MoveListAt(at + 1), 45)
            } else {
                let mut label = cat3("move list: ", "Up", " toward row ");
                label.append(row.as_str());
                press(label, Button::Up, Expectation::MoveListAt(at - 1), 45)
            }
        },
    }
}

proof fn choices_follow_the_moves(
    data: GameData,
    a: Member,
    b: Member,
    new_move: Seq<char>,
    wins: Seq<i64>,
    n: nat,
)
    requires
        a.species@ == b.species@,
        lines_of(a.moves@) == lines_of(b.moves@),
    ensures
        crate::moves::best_of(data, a, new_move, wins, n) == crate::moves::best_of(
            data,
            b,
            new_move,
            wins,
            n,
        ),
    decreases n,
{
    if n > 0 {
        choices_follow_the_moves(data, a, b, new_move, wins, (n - 1) as nat);
    }
}

impl MoveLearning {
    /// Input on the KNOWN MOVES list: confirm the moves shown, move the
    /// frame to the chosen row and press A. The moves shown, when they differ
    /// from the party's, come back as a `MovesObserved` event, and the choice
    /// is made anew by them. `wins` is the evaluation for the moves shown.
    pub fn on_move_list(
        &mut self,
        list: &MoveListObservation,
        data: &GameData,
        party: &Party,
        wins: &Vec<i64>,
    ) -> (r: (Decision, Vec<GameEvent>))
        ensures
            old(self)@.list_taken(
                *list,
                *data,
                *party,
                wins@,
                final(self)@,
                r.0@,
                events_of(r.1@),
            ),
    {
        let ghost start = self@;
        let mut events: Vec<GameEvent> = Vec::new();
        assert(events_of(events@) =~= Seq::empty());
        let (pokemon, mv, choice) = match &self.offer {
            Some(o) => (o.pokemon.clone(), o.mv.clone(), o.choice),
            None => {
                return (
                    Decision::Fail("move list open but no move is being offered".to_owned()),
                    events,
                );
            },
        };
        let member = match member_named(party, pokemon.as_str()) {
            Some(m) => m,
            None => {
                return (Decision::Fail(cat(pokemon.as_str(), " is not in the party")), events);
            },
        };
        // The list shows the real moves: adopt them if they read cleanly.
        let mut choice = choice;
        match read_list(data, list) {
            Some(shown) => {
                if !same_lines(&shown, &member.moves) {
                    let moves = copy_lines(&shown);
                    let ghost slot = member.slot;
                    report(
                        &mut events,
                        GameEvent::MovesObserved { slot: member.slot, moves: copy_lines(&shown) },
                    );
                    assert(events_of(events@) =~= seq![
                        GameEventV::MovesObserved { slot, moves: lines_of(shown@) },
                    ]);
                    let seen = Member {
                        slot: member.slot,
                        species: member.species.clone(),
                        level: member.level,
                        moves,
                        hp: member.hp,
                        pp_used: Vec::new(),
                        read_stats: None,
                        ability: None,
                    };
                    choice = choose_slot(data, &seen, mv.as_str(), wins);
                    self.offer = Some(Offer { pokemon, mv, choice });
                    proof {
                        let news = lines_of(shown@);
                        assert(list_news(*data, *list, *member) == Some(news));
                        assert forall|other: Member|
                            #![trigger with_moves(*member, other, news)]
                            with_moves(*member, other, news) implies choice == best_choice(
                            *data,
                            other,
                            start.offer->0.mv,
                            wins@,
                        ) by {
                            assert(lines_of(other.moves@).len() == news.len());
                            choices_follow_the_moves(
                                *data,
                                seen,
                                other,
                                start.offer->0.mv,
                                wins@,
                                4,
                            );
                        }
                    }
                }
            },
            None => {},
        }
        let target: u8 = match choice {
            LearnChoice::Forget(slot) => slot as u8,
            LearnChoice::Skip => NEW_MOVE_ROW,
        };
        (go_to_row(list, target), events)
    }
}

impl LearningV {
    /// A move is recorded as replaced only from the text of a member that
    /// learned one just after it forgot that very move.
    pub proof fn replaced_means_forgotten(
        self,
        fact: TextFactV,
        data: GameData,
        party: Party,
        wins: Seq<i64>,
        i: int,
    )
        requires
            0 <= i < self.told(fact, data, party, wins).events.len(),
            self.told(fact, data, party, wins).events[i] is MoveReplaced,
        ensures
            fact is Learned,
            self.forgot_slot is Some,
            self.told(fact, data, party, wins).events[i]->MoveReplaced_old
                == self.forgot_slot->0.mv,
            self.told(fact, data, party, wins).events[i]->MoveReplaced_slot
                == self.forgot_slot->0.party_slot,
            self.told(fact, data, party, wins).now.forgot_slot is None,
    {
    }

    /// A new offer ends whatever was forgotten before it.
    pub proof fn an_offer_ends_what_was_forgotten(
        self,
        pokemon: Seq<char>,
        mv: Seq<char>,
        data: GameData,
        party: Party,
        wins: Seq<i64>,
    )
        ensures
            self.told(TextFactV::Offered { pokemon, mv }, data, party, wins).now.forgot_slot is None,
            self.told(TextFactV::Offered { pokemon, mv }, data, party, wins).events.len() == 0,
    {
    }

    /// Reading a page a second time says nothing.
    pub proof fn a_page_is_read_once(
        self,
        page: Seq<char>,
        data: GameData,
        party: Party,
        wins: Seq<i64>,
    )
        ensures
            ({
                let now = self.page_read(page, data, party, wins).now;
                now.page_read(page, data, party, wins) == now.silent()
            }),
    {
        let facts = parsed(page);
        LearningV { last_page: page, ..self }.facts_keep_the_page(facts, data, party, wins);
    }

    proof fn facts_keep_the_page(
        self,
        facts: Seq<TextFactV>,
        data: GameData,
        party: Party,
        wins: Seq<i64>,
    )
        ensures
            self.told_all(facts, data, party, wins).now.last_page == self.last_page,
        decreases facts.len(),
    {
        if facts.len() > 0 {
            self.facts_keep_the_page(facts.drop_last(), data, party, wins);
        }
    }

    /// YES to deleting a move and YES to stopping are opposite answers.
    pub proof fn the_two_questions_get_opposite_answers(self, page: Seq<char>, other: Seq<char>)
        requires
            self.offer is Some,
            within(page, "Delete a move to make room for"@),
            !within(other, "Delete a move to make room for"@),
            within(other, "Stop learning"@),
        ensures
            self.answering(page) is Some,
            self.answering(other) is Some,
            self.answering(page)->0 != self.answering(other)->0,
    {
    }
}

/// A page that was shown, with the party and the evaluations of that time, and
/// what had become of the offer until then.
pub struct PageSeen {
    pub page: Seq<char>,
    pub party: Party,
    pub wins: Seq<i64>,
    pub offer: Option<OfferV>,
}

/// A fact that was read, with the party of that time.
pub struct Heard {
    pub fact: TextFactV,
    pub party: Party,
}

impl LearningV {
    /// The learning after pages.
    pub open spec fn pages_read(self, pages: Seq<PageSeen>, data: GameData) -> LearningV
        decreases pages.len(), 0nat,
    {
        if pages.len() == 0 {
            self
        } else {
            self.next_told(pages.drop_last(), pages.last(), data).now
        }
    }

    /// What a page makes of the learning after other pages.
    pub open spec fn next_told(self, pages: Seq<PageSeen>, p: PageSeen, data: GameData) -> ToldV
        decreases pages.len(), 1nat,
    {
        LearningV { offer: p.offer, ..self.pages_read(pages, data) }.page_read(
            p.page,
            data,
            p.party,
            p.wins,
        )
    }

    /// The facts that a page tells after other pages: those of a new page.
    pub open spec fn next_heard(self, pages: Seq<PageSeen>, p: PageSeen, data: GameData) -> Seq<
        Heard,
    > {
        if p.page.len() == 0 || p.page == self.pages_read(pages, data).last_page {
            Seq::empty()
        } else {
            heard_of(parsed(p.page), p.party)
        }
    }

    /// All facts that pages told, in order.
    pub open spec fn all_heard(self, pages: Seq<PageSeen>, data: GameData) -> Seq<Heard>
        decreases pages.len(),
    {
        if pages.len() == 0 {
            Seq::empty()
        } else {
            self.all_heard(pages.drop_last(), data) + self.next_heard(
                pages.drop_last(),
                pages.last(),
                data,
            )
        }
    }
}

pub open spec fn heard_of(facts: Seq<TextFactV>, party: Party) -> Seq<Heard> {
    Seq::new(facts.len(), |i: int| Heard { fact: facts[i], party })
}

/// The fact says that a member forgot a move it had, and which.
pub open spec fn forgets(h: Heard, data: GameData) -> Option<ForgottenV> {
    match h.fact {
        TextFactV::Forgot { pokemon, mv } => match (
            named_member(h.party, pokemon),
            data.move_read(mv),
        ) {
            (Some(member), Some(m)) => match slot_of(member.moves@, m.key@) {
                Some(slot) => Some(
                    ForgottenV { party_slot: member.slot, mv: m.key@, move_slot: slot },
                ),
                None => None,
            },
            _ => None,
        },
        _ => None,
    }
}

/// The fact ends what was forgotten before it: an offer, a refusal, or that a
/// known member learned a known move.
pub open spec fn ends_forgetting(h: Heard, data: GameData) -> bool {
    match h.fact {
        TextFactV::Offered { .. } => true,
        TextFactV::DidNotLearn { .. } => true,
        TextFactV::Learned { pokemon, mv } => data.move_read(mv) is Some && named_member(
            h.party,
            pokemon,
        ) is Some,
        _ => false,
    }
}

/// Fact `k` is the last that forgot a move, this one, and nothing ended it until
/// fact `n`.
pub open spec fn forgotten_since(
    heard: Seq<Heard>,
    data: GameData,
    k: int,
    n: int,
    f: ForgottenV,
) -> bool {
    &&& 0 <= k < n
    &&& forgets(heard[k], data) == Some(f)
    &&& forall|j: int|
        k < j < n ==> !ends_forgetting(#[trigger] heard[j], data) && forgets(heard[j], data) is None
}

/// One fact, and what it leaves of a forgotten move.
proof fn a_fact_forgets(
    l: LearningV,
    heard: Seq<Heard>,
    h: Heard,
    data: GameData,
    wins: Seq<i64>,
)
    requires
        l.forgot_slot matches Some(f) ==> exists|k: int|
            forgotten_since(heard, data, k, heard.len() as int, f),
    ensures
        l.told(h.fact, data, h.party, wins).now.forgot_slot matches Some(f) ==> exists|k: int|
            forgotten_since(heard.push(h), data, k, heard.push(h).len() as int, f),
{
    let now = l.told(h.fact, data, h.party, wins).now;
    let all = heard.push(h);
    if let Some(f) = now.forgot_slot {
        if forgets(h, data) is Some {
            assert(forgets(all[heard.len() as int], data) == Some(f));
            assert(forgotten_since(all, data, heard.len() as int, heard.push(h).len() as int, f));
        } else {
            assert(l.forgot_slot == Some(f));
            let k = choose|k: int| forgotten_since(heard, data, k, heard.len() as int, f);
            assert(all[k] == heard[k]);
            assert forall|j: int| k < j < heard.len() + 1 implies !ends_forgetting(
                #[trigger] all[j],
                data,
            ) && forgets(all[j], data) is None by {
                if j < heard.len() {
                    assert(all[j] == heard[j]);
                }
            }
            assert(forgotten_since(all, data, k, heard.push(h).len() as int, f));
        }
    }
}

/// The facts of a page after others: what they leave of a forgotten move, and
/// what each replacement among their events goes back to.
proof fn facts_forget(
    l: LearningV,
    heard: Seq<Heard>,
    facts: Seq<TextFactV>,
    party: Party,
    data: GameData,
    wins: Seq<i64>,
)
    requires
        l.forgot_slot matches Some(f) ==> exists|k: int|
            forgotten_since(heard, data, k, heard.len() as int, f),
    ensures
        ({
            let all = heard + heard_of(facts, party);
            let told = l.told_all(facts, data, party, wins);
            &&& told.now.forgot_slot matches Some(f) ==> exists|k: int|
                forgotten_since(all, data, k, all.len() as int, f)
            &&& forall|i: int|
                0 <= i < told.events.len() && (#[trigger] told.events[i]) is MoveReplaced
                    ==> exists|k: int, n: int|
                    #[trigger] replaces(all, data, k, n, told.events[i])
        }),
    decreases facts.len(),
{
    let all = heard + heard_of(facts, party);
    if facts.len() == 0 {
        assert(all =~= heard);
    } else {
        let first = facts.drop_last();
        let h = Heard { fact: facts.last(), party };
        let before = heard + heard_of(first, party);
        facts_forget(l, heard, first, party, data, wins);
        let mid = l.told_all(first, data, party, wins);
        assert(all =~= before.push(h));
        a_fact_forgets(mid.now, before, h, data, wins);
        let last = mid.now.told(h.fact, data, party, wins);
        let told = l.told_all(facts, data, party, wins);
        assert forall|i: int|
            0 <= i < told.events.len() && (#[trigger] told.events[i]) is MoveReplaced implies exists|
            k: int,
            n: int,
        |
            #[trigger] replaces(all, data, k, n, told.events[i]) by {
            let e = told.events[i];
            if i < mid.events.len() {
                assert(e == mid.events[i]);
                let (k, n) = choose|k: int, n: int| #[trigger] replaces(before, data, k, n, e);
                kept_in_longer(before, h, data, k, n, e);
            } else {
                assert(e == last.events[i - mid.events.len()]);
                let f = mid.now.forgot_slot->0;
                let n = before.len() as int;
                let k = choose|k: int| forgotten_since(before, data, k, n, f);
                assert(all[n] == h);
                assert(forgotten_since(all, data, k, n, f)) by {
                    assert(all[k] == before[k]);
                    assert forall|j: int| k < j < n implies !ends_forgetting(
                        #[trigger] all[j],
                        data,
                    ) && forgets(all[j], data) is None by {
                        assert(all[j] == before[j]);
                    }
                }
                assert(replaces(all, data, k, n, e));
            }
        }
    }
}

proof fn kept_in_longer(
    heard: Seq<Heard>,
    h: Heard,
    data: GameData,
    k: int,
    n: int,
    e: GameEventV,
)
    requires
        replaces(heard, data, k, n, e),
    ensures
        replaces(heard.push(h), data, k, n, e),
{
    let all = heard.push(h);
    let f = forgets(heard[k], data)->0;
    assert(all[k] == heard[k] && all[n] == heard[n]);
    assert forall|j: int| k < j < n implies !ends_forgetting(#[trigger] all[j], data) && forgets(
        all[j],
        data,
    ) is None by {
        assert(all[j] == heard[j]);
    }
    assert(forgotten_since(all, data, k, n, f));
}

/// The event is the replacement that fact `n` tells of: a member learned a move
/// after its own text, fact `k`, said which it forgot, with no offer, refusal or
/// replacement in between, and the member still has that move there.
pub open spec fn replaces(
    heard: Seq<Heard>,
    data: GameData,
    k: int,
    n: int,
    e: GameEventV,
) -> bool {
    &&& 0 <= k < n < heard.len()
    &&& forgets(heard[k], data) is Some
    &&& forgotten_since(heard, data, k, n, forgets(heard[k], data)->0)
    &&& heard[n].fact is Learned
    &&& ({
        let f = forgets(heard[k], data)->0;
        let member = named_member(heard[n].party, heard[n].fact->Learned_pokemon);
        &&& member is Some
        &&& member->0.slot == f.party_slot
        &&& f.move_slot < member->0.moves@.len()
        &&& member->0.moves@[f.move_slot as int]@ == f.mv
        &&& e is MoveReplaced
        &&& e->MoveReplaced_slot == f.party_slot
        &&& e->MoveReplaced_move_slot == f.move_slot as u8
        &&& e->MoveReplaced_old == f.mv
    })
}

proof fn pages_forget(start: LearningV, pages: Seq<PageSeen>, data: GameData)
    requires
        start.forgot_slot is None,
    ensures
        start.pages_read(pages, data).forgot_slot matches Some(f) ==> exists|k: int|
            forgotten_since(
                start.all_heard(pages, data),
                data,
                k,
                start.all_heard(pages, data).len() as int,
                f,
            ),
    decreases pages.len(),
{
    if pages.len() > 0 {
        let before = pages.drop_last();
        let p = pages.last();
        pages_forget(start, before, data);
        let l = LearningV {
            offer: p.offer,
            last_page: p.page,
            ..start.pages_read(before, data)
        };
        let heard = start.all_heard(before, data);
        if p.page.len() == 0 || p.page == start.pages_read(before, data).last_page {
            assert(start.all_heard(pages, data) =~= heard);
        } else {
            facts_forget(l, heard, parsed(p.page), p.party, data, p.wins);
        }
    }
}

/// Over all pages that were shown: a page records a move as replaced only where
/// a fact on it says that a member learned one, and the last fact before it that
/// bears on forgetting, on this page or an earlier one, is that member's own
/// text that it forgot that very move, with no offer, refusal or replacement in
/// between.
pub proof fn a_replacement_follows_its_own_forgetting(
    start: LearningV,
    pages: Seq<PageSeen>,
    p: PageSeen,
    data: GameData,
    i: int,
)
    requires
        start.forgot_slot is None,
        0 <= i < start.next_told(pages, p, data).events.len(),
        start.next_told(pages, p, data).events[i] is MoveReplaced,
    ensures
        exists|k: int, n: int|
            #[trigger] replaces(
                start.all_heard(pages.push(p), data),
                data,
                k,
                n,
                start.next_told(pages, p, data).events[i],
            ),
{
    pages_forget(start, pages, data);
    assert(pages.push(p).drop_last() =~= pages);
    let l = LearningV { offer: p.offer, last_page: p.page, ..start.pages_read(pages, data) };
    let heard = start.all_heard(pages, data);
    facts_forget(l, heard, parsed(p.page), p.party, data, p.wins);
    assert(pages.push(p).last() == p);
    assert(start.all_heard(pages.push(p), data) == heard + start.next_heard(pages, p, data));
    assert(start.next_told(pages, p, data) == l.told_all(parsed(p.page), data, p.party, p.wins));
}

/// A member with four moves learns none from a text that no forgotten move of
/// its own stands behind.
pub proof fn a_full_member_learns_only_by_forgetting(
    l: LearningV,
    pokemon: Seq<char>,
    mv: Seq<char>,
    data: GameData,
    party: Party,
    wins: Seq<i64>,
)
    requires
        named_member(party, pokemon) matches Some(member) ==> member.moves@.len() >= 4
            && !l.forgotten_by(member),
    ensures
        l.told(TextFactV::Learned { pokemon, mv }, data, party, wins).events.len() == 0,
{
}

} // verus!
