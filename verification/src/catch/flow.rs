//! The catch in battle: identifying the opponent, playing the odds' choice
//! each turn, and reading the outcome from battle text.

use vstd::prelude::*;
use vstd::string::StringExecFns;

use crate::action::{Expectation, ExpectationV};
use crate::battle::{
    identify_opponent, label_move, move_label, opponent, step_toward, stepping, BattleMemory,
    BattlePolicy, BattleV,
};
use crate::catch::page::{
    foe_status_text, is_nickname_question, status_told, throw_text, throw_told, ThrowOutcome,
};
use crate::catch::plan::{
    asked, ball_budget, budget, catch_question, declined, odds_multiplier, odds_summary,
    planned, CatchPlan, Foe, FoeV, OddsQuestion, PlanV, QuestionV,
};
use crate::catch::thrower::{Thrower, ThrowerV};
use crate::catch_odds::{odds_of, Choice, ChoiceV, FoeStatus, Lead, Odds, OddsV};
use crate::event::{events_of, report, text_of, GameEvent, GameEventV, Pocket};
use crate::executor::{press, pressing, wait_for, Decision, DecisionV};
use crate::gamedata::GameData;
use crate::input::Button;
use crate::observe::{
    lines_of, BattleMenu, BattleObservation, Observation, ScreenState, ShinyReading,
};
use crate::party::{hp_plausible_for, plausible_hp_for, Member, Party};
use crate::save::{count, counted};
use crate::state::GameState;
use crate::stock::{ball_count, ball_multiplier, balls_in, capped, SHINY_RESERVE};
use crate::text::{
    cat, cat3, contains, decimal, decimal_of, join, joined, quoted, quoted_text, same, trim,
    trimmed, within,
};

verus! {

/// Frames on the command menu to identify the wild opponent; after that the
/// battle goes on without a catch.
pub const IDENTIFY_FRAMES: u64 = 180;

/// Frames an attempt may wait on a battle menu for HUD numbers that read
/// (and agree on two frames) before it is abandoned.
pub const HUD_WAIT_FRAMES: u64 = 300;

/// A catch attempt in progress.
#[derive(Debug, Clone)]
pub struct Attempt {
    pub plan: CatchPlan,
    /// The status move was used (it is used once, hit or miss).
    pub opened: bool,
    /// Balls that broke free so far.
    pub throws: u32,
    /// The foe's status as told by battle text.
    pub foe_status: FoeStatus,
    /// Balls held (Master Ball excluded): the followed count when the
    /// attempt began, one less per ball that broke free, and the battle
    /// bag's own reading once a throw reads it. A non-shiny attempt stops
    /// at [`SHINY_RESERVE`].
    pub balls: Option<u16>,
    /// Turns (command menus) the foe has been seen asleep, this one
    /// included.
    pub asleep_turns: u8,
}

pub struct AttemptV {
    pub plan: PlanV,
    pub opened: bool,
    pub throws: u32,
    pub foe_status: FoeStatus,
    pub balls: Option<u16>,
    pub asleep_turns: u8,
}

impl View for Attempt {
    type V = AttemptV;

    open spec fn view(&self) -> AttemptV {
        AttemptV {
            plan: self.plan@,
            opened: self.opened,
            throws: self.throws,
            foe_status: self.foe_status,
            balls: self.balls,
            asleep_turns: self.asleep_turns,
        }
    }
}

/// The opponent as read on the command menu.
#[derive(Debug, Clone)]
pub struct Identity {
    pub species: String,
    pub level: u8,
    /// The caught icon.
    pub caught: bool,
    pub shiny: Option<ShinyReading>,
}

pub struct IdentityV {
    pub species: Seq<char>,
    pub level: u8,
    pub caught: bool,
    pub shiny: Option<ShinyReading>,
}

impl View for Identity {
    type V = IdentityV;

    open spec fn view(&self) -> IdentityV {
        IdentityV {
            species: self.species@,
            level: self.level,
            caught: self.caught,
            shiny: self.shiny,
        }
    }
}

/// HUD numbers of one frame: whether it shows the command menu, our HP, and
/// the foe's HP bar.
#[derive(Debug, Clone, Copy, PartialEq, Eq, Structural)]
pub struct HudReading {
    pub command: bool,
    pub hp: u16,
    pub max: u16,
    pub foe: u16,
}

/// What the odds of a turn were solved from.
#[derive(Debug, Clone)]
pub struct OddsKey {
    pub hp: u16,
    pub max: u16,
    pub foe: u16,
    pub status: FoeStatus,
    pub asleep_for: u8,
    pub balls: u16,
    pub status_allowed: bool,
    pub disabled: Option<String>,
}

pub struct OddsKeyV {
    pub hp: u16,
    pub max: u16,
    pub foe: u16,
    pub status: FoeStatus,
    pub asleep_for: u8,
    pub balls: u16,
    pub status_allowed: bool,
    pub disabled: Option<Seq<char>>,
}

impl View for OddsKey {
    type V = OddsKeyV;

    open spec fn view(&self) -> OddsKeyV {
        OddsKeyV {
            hp: self.hp,
            max: self.max,
            foe: self.foe,
            status: self.status,
            asleep_for: self.asleep_for,
            balls: self.balls,
            status_allowed: self.status_allowed,
            disabled: text_of(self.disabled),
        }
    }
}

/// Per-battle catching memory, owned by [`BattleMemory`].
#[derive(Debug)]
pub struct CatchMemory {
    /// The wild opponent was identified (or given up on) and the catch
    /// decided.
    pub decided: bool,
    pub attempt: Option<Attempt>,
    /// The species caught in this battle ("Gotcha!").
    pub caught: Option<String>,
    /// The identified wild opponent: (species, level).
    pub foe: Option<(String, u8)>,
    /// The PC box the catch was placed in (0-based), read from text.
    pub box_index: Option<u8>,
    /// An attempt was abandoned for its risk: RUN.
    pub flee: bool,
    /// The species the hunt is after: caught unless our lead is at risk.
    pub wanted: Option<String>,
    /// "The TRAINER blocked the BALL!": this is a trainer battle.
    pub blocked: bool,
    /// The current throw through the battle bag.
    pub thrower: Option<Thrower>,
    /// The move being chosen is the status opener.
    pub opener_chosen: bool,
    pub identity: Option<(u64, Identity)>,
    pub identify_since: Option<u64>,
    pub hud: Option<(u64, HudReading)>,
    /// First frame of the current wait for the HUD.
    pub hud_waiting_since: Option<u64>,
    /// This turn's command menu was counted (for the sleep turns).
    pub turn_counted: bool,
    /// The last odds solved and what from (solved once per reading).
    pub odds: Option<(OddsKey, Odds)>,
    /// The last page read once (awaiting a second frame).
    pub page: Option<(u64, String)>,
    /// The last page applied.
    pub applied: String,
    pub pokedex_seen: Option<u64>,
}

/// What is known of the catch.
#[verifier::ext_equal]
pub struct CatchV {
    pub decided: bool,
    pub attempt: Option<AttemptV>,
    pub caught: Option<Seq<char>>,
    pub foe: Option<(Seq<char>, u8)>,
    pub box_index: Option<u8>,
    pub flee: bool,
    pub wanted: Option<Seq<char>>,
    pub blocked: bool,
    pub thrower: Option<ThrowerV>,
    pub opener_chosen: bool,
    pub identity: Option<(u64, IdentityV)>,
    pub identify_since: Option<u64>,
    pub hud: Option<(u64, HudReading)>,
    pub hud_waiting_since: Option<u64>,
    pub turn_counted: bool,
    pub odds: Option<(OddsKeyV, OddsV)>,
    pub page: Option<(u64, Seq<char>)>,
    pub applied: Seq<char>,
    pub pokedex_seen: Option<u64>,
}

impl View for CatchMemory {
    type V = CatchV;

    open spec fn view(&self) -> CatchV {
        CatchV {
            decided: self.decided,
            attempt: match self.attempt {
                Some(a) => Some(a@),
                None => None,
            },
            caught: text_of(self.caught),
            foe: match self.foe {
                Some(f) => Some((f.0@, f.1)),
                None => None,
            },
            box_index: self.box_index,
            flee: self.flee,
            wanted: text_of(self.wanted),
            blocked: self.blocked,
            thrower: match self.thrower {
                Some(t) => Some(t@),
                None => None,
            },
            opener_chosen: self.opener_chosen,
            identity: match self.identity {
                Some(i) => Some((i.0, i.1@)),
                None => None,
            },
            identify_since: self.identify_since,
            hud: self.hud,
            hud_waiting_since: self.hud_waiting_since,
            turn_counted: self.turn_counted,
            odds: match self.odds {
                Some(o) => Some((o.0@, o.1@)),
                None => None,
            },
            page: match self.page {
                Some(p) => Some((p.0, p.1@)),
                None => None,
            },
            applied: self.applied@,
            pokedex_seen: self.pokedex_seen,
        }
    }
}

pub open spec fn story_note(detail: Seq<char>) -> GameEventV {
    GameEventV::GoalProgress { goal: "Story"@, phase: "Catch"@, detail }
}

fn log(events: &mut Vec<GameEvent>, detail: String)
    ensures
        events_of(final(events)@) == events_of(old(events)@).push(story_note(detail@)),
{
    report(
        events,
        GameEvent::GoalProgress { goal: "Story".to_owned(), phase: "Catch".to_owned(), detail },
    );
}

impl CatchV {
    pub open spec fn fresh() -> CatchV {
        CatchV {
            decided: false,
            attempt: None,
            caught: None,
            foe: None,
            box_index: None,
            flee: false,
            wanted: None,
            blocked: false,
            thrower: None,
            opener_chosen: false,
            identity: None,
            identify_since: None,
            hud: None,
            hud_waiting_since: None,
            turn_counted: false,
            odds: None,
            page: None,
            applied: Seq::empty(),
            pokedex_seen: None,
        }
    }

    /// The attempt's current choice: the last odds solved, else the plan's
    /// first action.
    pub open spec fn choice_now(self) -> Option<ChoiceV> {
        match self.odds {
            Some(o) => Some(o.1.choice),
            None => match self.attempt {
                Some(a) => Some(a.plan.odds.choice),
                None => None,
            },
        }
    }

    /// The memory after a battle frame: the battle back after USE ends that
    /// throw, and a frame without a menu (text, animation) ends the turn's
    /// menu (the next menu's HUD must be confirmed afresh, never by a reading
    /// from before the turn).
    pub open spec fn frame_seen(self, o: Observation) -> CatchV {
        let thrown = if o.battle is Some && self.thrower is Some && self.thrower->0.is_used() {
            CatchV { thrower: None, ..self }
        } else {
            self
        };
        if o.battle is Some && o.battle->0.menu is None {
            CatchV { hud: None, turn_counted: false, ..thrown }
        } else {
            thrown
        }
    }

    /// A move choice was confirmed: the opener, if it was one, is used.
    pub open spec fn move_confirmed(self) -> CatchV {
        CatchV {
            opener_chosen: false,
            attempt: match self.attempt {
                Some(a) => Some(AttemptV { opened: a.opened || self.opener_chosen, ..a }),
                None => None,
            },
            ..self
        }
    }

    /// The Pokédex page is closed once a later frame shows it too.
    pub open spec fn pokedex_looked(self, o: Observation) -> (CatchV, Option<DecisionV>) {
        let since = match self.pokedex_seen {
            Some(s) => s,
            None => o.frame_id,
        };
        if o.pokedex_page {
            (
                CatchV { pokedex_seen: Some(since), ..self },
                Some(
                    if since == o.frame_id {
                        DecisionV::Wait("confirming the Pokédex page"@)
                    } else {
                        pressing(
                            "close the Pokédex page"@,
                            Button::A,
                            ExpectationV::PokedexPageClosed,
                            120,
                        )
                    },
                ),
            )
        } else {
            (CatchV { pokedex_seen: None, ..self }, None)
        }
    }

    /// What a page about a throw makes of the memory.
    pub open spec fn throw_applied(self, page: Seq<char>) -> CatchV {
        match throw_told(page) {
            Some(ThrowOutcome::Caught) => CatchV {
                caught: match self.foe {
                    Some(f) => Some(f.0),
                    None => None,
                },
                ..self
            },
            Some(ThrowOutcome::BrokeFree) => match self.attempt {
                Some(a) => CatchV {
                    attempt: Some(
                        AttemptV {
                            throws: counted(a.throws),
                            balls: match a.balls {
                                Some(n) => Some(
                                    if n > 0 {
                                        (n - 1) as u16
                                    } else {
                                        0
                                    },
                                ),
                                None => None,
                            },
                            ..a
                        },
                    ),
                    ..self
                },
                None => self,
            },
            None => self,
        }
    }

    /// What a page about the foe's status makes of the memory.
    pub open spec fn status_applied(self, page: Seq<char>, printed: Seq<char>) -> CatchV {
        match (self.attempt, self.foe, status_told(page, printed)) {
            (Some(a), Some(_), Some(status)) => CatchV {
                attempt: Some(
                    AttemptV {
                        foe_status: status,
                        asleep_turns: if status == FoeStatus::Asleep {
                            a.asleep_turns
                        } else {
                            0
                        },
                        ..a
                    },
                ),
                ..self
            },
            _ => self,
        }
    }

    /// Only a caught Pokémon gets the nickname question.
    pub open spec fn question_applied(self, page: Seq<char>) -> CatchV {
        if self.caught is None && within(page, "Give a nickname to the"@) {
            CatchV {
                caught: match self.foe {
                    Some(f) => Some(f.0),
                    None => None,
                },
                ..self
            }
        } else {
            self
        }
    }

    /// Only a trainer blocks a ball: no catch in this battle.
    pub open spec fn block_applied(self, page: Seq<char>) -> CatchV {
        if within(page, "blocked the BALL"@) {
            CatchV { blocked: true, attempt: None, thrower: None, ..self }
        } else {
            self
        }
    }

    /// What a page read on two frames makes of the memory.
    pub open spec fn page_applied(self, page: Seq<char>, printed: Seq<char>, placed: Option<u8>)
        -> CatchV {
        let named = CatchV { applied: page, ..self }.throw_applied(page).status_applied(
            page,
            printed,
        ).question_applied(page);
        let boxed = match placed {
            Some(i) => CatchV { box_index: Some(i), ..named },
            None => named,
        };
        boxed.block_applied(page)
    }

    /// Reads battle text: the memory afterwards, and the page where it counts
    /// now. A page counts once two frames read the same text, and only once.
    pub open spec fn observed(self, o: Observation, printed: Seq<char>, placed: Option<u8>) -> (
        CatchV,
        Option<Seq<char>>,
    ) {
        let c = self.frame_seen(o);
        match o.dialogue {
            None => (c, None),
            Some(d) => {
                let page = joined(lines_of(d.lines@), " "@);
                if trimmed(page).len() == 0 {
                    (c, None)
                } else {
                    match c.page {
                        Some(p) => if p.1 == page {
                            if p.0 < o.frame_id && page != c.applied {
                                (c.page_applied(page, printed, placed), Some(page))
                            } else {
                                (c, None)
                            }
                        } else {
                            (CatchV { page: Some((o.frame_id, page)), ..c }, None)
                        },
                        None => (CatchV { page: Some((o.frame_id, page)), ..c }, None),
                    }
                }
            },
        }
    }
}

impl Default for CatchMemory {
    fn default() -> (c: CatchMemory)
        ensures
            c@ == CatchV::fresh(),
    {
        CatchMemory {
            decided: false,
            attempt: None,
            caught: None,
            foe: None,
            box_index: None,
            flee: false,
            wanted: None,
            blocked: false,
            thrower: None,
            opener_chosen: false,
            identity: None,
            identify_since: None,
            hud: None,
            hud_waiting_since: None,
            turn_counted: false,
            odds: None,
            page: None,
            applied: String::new(),
            pokedex_seen: None,
        }
    }
}

impl CatchMemory {
    fn see_frame(&mut self, o: &Observation)
        ensures
            final(self)@ == old(self)@.frame_seen(*o),
    {
        match &o.battle {
            Some(b) => {
                let used = match &self.thrower {
                    Some(t) => t.used(),
                    None => false,
                };
                if used {
                    self.thrower = None;
                }
                if b.menu.is_none() {
                    self.hud = None;
                    self.turn_counted = false;
                }
            },
            None => {},
        }
    }

    fn foe_species(&self) -> (r: Option<String>)
        ensures
            text_of(r) == match self@.foe {
                Some(f) => Some(f.0),
                None => None,
            },
    {
        match &self.foe {
            Some(f) => Some(f.0.clone()),
            None => None,
        }
    }

    fn apply_throw(&mut self, page: &str)
        ensures
            final(self)@ == old(self)@.throw_applied(page@),
    {
        match throw_text(page) {
            Some(ThrowOutcome::Caught) => {
                self.caught = self.foe_species();
            },
            Some(ThrowOutcome::BrokeFree) => match &mut self.attempt {
                Some(a) => {
                    a.throws = count(a.throws);
                    a.balls = match a.balls {
                        Some(n) => Some(
                            if n > 0 {
                                n - 1
                            } else {
                                0
                            },
                        ),
                        None => None,
                    };
                },
                None => {},
            },
            None => {},
        }
    }

    fn apply_status(&mut self, page: &str, printed: &str)
        ensures
            final(self)@ == old(self)@.status_applied(page@, printed@),
    {
        let told: Option<FoeStatus> = match &self.foe {
            Some(_) => foe_status_text(page, printed),
            None => None,
        };
        match &mut self.attempt {
            Some(a) => match told {
                Some(status) => {
                    if status != FoeStatus::Asleep {
                        a.asleep_turns = 0;
                    }
                    a.foe_status = status;
                },
                None => {},
            },
            None => {},
        }
    }

    fn apply_question(&mut self, page: &str)
        ensures
            final(self)@ == old(self)@.question_applied(page@),
    {
        if self.caught.is_none() && is_nickname_question(page) {
            self.caught = self.foe_species();
        }
    }

    fn apply_block(&mut self, page: &str)
        ensures
            final(self)@ == old(self)@.block_applied(page@),
    {
        if contains(page, "blocked the BALL") {
            self.blocked = true;
            self.attempt = None;
            self.thrower = None;
        }
    }

    fn note_applied(&mut self, page: &String)
        ensures
            final(self)@ == (CatchV { applied: page@, ..old(self)@ }),
    {
        self.applied = page.clone();
    }

    fn place(&mut self, placed: Option<u8>)
        ensures
            final(self)@ == (match placed {
                Some(i) => CatchV { box_index: Some(i), ..old(self)@ },
                None => old(self)@,
            }),
    {
        match placed {
            Some(i) => self.box_index = Some(i),
            None => {},
        }
    }

    /// Applies a page read on two frames.
    fn apply_page(&mut self, page: &String, printed: &str, placed: Option<u8>)
        ensures
            final(self)@ == old(self)@.page_applied(page@, printed@, placed),
    {
        self.note_applied(page);
        self.apply_throw(page.as_str());
        self.apply_status(page.as_str(), printed);
        self.apply_question(page.as_str());
        self.place(placed);
        self.apply_block(page.as_str());
    }

    /// Reads battle text on every battle frame: the throw's result, the
    /// foe's status, the nickname question (a catch) and the PC box. A page
    /// counts once two frames read the same text, and only once; that page
    /// is returned for the other battle-text readers. `printed` is the name
    /// that the game prints for the foe's species, and `placed` the PC box
    /// (0-based) that the page names, where it names one.
    pub fn observe(&mut self, o: &Observation, printed: &str, placed: Option<u8>) -> (r: Option<
        String,
    >)
        ensures
            final(self)@ == old(self)@.observed(*o, printed@, placed).0,
            text_of(r) == old(self)@.observed(*o, printed@, placed).1,
    {
        self.see_frame(o);
        let d = match &o.dialogue {
            Some(d) => d,
            None => {
                return None;
            },
        };
        let page = join(&d.lines, " ");
        if trim(page.as_str()).is_empty() {
            return None;
        }
        let again = match &self.page {
            Some(p) => {
                if p.1 == page {
                    if p.0 >= o.frame_id {
                        return None;
                    }
                    true
                } else {
                    false
                }
            },
            None => false,
        };
        if !again {
            self.page = Some((o.frame_id, page));
            return None;
        }
        if page == self.applied {
            return None;
        }
        self.apply_page(&page, printed, placed);
        Some(page)
    }

    /// A move choice was confirmed: the opener, if it was one, is used.
    pub fn on_move_confirmed(&mut self)
        ensures
            final(self)@ == old(self)@.move_confirmed(),
    {
        if self.opener_chosen {
            match &mut self.attempt {
                Some(a) => a.opened = true,
                None => {},
            }
        }
        self.opener_chosen = false;
    }

    /// The attempt's current choice is a throw.
    fn choice_is_throw(&self) -> (r: bool)
        ensures
            r == (self@.choice_now() == Some(ChoiceV::Throw)),
    {
        match &self.odds {
            Some(o) => matches!(o.1.choice, Choice::Throw),
            None => match &self.attempt {
                Some(a) => matches!(a.plan.odds.choice, Choice::Throw),
                None => false,
            },
        }
    }
}

/// Reads battle text into the battle's memory ([`CatchMemory::observe`]);
/// a blocked ball marks the battle as a trainer's. Returns the page newly
/// read on two frames, if any.
pub fn observe(memory: &mut BattleMemory, o: &Observation, printed: &str, placed: Option<u8>)
    -> (r: Option<String>)
    ensures
        ({
            let step = old(memory)@.catch.observed(*o, printed@, placed);
            &&& final(memory)@ == (BattleV {
                catch: step.0,
                trainer: old(memory)@.trainer || step.0.blocked,
                ..old(memory)@
            })
            &&& text_of(r) == step.1
        }),
{
    let page = memory.catch.observe(o, printed, placed);
    if memory.catch.blocked {
        memory.trainer = true;
    }
    page
}

// ---- Identifying the opponent ----

/// What a frame reads of the opponent, where all of it reads.
pub open spec fn identity_read(data: GameData, o: Observation) -> Option<IdentityV> {
    match (opponent(data, o), o.battle->0.opponent_caught) {
        (Some(foe), Some(caught)) => Some(
            IdentityV {
                species: foe.0,
                level: foe.1,
                caught,
                shiny: o.battle->0.opponent_shiny,
            },
        ),
        _ => None,
    }
}

fn read_identity(data: &GameData, o: &Observation, battle: &BattleObservation) -> (r: Option<
    Identity,
>)
    requires
        o.battle == Some(*battle),
    ensures
        match r {
            Some(i) => identity_read(*data, *o) == Some(i@),
            None => identity_read(*data, *o) is None,
        },
{
    match (identify_opponent(data, o), battle.opponent_caught) {
        (Some(foe), Some(caught)) => Some(
            Identity { species: foe.0, level: foe.1, caught, shiny: battle.opponent_shiny },
        ),
        _ => None,
    }
}

fn same_identity(a: &Identity, b: &Identity) -> (r: bool)
    ensures
        r == (a@ == b@),
{
    a.species == b.species && a.level == b.level && a.caught == b.caught && match (
        a.shiny,
        b.shiny,
    ) {
        (Some(x), Some(y)) => x == y,
        (None, None) => true,
        _ => false,
    }
}

/// Our HP to plan with: the HUD's reading, else what was last known, where it
/// can be.
pub open spec fn hp_to_plan(battle: BattleObservation, member: Member) -> Option<(u16, u16)> {
    let possible = |hp: (u16, u16)| hp_plausible_for(hp, member.level, Some(member.species@));
    if battle.player_hp_numbers is Some && possible(battle.player_hp_numbers->0) {
        battle.player_hp_numbers
    } else if member.hp is Some && possible(member.hp->0) {
        member.hp
    } else {
        None
    }
}

fn plan_hp(battle: &BattleObservation, member: &Member) -> (r: Option<(u16, u16)>)
    ensures
        r == hp_to_plan(*battle, *member),
{
    match battle.player_hp_numbers {
        Some(hp) => {
            if plausible_hp_for(hp, member.level, Some(member.species.as_str())) {
                return Some(hp);
            }
        },
        None => {},
    }
    match member.hp {
        Some(hp) => if plausible_hp_for(hp, member.level, Some(member.species.as_str())) {
            Some(hp)
        } else {
            None
        },
        None => None,
    }
}

pub open spec fn foe_planned(id: IdentityV, battle: BattleObservation) -> FoeV {
    FoeV {
        species: id.species,
        level: id.level,
        hp_per_mille: match battle.opponent_hp {
            Some(hp) => hp,
            None => 1000,
        },
        status: FoeStatus::Healthy,
        shiny: id.shiny == Some(ShinyReading::Shiny),
        caught: Some(id.caught),
    }
}

fn make_foe(id: &Identity, battle: &BattleObservation) -> (f: Foe)
    ensures
        f@ == foe_planned(id@, *battle),
{
    Foe {
        species: id.species.clone(),
        level: id.level,
        hp_per_mille: match battle.opponent_hp {
            Some(hp) => hp,
            None => 1000,
        },
        status: FoeStatus::Healthy,
        shiny: match id.shiny {
            Some(s) => s == ShinyReading::Shiny,
            None => false,
        },
        caught: Some(id.caught),
    }
}

pub open spec fn name_text(name: Option<Seq<char>>) -> Seq<char> {
    match name {
        Some(s) => "Some("@ + quoted_text(s) + ")"@,
        None => "None"@,
    }
}

pub open spec fn level_text(level: Option<u8>) -> Seq<char> {
    match level {
        Some(n) => "Some("@ + decimal_of(n as nat) + ")"@,
        None => "None"@,
    }
}

impl CatchV {
    /// The reading that an earlier frame read the same.
    pub open spec fn identity_confirmed(self, data: GameData, o: Observation) -> bool {
        identity_read(data, o) is Some && self.identity is Some && (self.identity->0).1
            == identity_read(data, o)->0 && (self.identity->0).0 < o.frame_id
    }

    /// The memory after an unconfirmed reading of the opponent.
    pub open spec fn identity_noted(self, data: GameData, o: Observation) -> CatchV {
        match identity_read(data, o) {
            None => CatchV { identity: None, ..self },
            Some(now) => if self.identity is Some && (self.identity->0).1 == now {
                self
            } else {
                CatchV { identity: Some((o.frame_id, now)), ..self }
            },
        }
    }
}

/// What the Pokédex learns of the identified opponent.
pub open spec fn seen_events(id: IdentityV) -> Seq<GameEventV> {
    let first = seq![
        if id.caught {
            GameEventV::SpeciesCaught { species: id.species }
        } else {
            GameEventV::SpeciesSeen { species: id.species }
        },
    ];
    match id.shiny {
        Some(ShinyReading::Shiny) => first.push(GameEventV::ShinySeen { species: id.species }),
        Some(ShinyReading::Unclear) => first.push(
            story_note(id.species + ": shiny reading unclear, treated as not shiny"@),
        ),
        _ => first,
    }
}

pub open spec fn catching_note(id: IdentityV, plan: PlanV) -> Seq<char> {
    "catching "@ + id.species + " Lv"@ + decimal_of(id.level as nat) + " with "@ + plan.ball + ": "@
        + odds_summary(plan.odds) + (if plan.shiny {
        " (shiny)"@
    } else {
        ""@
    }) + (if plan.wanted {
        " (hunted)"@
    } else {
        ""@
    })
}

/// The catch of an identified opponent: the attempt where one is made, and
/// what is reported about it.
pub open spec fn catch_planned(
    c: CatchV,
    id: IdentityV,
    battle: BattleObservation,
    data: GameData,
    state: GameState,
    party: Party,
    odds: Option<OddsV>,
) -> (Option<AttemptV>, Seq<char>) {
    match party.leader() {
        None => (c.attempt, id.species + ": no catch, the lead is unknown"@),
        Some(member) => match hp_to_plan(battle, member) {
            None => (c.attempt, id.species + ": no catch, our HP is unknown"@),
            Some(hp) => match planned(
                data,
                state,
                hp,
                foe_planned(id, battle),
                false,
                c.wanted == Some(id.species),
                odds,
            ) {
                Ok(plan) => (
                    Some(
                        AttemptV {
                            plan,
                            opened: false,
                            throws: 0,
                            foe_status: FoeStatus::Healthy,
                            balls: match state.saved.holds(Pocket::PokeBalls) {
                                Some(items) => Some(capped(balls_in(data, items))),
                                None => None,
                            },
                            asleep_turns: 0,
                        },
                    ),
                    catching_note(id, plan),
                ),
                Err(reason) => (
                    c.attempt,
                    "not catching "@ + id.species + " Lv"@ + decimal_of(id.level as nat) + ": "@
                        + reason,
                ),
            },
        },
    }
}

/// The opponent is still to be identified, and the frame shows the command
/// menu to do it on.
pub open spec fn identifies(m: BattleV, o: Observation) -> bool {
    !m.trainer && !m.catch.decided && o.battle is Some && o.battle->0.menu is Some
        && o.battle->0.menu->0 is Command
}

/// Identifying the opponent: the memory afterwards and what is reported.
pub open spec fn identified(
    m: BattleV,
    o: Observation,
    data: GameData,
    state: GameState,
    party: Party,
    odds: Option<OddsV>,
) -> (BattleV, Seq<GameEventV>) {
    if !identifies(m, o) {
        (m, Seq::empty())
    } else {
        let battle = o.battle->0;
        let since = match m.catch.identify_since {
            Some(s) => s,
            None => o.frame_id,
        };
        let c = CatchV { identify_since: Some(since), ..m.catch };
        if !c.identity_confirmed(data, o) {
            let noted = c.identity_noted(data, o);
            if o.frame_id >= since + IDENTIFY_FRAMES {
                (
                    BattleV { catch: CatchV { decided: true, ..noted }, ..m },
                    seq![
                        story_note(
                            "wild opponent not identified ("@ + name_text(
                                text_of(battle.opponent_name),
                            ) + " Lv"@ + level_text(battle.opponent_level) + "): no catch"@,
                        ),
                    ],
                )
            } else {
                (BattleV { catch: noted, ..m }, Seq::empty())
            }
        } else {
            let id = identity_read(data, o)->0;
            let known = CatchV {
                identity: None,
                decided: true,
                foe: Some((id.species, id.level)),
                ..c
            };
            let plan = catch_planned(known, id, battle, data, state, party, odds);
            (
                BattleV { catch: CatchV { attempt: plan.0, ..known }, ..m },
                seen_events(id).push(story_note(plan.1)),
            )
        }
    }
}

/// Plans the catch of the identified opponent.
fn plan_attempt(
    c: &mut CatchMemory,
    id: &Identity,
    battle: &BattleObservation,
    data: &GameData,
    state: &GameState,
    party: &Party,
    odds: Option<Odds>,
) -> (note: String)
    ensures
        ({
            let plan = catch_planned(
                old(c)@,
                id@,
                *battle,
                *data,
                *state,
                *party,
                odds_of(odds),
            );
            &&& final(c)@ == CatchV { attempt: plan.0, ..old(c)@ }
            &&& note@ == plan.1
        }),
{
    let member = match party.lead() {
        Some(m) => m,
        None => {
            return cat(id.species.as_str(), ": no catch, the lead is unknown");
        },
    };
    let hp = match plan_hp(battle, member) {
        Some(hp) => hp,
        None => {
            return cat(id.species.as_str(), ": no catch, our HP is unknown");
        },
    };
    let lead = Lead { member, hp };
    let foe = make_foe(id, battle);
    let wanted = match &c.wanted {
        Some(w) => *w == id.species,
        None => false,
    };
    match crate::catch::plan::plan_catch_wanted(data, state, &lead, &foe, false, wanted, odds) {
        Ok(plan) => {
            let mut note = cat3("catching ", id.species.as_str(), " Lv");
            note.append(decimal(id.level as u64).as_str());
            note.append(" with ");
            note.append(plan.ball.as_str());
            note.append(": ");
            note.append(plan.summary().as_str());
            note.append(
                if plan.shiny {
                    " (shiny)"
                } else {
                    ""
                },
            );
            note.append(
                if plan.wanted {
                    " (hunted)"
                } else {
                    ""
                },
            );
            c.attempt = Some(
                Attempt {
                    plan,
                    opened: false,
                    throws: 0,
                    foe_status: FoeStatus::Healthy,
                    balls: ball_count(data, state),
                    asleep_turns: 0,
                },
            );
            note
        },
        Err(reason) => {
            let mut note = cat3("not catching ", id.species.as_str(), " Lv");
            note.append(decimal(id.level as u64).as_str());
            note.append(": ");
            note.append(reason.as_str());
            note
        },
    }
}

fn report_seen(id: &Identity, events: &mut Vec<GameEvent>)
    ensures
        events_of(final(events)@) == events_of(old(events)@) + seen_events(id@),
{
    let ghost before = events_of(events@);
    if id.caught {
        report(events, GameEvent::SpeciesCaught { species: id.species.clone() });
    } else {
        report(events, GameEvent::SpeciesSeen { species: id.species.clone() });
    }
    match id.shiny {
        Some(ShinyReading::Shiny) => report(
            events,
            GameEvent::ShinySeen { species: id.species.clone() },
        ),
        Some(ShinyReading::Unclear) => log(
            events,
            cat(id.species.as_str(), ": shiny reading unclear, treated as not shiny"),
        ),
        _ => {},
    }
    assert(events_of(events@) =~= before + seen_events(id@));
}

/// Identifies the wild opponent once per battle, on the command menu, once
/// two frames agree on its species (the HUD name resolving to exactly one),
/// level, caught icon and shiny reading. Emits `SpeciesSeen` or
/// `SpeciesCaught` (and `ShinySeen`), then plans the catch. `odds` are those of
/// [`identify_question`].
pub fn identify(
    o: &Observation,
    data: &GameData,
    state: &GameState,
    party: &Party,
    memory: &mut BattleMemory,
    odds: Option<Odds>,
    events: &mut Vec<GameEvent>,
)
    ensures
        ({
            let step = identified(
                old(memory)@,
                *o,
                *data,
                *state,
                *party,
                odds_of(odds),
            );
            &&& final(memory)@ == step.0
            &&& events_of(final(events)@) == events_of(old(events)@) + step.1
        }),
{
    let ghost start = memory@;
    let ghost given = odds_of(odds);
    let ghost before = events_of(events@);
    assert(before + Seq::<GameEventV>::empty() =~= before);
    if memory.trainer || memory.catch.decided {
        return;
    }
    let battle = match &o.battle {
        Some(b) => b,
        None => {
            return;
        },
    };
    match battle.menu {
        Some(BattleMenu::Command { .. }) => {},
        _ => {
            return;
        },
    }
    let since: u64 = match memory.catch.identify_since {
        Some(s) => s,
        None => o.frame_id,
    };
    memory.catch.identify_since = Some(since);
    let reading = read_identity(data, o, battle);
    let (same, earlier) = match (&reading, &memory.catch.identity) {
        (Some(now), Some(seen)) => (same_identity(&seen.1, now), seen.0 < o.frame_id),
        _ => (false, false),
    };
    if !(same && earlier) {
        match reading {
            Some(now) => {
                if !same {
                    memory.catch.identity = Some((o.frame_id, now));
                }
            },
            None => {
                memory.catch.identity = None;
            },
        }
        if o.frame_id >= since && o.frame_id - since >= IDENTIFY_FRAMES {
            memory.catch.decided = true;
            let name = match &battle.opponent_name {
                Some(s) => cat3("Some(", quoted(s).as_str(), ")"),
                None => "None".to_owned(),
            };
            let level = match battle.opponent_level {
                Some(n) => cat3("Some(", decimal(n as u64).as_str(), ")"),
                None => "None".to_owned(),
            };
            let mut note = cat3("wild opponent not identified (", name.as_str(), " Lv");
            note.append(level.as_str());
            note.append("): no catch");
            log(events, note);
            assert(events_of(events@) =~= before + identified(
                start,
                *o,
                *data,
                *state,
                *party,
                given,
            ).1);
        }
        return;
    }
    match reading {
        Some(id) => {
            memory.catch.identity = None;
            memory.catch.decided = true;
            memory.catch.foe = Some((id.species.clone(), id.level));
            report_seen(&id, events);
            let note = plan_attempt(&mut memory.catch, &id, battle, data, state, party, odds);
            log(events, note);
            assert(events_of(events@) =~= before + identified(
                start,
                *o,
                *data,
                *state,
                *party,
                given,
            ).1);
        },
        None => {},
    }
}

/// The odds that [`identify`] wants on this frame: what they are to be solved
/// from, where a catch may be tried.
pub fn identify_question(
    o: &Observation,
    data: &GameData,
    state: &GameState,
    party: &Party,
    memory: &BattleMemory,
) -> (r: Option<OddsQuestion>)
    ensures
        ({
            let id = identity_read(*data, *o)->0;
            let foe = foe_planned(id, o.battle->0);
            let wanted = memory@.catch.wanted == Some(id.species);
            let planning = identifies(memory@, *o) && memory@.catch.identity_confirmed(*data, *o)
                && party.leader() is Some && hp_to_plan(o.battle->0, party.leader()->0) is Some;
            let hp = hp_to_plan(o.battle->0, party.leader()->0)->0;
            match r {
                Some(q) => planning && declined(*data, *state, hp, foe, false, wanted) is None
                    && q@ == asked(*data, *state, hp, foe, wanted),
                None => !planning || declined(*data, *state, hp, foe, false, wanted) is Some,
            }
        }),
{
    if memory.trainer || memory.catch.decided {
        return None;
    }
    let battle = match &o.battle {
        Some(b) => b,
        None => {
            return None;
        },
    };
    match battle.menu {
        Some(BattleMenu::Command { .. }) => {},
        _ => {
            return None;
        },
    }
    let id = match read_identity(data, o, battle) {
        Some(id) => id,
        None => {
            return None;
        },
    };
    let confirmed = match &memory.catch.identity {
        Some(seen) => same_identity(&seen.1, &id) && seen.0 < o.frame_id,
        None => false,
    };
    if !confirmed {
        return None;
    }
    let member = match party.lead() {
        Some(m) => m,
        None => {
            return None;
        },
    };
    let hp = match plan_hp(battle, member) {
        Some(hp) => hp,
        None => {
            return None;
        },
    };
    let lead = Lead { member, hp };
    let foe = make_foe(&id, battle);
    let wanted = match &memory.catch.wanted {
        Some(w) => *w == id.species,
        None => false,
    };
    match catch_question(data, state, &lead, &foe, false, wanted) {
        Ok(q) => Some(q),
        Err(_) => None,
    }
}

// ---- A turn of an attempt ----

/// HUD numbers of a frame, where they read and can be.
pub open spec fn hud_read(battle: BattleObservation, member: Member, command: bool) -> Option<
    HudReading,
> {
    match (battle.player_hp_numbers, battle.opponent_hp) {
        (Some(us), Some(foe)) => if hp_plausible_for(us, member.level, Some(member.species@)) {
            Some(HudReading { command, hp: us.0, max: us.1, foe })
        } else {
            None
        },
        _ => None,
    }
}

fn read_hud(battle: &BattleObservation, member: &Member, command: bool) -> (r: Option<HudReading>)
    ensures
        r == hud_read(*battle, *member, command),
{
    match (battle.player_hp_numbers, battle.opponent_hp) {
        (Some(us), Some(foe)) => if plausible_hp_for(
            us,
            member.level,
            Some(member.species.as_str()),
        ) {
            Some(HudReading { command, hp: us.0, max: us.1, foe })
        } else {
            None
        },
        _ => None,
    }
}

impl CatchV {
    /// The reading is the one of an earlier frame.
    pub open spec fn hud_confirmed(self, reading: Option<HudReading>, frame: u64) -> bool {
        reading is Some && self.hud is Some && (self.hud->0).1 == reading->0 && (self.hud->0).0
            < frame
    }

    /// The memory after an unconfirmed reading of the HUD.
    pub open spec fn hud_noted(self, reading: Option<HudReading>, frame: u64) -> CatchV {
        match reading {
            Some(now) => if self.hud is Some && (self.hud->0).1 == now {
                self
            } else {
                CatchV { hud: Some((frame, now)), ..self }
            },
            None => self,
        }
    }

    /// Waiting for the HUD to read the same on two frames, and giving up.
    pub open spec fn hud_waiting(self, species: Seq<char>, frame: u64) -> (
        CatchV,
        Option<DecisionV>,
        Seq<GameEventV>,
    ) {
        let since = match self.hud_waiting_since {
            Some(s) => s,
            None => frame,
        };
        if frame > since + HUD_WAIT_FRAMES {
            (
                CatchV { attempt: None, hud_waiting_since: None, ..self },
                None,
                seq![
                    story_note(
                        species
                            + ": the HUD's HP didn't read the same on two frames: abandoning the catch"@,
                    ),
                ],
            )
        } else {
            (
                CatchV { hud_waiting_since: Some(since), ..self },
                Some(DecisionV::Wait("confirming the HUD on a later frame"@)),
                Seq::empty(),
            )
        }
    }

    /// A new turn: one more turn asleep.
    pub open spec fn turn_begun(self, command: bool) -> CatchV {
        let waited = CatchV { hud_waiting_since: None, ..self };
        if command && !self.turn_counted {
            CatchV {
                turn_counted: true,
                attempt: match self.attempt {
                    Some(a) => Some(
                        AttemptV {
                            asleep_turns: if a.foe_status == FoeStatus::Asleep && a.asleep_turns
                                < u8::MAX {
                                (a.asleep_turns + 1) as u8
                            } else {
                                a.asleep_turns
                            },
                            ..a
                        },
                    ),
                    None => None,
                },
                ..waited
            }
        } else {
            waited
        }
    }
}

impl AttemptV {
    /// Balls that this attempt may still throw.
    pub open spec fn balls_left(self) -> u16 {
        budget(
            match self.balls {
                Some(n) => n,
                None => SHINY_RESERVE,
            },
            self.plan.shiny || self.plan.wanted,
        )
    }

    /// Our actions since the foe was seen asleep.
    pub open spec fn asleep_for(self) -> u8 {
        if self.asleep_turns > 0 {
            (self.asleep_turns - 1) as u8
        } else {
            0
        }
    }

    /// Only a shiny, or the hunt's species, may throw the reserve.
    pub open spec fn at_reserve(self) -> bool {
        !self.plan.shiny && !self.plan.wanted && self.balls is Some && self.balls->0
            <= SHINY_RESERVE
    }

    /// What the odds of a turn are solved from.
    pub open spec fn turn_key(self, hud: HudReading, disabled: Option<Seq<char>>) -> OddsKeyV {
        OddsKeyV {
            hp: hud.hp,
            max: hud.max,
            foe: hud.foe,
            status: self.foe_status,
            asleep_for: self.asleep_for(),
            balls: self.balls_left(),
            status_allowed: !self.opened,
            disabled,
        }
    }

    pub open spec fn turn_question(
        self,
        hud: HudReading,
        disabled: Option<Seq<char>>,
        foe: (Seq<char>, u8),
        data: GameData,
    ) -> QuestionV {
        QuestionV {
            hp: (hud.hp, hud.max),
            species: foe.0,
            level: foe.1,
            hp_per_mille: hud.foe,
            status: self.foe_status,
            asleep_for: self.asleep_for(),
            shiny: self.plan.shiny,
            wanted: self.plan.wanted,
            ball: self.plan.ball,
            multiplier: odds_multiplier(data, self.plan.ball),
            balls: self.balls_left(),
            status_allowed: !self.opened,
            disabled,
        }
    }
}

/// "SPECIES_PIDGEY at 1000‰, us 54/54, 5 balls: throw (P(catch) …)".
pub open spec fn turn_note(species: Seq<char>, hud: HudReading, balls: u16, odds: OddsV) -> Seq<
    char,
> {
    species + " at "@ + decimal_of(hud.foe as nat) + "‰, us "@ + decimal_of(hud.hp as nat) + "/"@
        + decimal_of(hud.max as nat) + ", "@ + decimal_of(balls as nat) + " balls: "@
        + odds.choice.text() + " (P(catch) "@ + odds.catch + ", P(KO) "@ + odds.foe_faints
        + ", risk "@ + odds.lead_faints + ")"@
}

pub open spec fn reserve_note(species: Seq<char>, balls: u16) -> Seq<char> {
    species + ": "@ + decimal_of(balls as nat)
        + " balls, at the shiny reserve 5: abandoning the catch"@
}

pub open spec fn risk_note(species: Seq<char>, odds: OddsV) -> Seq<char> {
    species + ": "@ + odds.choice.text() + " with risk "@ + odds.lead_faints
        + " (limit 0.02): abandoning the catch"@
}

impl BattleV {
    /// A shiny never runs for risk; only the low-HP rule may RUN.
    pub open spec fn shiny_runs(self, o: Observation, policy: BattlePolicy, shiny: bool) -> bool {
        let hp = o.battle->0.player_hp;
        shiny && o.battle->0.menu->0 is Command && hp is Some && hp->0 < policy.flee_below
            && self.run_attempts < policy.max_run_attempts
    }

    /// The odds of the turn: the last ones, where they were solved from the
    /// same, or those just solved.
    pub open spec fn turn_odds(self, key: OddsKeyV, odds: Option<OddsV>) -> Option<OddsV> {
        if self.catch.odds is Some && (self.catch.odds->0).0 == key {
            Some((self.catch.odds->0).1)
        } else {
            odds
        }
    }

    /// Plays a choice on the battle menu.
    pub open spec fn playing(self, o: Observation, member: Member, attempt: AttemptV, choice: ChoiceV)
        -> (BattleV, DecisionV) {
        let fight = match choice {
            ChoiceV::Status(slot, mv) => Some((slot, mv)),
            ChoiceV::Attack(slot, mv) => Some((slot, mv)),
            _ => None,
        };
        match o.battle->0.menu->0 {
            BattleMenu::Command { column, row } => if fight is Some {
                (
                    self,
                    stepping(
                        (column, row),
                        (0, 0),
                        false,
                        "FIGHT"@,
                        ExpectationV::ScreenIs(ScreenState::BattleMoveSelection),
                    ),
                )
            } else {
                (
                    if (column, row) == (1u8, 0u8) {
                        BattleV {
                            catch: CatchV {
                                thrower: Some(
                                    ThrowerV {
                                        keep_reserve: !(attempt.plan.shiny || attempt.plan.wanted),
                                        ..ThrowerV::fresh()
                                    },
                                ),
                                ..self.catch
                            },
                            ..self
                        }
                    } else {
                        self
                    },
                    stepping(
                        (column, row),
                        (1, 0),
                        false,
                        "BAG"@,
                        ExpectationV::BagPocket(Seq::empty()),
                    ),
                )
            },
            BattleMenu::Moves { column, row } => match fight {
                None => (
                    self,
                    pressing(
                        "back to the command menu to throw"@,
                        Button::B,
                        ExpectationV::ScreenIs(ScreenState::BattleCommand),
                        45,
                    ),
                ),
                Some((slot, mv)) => {
                    let target = (slot % 2, slot / 2);
                    (
                        BattleV {
                            last_move: Some(mv),
                            last_slot: Some((member.slot, slot)),
                            catch: CatchV {
                                opener_chosen: if (column, row) == target {
                                    choice is Status
                                } else {
                                    self.catch.opener_chosen
                                },
                                ..self.catch
                            },
                            ..self
                        },
                        stepping(
                            (column, row),
                            target,
                            true,
                            move_label(slot, mv),
                            ExpectationV::ScreenIsNot(ScreenState::BattleMoveSelection),
                        ),
                    )
                },
            },
        }
    }

    /// The choice that odds come to: a shiny is never run from while there is
    /// a ball; another attempt is abandoned where the odds say RUN or are too
    /// risky. `None` where nothing is played.
    pub open spec fn choice_by(attempt: AttemptV, odds: OddsV) -> Option<ChoiceV> {
        if attempt.plan.shiny {
            if odds.choice is Run {
                if attempt.balls_left() > 0 {
                    Some(ChoiceV::Throw)
                } else {
                    None
                }
            } else {
                Some(odds.choice)
            }
        } else if odds.choice is Run || odds.risky {
            None
        } else {
            Some(odds.choice)
        }
    }

    /// A turn by its odds, which are reported where they were just solved.
    pub open spec fn by_odds(
        self,
        o: Observation,
        member: Member,
        hud: HudReading,
        key: OddsKeyV,
        now: OddsV,
    ) -> (BattleV, Option<DecisionV>, Seq<GameEventV>) {
        let attempt = self.catch.attempt->0;
        let species = (self.catch.foe->0).0;
        let cached = self.catch.odds is Some && (self.catch.odds->0).0 == key;
        let told = if cached {
            Seq::empty()
        } else {
            seq![story_note(turn_note(species, hud, attempt.balls_left(), now))]
        };
        let m = BattleV { catch: CatchV { odds: Some((key, now)), ..self.catch }, ..self };
        match BattleV::choice_by(attempt, now) {
            Some(choice) => {
                let play = m.playing(o, member, attempt, choice);
                (play.0, Some(play.1), told)
            },
            None => if attempt.plan.shiny {
                (m, None, told)
            } else {
                (
                    BattleV { catch: CatchV { attempt: None, flee: true, ..m.catch }, ..m },
                    None,
                    told.push(story_note(risk_note(species, now))),
                )
            },
        }
    }

    /// A turn of an attempt, by HUD numbers that two frames agreed on.
    pub open spec fn turn(
        self,
        o: Observation,
        policy: BattlePolicy,
        member: Member,
        hud: HudReading,
        data: GameData,
        odds: Option<OddsV>,
    ) -> (BattleV, Option<DecisionV>, Seq<GameEventV>) {
        let attempt = self.catch.attempt->0;
        let species = (self.catch.foe->0).0;
        let key = attempt.turn_key(hud, self.disabled);
        if self.shiny_runs(o, policy, attempt.plan.shiny) {
            (
                self,
                Some(
                    match o.battle->0.menu->0 {
                        BattleMenu::Command { column, row } => stepping(
                            (column, row),
                            (1, 1),
                            false,
                            "RUN"@,
                            ExpectationV::ScreenIsNot(ScreenState::BattleCommand),
                        ),
                        BattleMenu::Moves { .. } => DecisionV::Wait(Seq::empty()),
                    },
                ),
                Seq::empty(),
            )
        } else if attempt.at_reserve() {
            // RUN (in a wild battle, when allowed), or fight on.
            (
                BattleV { catch: CatchV { attempt: None, flee: true, ..self.catch }, ..self },
                None,
                seq![story_note(reserve_note(species, attempt.balls->0))],
            )
        } else {
            match self.turn_odds(key, odds) {
                None => (
                    BattleV { catch: CatchV { attempt: None, ..self.catch }, ..self },
                    None,
                    seq![
                        story_note(
                            species
                                + ": no odds (unknown to the game data): abandoning the catch"@,
                        ),
                    ],
                ),
                Some(now) => self.by_odds(o, member, hud, key, now),
            }
        }
    }

    /// An attempt goes on: a battle menu shows, and the opponent and our lead
    /// are known.
    pub open spec fn attempts(self, o: Observation, party: Party) -> bool {
        o.battle is Some && o.battle->0.menu is Some && self.catch.attempt is Some
            && self.catch.foe is Some && party.leader() is Some
    }

    /// The battle input during a catch attempt: the memory afterwards, the
    /// input (none hands the menu back to the ordinary battle logic), and what
    /// is reported.
    pub open spec fn attempting(
        self,
        o: Observation,
        policy: BattlePolicy,
        party: Party,
        data: GameData,
        odds: Option<OddsV>,
    ) -> (BattleV, Option<DecisionV>, Seq<GameEventV>) {
        if !self.attempts(o, party) {
            (self, None, Seq::empty())
        } else {
            let member = party.leader()->0;
            let command = o.battle->0.menu->0 is Command;
            let reading = hud_read(o.battle->0, member, command);
            if !self.catch.hud_confirmed(reading, o.frame_id) {
                let w = self.catch.hud_noted(reading, o.frame_id).hud_waiting(
                    (self.catch.foe->0).0,
                    o.frame_id,
                );
                (BattleV { catch: w.0, ..self }, w.1, w.2)
            } else {
                BattleV { catch: self.catch.turn_begun(command), ..self }.turn(
                    o,
                    policy,
                    member,
                    reading->0,
                    data,
                    odds,
                )
            }
        }
    }
}

fn same_key(a: &OddsKey, b: &OddsKey) -> (r: bool)
    ensures
        r == (a@ == b@),
{
    a.hp == b.hp && a.max == b.max && a.foe == b.foe && a.status == b.status && a.asleep_for
        == b.asleep_for && a.balls == b.balls && a.status_allowed == b.status_allowed && match (
        &a.disabled,
        &b.disabled,
    ) {
        (Some(x), Some(y)) => *x == *y,
        (None, None) => true,
        _ => false,
    }
}

fn copy_text(s: &Option<String>) -> (r: Option<String>)
    ensures
        text_of(r) == text_of(*s),
{
    match s {
        Some(s) => Some(s.clone()),
        None => None,
    }
}

impl Attempt {
    fn balls_to_throw(&self) -> (n: u16)
        ensures
            n == self@.balls_left(),
    {
        let held = match self.balls {
            Some(n) => n,
            None => SHINY_RESERVE,
        };
        ball_budget(held, self.plan.shiny || self.plan.wanted)
    }

    fn actions_asleep(&self) -> (n: u8)
        ensures
            n == self@.asleep_for(),
    {
        if self.asleep_turns > 0 {
            self.asleep_turns - 1
        } else {
            0
        }
    }

    fn key_for(&self, hud: HudReading, disabled: &Option<String>) -> (k: OddsKey)
        ensures
            k@ == self@.turn_key(hud, text_of(*disabled)),
    {
        OddsKey {
            hp: hud.hp,
            max: hud.max,
            foe: hud.foe,
            status: self.foe_status,
            asleep_for: self.actions_asleep(),
            balls: self.balls_to_throw(),
            status_allowed: !self.opened,
            disabled: copy_text(disabled),
        }
    }
}

/// Plays a choice on the battle menu.
fn play(
    o: &Observation,
    menu: BattleMenu,
    memory: &mut BattleMemory,
    member: &Member,
    any_ball: bool,
    choice: &Choice,
    attempt: Ghost<AttemptV>,
) -> (d: Decision)
    requires
        o.battle is Some,
        o.battle->0.menu == Some(menu),
        any_ball == (attempt@.plan.shiny || attempt@.plan.wanted),
    ensures
        final(memory)@ == old(memory)@.playing(*o, *member, attempt@, choice@).0,
        d@ == old(memory)@.playing(*o, *member, attempt@, choice@).1,
{
    match menu {
        BattleMenu::Command { column, row } => {
            let fight = match choice {
                Choice::Status(_, _) => true,
                Choice::Attack(_, _) => true,
                _ => false,
            };
            if fight {
                step_toward(
                    (column, row),
                    (0, 0),
                    false,
                    "FIGHT",
                    Expectation::ScreenIs(ScreenState::BattleMoveSelection),
                )
            } else {
                if column == 1 && row == 0 {
                    memory.catch.thrower = Some(Thrower::new().keeping_reserve(!any_ball));
                }
                let empty = String::new();
                assert(empty@ =~= Seq::empty());
                step_toward(
                    (column, row),
                    (1, 0),
                    false,
                    "BAG",
                    Expectation::BagPocket(empty),
                )
            }
        },
        BattleMenu::Moves { column, row } => {
            let (slot, mv, status) = match choice {
                Choice::Status(slot, mv) => (*slot, mv, true),
                Choice::Attack(slot, mv) => (*slot, mv, false),
                _ => {
                    return press(
                        "back to the command menu to throw".to_owned(),
                        Button::B,
                        Expectation::ScreenIs(ScreenState::BattleCommand),
                        45,
                    );
                },
            };
            memory.last_move = Some(mv.clone());
            memory.last_slot = Some((member.slot, slot));
            if column == slot % 2 && row == slot / 2 {
                memory.catch.opener_chosen = status;
            }
            step_toward(
                (column, row),
                (slot % 2, slot / 2),
                true,
                label_move(slot, mv).as_str(),
                Expectation::ScreenIsNot(ScreenState::BattleMoveSelection),
            )
        },
    }
}

/// Gives the attempt up, to RUN or to fight on.
fn abandon(memory: &mut CatchMemory, flee: bool)
    ensures
        final(memory)@ == (CatchV { attempt: None, flee: old(memory)@.flee || flee, ..old(memory)@ }),
{
    memory.attempt = None;
    memory.flee = memory.flee || flee;
}

fn keep_odds(memory: &mut CatchMemory, key: OddsKey, odds: &Odds)
    ensures
        final(memory)@ == (CatchV { odds: Some((key@, odds@)), ..old(memory)@ }),
{
    memory.odds = Some((key, odds.copy()));
}

/// The odds at hand, where they were solved from the same.
fn odds_at_hand(memory: &CatchMemory, key: &OddsKey) -> (r: Option<Odds>)
    ensures
        odds_of(r) == if memory@.odds is Some && (memory@.odds->0).0 == key@ {
            Some((memory@.odds->0).1)
        } else {
            None
        },
{
    match &memory.odds {
        Some(k) => if same_key(&k.0, key) {
            Some(k.1.copy())
        } else {
            None
        },
        None => None,
    }
}

fn note_turn(species: &str, hud: HudReading, balls: u16, odds: &Odds) -> (note: String)
    ensures
        note@ == turn_note(species@, hud, balls, odds@),
{
    let mut note = cat3(species, " at ", decimal(hud.foe as u64).as_str());
    note.append("‰, us ");
    note.append(decimal(hud.hp as u64).as_str());
    note.append("/");
    note.append(decimal(hud.max as u64).as_str());
    note.append(", ");
    note.append(decimal(balls as u64).as_str());
    note.append(" balls: ");
    note.append(odds.choice.text().as_str());
    note.append(" (P(catch) ");
    note.append(odds.outlook.catch.as_str());
    note.append(", P(KO) ");
    note.append(odds.outlook.foe_faints.as_str());
    note.append(", risk ");
    note.append(odds.outlook.lead_faints.as_str());
    note.append(")");
    note
}

fn note_risk(species: &str, odds: &Odds) -> (note: String)
    ensures
        note@ == risk_note(species@, odds@),
{
    let mut note = cat3(species, ": ", odds.choice.text().as_str());
    note.append(" with risk ");
    note.append(odds.outlook.lead_faints.as_str());
    note.append(" (limit 0.02): abandoning the catch");
    note
}

/// A turn by its odds.
fn turn_by_odds(
    o: &Observation,
    menu: BattleMenu,
    memory: &mut BattleMemory,
    member: &Member,
    species: &str,
    hud: HudReading,
    key: OddsKey,
    now: Odds,
    fresh: bool,
    events: &mut Vec<GameEvent>,
) -> (r: Option<Decision>)
    requires
        o.battle is Some,
        o.battle->0.menu == Some(menu),
        old(memory)@.catch.attempt is Some,
        old(memory)@.catch.foe is Some,
        (old(memory)@.catch.foe->0).0 == species@,
        fresh == !(old(memory)@.catch.odds is Some && (old(memory)@.catch.odds->0).0 == key@),
    ensures
        ({
            let step = old(memory)@.by_odds(*o, *member, hud, key@, now@);
            &&& final(memory)@ == step.0
            &&& match r {
                Some(d) => step.1 == Some(d@),
                None => step.1 is None,
            }
            &&& events_of(final(events)@) == events_of(old(events)@) + step.2
        }),
{
    let ghost before = events_of(events@);
    let ghost attempt = memory@.catch.attempt->0;
    let ghost step = memory@.by_odds(*o, *member, hud, key@, now@);
    let (shiny, wanted, balls) = match &memory.catch.attempt {
        Some(a) => (a.plan.shiny, a.plan.wanted, a.balls_to_throw()),
        None => {
            return None;
        },
    };
    if fresh {
        log(events, note_turn(species, hud, balls, &now));
    }
    keep_odds(&mut memory.catch, key, &now);
    let run = matches!(now.choice, Choice::Run);
    if shiny {
        if run && balls == 0 {
            assert(events_of(events@) =~= before + step.2);
            return None;
        }
    } else if run || now.outlook.risky {
        abandon(&mut memory.catch, true);
        log(events, note_risk(species, &now));
        assert(events_of(events@) =~= before + step.2);
        return None;
    }
    let choice = if run {
        Choice::Throw
    } else {
        now.choice
    };
    assert(events_of(events@) =~= before + step.2);
    Some(play(o, menu, memory, member, shiny || wanted, &choice, Ghost(attempt)))
}

/// A turn of an attempt, by HUD numbers that two frames agreed on.
fn take_turn(
    o: &Observation,
    battle: &BattleObservation,
    menu: BattleMenu,
    policy: &BattlePolicy,
    memory: &mut BattleMemory,
    member: &Member,
    species: &str,
    hud: HudReading,
    data: &GameData,
    odds: Option<Odds>,
    events: &mut Vec<GameEvent>,
) -> (r: Option<Decision>)
    requires
        o.battle == Some(*battle),
        battle.menu == Some(menu),
        old(memory)@.catch.attempt is Some,
        old(memory)@.catch.foe is Some,
        (old(memory)@.catch.foe->0).0 == species@,
    ensures
        ({
            let step = old(memory)@.turn(
                *o,
                *policy,
                *member,
                hud,
                *data,
                odds_of(odds),
            );
            &&& final(memory)@ == step.0
            &&& match r {
                Some(d) => step.1 == Some(d@),
                None => step.1 is None,
            }
            &&& events_of(final(events)@) == events_of(old(events)@) + step.2
        }),
{
    let ghost start = memory@;
    let ghost given = odds_of(odds);
    let ghost before = events_of(events@);
    let ghost step = start.turn(*o, *policy, *member, hud, *data, given);
    assert(before + Seq::<GameEventV>::empty() =~= before);
    let ghost attempt_v = start.catch.attempt->0;
    let (shiny, wanted, held, key) = match &memory.catch.attempt {
        Some(a) => (
            a.plan.shiny,
            a.plan.wanted,
            a.balls,
            a.key_for(hud, &memory.disabled),
        ),
        None => {
            return None;
        },
    };
    if shiny {
        let low = match battle.player_hp {
            Some(hp) => hp < policy.flee_below,
            None => false,
        };
        match menu {
            BattleMenu::Command { column, row } => {
                if low && memory.run_attempts < policy.max_run_attempts {
                    return Some(
                        step_toward(
                            (column, row),
                            (1, 1),
                            false,
                            "RUN",
                            Expectation::ScreenIsNot(ScreenState::BattleCommand),
                        ),
                    );
                }
            },
            BattleMenu::Moves { .. } => {},
        }
    } else {
        match held {
            Some(n) => {
                if !wanted && n <= SHINY_RESERVE {
                    abandon(&mut memory.catch, true);
                    log(
                        events,
                        cat3(
                            cat(species, ": ").as_str(),
                            decimal(n as u64).as_str(),
                            " balls, at the shiny reserve 5: abandoning the catch",
                        ),
                    );
                    assert(events_of(events@) =~= before + step.2);
                    return None;
                }
            },
            None => {},
        }
    }
    assert(!attempt_v.at_reserve());
    assert(!start.shiny_runs(*o, *policy, attempt_v.plan.shiny));
    let cached = odds_at_hand(&memory.catch, &key);
    let (now, fresh) = match cached {
        Some(odds) => (odds, false),
        None => match odds {
            None => {
                abandon(&mut memory.catch, false);
                log(
                    events,
                    cat(
                        species,
                        ": no odds (unknown to the game data): abandoning the catch",
                    ),
                );
                assert(events_of(events@) =~= before + step.2);
                return None;
            },
            Some(odds) => (odds, true),
        },
    };
    turn_by_odds(o, menu, memory, member, species, hud, key, now, fresh, events)
}

/// Waiting for the HUD to read the same on two frames, and giving up.
fn await_hud(
    memory: &mut CatchMemory,
    species: &str,
    frame: u64,
    reading: Option<HudReading>,
    events: &mut Vec<GameEvent>,
) -> (r: Option<Decision>)
    ensures
        ({
            let w = old(memory)@.hud_noted(reading, frame).hud_waiting(species@, frame);
            &&& final(memory)@ == w.0
            &&& match r {
                Some(d) => w.1 == Some(d@),
                None => w.1 is None,
            }
            &&& events_of(final(events)@) == events_of(old(events)@) + w.2
        }),
{
    let ghost before = events_of(events@);
    assert(before + Seq::<GameEventV>::empty() =~= before);
    let same = match (reading, memory.hud) {
        (Some(now), Some(seen)) => seen.1 == now,
        _ => false,
    };
    match reading {
        Some(now) => {
            if !same {
                memory.hud = Some((frame, now));
            }
        },
        None => {},
    }
    let since: u64 = match memory.hud_waiting_since {
        Some(s) => s,
        None => frame,
    };
    if frame >= since && frame - since > HUD_WAIT_FRAMES {
        memory.attempt = None;
        memory.hud_waiting_since = None;
        log(
            events,
            cat(
                species,
                ": the HUD's HP didn't read the same on two frames: abandoning the catch",
            ),
        );
        assert(events_of(events@) =~= before + seq![
            story_note(
                species@
                    + ": the HUD's HP didn't read the same on two frames: abandoning the catch"@,
            ),
        ]);
        return None;
    }
    memory.hud_waiting_since = Some(since);
    Some(wait_for("confirming the HUD on a later frame"))
}

/// A new turn: one more turn asleep.
fn begin_turn(memory: &mut CatchMemory, command: bool)
    ensures
        final(memory)@ == old(memory)@.turn_begun(command),
{
    memory.hud_waiting_since = None;
    if command && !memory.turn_counted {
        memory.turn_counted = true;
        match &mut memory.attempt {
            Some(a) => {
                if a.foe_status == FoeStatus::Asleep && a.asleep_turns < u8::MAX {
                    a.asleep_turns = a.asleep_turns + 1;
                }
            },
            None => {},
        }
    }
}

/// The battle input during a catch attempt. `None` hands the menu back to
/// the ordinary battle logic (the attempt was abandoned, or can't go on).
///
/// Every decision uses HUD numbers that two frames agreed on. Each turn
/// the odds are solved again from them (our HP, the foe's bar and status,
/// the balls left) and their choice is played: throw, the status move, an
/// attack, or RUN. A non-shiny attempt is abandoned for RUN when the odds
/// say RUN or put the lead's risk above the limit; a shiny one throws.
/// `odds` are those of [`attempt_question`].
pub fn attempt_decision(
    o: &Observation,
    policy: &BattlePolicy,
    memory: &mut BattleMemory,
    party: &Party,
    data: &GameData,
    odds: Option<Odds>,
    events: &mut Vec<GameEvent>,
) -> (r: Option<Decision>)
    ensures
        ({
            let step = old(memory)@.attempting(
                *o,
                *policy,
                *party,
                *data,
                odds_of(odds),
            );
            &&& final(memory)@ == step.0
            &&& match r {
                Some(d) => step.1 == Some(d@),
                None => step.1 is None,
            }
            &&& events_of(final(events)@) == events_of(old(events)@) + step.2
        }),
{
    let ghost before = events_of(events@);
    assert(before + Seq::<GameEventV>::empty() =~= before);
    let battle = match &o.battle {
        Some(b) => b,
        None => {
            return None;
        },
    };
    let menu = match battle.menu {
        Some(m) => m,
        None => {
            return None;
        },
    };
    if memory.catch.attempt.is_none() {
        return None;
    }
    let species = match &memory.catch.foe {
        Some(f) => f.0.clone(),
        None => {
            return None;
        },
    };
    let member = match party.lead() {
        Some(m) => m,
        None => {
            return None;
        },
    };
    let command = matches!(menu, BattleMenu::Command { .. });
    let reading = read_hud(battle, member, command);
    let confirmed = match (reading, memory.catch.hud) {
        (Some(now), Some(seen)) => seen.1 == now && seen.0 < o.frame_id,
        _ => false,
    };
    if !confirmed {
        return await_hud(&mut memory.catch, species.as_str(), o.frame_id, reading, events);
    }
    begin_turn(&mut memory.catch, command);
    match reading {
        Some(hud) => take_turn(
            o,
            battle,
            menu,
            policy,
            memory,
            member,
            species.as_str(),
            hud,
            data,
            odds,
            events,
        ),
        None => None,
    }
}

impl BattleV {
    /// The turn of an attempt that wants odds on this frame: those of the
    /// reading are not at hand.
    pub open spec fn wants_odds(
        self,
        o: Observation,
        policy: BattlePolicy,
        party: Party,
    ) -> Option<(AttemptV, HudReading)> {
        if !self.attempts(o, party) {
            None
        } else {
            let command = o.battle->0.menu->0 is Command;
            let reading = hud_read(o.battle->0, party.leader()->0, command);
            if !self.catch.hud_confirmed(reading, o.frame_id) {
                None
            } else {
                let attempt = self.catch.turn_begun(command).attempt->0;
                let key = attempt.turn_key(reading->0, self.disabled);
                let cached = self.catch.odds is Some && (self.catch.odds->0).0 == key;
                if self.shiny_runs(o, policy, attempt.plan.shiny) || attempt.at_reserve()
                    || cached {
                    None
                } else {
                    Some((attempt, reading->0))
                }
            }
        }
    }
}

/// The odds that [`attempt_decision`] wants on this frame: what they are to be
/// solved from; `None` where it decides without them.
pub fn attempt_question(
    o: &Observation,
    policy: &BattlePolicy,
    memory: &BattleMemory,
    party: &Party,
    data: &GameData,
) -> (r: Option<OddsQuestion>)
    ensures
        match memory@.wants_odds(*o, *policy, *party) {
            Some(x) => r matches Some(q) && q@ == x.0.turn_question(
                x.1,
                memory@.disabled,
                memory@.catch.foe->0,
                *data,
            ),
            None => r is None,
        },
{
    let battle = match &o.battle {
        Some(b) => b,
        None => {
            return None;
        },
    };
    let menu = match battle.menu {
        Some(m) => m,
        None => {
            return None;
        },
    };
    let (attempt, foe) = match (&memory.catch.attempt, &memory.catch.foe) {
        (Some(a), Some(f)) => (a, f),
        _ => {
            return None;
        },
    };
    let member = match party.lead() {
        Some(m) => m,
        None => {
            return None;
        },
    };
    let command = matches!(menu, BattleMenu::Command { .. });
    let hud = match read_hud(battle, member, command) {
        Some(h) => h,
        None => {
            return None;
        },
    };
    match memory.catch.hud {
        Some(seen) => {
            if !(seen.1 == hud && seen.0 < o.frame_id) {
                return None;
            }
        },
        None => {
            return None;
        },
    }
    let plan = &attempt.plan;
    if plan.shiny {
        let low = match battle.player_hp {
            Some(hp) => hp < policy.flee_below,
            None => false,
        };
        if command && low && memory.run_attempts < policy.max_run_attempts {
            return None;
        }
    } else {
        match attempt.balls {
            Some(n) => {
                if !plan.wanted && n <= SHINY_RESERVE {
                    return None;
                }
            },
            None => {},
        }
    }
    let asleep_turns: u8 = if command && !memory.catch.turn_counted && attempt.foe_status
        == FoeStatus::Asleep && attempt.asleep_turns < u8::MAX {
        attempt.asleep_turns + 1
    } else {
        attempt.asleep_turns
    };
    let asleep_for: u8 = if asleep_turns > 0 {
        asleep_turns - 1
    } else {
        0
    };
    let balls = attempt.balls_to_throw();
    let key = OddsKey {
        hp: hud.hp,
        max: hud.max,
        foe: hud.foe,
        status: attempt.foe_status,
        asleep_for,
        balls,
        status_allowed: !attempt.opened,
        disabled: copy_text(&memory.disabled),
    };
    let cached = match &memory.catch.odds {
        Some(k) => same_key(&k.0, &key),
        None => false,
    };
    if cached {
        return None;
    }
    let multiplier = match ball_multiplier(data, &plan.ball) {
        Some(m) => m,
        None => 10,
    };
    Some(
        OddsQuestion {
            hp: (hud.hp, hud.max),
            species: foe.0.clone(),
            level: foe.1,
            hp_per_mille: hud.foe,
            status: attempt.foe_status,
            asleep_for,
            shiny: plan.shiny,
            wanted: plan.wanted,
            ball: plan.ball.clone(),
            multiplier,
            balls,
            status_allowed: !attempt.opened,
            disabled: copy_text(&memory.disabled),
        },
    )
}

// ---- The battle bag and the Pokédex page ----

/// Presses A on the Pokédex entry page shown after a first catch, once two
/// frames show it.
pub fn dismiss_pokedex(memory: &mut CatchMemory, o: &Observation) -> (r: Option<Decision>)
    ensures
        ({
            let (next, d) = old(memory)@.pokedex_looked(*o);
            final(memory)@ == next && match r {
                None => d is None,
                Some(x) => d == Some(x@),
            }
        }),
{
    if !o.pokedex_page {
        memory.pokedex_seen = None;
        return None;
    }
    let since: u64 = match memory.pokedex_seen {
        Some(s) => s,
        None => o.frame_id,
    };
    memory.pokedex_seen = Some(since);
    if since == o.frame_id {
        return Some(wait_for("confirming the Pokédex page"));
    }
    Some(
        press(
            "close the Pokédex page".to_owned(),
            Button::A,
            Expectation::PokedexPageClosed,
            120,
        ),
    )
}

impl CatchV {
    /// The throw under way: one is begun from a bag that opened while the
    /// attempt throws.
    pub open spec fn armed(self, o: Observation) -> CatchV {
        if self.thrower is None && o.bag is Some && self.attempt is Some && self.choice_now()
            == Some(ChoiceV::Throw) {
            let plan = self.attempt->0.plan;
            CatchV {
                thrower: Some(
                    ThrowerV { keep_reserve: !(plan.shiny || plan.wanted), ..ThrowerV::fresh() },
                ),
                ..self
            }
        } else {
            self
        }
    }

    /// The battle bag's own count of balls, once a throw read it.
    pub open spec fn balls_counted(self, counted: Option<u16>) -> CatchV {
        match (counted, self.attempt) {
            (Some(n), Some(a)) => CatchV {
                attempt: Some(AttemptV { balls: Some(n), ..a }),
                ..self
            },
            _ => self,
        }
    }

    /// A throw ended: where it was given up the attempt is over, and at the
    /// reserve for good (RUN).
    pub open spec fn throw_ended(self, gave_up: bool, at_reserve: bool) -> CatchV {
        if gave_up {
            CatchV { flee: self.flee || at_reserve, attempt: None, thrower: None, ..self }
        } else {
            CatchV { thrower: None, ..self }
        }
    }

    /// A step of the throw, as the battle takes it.
    pub open spec fn settled(self, thrower: ThrowerV, decision: DecisionV) -> (
        CatchV,
        DecisionV,
        Seq<GameEventV>,
    ) {
        let counted = CatchV { thrower: Some(thrower), ..self }.balls_counted(thrower.counted);
        match decision {
            DecisionV::Done(detail) => (
                counted.throw_ended(thrower.gave_up is Some, thrower.at_reserve),
                DecisionV::Wait("back to the battle"@),
                if thrower.gave_up is Some {
                    seq![story_note("throw abandoned: "@ + detail)]
                } else {
                    Seq::empty()
                },
            ),
            other => (counted, other, Seq::empty()),
        }
    }

    /// The battle bag (or the frames around it) during a throw.
    pub open spec fn bagging(self, o: Observation, data: GameData) -> (
        CatchV,
        DecisionV,
        Seq<GameEventV>,
    ) {
        let ball = match self.attempt {
            Some(a) => a.plan.ball,
            None => Seq::empty(),
        };
        let c = self.armed(o);
        match c.thrower {
            // A bag we didn't open: leave it.
            None => (
                c,
                if o.bag is Some {
                    pressing(
                        "close an unexpected battle bag"@,
                        Button::B,
                        ExpectationV::BagClosed,
                        60,
                    )
                } else {
                    DecisionV::Wait("battle"@)
                },
                Seq::empty(),
            ),
            Some(thrower) => {
                let step = thrower.stepped(o, data, ball);
                let settled = c.settled(step.0, step.1);
                (settled.0, settled.1, step.2 + settled.2)
            },
        }
    }
}

/// A throw is begun from a bag that opened while the attempt throws.
fn arm(memory: &mut CatchMemory, o: &Observation)
    ensures
        final(memory)@ == old(memory)@.armed(*o),
{
    if memory.thrower.is_some() || o.bag.is_none() || !memory.choice_is_throw() {
        return;
    }
    let any_ball = match &memory.attempt {
        Some(a) => a.plan.shiny || a.plan.wanted,
        None => {
            return;
        },
    };
    memory.thrower = Some(Thrower::new().keeping_reserve(!any_ball));
}

/// The battle bag's own count of balls.
fn count_balls(memory: &mut CatchMemory, counted: Option<u16>)
    ensures
        final(memory)@ == old(memory)@.balls_counted(counted),
{
    match (counted, &mut memory.attempt) {
        (Some(n), Some(a)) => a.balls = Some(n),
        _ => {},
    }
}

/// A throw that ended: the attempt is over where it was given up.
fn end_throw(memory: &mut CatchMemory, gave_up: bool, at_reserve: bool)
    ensures
        final(memory)@ == old(memory)@.throw_ended(gave_up, at_reserve),
{
    memory.thrower = None;
    if gave_up {
        memory.flee = memory.flee || at_reserve;
        memory.attempt = None;
    }
}

fn take_thrower(memory: &mut CatchMemory) -> (r: Option<Thrower>)
    ensures
        final(memory)@ == (CatchV { thrower: None, ..old(memory)@ }),
        match r {
            Some(t) => old(memory)@.thrower == Some(t@),
            None => old(memory)@.thrower is None,
        },
{
    memory.thrower.take()
}

fn put_thrower(memory: &mut CatchMemory, thrower: Thrower)
    ensures
        final(memory)@ == (CatchV { thrower: Some(thrower@), ..old(memory)@ }),
{
    memory.thrower = Some(thrower);
}

/// A step of the throw, as the battle takes it.
fn settle(
    memory: &mut CatchMemory,
    thrower: Thrower,
    decision: Decision,
    events: &mut Vec<GameEvent>,
) -> (d: Decision)
    ensures
        final(memory)@ == old(memory)@.settled(thrower@, decision@).0,
        d@ == old(memory)@.settled(thrower@, decision@).1,
        events_of(final(events)@) == events_of(old(events)@) + old(memory)@.settled(
            thrower@,
            decision@,
        ).2,
{
    let ghost start = memory@;
    let ghost before = events_of(events@);
    let ghost step = start.settled(thrower@, decision@);
    assert(before + Seq::<GameEventV>::empty() =~= before);
    let counted = thrower.counted();
    let gave_up = thrower.gave_up().is_some();
    let at_reserve = thrower.at_reserve();
    put_thrower(memory, thrower);
    count_balls(memory, counted);
    match decision {
        Decision::Done(detail) => {
            end_throw(memory, gave_up, at_reserve);
            if gave_up {
                log(events, cat("throw abandoned: ", detail.as_str()));
            }
            assert(events_of(events@) =~= before + step.2);
            wait_for("back to the battle")
        },
        other => other,
    }
}

/// The ball of the attempt's plan.
fn planned_ball(memory: &CatchMemory) -> (ball: String)
    ensures
        ball@ == (match memory@.attempt {
            Some(a) => a.plan.ball,
            None => Seq::empty(),
        }),
{
    match &memory.attempt {
        Some(a) => a.plan.ball.clone(),
        None => {
            let none = String::new();
            assert(none@ =~= Seq::empty());
            none
        },
    }
}

/// The battle bag (or the frames around it) during a throw.
pub fn in_bag(
    o: &Observation,
    data: &GameData,
    memory: &mut CatchMemory,
    events: &mut Vec<GameEvent>,
) -> (d: Decision)
    ensures
        final(memory)@ == old(memory)@.bagging(*o, *data).0,
        d@ == old(memory)@.bagging(*o, *data).1,
        events_of(final(events)@) == events_of(old(events)@) + old(memory)@.bagging(*o, *data).2,
{
    let ghost start = memory@;
    let ghost before = events_of(events@);
    let ball = planned_ball(memory);
    arm(memory, o);
    let mut thrower = match take_thrower(memory) {
        Some(t) => t,
        None => {
            assert(memory@ =~= start.armed(*o));
            assert(before + Seq::<GameEventV>::empty() =~= before);
            if o.bag.is_some() {
                return press(
                    "close an unexpected battle bag".to_owned(),
                    Button::B,
                    Expectation::BagClosed,
                    60,
                );
            }
            return wait_for("battle");
        },
    };
    let ghost taken = memory@;
    let decision = thrower.next(o, data, ball.as_str(), events);
    proof {
        let armed = start.armed(*o);
        let step = armed.thrower->0.stepped(*o, *data, ball@);
        assert(armed.settled(step.0, step.1) == taken.settled(step.0, step.1));
        let settled = armed.settled(step.0, step.1);
        assert(before + (step.2 + settled.2) =~= (before + step.2) + settled.2);
    }
    settle(memory, thrower, decision, events)
}

// ---- What holds of every catch ----

/// Battle text counts once: the page that counted does not count again on a
/// later frame that still shows it.
pub proof fn a_page_counts_once(
    c: CatchV,
    first: Observation,
    later: Observation,
    printed: Seq<char>,
    placed: Option<u8>,
)
    requires
        c.observed(first, printed, placed).1 is Some,
        later.dialogue == first.dialogue,
    ensures
        c.observed(first, printed, placed).0.observed(later, printed, placed).1 is None,
{
}

/// Battle text counts only once an earlier frame read the same page.
pub proof fn a_page_counts_on_two_frames(
    c: CatchV,
    o: Observation,
    printed: Seq<char>,
    placed: Option<u8>,
)
    requires
        c.observed(o, printed, placed).1 is Some,
    ensures
        c.page is Some,
        (c.page->0).1 == c.observed(o, printed, placed).1->0,
        (c.page->0).0 < o.frame_id,
{
}

/// Only a trainer blocks a ball: after that page no catch goes on, however the
/// page reads otherwise.
pub proof fn a_blocked_ball_ends_the_catch(
    c: CatchV,
    page: Seq<char>,
    printed: Seq<char>,
    placed: Option<u8>,
)
    requires
        within(page, "blocked the BALL"@),
    ensures
        c.page_applied(page, printed, placed).blocked,
        c.page_applied(page, printed, placed).attempt is None,
        c.page_applied(page, printed, placed).thrower is None,
{
}

/// The opponent is taken for identified only where an earlier frame read the
/// same species, level, caught icon and shiny reading; a catch is planned for
/// that one, and for none where the wait ran out.
pub proof fn a_catch_is_of_the_opponent_two_frames_read(
    m: BattleV,
    o: Observation,
    data: GameData,
    state: GameState,
    party: Party,
    odds: Option<OddsV>,
)
    requires
        !m.catch.decided,
        m.catch.attempt is None,
        identified(m, o, data, state, party, odds).0.catch.attempt is Some,
    ensures
        m.catch.identity is Some,
        (m.catch.identity->0).0 < o.frame_id,
        identity_read(data, o) == Some((m.catch.identity->0).1),
        identified(m, o, data, state, party, odds).0.catch.foe == Some(
            ((m.catch.identity->0).1.species, (m.catch.identity->0).1.level),
        ),
{
}

/// Every decision of an attempt uses HUD numbers that an earlier frame read the
/// same; until then it waits, and it throws, fights and runs on nothing else.
pub proof fn a_turn_needs_a_confirmed_hud(
    m: BattleV,
    o: Observation,
    policy: BattlePolicy,
    party: Party,
    data: GameData,
    odds: Option<OddsV>,
)
    requires
        m.attempts(o, party),
        !m.catch.hud_confirmed(
            hud_read(o.battle->0, party.leader()->0, o.battle->0.menu->0 is Command),
            o.frame_id,
        ),
    ensures
        ({
            let d = m.attempting(o, policy, party, data, odds).1;
            d is None || d == Some(DecisionV::Wait("confirming the HUD on a later frame"@))
        }),
{
}

/// A foe that is neither shiny nor hunted never costs a ball of the shiny
/// reserve: at the reserve nothing is played and the attempt is over.
pub proof fn the_shiny_reserve_is_kept(
    m: BattleV,
    o: Observation,
    policy: BattlePolicy,
    member: Member,
    hud: HudReading,
    data: GameData,
    odds: Option<OddsV>,
)
    requires
        m.catch.attempt is Some,
        !m.catch.attempt->0.plan.shiny,
        !m.catch.attempt->0.plan.wanted,
        m.catch.attempt->0.balls is Some,
        m.catch.attempt->0.balls->0 <= SHINY_RESERVE,
    ensures
        m.turn(o, policy, member, hud, data, odds).1 is None,
        m.turn(o, policy, member, hud, data, odds).0.catch.attempt is None,
        m.turn(o, policy, member, hud, data, odds).0.catch.flee,
{
}

/// A shiny foe is never given up for its risk: while a ball is left, whatever
/// the odds, something other than RUN is played.
pub proof fn a_shiny_is_never_run_from_for_its_risk(attempt: AttemptV, odds: OddsV)
    requires
        attempt.plan.shiny,
        attempt.balls_left() > 0,
    ensures
        BattleV::choice_by(attempt, odds) is Some,
        !(BattleV::choice_by(attempt, odds)->0 is Run),
{
}

/// Another foe is given up as soon as the odds say RUN, or put our lead at too
/// much risk.
pub proof fn a_risky_catch_is_given_up(
    m: BattleV,
    o: Observation,
    member: Member,
    hud: HudReading,
    key: OddsKeyV,
    odds: OddsV,
)
    requires
        m.catch.attempt is Some,
        !m.catch.attempt->0.plan.shiny,
        odds.choice is Run || odds.risky,
    ensures
        m.by_odds(o, member, hud, key, odds).0.catch.attempt is None,
        m.by_odds(o, member, hud, key, odds).0.catch.flee,
        m.by_odds(o, member, hud, key, odds).1 is None,
{
}

/// Odds are solved once per reading: on a turn whose odds are at hand, none are
/// asked for, and others given make no difference.
pub proof fn odds_are_solved_once_per_reading(
    m: BattleV,
    o: Observation,
    policy: BattlePolicy,
    party: Party,
    data: GameData,
    odds: Option<OddsV>,
    others: Option<OddsV>,
)
    requires
        m.attempts(o, party),
        m.wants_odds(o, policy, party) is None,
    ensures
        m.attempting(o, policy, party, data, odds) == m.attempting(o, policy, party, data, others),
{
}

} // verus!
