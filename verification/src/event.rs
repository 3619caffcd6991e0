//! What happened in the game, as tasks report it.

use vstd::prelude::*;

use crate::observe::{lines_of, Gender};
use crate::text::same;

verus! {

#[derive(Debug, Clone, Copy, PartialEq, Eq, Structural)]
pub enum Pocket {
    Items,
    KeyItems,
    PokeBalls,
    TmCase,
    BerryPouch,
}

impl Pocket {
    pub open spec fn called(self) -> Seq<char> {
        match self {
            Pocket::Items => "Items"@,
            Pocket::KeyItems => "KeyItems"@,
            Pocket::PokeBalls => "PokeBalls"@,
            Pocket::TmCase => "TmCase"@,
            Pocket::BerryPouch => "BerryPouch"@,
        }
    }

    /// The pocket of a data constant.
    pub open spec fn of_constant(key: Seq<char>) -> Option<Pocket> {
        if key == "POCKET_ITEMS"@ {
            Some(Pocket::Items)
        } else if key == "POCKET_KEY_ITEMS"@ {
            Some(Pocket::KeyItems)
        } else if key == "POCKET_POKE_BALLS"@ {
            Some(Pocket::PokeBalls)
        } else if key == "POCKET_TM_CASE"@ {
            Some(Pocket::TmCase)
        } else if key == "POCKET_BERRY_POUCH"@ {
            Some(Pocket::BerryPouch)
        } else {
            None
        }
    }

    pub fn from_constant(key: &str) -> (r: Option<Pocket>)
        ensures
            r == Pocket::of_constant(key@),
    {
        if same(key, "POCKET_ITEMS") {
            Some(Pocket::Items)
        } else if same(key, "POCKET_KEY_ITEMS") {
            Some(Pocket::KeyItems)
        } else if same(key, "POCKET_POKE_BALLS") {
            Some(Pocket::PokeBalls)
        } else if same(key, "POCKET_TM_CASE") {
            Some(Pocket::TmCase)
        } else if same(key, "POCKET_BERRY_POUCH") {
            Some(Pocket::BerryPouch)
        } else {
            None
        }
    }

    pub fn name(self) -> (s: &'static str)
        ensures
            s@ == self.called(),
    {
        match self {
            Pocket::Items => "Items",
            Pocket::KeyItems => "KeyItems",
            Pocket::PokeBalls => "PokeBalls",
            Pocket::TmCase => "TmCase",
            Pocket::BerryPouch => "BerryPouch",
        }
    }
}

/// A party member's major status.
#[derive(Debug, Clone, Copy, PartialEq, Eq, Structural)]
pub enum Status {
    Healthy,
    Asleep,
    Poisoned,
    Burned,
    Frozen,
    Paralyzed,
    Fainted,
}

impl Status {
    pub open spec fn called(self) -> Seq<char> {
        match self {
            Status::Healthy => "Healthy"@,
            Status::Asleep => "Asleep"@,
            Status::Poisoned => "Poisoned"@,
            Status::Burned => "Burned"@,
            Status::Frozen => "Frozen"@,
            Status::Paralyzed => "Paralyzed"@,
            Status::Fainted => "Fainted"@,
        }
    }

    pub fn name(self) -> (s: &'static str)
        ensures
            s@ == self.called(),
    {
        match self {
            Status::Healthy => "Healthy",
            Status::Asleep => "Asleep",
            Status::Poisoned => "Poisoned",
            Status::Burned => "Burned",
            Status::Frozen => "Frozen",
            Status::Paralyzed => "Paralyzed",
            Status::Fainted => "Fainted",
        }
    }
}

#[derive(Debug, Clone, PartialEq, Eq)]
pub enum GameEvent {
    GoalProgress { goal: String, phase: String, detail: String },
    GoalFinished { goal: String, success: bool, detail: String },
    IntentInfeasible { intent: String },
    GenderChosen { gender: Gender },
    PlayerNamed { name: String },
    RivalNamed { name: String },
    ControlConfirmed,
    GameSaved,
    MapVisited { map: String },
    BattleStarted,
    BattleEnded,
    Healed,
    RespawnSet { map: String },
    FlagObserved { flag: String, value: bool },
    FlagTracked { flag: String, value: bool },
    VarObserved { var: String, value: u16 },
    VarTracked { var: String, value: u16 },
    BadgeEarned { badge: u8 },
    ScriptPathRun { path: String },
    MoneyObserved { amount: u32 },
    MoneyChanged { delta: i64, reason: String },
    PocketObserved { pocket: Pocket, items: Vec<(String, u16)> },
    ItemsChanged { pocket: Pocket, item: String, delta: i32, reason: String },
    PartyAudited { members: u8 },
    PartyObserved {
        slot: u8,
        species: Option<String>,
        level: Option<u8>,
        hp: Option<(u16, u16)>,
        status: Option<Status>,
    },
    PartyMonDerived { slot: u8 },
    Evolved { slot: u8, species: String },
    MovesObserved { slot: u8, moves: Vec<String> },
    MovePpObserved { slot: u8, move_slot: u8, cur: u8, max: u8 },
    MoveUsed { slot: u8, move_slot: u8 },
    MoveLearned { slot: u8, move_slot: u8, mv: String, max_pp: u8 },
    MoveReplaced { slot: u8, move_slot: u8, old: String, new: String, max_pp: u8 },
    SpeciesSeen { species: String },
    SpeciesCaught { species: String },
    ShinySeen { species: String },
    SentToPc { species: String },
    MonDeposited { slot: u8 },
    MonWithdrawn { slot: u8 },
}

/// What an event says.
pub enum GameEventV {
    GoalProgress { goal: Seq<char>, phase: Seq<char>, detail: Seq<char> },
    GoalFinished { goal: Seq<char>, success: bool, detail: Seq<char> },
    IntentInfeasible { intent: Seq<char> },
    GenderChosen { gender: Gender },
    PlayerNamed { name: Seq<char> },
    RivalNamed { name: Seq<char> },
    ControlConfirmed,
    GameSaved,
    MapVisited { map: Seq<char> },
    BattleStarted,
    BattleEnded,
    Healed,
    RespawnSet { map: Seq<char> },
    FlagObserved { flag: Seq<char>, value: bool },
    FlagTracked { flag: Seq<char>, value: bool },
    VarObserved { var: Seq<char>, value: u16 },
    VarTracked { var: Seq<char>, value: u16 },
    BadgeEarned { badge: u8 },
    ScriptPathRun { path: Seq<char> },
    MoneyObserved { amount: u32 },
    MoneyChanged { delta: i64, reason: Seq<char> },
    PocketObserved { pocket: Pocket, items: Seq<(Seq<char>, u16)> },
    ItemsChanged { pocket: Pocket, item: Seq<char>, delta: i32, reason: Seq<char> },
    PartyAudited { members: u8 },
    PartyObserved {
        slot: u8,
        species: Option<Seq<char>>,
        level: Option<u8>,
        hp: Option<(u16, u16)>,
        status: Option<Status>,
    },
    PartyMonDerived { slot: u8 },
    Evolved { slot: u8, species: Seq<char> },
    MovesObserved { slot: u8, moves: Seq<Seq<char>> },
    MovePpObserved { slot: u8, move_slot: u8, cur: u8, max: u8 },
    MoveUsed { slot: u8, move_slot: u8 },
    MoveLearned { slot: u8, move_slot: u8, mv: Seq<char>, max_pp: u8 },
    MoveReplaced { slot: u8, move_slot: u8, old: Seq<char>, new: Seq<char>, max_pp: u8 },
    SpeciesSeen { species: Seq<char> },
    SpeciesCaught { species: Seq<char> },
    ShinySeen { species: Seq<char> },
    SentToPc { species: Seq<char> },
    MonDeposited { slot: u8 },
    MonWithdrawn { slot: u8 },
}

/// The characters of an optional string.
pub open spec fn text_of(s: Option<String>) -> Option<Seq<char>> {
    match s {
        Some(s) => Some(s@),
        None => None,
    }
}

/// A list of items and their counts.
pub open spec fn items_of(s: Seq<(String, u16)>) -> Seq<(Seq<char>, u16)> {
    s.map_values(|r: (String, u16)| (r.0@, r.1))
}

impl View for GameEvent {
    type V = GameEventV;

    open spec fn view(&self) -> GameEventV {
        match *self {
            GameEvent::GoalProgress { goal, phase, detail } => GameEventV::GoalProgress {
                goal: goal@,
                phase: phase@,
                detail: detail@,
            },
            GameEvent::GoalFinished { goal, success, detail } => GameEventV::GoalFinished {
                goal: goal@,
                success,
                detail: detail@,
            },
            GameEvent::IntentInfeasible { intent } => GameEventV::IntentInfeasible {
                intent: intent@,
            },
            GameEvent::GenderChosen { gender } => GameEventV::GenderChosen { gender },
            GameEvent::PlayerNamed { name } => GameEventV::PlayerNamed { name: name@ },
            GameEvent::RivalNamed { name } => GameEventV::RivalNamed { name: name@ },
            GameEvent::ControlConfirmed => GameEventV::ControlConfirmed,
            GameEvent::GameSaved => GameEventV::GameSaved,
            GameEvent::MapVisited { map } => GameEventV::MapVisited { map: map@ },
            GameEvent::BattleStarted => GameEventV::BattleStarted,
            GameEvent::BattleEnded => GameEventV::BattleEnded,
            GameEvent::Healed => GameEventV::Healed,
            GameEvent::RespawnSet { map } => GameEventV::RespawnSet { map: map@ },
            GameEvent::FlagObserved { flag, value } => GameEventV::FlagObserved {
                flag: flag@,
                value,
            },
            GameEvent::FlagTracked { flag, value } => GameEventV::FlagTracked {
                flag: flag@,
                value,
            },
            GameEvent::VarObserved { var, value } => GameEventV::VarObserved { var: var@, value },
            GameEvent::VarTracked { var, value } => GameEventV::VarTracked { var: var@, value },
            GameEvent::BadgeEarned { badge } => GameEventV::BadgeEarned { badge },
            GameEvent::ScriptPathRun { path } => GameEventV::ScriptPathRun { path: path@ },
            GameEvent::MoneyObserved { amount } => GameEventV::MoneyObserved { amount },
            GameEvent::MoneyChanged { delta, reason } => GameEventV::MoneyChanged {
                delta,
                reason: reason@,
            },
            GameEvent::PocketObserved { pocket, items } => GameEventV::PocketObserved {
                pocket,
                items: items_of(items@),
            },
            GameEvent::ItemsChanged { pocket, item, delta, reason } => GameEventV::ItemsChanged {
                pocket,
                item: item@,
                delta,
                reason: reason@,
            },
            GameEvent::PartyAudited { members } => GameEventV::PartyAudited { members },
            GameEvent::PartyObserved { slot, species, level, hp, status } =>
                GameEventV::PartyObserved { slot, species: text_of(species), level, hp, status },
            GameEvent::PartyMonDerived { slot } => GameEventV::PartyMonDerived { slot },
            GameEvent::Evolved { slot, species } => GameEventV::Evolved {
                slot,
                species: species@,
            },
            GameEvent::MovesObserved { slot, moves } => GameEventV::MovesObserved {
                slot,
                moves: lines_of(moves@),
            },
            GameEvent::MovePpObserved { slot, move_slot, cur, max } => GameEventV::MovePpObserved {
                slot,
                move_slot,
                cur,
                max,
            },
            GameEvent::MoveUsed { slot, move_slot } => GameEventV::MoveUsed { slot, move_slot },
            GameEvent::MoveLearned { slot, move_slot, mv, max_pp } => GameEventV::MoveLearned {
                slot,
                move_slot,
                mv: mv@,
                max_pp,
            },
            GameEvent::MoveReplaced { slot, move_slot, old, new, max_pp } =>
                GameEventV::MoveReplaced { slot, move_slot, old: old@, new: new@, max_pp },
            GameEvent::SpeciesSeen { species } => GameEventV::SpeciesSeen { species: species@ },
            GameEvent::SpeciesCaught { species } => GameEventV::SpeciesCaught { species: species@ },
            GameEvent::ShinySeen { species } => GameEventV::ShinySeen { species: species@ },
            GameEvent::SentToPc { species } => GameEventV::SentToPc { species: species@ },
            GameEvent::MonDeposited { slot } => GameEventV::MonDeposited { slot },
            GameEvent::MonWithdrawn { slot } => GameEventV::MonWithdrawn { slot },
        }
    }
}

/// What a list of events says, in order.
pub open spec fn events_of(s: Seq<GameEvent>) -> Seq<GameEventV> {
    s.map_values(|e: GameEvent| e@)
}

/// Adds an event to a list.
pub fn report(events: &mut Vec<GameEvent>, event: GameEvent)
    ensures
        final(events)@ == old(events)@.push(event),
        events_of(final(events)@) == events_of(old(events)@).push(event@),
{
    let ghost before = events@;
    events.push(event);
    assert(events_of(events@) =~= events_of(before).push(event@));
}

} // verus!
