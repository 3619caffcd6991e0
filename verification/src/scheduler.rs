//! Event-driven needs, independent of the campaign goal. Urgent needs
//! suspend the running tool at an overworld boundary; soon needs wait for
//! an inexpensive detour. Recovery never discards the campaign plan.

use vstd::prelude::*;

use crate::event::{text_of, GameEvent, GameEventV, Status};
use crate::gamedata::GameData;
use crate::state::{GameState, MoveSlot, PartyMon};
use crate::text::{cat, same};

verus! {

#[derive(Debug, Clone, Copy, PartialEq, Eq, Structural)]
pub enum Need {
    AuditParty,
    HealUrgent,
    HealSoon,
}

#[derive(Debug, Clone, Copy, PartialEq, Eq, Structural)]
pub enum Layer {
    Motion,
    Tool,
    Plan,
    Goals,
}

/// The layer that an event concerns.
pub open spec fn layer_of(event: GameEventV) -> Option<Layer> {
    match event {
        GameEventV::PartyAudited { .. } => Some(Layer::Goals),
        GameEventV::PartyObserved { .. } => Some(Layer::Goals),
        GameEventV::MovePpObserved { .. } => Some(Layer::Goals),
        GameEventV::MoveUsed { .. } => Some(Layer::Goals),
        GameEventV::MovesObserved { .. } => Some(Layer::Goals),
        GameEventV::Healed => Some(Layer::Goals),
        GameEventV::BattleEnded => Some(Layer::Goals),
        GameEventV::Evolved { .. } => Some(Layer::Goals),
        GameEventV::FlagObserved { .. } => Some(Layer::Plan),
        GameEventV::FlagTracked { .. } => Some(Layer::Plan),
        GameEventV::VarObserved { .. } => Some(Layer::Plan),
        GameEventV::VarTracked { .. } => Some(Layer::Plan),
        GameEventV::PocketObserved { .. } => Some(Layer::Plan),
        GameEventV::ItemsChanged { .. } => Some(Layer::Plan),
        GameEventV::MoneyObserved { .. } => Some(Layer::Plan),
        GameEventV::MoneyChanged { .. } => Some(Layer::Plan),
        GameEventV::BattleStarted => Some(Layer::Tool),
        GameEventV::MapVisited { .. } => Some(Layer::Motion),
        _ => None,
    }
}

pub fn layer(event: &GameEvent) -> (r: Option<Layer>)
    ensures
        r == layer_of(event@),
{
    match event {
        GameEvent::PartyAudited { .. } => Some(Layer::Goals),
        GameEvent::PartyObserved { .. } => Some(Layer::Goals),
        GameEvent::MovePpObserved { .. } => Some(Layer::Goals),
        GameEvent::MoveUsed { .. } => Some(Layer::Goals),
        GameEvent::MovesObserved { .. } => Some(Layer::Goals),
        GameEvent::Healed => Some(Layer::Goals),
        GameEvent::BattleEnded => Some(Layer::Goals),
        GameEvent::Evolved { .. } => Some(Layer::Goals),
        GameEvent::FlagObserved { .. } => Some(Layer::Plan),
        GameEvent::FlagTracked { .. } => Some(Layer::Plan),
        GameEvent::VarObserved { .. } => Some(Layer::Plan),
        GameEvent::VarTracked { .. } => Some(Layer::Plan),
        GameEvent::PocketObserved { .. } => Some(Layer::Plan),
        GameEvent::ItemsChanged { .. } => Some(Layer::Plan),
        GameEvent::MoneyObserved { .. } => Some(Layer::Plan),
        GameEvent::MoneyChanged { .. } => Some(Layer::Plan),
        GameEvent::BattleStarted => Some(Layer::Tool),
        GameEvent::MapVisited { .. } => Some(Layer::Motion),
        _ => None,
    }
}

/// The member's HP, where it was read and can be.
pub open spec fn hp_of(mon: PartyMon) -> Option<(u16, u16)> {
    match mon.hp.value {
        Some((cur, max)) => {
            let level = match mon.level.value {
                Some(l) => l as int,
                None => 1,
            };
            let shedinja = mon.species.value is Some && mon.species.value->0@
                == "SPECIES_SHEDINJA"@;
            if cur <= max && max > 0 && (max >= level + 10 || (max == 1 && shedinja)) {
                Some((cur, max))
            } else {
                None
            }
        },
        None => None,
    }
}

pub(crate) fn valid_hp(mon: &PartyMon) -> (r: Option<(u16, u16)>)
    ensures
        r == hp_of(*mon),
{
    match mon.hp.value {
        Some((cur, max)) => {
            let level: u16 = match mon.level.value {
                Some(l) => l as u16,
                None => 1,
            };
            let shedinja = match &mon.species.value {
                Some(s) => same(s.as_str(), "SPECIES_SHEDINJA"),
                None => false,
            };
            if cur <= max && max > 0 && (max >= level + 10 || (max == 1 && shedinja)) {
                Some((cur, max))
            } else {
                None
            }
        },
        None => None,
    }
}

/// A move slot is empty, or its move and PP are known.
pub open spec fn slot_known(slot: Option<MoveSlot>) -> bool {
    slot is None || (slot->0.pp.value is Some && slot->0.mv.value is Some)
}

/// Everything that the risk is estimated from is known.
pub open spec fn mon_known(mon: PartyMon) -> bool {
    &&& hp_of(mon) is Some
    &&& mon.status.value is Some
    &&& slot_known(mon.moves@[0])
    &&& slot_known(mon.moves@[1])
    &&& slot_known(mon.moves@[2])
    &&& slot_known(mon.moves@[3])
    &&& mon.moves@[0] is Some || mon.moves@[1] is Some || mon.moves@[2] is Some || mon.moves@[3]
        is Some
}

fn is_slot_known(slot: &Option<MoveSlot>) -> (r: bool)
    ensures
        r == slot_known(*slot),
{
    match slot {
        Some(s) => s.pp.value.is_some() && s.mv.value.is_some(),
        None => true,
    }
}

fn is_mon_known(mon: &PartyMon) -> (r: bool)
    ensures
        r == mon_known(*mon),
{
    valid_hp(mon).is_some() && mon.status.value.is_some() && is_slot_known(&mon.moves[0])
        && is_slot_known(&mon.moves[1]) && is_slot_known(&mon.moves[2]) && is_slot_known(
        &mon.moves[3],
    ) && (mon.moves[0].is_some() || mon.moves[1].is_some() || mon.moves[2].is_some()
        || mon.moves[3].is_some())
}

/// The PP and maximum PP of a slot's move, where it does damage.
pub open spec fn slot_attack(slot: Option<MoveSlot>, data: GameData) -> (int, int) {
    if slot is Some && slot->0.mv.value is Some && data.move_of(slot->0.mv.value->0@) is Some
        && data.move_of(slot->0.mv.value->0@)->0.power > 0 {
        match slot->0.pp.value {
            Some(pp) => (pp.0 as int, pp.1 as int),
            None => (0, 0),
        }
    } else {
        (0, 0)
    }
}

/// The PP and maximum PP of a member's attacks.
pub open spec fn attack_pp(mon: PartyMon, data: GameData) -> (int, int) {
    let a = slot_attack(mon.moves@[0], data);
    let b = slot_attack(mon.moves@[1], data);
    let c = slot_attack(mon.moves@[2], data);
    let d = slot_attack(mon.moves@[3], data);
    (a.0 + b.0 + c.0 + d.0, a.1 + b.1 + c.1 + d.1)
}

fn slot_pp(slot: &Option<MoveSlot>, data: &GameData) -> (r: (u32, u32))
    ensures
        r.0 == slot_attack(*slot, *data).0,
        r.1 == slot_attack(*slot, *data).1,
        r.0 <= 255,
        r.1 <= 255,
{
    match slot {
        Some(s) => {
            let hits = match &s.mv.value {
                Some(mv) => match data.move_(mv.as_str()) {
                    Some(m) => m.power > 0,
                    None => false,
                },
                None => false,
            };
            if !hits {
                return (0, 0);
            }
            match s.pp.value {
                Some(pp) => (pp.0 as u32, pp.1 as u32),
                None => (0, 0),
            }
        },
        None => (0, 0),
    }
}

fn attacks(mon: &PartyMon, data: &GameData) -> (r: (u32, u32))
    ensures
        r.0 == attack_pp(*mon, *data).0,
        r.1 == attack_pp(*mon, *data).1,
        r.0 <= 1020,
        r.1 <= 1020,
{
    let a = slot_pp(&mon.moves[0], data);
    let b = slot_pp(&mon.moves[1], data);
    let c = slot_pp(&mon.moves[2], data);
    let d = slot_pp(&mon.moves[3], data);
    (a.0 + b.0 + c.0 + d.0, a.1 + b.1 + c.1 + d.1)
}

/// A member that can fight: it has HP, an attack with PP, and no status that
/// keeps it from acting.
pub open spec fn can_fight(mon: PartyMon, data: GameData) -> bool {
    let status = mon.status.value;
    hp_of(mon) is Some && (hp_of(mon)->0).0 > 0 && attack_pp(mon, data).0 > 0 && status != Some(
        Status::Fainted,
    ) && status != Some(Status::Frozen) && status != Some(Status::Asleep)
}

fn is_able(mon: &PartyMon, data: &GameData) -> (r: bool)
    ensures
        r == can_fight(*mon, *data),
{
    let out = match mon.status.value {
        Some(Status::Fainted) => true,
        Some(Status::Frozen) => true,
        Some(Status::Asleep) => true,
        _ => false,
    };
    match valid_hp(mon) {
        Some(hp) => hp.0 > 0 && attacks(mon, data).0 > 0 && !out,
        None => false,
    }
}

/// How many of the first `n` members can fight.
pub open spec fn fighters(mons: Seq<PartyMon>, data: GameData) -> nat
    decreases mons.len(),
{
    if mons.len() == 0 {
        0
    } else {
        fighters(mons.drop_last(), data) + (if can_fight(mons.last(), data) {
            1nat
        } else {
            0
        })
    }
}

/// A member is below three quarters of its HP, or has a status.
pub open spec fn is_worn(mon: PartyMon) -> bool {
    (hp_of(mon) is Some && (hp_of(mon)->0).0 * 100 < (hp_of(mon)->0).1 * 75) || mon.status.value
        != Some(Status::Healthy)
}

pub open spec fn some_worn(mons: Seq<PartyMon>) -> bool {
    exists|i: int| 0 <= i < mons.len() && is_worn(#[trigger] mons[i])
}

pub open spec fn all_known(mons: Seq<PartyMon>) -> bool {
    forall|i: int| 0 <= i < mons.len() ==> mon_known(#[trigger] mons[i])
}

/// The lead must be healed now: nobody can fight, it cannot, its HP is low (the
/// more so where nobody else can fight), or it is the last and has a status.
pub open spec fn urgent(mons: Seq<PartyMon>, data: GameData) -> bool {
    let able = fighters(mons, data);
    let lead = mons[0];
    let hp = hp_of(lead)->0;
    let percent = hp.0 * 100 / (hp.1 as int);
    able == 0 || hp.0 == 0 || attack_pp(lead, data).0 == 0 || percent < (if able <= 1 {
        50int
    } else {
        35
    }) || (able <= 1 && lead.status.value != Some(Status::Healthy))
}

/// What the party's health needs.
pub open spec fn health_need(party: Option<Seq<PartyMon>>, data: GameData) -> Option<Need> {
    if party is None || party->0.len() == 0 || !all_known(party->0) {
        // Unknown fields must be observed before estimating risk.
        Some(Need::AuditParty)
    } else {
        let mons = party->0;
        let pp = attack_pp(mons[0], data);
        if urgent(mons, data) {
            Some(Need::HealUrgent)
        } else if some_worn(mons) || (pp.1 > 0 && pp.0 * 4 < pp.1) {
            Some(Need::HealSoon)
        } else {
            None
        }
    }
}

pub open spec fn mons_of(party: Option<&Vec<PartyMon>>) -> Option<Seq<PartyMon>> {
    match party {
        Some(v) => Some(v@),
        None => None,
    }
}

/// What the party's health needs.
pub fn health(party: Option<&Vec<PartyMon>>, data: &GameData) -> (r: Option<Need>)
    ensures
        r == health_need(mons_of(party), *data),
{
    let mons = match party {
        Some(v) => v,
        None => {
            return Some(Need::AuditParty);
        },
    };
    if mons.len() == 0 {
        return Some(Need::AuditParty);
    }
    let mut able: usize = 0;
    let mut worn = false;
    let mut i: usize = 0;
    assert(mons@.take(0) =~= Seq::empty());
    while i < mons.len()
        invariant
            i <= mons@.len(),
            mons@.len() > 0,
            party is Some,
            mons_of(party) == Some(mons@),
            able <= i,
            able == fighters(mons@.take(i as int), *data),
            worn == some_worn(mons@.take(i as int)),
            forall|j: int| 0 <= j < i ==> mon_known(#[trigger] mons@[j]),
        decreases mons@.len() - i,
    {
        let m = &mons[i];
        if !is_mon_known(m) {
            assert(!mon_known(mons@[i as int]));
            return Some(Need::AuditParty);
        }
        let ghost upto = mons@.take(i as int);
        let ghost next = mons@.take(i + 1);
        proof {
            assert(next.drop_last() =~= upto);
            assert(next.last() == *m);
        }
        if is_able(m, data) {
            able += 1;
        }
        let tired = match valid_hp(m) {
            Some(hp) => hp.0 as u32 * 100 < hp.1 as u32 * 75,
            None => false,
        };
        let sick = match m.status.value {
            Some(s) => s != Status::Healthy,
            None => true,
        };
        proof {
            assert(is_worn(*m) == (tired || sick));
            if worn {
                let j = choose|j: int| 0 <= j < upto.len() && is_worn(#[trigger] upto[j]);
                assert(next[j] == upto[j]);
            }
            if is_worn(*m) {
                assert(next[i as int] == *m);
            }
            if some_worn(next) && !is_worn(*m) {
                let j = choose|j: int| 0 <= j < next.len() && is_worn(#[trigger] next[j]);
                assert(upto[j] == next[j]);
            }
        }
        worn = worn || tired || sick;
        i += 1;
    }
    assert(mons@.take(mons@.len() as int) =~= mons@);
    assert(mon_known(mons@[0]));
    let lead = &mons[0];
    let (hp, max) = match valid_hp(lead) {
        Some(hp) => hp,
        None => {
            return Some(Need::AuditParty);
        },
    };
    let percent: u32 = hp as u32 * 100 / max as u32;
    let (pp, total) = attacks(lead, data);
    let sick = match lead.status.value {
        Some(s) => s != Status::Healthy,
        None => true,
    };
    let floor: u32 = if able <= 1 {
        50
    } else {
        35
    };
    if able == 0 || hp == 0 || pp == 0 || percent < floor || (able <= 1 && sick) {
        return Some(Need::HealUrgent);
    }
    if worn || (total > 0 && pp * 4 < total) {
        Some(Need::HealSoon)
    } else {
        None
    }
}

/// The needs that wait to be met.
#[derive(Debug, Clone, PartialEq, Eq)]
pub struct Scheduler {
    pub enabled: bool,
    pub recovering: bool,
    pub queue: Vec<Need>,
    pub destination: Option<String>,
    /// Why the running plan no longer holds.
    pub invalidated: Option<String>,
}

pub struct SchedulerV {
    pub enabled: bool,
    pub recovering: bool,
    pub queue: Seq<Need>,
    pub destination: Option<Seq<char>>,
    pub invalidated: Option<Seq<char>>,
}

impl View for Scheduler {
    type V = SchedulerV;

    open spec fn view(&self) -> SchedulerV {
        SchedulerV {
            enabled: self.enabled,
            recovering: self.recovering,
            queue: self.queue@,
            destination: text_of(self.destination),
            invalidated: text_of(self.invalidated),
        }
    }
}

impl Default for Scheduler {
    fn default() -> (s: Scheduler)
        ensures
            s@ == (SchedulerV {
                enabled: false,
                recovering: false,
                queue: Seq::empty(),
                destination: None,
                invalidated: None,
            }),
    {
        Scheduler {
            enabled: false,
            recovering: false,
            queue: Vec::new(),
            destination: None,
            invalidated: None,
        }
    }
}

pub open spec fn queue_for(need: Option<Need>) -> Seq<Need> {
    match need {
        Some(n) => seq![n],
        None => Seq::empty(),
    }
}

impl SchedulerV {
    /// The needs after an event, and whether something changed that the running
    /// plan must be told of.
    pub open spec fn after(
        self,
        event: GameEventV,
        party: Option<Seq<PartyMon>>,
        data: GameData,
        contradicted: Option<Seq<char>>,
    ) -> (SchedulerV, bool) {
        if !self.enabled {
            (self, false)
        } else if layer_of(event) == Some(Layer::Plan) && contradicted is Some {
            (
                SchedulerV {
                    invalidated: Some(
                        "event contradicted active assumption: "@ + contradicted->0,
                    ),
                    ..self
                },
                true,
            )
        } else if layer_of(event) != Some(Layer::Goals) {
            (self, false)
        } else {
            let queue = queue_for(health_need(party, data));
            (SchedulerV { queue, ..self }, queue != self.queue)
        }
    }
}

impl Scheduler {
    /// Takes note of an event. `contradicted` is the first assumption of the
    /// running plan that is known to be false now, where one is. The battle
    /// HUD, status text and PP events already update the party's facts, so the
    /// end of a battle reuses those readings; only missing or inconsistent
    /// facts require another menu audit.
    pub fn event(
        &mut self,
        event: &GameEvent,
        state: &GameState,
        data: &GameData,
        contradicted: Option<&str>,
    ) -> (r: bool)
        ensures
            ({
                let step = old(self)@.after(
                    event@,
                    match state.saved.party.value {
                        Some(v) => Some(v@),
                        None => None,
                    },
                    *data,
                    match contradicted {
                        Some(p) => Some(p@),
                        None => None,
                    },
                );
                final(self)@ == step.0 && r == step.1
            }),
    {
        if !self.enabled {
            return false;
        }
        let layer = layer(event);
        match layer {
            Some(Layer::Plan) => match contradicted {
                Some(p) => {
                    self.invalidated = Some(cat("event contradicted active assumption: ", p));
                    return true;
                },
                None => {
                    return false;
                },
            },
            Some(Layer::Goals) => {},
            _ => {
                return false;
            },
        }
        let need = health(state.saved.party.value.as_ref(), data);
        let ghost before = self.queue@;
        let same_queue = match need {
            Some(n) => self.queue.len() == 1 && self.queue[0] == n,
            None => self.queue.len() == 0,
        };
        let mut queue: Vec<Need> = Vec::new();
        match need {
            Some(n) => queue.push(n),
            None => {},
        }
        proof {
            assert(queue@ =~= queue_for(need));
            if same_queue {
                assert(before =~= queue_for(need));
            }
        }
        self.queue = queue;
        !same_queue
    }
}

/// The same need is queued once, however often it is met with.
pub proof fn events_coalesce(
    s: SchedulerV,
    first: GameEventV,
    second: GameEventV,
    party: Option<Seq<PartyMon>>,
    data: GameData,
)
    requires
        s.enabled,
        layer_of(first) == Some(Layer::Goals),
        layer_of(second) == Some(Layer::Goals),
    ensures
        ({
            let once = s.after(first, party, data, None).0;
            once.queue.len() <= 1 && once.after(second, party, data, None) == (once, false)
        }),
{
}

/// Health only ever queues a recovery: it never invalidates the plan.
pub proof fn health_never_discards_the_plan(
    s: SchedulerV,
    event: GameEventV,
    party: Option<Seq<PartyMon>>,
    data: GameData,
    contradicted: Option<Seq<char>>,
)
    requires
        layer_of(event) == Some(Layer::Goals),
    ensures
        s.after(event, party, data, contradicted).0.invalidated == s.invalidated,
{
}

/// Where anything that the risk is estimated from is unknown, the party is
/// looked at before anything else is decided about it.
pub proof fn unknown_facts_are_audited_first(mons: Seq<PartyMon>, data: GameData, i: int)
    requires
        0 <= i < mons.len(),
        !mon_known(mons[i]),
    ensures
        health_need(Some(mons), data) == Some(Need::AuditParty),
{
}

} // verus!
