//! The party's health: who has to be healed, and how soon.

use vstd::prelude::*;

use crate::event::Status;
use crate::gamedata::GameData;
use crate::scheduler::{can_fight, fighters, health_need, Need};
use crate::state::{MoveSlot, PartyMon};

verus! {

/// A move slot that is read, or empty.
pub open spec fn slot_read(slot: Option<MoveSlot>) -> bool {
    slot matches Some(s) ==> s.mv.value is Some && s.pp.value is Some
}

/// Everything about a member is known: HP that can be, a status, and its moves.
pub open spec fn fully_read(mon: PartyMon) -> bool {
    &&& mon.hp.value is Some
    &&& ({
        let cur = (mon.hp.value->0).0;
        let max = (mon.hp.value->0).1;
        let level = match mon.level.value {
            Some(l) => l as int,
            None => 1,
        };
        let shedinja = mon.species.value is Some && mon.species.value->0@ == "SPECIES_SHEDINJA"@;
        cur <= max && (max >= level + 10 || (shedinja && max == 1))
    })
    &&& mon.status.value is Some
    &&& slot_read(mon.moves@[0]) && slot_read(mon.moves@[1]) && slot_read(mon.moves@[2])
        && slot_read(mon.moves@[3])
    &&& !(mon.moves@[0] is None && mon.moves@[1] is None && mon.moves@[2] is None
        && mon.moves@[3] is None)
}

pub open spec fn cur(mon: PartyMon) -> int {
    (mon.hp.value->0).0 as int
}

pub open spec fn max(mon: PartyMon) -> int {
    (mon.hp.value->0).1 as int
}

/// A slot holds a move that does damage and has PP.
pub open spec fn strikes_from(slot: Option<MoveSlot>, data: GameData) -> bool {
    slot matches Some(s) && s.mv.value is Some && s.pp.value is Some && data.move_of(
        s.mv.value->0@,
    ) is Some && data.move_of(s.mv.value->0@)->0.power > 0 && (s.pp.value->0).0 > 0
}

pub open spec fn has_attack(mon: PartyMon, data: GameData) -> bool {
    strikes_from(mon.moves@[0], data) || strikes_from(mon.moves@[1], data) || strikes_from(
        mon.moves@[2],
        data,
    ) || strikes_from(mon.moves@[3], data)
}

/// A member that can act in a battle.
pub open spec fn stands(mon: PartyMon, data: GameData) -> bool {
    &&& cur(mon) > 0
    &&& has_attack(mon, data)
    &&& mon.status.value != Some(Status::Fainted)
    &&& mon.status.value != Some(Status::Frozen)
    &&& mon.status.value != Some(Status::Asleep)
}

/// A member that healing would do good: hurt below three quarters, or with a
/// status.
pub open spec fn hurt(mon: PartyMon) -> bool {
    4 * cur(mon) < 3 * max(mon) || mon.status.value != Some(Status::Healthy)
}

/// Nobody besides the lead can act.
pub open spec fn alone(mons: Seq<PartyMon>, data: GameData) -> bool {
    forall|i: int, j: int|
        0 <= i < j < mons.len() ==> !(#[trigger] stands(mons[i], data) && #[trigger] stands(
            mons[j],
            data,
        ))
}

proof fn fighters_are_counted(mons: Seq<PartyMon>, data: GameData)
    requires
        forall|i: int| 0 <= i < mons.len() ==> fully_read(#[trigger] mons[i]),
    ensures
        fighters(mons, data) == 0 <==> forall|i: int|
            0 <= i < mons.len() ==> !stands(#[trigger] mons[i], data),
        fighters(mons, data) <= 1 <==> alone(mons, data),
    decreases mons.len(),
{
    if mons.len() > 0 {
        let rest = mons.drop_last();
        let last = mons.len() - 1;
        assert forall|i: int| 0 <= i < rest.len() implies fully_read(#[trigger] rest[i]) by {
            assert(rest[i] == mons[i]);
        }
        fighters_are_counted(rest, data);
        assert(fully_read(mons[last]));
        assert(can_fight(mons.last(), data) == stands(mons[last], data));
        assert forall|i: int| 0 <= i < rest.len() implies #[trigger] mons[i] == rest[i] by {}
        if forall|i: int| 0 <= i < mons.len() ==> !stands(#[trigger] mons[i], data) {
            assert forall|i: int| 0 <= i < rest.len() implies !stands(#[trigger] rest[i], data) by {
                assert(mons[i] == rest[i]);
            }
        }
        if alone(mons, data) {
            assert forall|i: int, j: int| 0 <= i < j < rest.len() implies !(#[trigger] stands(
                rest[i],
                data,
            ) && #[trigger] stands(rest[j], data)) by {
                assert(mons[i] == rest[i] && mons[j] == rest[j]);
            }
            if stands(mons[last], data) {
                assert forall|i: int| 0 <= i < rest.len() implies !stands(
                    #[trigger] rest[i],
                    data,
                ) by {
                    assert(mons[i] == rest[i]);
                    assert(!(stands(mons[i], data) && stands(mons[last], data)));
                }
            }
        }
        if fighters(mons, data) <= 1 {
            assert forall|i: int, j: int| 0 <= i < j < mons.len() implies !(#[trigger] stands(
                mons[i],
                data,
            ) && #[trigger] stands(mons[j], data)) by {
                assert(mons[i] == rest[i]);
                if j < last {
                    assert(mons[j] == rest[j]);
                }
            }
        }
        if fighters(mons, data) == 0 {
            assert forall|i: int| 0 <= i < mons.len() implies !stands(#[trigger] mons[i], data) by {
                if i < last {
                    assert(mons[i] == rest[i]);
                }
            }
        }
    }
}

/// What is not known is read first: a party that is unknown, empty, or has a
/// member at any place of which something is not known, is audited; and no
/// other is.
pub proof fn the_unknown_is_audited(party: Option<Seq<PartyMon>>, data: GameData)
    ensures
        health_need(party, data) == Some(Need::AuditParty) <==> (party is None || party->0.len()
            == 0 || exists|i: int| 0 <= i < party->0.len() && !fully_read(#[trigger] party->0[i])),
{
    if party is Some {
        let mons = party->0;
        assert forall|i: int| 0 <= i < mons.len() implies crate::scheduler::mon_known(
            #[trigger] mons[i],
        ) == fully_read(mons[i]) by {}
    }
}

/// A party of which everything is known needs healing at once exactly where its
/// lead has no HP or no attack left, or is below 35 % of its HP; or where at
/// most one member can act, and that is none, or the lead is below half of its
/// HP or has a status.
pub proof fn when_healing_is_urgent(mons: Seq<PartyMon>, data: GameData)
    requires
        mons.len() > 0,
        forall|i: int| 0 <= i < mons.len() ==> fully_read(#[trigger] mons[i]),
    ensures
        health_need(Some(mons), data) == Some(Need::HealUrgent) <==> ({
            let lead = mons[0];
            ||| cur(lead) == 0
            ||| !has_attack(lead, data)
            ||| 100 * cur(lead) < 35 * max(lead)
            ||| forall|i: int| 0 <= i < mons.len() ==> !stands(#[trigger] mons[i], data)
            ||| alone(mons, data) && (2 * cur(lead) < max(lead) || lead.status.value != Some(
                Status::Healthy,
            ))
        }),
{
    fighters_are_counted(mons, data);
    let lead = mons[0];
    assert(fully_read(lead));
    assert forall|i: int| 0 <= i < mons.len() implies crate::scheduler::mon_known(
        #[trigger] mons[i],
    ) by {
        assert(fully_read(mons[i]));
    }
    let c = cur(lead) * 100;
    let m = max(lead);
    assert(c / m < 35 <==> c < 35 * m) by (nonlinear_arith)
        requires
            m > 0,
            c >= 0,
    ;
    assert(c / m < 50 <==> c < 50 * m) by (nonlinear_arith)
        requires
            m > 0,
            c >= 0,
    ;
}

/// A member that is hurt, at whatever place, always asks for healing; and none
/// is asked for only where no member is hurt and the lead has a quarter of the
/// PP of its attacks left.
pub proof fn the_hurt_ask_for_healing(mons: Seq<PartyMon>, data: GameData, i: int)
    requires
        mons.len() > 0,
        forall|i: int| 0 <= i < mons.len() ==> fully_read(#[trigger] mons[i]),
        0 <= i < mons.len(),
    ensures
        hurt(mons[i]) ==> health_need(Some(mons), data) == Some(Need::HealSoon) || health_need(
            Some(mons),
            data,
        ) == Some(Need::HealUrgent),
        health_need(Some(mons), data) is None ==> 4 * cur(mons[i]) >= 3 * max(mons[i])
            && mons[i].status.value == Some(Status::Healthy),
{
    assert forall|i: int| 0 <= i < mons.len() implies crate::scheduler::mon_known(
        #[trigger] mons[i],
    ) by {
        assert(fully_read(mons[i]));
    }
    assert(fully_read(mons[i]));
    assert(crate::scheduler::is_worn(mons[i]) == hurt(mons[i]));
}

/// PP of a slot's attack: what is left, and the most.
pub open spec fn pp_at(slot: Option<MoveSlot>, data: GameData) -> (int, int) {
    if slot is Some && slot->0.mv.value is Some && slot->0.pp.value is Some && data.move_of(
        slot->0.mv.value->0@,
    ) is Some && data.move_of(slot->0.mv.value->0@)->0.power > 0 {
        ((slot->0.pp.value->0).0 as int, (slot->0.pp.value->0).1 as int)
    } else {
        (0, 0)
    }
}

/// The lead has less than a quarter of the PP of its attacks left.
pub open spec fn low_on_pp(lead: PartyMon, data: GameData) -> bool {
    let a = pp_at(lead.moves@[0], data);
    let b = pp_at(lead.moves@[1], data);
    let c = pp_at(lead.moves@[2], data);
    let d = pp_at(lead.moves@[3], data);
    4 * (a.0 + b.0 + c.0 + d.0) < a.1 + b.1 + c.1 + d.1
}

/// Nothing is needed where nobody is hurt, and the lead has an attack and is not
/// low on PP; low on PP alone, it is healed soon.
pub proof fn the_healthy_need_nothing(mons: Seq<PartyMon>, data: GameData)
    requires
        mons.len() > 0,
        forall|i: int| 0 <= i < mons.len() ==> fully_read(#[trigger] mons[i]) && !hurt(mons[i]),
        has_attack(mons[0], data),
    ensures
        health_need(Some(mons), data) == if low_on_pp(mons[0], data) {
            Some(Need::HealSoon)
        } else {
            None
        },
{
    fighters_are_counted(mons, data);
    when_healing_is_urgent(mons, data);
    the_unknown_is_audited(Some(mons), data);
    assert(fully_read(mons[0]) && !hurt(mons[0]));
    assert(stands(mons[0], data));
    assert forall|i: int| 0 <= i < mons.len() implies !crate::scheduler::is_worn(
        #[trigger] mons[i],
    ) by {
        assert(fully_read(mons[i]) && !hurt(mons[i]));
    }
}

/// Healing is wanted soon only for a reason: somebody is hurt, or the lead is
/// low on PP.
pub proof fn healing_soon_has_a_reason(mons: Seq<PartyMon>, data: GameData)
    requires
        mons.len() > 0,
        forall|i: int| 0 <= i < mons.len() ==> fully_read(#[trigger] mons[i]),
        health_need(Some(mons), data) == Some(Need::HealSoon),
    ensures
        low_on_pp(mons[0], data) || exists|i: int| 0 <= i < mons.len() && hurt(#[trigger] mons[i]),
{
    assert forall|i: int| 0 <= i < mons.len() implies crate::scheduler::is_worn(
        #[trigger] mons[i],
    ) == hurt(mons[i]) by {
        assert(fully_read(mons[i]));
    }
}

} // verus!
