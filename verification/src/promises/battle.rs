//! Fighting: what is chosen, and that it is what the menu is made to select.

use vstd::prelude::*;

use crate::bag::reads_as;
use crate::battle::{
    candidates, chosen_move, fallback, falls_back_at, inside, only_shown, power, shown_like,
    species_shown, strongest, tier, BattlePolicy, BattleV,
};
use crate::catch::flow::{AttemptV, CatchV, HudReading};
use crate::catch_odds::{ChoiceV, OddsV};
use crate::gamedata::GameData;
use crate::input::Button;
use crate::learn::{holds_at, slot_of};
use crate::observe::{BattleMenu, Observation};
use crate::party::{displayed, hp_plausible_for, Member, Party};
use crate::promises::{button_pressed, selects};
use crate::text::{begins, ends, swapped};

verus! {

/// A move of the lead that may strike: it does damage, has PP, and is not
/// disabled.
pub open spec fn may_strike(data: GameData, lead: Member, disabled: Option<Seq<char>>, i: int)
    -> bool {
    &&& 0 <= i < lead.moves@.len()
    &&& data.move_of(lead.moves@[i]@) is Some
    &&& data.move_of(lead.moves@[i]@)->0.power > 0
    &&& lead.left(data, lead.moves@[i]@) > 0
    &&& disabled != Some(lead.moves@[i]@)
}

/// A move whose PP need not be kept for trainers.
pub open spec fn is_spare(data: GameData, lead: Member, m: BattleV, reserve: u8, i: int) -> bool {
    m.trainer || data.move_of(lead.moves@[i]@)->0.pp >= 30 || lead.left(data, lead.moves@[i]@)
        > reserve
}

/// The tier holds exactly the moves that may strike (and are spare).
proof fn tier_holds(data: GameData, lead: Member, m: BattleV, reserve: u8, sparing: bool, n: nat)
    requires
        n <= lead.moves@.len(),
    ensures
        ({
            let t = tier(data, lead, m, reserve, sparing, n);
            &&& forall|k: int|
                0 <= k < n && #[trigger] may_strike(data, lead, m.disabled, k) && (sparing
                    ==> is_spare(data, lead, m, reserve, k)) ==> t.contains(lead.moves@[k]@)
            &&& forall|i: int|
                0 <= i < t.len() ==> exists|k: int|
                    0 <= k < n && lead.moves@[k]@ == #[trigger] t[i] && #[trigger] may_strike(
                        data,
                        lead,
                        m.disabled,
                        k,
                    ) && (sparing ==> is_spare(data, lead, m, reserve, k))
        }),
    decreases n,
{
    if n > 0 {
        tier_holds(data, lead, m, reserve, sparing, (n - 1) as nat);
        let rest = tier(data, lead, m, reserve, sparing, (n - 1) as nat);
        let t = tier(data, lead, m, reserve, sparing, n);
        let mv = lead.moves@[n - 1]@;
        assert forall|k: int|
            0 <= k < n && #[trigger] may_strike(data, lead, m.disabled, k) && (sparing
                ==> is_spare(data, lead, m, reserve, k)) implies t.contains(lead.moves@[k]@) by {
            if k < n - 1 {
                let i = rest.index_of(lead.moves@[k]@);
                assert(t[i] == lead.moves@[k]@);
            } else {
                assert(t[t.len() - 1] == mv);
            }
        }
        assert forall|i: int| 0 <= i < t.len() implies exists|k: int|
            0 <= k < n && lead.moves@[k]@ == #[trigger] t[i] && #[trigger] may_strike(
                data,
                lead,
                m.disabled,
                k,
            ) && (sparing ==> is_spare(data, lead, m, reserve, k)) by {
            if i < rest.len() {
                assert(t[i] == rest[i]);
                let k = choose|k: int|
                    0 <= k < n - 1 && lead.moves@[k]@ == rest[i] && #[trigger] may_strike(
                        data,
                        lead,
                        m.disabled,
                        k,
                    ) && (sparing ==> is_spare(data, lead, m, reserve, k));
                assert(may_strike(data, lead, m.disabled, k));
            } else {
                assert(may_strike(data, lead, m.disabled, n - 1));
            }
        }
    }
}

proof fn strongest_is_strongest(data: GameData, moves: Seq<Seq<char>>)
    requires
        moves.len() > 0,
    ensures
        moves.contains(strongest(data, moves)),
        forall|i: int|
            0 <= i < moves.len() ==> crate::battle::power(data, #[trigger] moves[i])
                <= crate::battle::power(data, strongest(data, moves)),
    decreases moves.len(),
{
    if moves.len() > 1 {
        let rest = moves.drop_last();
        strongest_is_strongest(data, rest);
        let i = rest.index_of(strongest(data, rest));
        assert(moves[i] == rest[i]);
        assert(moves[moves.len() - 1] == moves.last());
        assert forall|i: int| 0 <= i < moves.len() implies crate::battle::power(
            data,
            #[trigger] moves[i],
        ) <= crate::battle::power(data, strongest(data, moves)) by {
            if i < rest.len() {
                assert(rest[i] == moves[i]);
            }
        }
    } else {
        assert(moves[0] == strongest(data, moves));
    }
}

proof fn slot_holds(lead: Member, mv: Seq<char>, k: int)
    requires
        0 <= k < lead.moves@.len(),
        lead.moves@[k]@ == mv,
        lead.moves@.len() <= 256,
    ensures
        slot_of(lead.moves@, mv) is Some,
        slot_of(lead.moves@, mv)->0 < lead.moves@.len(),
        lead.moves@[slot_of(lead.moves@, mv)->0 as int]@ == mv,
        slot_of(lead.moves@, mv)->0 <= k,
    decreases k,
{
    if holds_at(lead.moves@, mv, k) {
        let c = choose|c: int| holds_at(lead.moves@, mv, c);
        assert(c == k) by {
            assert(lead.moves@[c]@ == mv);
        }
    } else {
        let j = choose|j: int| 0 <= j < k && (#[trigger] lead.moves@[j])@ == mv;
        slot_holds(lead, mv, j);
    }
}

proof fn slot_is_held(lead: Member, mv: Seq<char>)
    requires
        slot_of(lead.moves@, mv) is Some,
        lead.moves@.len() <= 256,
    ensures
        slot_of(lead.moves@, mv)->0 < lead.moves@.len(),
        lead.moves@[slot_of(lead.moves@, mv)->0 as int]@ == mv,
{
    let c = choose|c: int| holds_at(lead.moves@, mv, c);
    assert(holds_at(lead.moves@, mv, c));
}

proof fn fallback_is_held(data: GameData, party: Party, m: BattleV)
    requires
        fallback(data, party, m) is Some,
        party.members@.len() > 0,
        party.members@[0].moves@.len() <= 256,
    ensures
        ({
            let x = fallback(data, party, m)->0;
            let lead = party.members@[0];
            &&& x.0 < lead.moves@.len()
            &&& lead.moves@[x.0 as int]@ == x.1
            &&& falls_back_at(data, lead, m.disabled, x.0 as int)
        }),
{
    let lead = party.members@[0];
    let i = choose|i: int| falls_back_at(data, lead, m.disabled, i);
    assert(falls_back_at(data, lead, m.disabled, i));
}

/// On the moves menu, outside a catch, a battle is run from (B, in a wild battle
/// alone), or no move can be used, or a move of the lead is selected: the
/// cell that A is pressed on, and that the cursor comes nearer to, is the one of
/// the slot that is remembered, and the lead has the remembered move there.
pub proof fn the_remembered_move_is_selected(
    m: BattleV,
    o: Observation,
    policy: BattlePolicy,
    party: Party,
    data: GameData,
    best: Option<Seq<char>>,
    odds: Option<OddsV>,
    column: u8,
    row: u8,
)
    requires
        m.catch.attempt is None,
        o.battle is Some,
        o.battle->0.menu == Some(BattleMenu::Moves { column, row }),
        party.members@.len() > 0,
        party.members@[0].moves@.len() <= 256,
    ensures
        ({
            let lead = party.members@[0];
            let (next, d, _) = m.deciding(o, policy, party, data, best, odds);
            &&& d is Some
            &&& {
                ||| !m.trainer && m.run_attempts < policy.max_run_attempts && button_pressed(d->0)
                    == Some(Button::B)
                ||| d->0 is Fail && next.last_slot == m.last_slot
                ||| {
                    &&& next.last_slot is Some && next.last_move is Some
                    &&& (next.last_slot->0).0 == lead.slot
                    &&& (next.last_slot->0).1 < lead.moves@.len()
                    &&& lead.moves@[(next.last_slot->0).1 as int]@ == next.last_move->0
                    &&& forall|c: int, r: int|
                        0 <= c < 2 && 0 <= r && c + 2 * r == (next.last_slot->0).1
                            ==> #[trigger] selects(d->0, (column, row), (c, r))
                }
            }
        }),
{
    let lead = party.members@[0];
    let (next, d, _) = m.deciding(o, policy, party, data, best, odds);
    if let Some(x) = chosen_move(data, party, best, m, policy) {
        slot_is_held(lead, x.1);
    }
    if fallback(data, party, m) is Some {
        fallback_is_held(data, party, m);
    }
    if next.last_slot is Some {
        let slot = (next.last_slot->0).1;
        assert forall|c: int, r: int| 0 <= c < 2 && 0 <= r && c + 2 * r == slot && d->0 is Act
            && button_pressed(d->0) != Some(Button::B) implies #[trigger] selects(
            d->0,
            (column, row),
            (c, r),
        ) by {
            assert(c == slot % 2 && r == slot / 2);
        }
    }
}

/// Some move may strike exactly where a move is chosen without an evaluation.
proof fn a_strike_is_found(data: GameData, party: Party, m: BattleV, policy: BattlePolicy)
    requires
        party.members@.len() > 0,
        party.members@[0].moves@.len() <= 256,
    ensures
        ({
            let lead = party.members@[0];
            chosen_move(data, party, None, m, policy) is Some <==> exists|i: int|
                may_strike(data, lead, m.disabled, i)
        }),
        ({
            let lead = party.members@[0];
            candidates(data, lead, m, policy).len() > 0 <==> exists|i: int|
                may_strike(data, lead, m.disabled, i)
        }),
        chosen_move(data, party, None, m, policy) matches Some(x) ==> {
            let lead = party.members@[0];
            &&& may_strike(data, lead, m.disabled, x.0 as int)
            &&& lead.moves@[x.0 as int]@ == x.1
            &&& (exists|i: int|
                #[trigger] may_strike(data, lead, m.disabled, i) && is_spare(
                    data,
                    lead,
                    m,
                    policy.wild_pp_reserve,
                    i,
                )) ==> is_spare(data, lead, m, policy.wild_pp_reserve, x.0 as int)
            &&& forall|i: int| #[trigger]
                may_strike(data, lead, m.disabled, i) && (is_spare(
                    data,
                    lead,
                    m,
                    policy.wild_pp_reserve,
                    x.0 as int,
                ) ==> is_spare(data, lead, m, policy.wild_pp_reserve, i)) ==> data.move_of(
                    lead.moves@[i]@,
                )->0.power <= data.move_of(x.1)->0.power
        },
{
    let lead = party.members@[0];
    let n = lead.moves@.len();
    let reserve = policy.wild_pp_reserve;
    tier_holds(data, lead, m, reserve, true, n);
    tier_holds(data, lead, m, reserve, false, n);
    let spare = tier(data, lead, m, reserve, true, n);
    let all = tier(data, lead, m, reserve, false, n);
    let moves = candidates(data, lead, m, policy);
    if moves.len() > 0 {
        strongest_is_strongest(data, moves);
        let mv = strongest(data, moves);
        let at = moves.index_of(mv);
        assert(moves[at] == mv);
        let k = choose|k: int|
            0 <= k < n && lead.moves@[k]@ == moves[at] && #[trigger] may_strike(
                data,
                lead,
                m.disabled,
                k,
            ) && (spare.len() > 0 ==> is_spare(data, lead, m, reserve, k));
        assert(may_strike(data, lead, m.disabled, k));
        slot_holds(lead, mv, k);
        let x = chosen_move(data, party, None, m, policy)->0;
        assert(lead.moves@[x.0 as int]@ == lead.moves@[k]@);
        assert(may_strike(data, lead, m.disabled, x.0 as int));
        assert forall|i: int| #[trigger]
            may_strike(data, lead, m.disabled, i) && (is_spare(data, lead, m, reserve, x.0 as int)
                ==> is_spare(data, lead, m, reserve, i)) implies data.move_of(
            lead.moves@[i]@,
        )->0.power <= data.move_of(x.1)->0.power by {
            if spare.len() > 0 {
                let j = spare.index_of(lead.moves@[i]@);
                assert(moves[j] == lead.moves@[i]@);
            } else {
                let j = all.index_of(lead.moves@[i]@);
                assert(moves[j] == lead.moves@[i]@);
            }
        }
        if exists|i: int|
            #[trigger] may_strike(data, lead, m.disabled, i) && is_spare(
                data,
                lead,
                m,
                reserve,
                i,
            ) {
            let i = choose|i: int|
                #[trigger] may_strike(data, lead, m.disabled, i) && is_spare(
                    data,
                    lead,
                    m,
                    reserve,
                    i,
                );
            assert(spare.contains(lead.moves@[i]@));
        }
    } else {
        assert forall|i: int| !may_strike(data, lead, m.disabled, i) by {
            if may_strike(data, lead, m.disabled, i) {
                assert(all.contains(lead.moves@[i]@));
            }
        }
    }
}

/// Which move is selected outside a catch, where a move may strike: the
/// evaluated best, where the lead has it; without an evaluation the most
/// powerful of those that may strike, in a wild battle one whose PP need not be
/// kept wherever there is such a move.
pub proof fn the_best_move_strikes(
    m: BattleV,
    o: Observation,
    policy: BattlePolicy,
    party: Party,
    data: GameData,
    best: Option<Seq<char>>,
    odds: Option<OddsV>,
    column: u8,
    row: u8,
    able: int,
)
    requires
        m.catch.attempt is None,
        o.battle is Some,
        o.battle->0.menu == Some(BattleMenu::Moves { column, row }),
        party.members@.len() > 0,
        party.members@[0].moves@.len() <= 256,
        may_strike(data, party.members@[0], m.disabled, able),
        button_pressed(m.deciding(o, policy, party, data, best, odds).1->0) != Some(Button::B),
        best matches Some(b) ==> exists|k: int|
            0 <= k < party.members@[0].moves@.len() && (
            #[trigger] party.members@[0].moves@[k])@ == b,
    ensures
        ({
            let lead = party.members@[0];
            let (next, d, _) = m.deciding(o, policy, party, data, best, odds);
            let reserve = policy.wild_pp_reserve;
            let slot = (next.last_slot->0).1 as int;
            &&& next.last_slot is Some && next.last_move is Some && d->0 is Act
            &&& best is Some ==> next.last_move == best
            &&& best is None ==> may_strike(data, lead, m.disabled, slot)
            &&& best is None && is_spare(data, lead, m, reserve, able) ==> is_spare(
                data,
                lead,
                m,
                reserve,
                slot,
            )
            &&& best is None && (is_spare(data, lead, m, reserve, slot) ==> is_spare(
                data,
                lead,
                m,
                reserve,
                able,
            )) ==> data.move_of(lead.moves@[able]@)->0.power <= data.move_of(
                next.last_move->0,
            )->0.power
        }),
{
    let lead = party.members@[0];
    a_strike_is_found(data, party, m, policy);
    if let Some(b) = best {
        let k = choose|k: int|
            0 <= k < lead.moves@.len() && (#[trigger] lead.moves@[k])@ == b;
        slot_holds(lead, b, k);
    }
}

/// Where no move may strike, the first move that has PP and is not disabled is
/// selected (in a battle that is not run from), and none where there is none.
pub proof fn any_move_is_better_than_none(
    m: BattleV,
    o: Observation,
    policy: BattlePolicy,
    party: Party,
    data: GameData,
    odds: Option<OddsV>,
    column: u8,
    row: u8,
)
    requires
        m.catch.attempt is None,
        m.trainer,
        o.battle is Some,
        o.battle->0.menu == Some(BattleMenu::Moves { column, row }),
        party.members@.len() > 0,
        party.members@[0].moves@.len() <= 256,
        forall|i: int| !may_strike(data, party.members@[0], m.disabled, i),
    ensures
        ({
            let lead = party.members@[0];
            let (next, d, _) = m.deciding(o, policy, party, data, None, odds);
            if exists|i: int|
                0 <= i < lead.moves@.len() && lead.left(data, (#[trigger] lead.moves@[i])@) > 0
                    && m.disabled != Some(lead.moves@[i]@) {
                let slot = (next.last_slot->0).1 as int;
                &&& d->0 is Act && next.last_slot is Some
                &&& slot < lead.moves@.len() && lead.left(data, lead.moves@[slot]@) > 0
                &&& m.disabled != Some(lead.moves@[slot]@)
                &&& forall|j: int|
                    0 <= j < slot ==> lead.left(data, (#[trigger] lead.moves@[j])@) == 0
                        || m.disabled == Some(lead.moves@[j]@)
            } else {
                d->0 is Fail
            }
        }),
{
    let lead = party.members@[0];
    a_strike_is_found(data, party, m, policy);
    if fallback(data, party, m) is Some {
        fallback_is_held(data, party, m);
        let c = choose|c: int| falls_back_at(data, lead, m.disabled, c);
        assert(lead.left(data, lead.moves@[c]@) > 0);
    } else if exists|i: int|
        0 <= i < lead.moves@.len() && lead.left(data, (#[trigger] lead.moves@[i])@) > 0
            && m.disabled != Some(lead.moves@[i]@) {
        let i = choose|i: int|
            0 <= i < lead.moves@.len() && lead.left(data, (#[trigger] lead.moves@[i])@) > 0
                && m.disabled != Some(lead.moves@[i]@);
        a_first_to_fall_back_on(data, lead, m.disabled, i);
    }
}

proof fn a_first_to_fall_back_on(
    data: GameData,
    lead: Member,
    disabled: Option<Seq<char>>,
    i: int,
)
    requires
        0 <= i < lead.moves@.len(),
        lead.left(data, lead.moves@[i]@) > 0,
        disabled != Some(lead.moves@[i]@),
    ensures
        exists|c: int| falls_back_at(data, lead, disabled, c),
    decreases i,
{
    if !falls_back_at(data, lead, disabled, i) {
        let j = choose|j: int|
            0 <= j < i && !(lead.left(data, (#[trigger] lead.moves@[j])@) == 0 || disabled == Some(
                lead.moves@[j]@,
            ));
        a_first_to_fall_back_on(data, lead, disabled, j);
    }
}

/// On the command menu, outside a catch: RUN is selected in a wild battle whose
/// opponent was decided on, with attempts left, exactly where our HP is low,
/// nothing may strike, or the catch was given up; else FIGHT is.
pub proof fn run_or_fight(
    m: BattleV,
    o: Observation,
    policy: BattlePolicy,
    party: Party,
    data: GameData,
    best: Option<Seq<char>>,
    odds: Option<OddsV>,
    column: u8,
    row: u8,
)
    requires
        m.catch.attempt is None,
        m.trainer || m.catch.decided,
        o.battle is Some,
        o.battle->0.menu == Some(BattleMenu::Command { column, row }),
        party.members@.len() > 0,
        party.members@[0].moves@.len() <= 256,
    ensures
        ({
            let d = m.deciding(o, policy, party, data, best, odds).1;
            let hp = o.battle->0.player_hp;
            let reason = (hp matches Some(h) && h < policy.flee_below) || m.catch.flee || !(exists|
                i: int,
            | may_strike(data, party.members@[0], m.disabled, i));
            &&& d is Some
            &&& if !m.trainer && m.run_attempts < policy.max_run_attempts && reason {
                selects(d->0, (column, row), (1, 1))
            } else {
                selects(d->0, (column, row), (0, 0))
            }
        }),
{
    a_strike_is_found(data, party, m, policy);
}

/// The same on the moves menu: B goes back to RUN exactly where the battle is to
/// be run from.
pub proof fn b_goes_back_to_run(
    m: BattleV,
    o: Observation,
    policy: BattlePolicy,
    party: Party,
    data: GameData,
    best: Option<Seq<char>>,
    odds: Option<OddsV>,
    column: u8,
    row: u8,
)
    requires
        m.catch.attempt is None,
        o.battle is Some,
        o.battle->0.menu == Some(BattleMenu::Moves { column, row }),
        party.members@.len() > 0,
        party.members@[0].moves@.len() <= 256,
    ensures
        ({
            let d = m.deciding(o, policy, party, data, best, odds).1;
            let hp = o.battle->0.player_hp;
            let reason = (hp matches Some(h) && h < policy.flee_below) || m.catch.flee || !(exists|
                i: int,
            | may_strike(data, party.members@[0], m.disabled, i));
            d is Some && (button_pressed(d->0) == Some(Button::B) <==> !m.trainer && m.run_attempts
                < policy.max_run_attempts && reason)
        }),
{
    a_strike_is_found(data, party, m, policy);
}

// ---- A catch ----

/// The frame shows a battle menu of a catch that is under way, with the HUD's
/// numbers as an earlier frame read them.
pub open spec fn confirmed_turn(
    m: BattleV,
    o: Observation,
    party: Party,
    attempt: AttemptV,
    hp: (u16, u16),
    foe: u16,
    earlier: u64,
) -> bool {
    &&& m.catch.attempt == Some(attempt)
    &&& m.catch.foe is Some
    &&& party.members@.len() > 0
    &&& o.battle is Some
    &&& o.battle->0.menu is Some
    &&& o.battle->0.player_hp_numbers == Some(hp)
    &&& o.battle->0.opponent_hp == Some(foe)
    &&& hp_plausible_for(hp, party.members@[0].level, Some(party.members@[0].species@))
    &&& earlier < o.frame_id
    &&& m.catch.hud == Some(
        (
            earlier,
            HudReading { command: o.battle->0.menu->0 is Command, hp: hp.0, max: hp.1, foe },
        ),
    )
}

/// The odds of the turn, whether they were just solved or are at hand.
pub open spec fn odds_are(m: BattleV, odds: Option<OddsV>, now: OddsV) -> bool {
    odds == Some(now) && (m.catch.odds matches Some(k) ==> k.1 == now)
}

/// A foe that the attempt goes on with: a shiny while our HP is not low (or no
/// RUN is left); another while the reserve is not touched.
pub open spec fn goes_on(
    m: BattleV,
    o: Observation,
    policy: BattlePolicy,
    attempt: AttemptV,
) -> bool {
    if attempt.plan.shiny {
        o.battle->0.player_hp is None || o.battle->0.player_hp->0 >= policy.flee_below
            || m.run_attempts >= policy.max_run_attempts
    } else {
        attempt.plan.wanted || attempt.balls is None || attempt.balls->0 > 5
    }
}

/// A move that the odds choose is what is played: FIGHT on the command menu, and
/// on the moves menu the move's own cell; the bag is left alone, the attempt
/// goes on, and the move is remembered. (But for a shiny, not where the odds are
/// too risky.)
pub proof fn a_chosen_move_is_played(
    m: BattleV,
    o: Observation,
    policy: BattlePolicy,
    party: Party,
    data: GameData,
    odds: Option<OddsV>,
    now: OddsV,
    attempt: AttemptV,
    hp: (u16, u16),
    foe: u16,
    earlier: u64,
    slot: u8,
    mv: Seq<char>,
)
    requires
        confirmed_turn(m, o, party, attempt, hp, foe, earlier),
        odds_are(m, odds, now),
        goes_on(m, o, policy, attempt),
        now.choice == ChoiceV::Attack(slot, mv) || now.choice == ChoiceV::Status(slot, mv),
        attempt.plan.shiny || !now.risky,
    ensures
        ({
            let (next, d, _) = m.attempting(o, policy, party, data, odds);
            &&& d is Some
            &&& next.catch.thrower == m.catch.thrower
            &&& next.catch.attempt is Some
            &&& !next.catch.flee == !m.catch.flee
            &&& match o.battle->0.menu->0 {
                BattleMenu::Command { column, row } => selects(d->0, (column, row), (0, 0)),
                BattleMenu::Moves { column, row } => {
                    &&& next.last_move == Some(mv)
                    &&& next.last_slot == Some((party.members@[0].slot, slot))
                    &&& forall|c: int, r: int|
                        0 <= c < 2 && 0 <= r && c + 2 * r == slot ==> #[trigger] selects(
                            d->0,
                            (column, row),
                            (c, r),
                        )
                    &&& button_pressed(d->0) == Some(Button::A) ==> next.catch.opener_chosen == (
                    now.choice is Status)
                },
            }
        }),
{
    let (next, d, _) = m.attempting(o, policy, party, data, odds);
    if let BattleMenu::Moves { column, row } = o.battle->0.menu->0 {
        assert forall|c: int, r: int|
            0 <= c < 2 && 0 <= r && c + 2 * r == slot implies #[trigger] selects(
            d->0,
            (column, row),
            (c, r),
        ) by {
            assert(c == slot % 2 && r == slot / 2);
        }
    }
}

/// A throw that the odds choose (or, for a shiny, a RUN while there are balls)
/// is played through the bag: BAG on the command menu, with the throw begun on
/// the A that opens it and not before, and out of the moves menu by B.
pub proof fn a_chosen_throw_is_played(
    m: BattleV,
    o: Observation,
    policy: BattlePolicy,
    party: Party,
    data: GameData,
    odds: Option<OddsV>,
    now: OddsV,
    attempt: AttemptV,
    hp: (u16, u16),
    foe: u16,
    earlier: u64,
)
    requires
        confirmed_turn(m, o, party, attempt, hp, foe, earlier),
        odds_are(m, odds, now),
        goes_on(m, o, policy, attempt),
        now.choice is Throw || (now.choice is Run && attempt.plan.shiny && attempt.balls is Some
            && attempt.balls->0 > 0),
        attempt.plan.shiny || !now.risky,
    ensures
        ({
            let (next, d, _) = m.attempting(o, policy, party, data, odds);
            &&& d is Some
            &&& next.catch.attempt is Some
            &&& match o.battle->0.menu->0 {
                BattleMenu::Command { column, row } => {
                    &&& selects(d->0, (column, row), (1, 0))
                    &&& if button_pressed(d->0) == Some(Button::A) {
                        next.catch.thrower is Some && next.catch.thrower->0.keep_reserve == !(
                        attempt.plan.shiny || attempt.plan.wanted)
                    } else {
                        next.catch.thrower == m.catch.thrower
                    }
                },
                BattleMenu::Moves { .. } => button_pressed(d->0) == Some(Button::B)
                    && next.catch.thrower == m.catch.thrower,
            }
        }),
{
}

/// A foe that is not shiny is given up (nothing is played, and the battle is to
/// be run from) exactly where the odds say RUN, or are too risky, or only the
/// reserve is left.
pub proof fn when_a_catch_is_given_up(
    m: BattleV,
    o: Observation,
    policy: BattlePolicy,
    party: Party,
    data: GameData,
    odds: Option<OddsV>,
    now: OddsV,
    attempt: AttemptV,
    hp: (u16, u16),
    foe: u16,
    earlier: u64,
)
    requires
        confirmed_turn(m, o, party, attempt, hp, foe, earlier),
        odds_are(m, odds, now),
        !attempt.plan.shiny,
    ensures
        ({
            let (next, d, _) = m.attempting(o, policy, party, data, odds);
            let over = now.choice is Run || now.risky || (!attempt.plan.wanted
                && attempt.balls is Some && attempt.balls->0 <= 5);
            &&& over ==> d is None && next.catch.attempt is None && next.catch.flee
            &&& !over ==> d is Some && next.catch.attempt is Some
        }),
{
}

/// A shiny is run from only where our HP is low on the command menu, with RUN
/// attempts left: the cursor then goes to RUN.
pub proof fn a_shiny_is_run_from_for_low_hp_alone(
    m: BattleV,
    o: Observation,
    policy: BattlePolicy,
    party: Party,
    data: GameData,
    odds: Option<OddsV>,
    attempt: AttemptV,
    hp: (u16, u16),
    foe: u16,
    earlier: u64,
    column: u8,
    row: u8,
)
    requires
        confirmed_turn(m, o, party, attempt, hp, foe, earlier),
        attempt.plan.shiny,
        o.battle->0.menu->0 == (BattleMenu::Command { column, row }),
        o.battle->0.player_hp matches Some(h) && h < policy.flee_below,
        m.run_attempts < policy.max_run_attempts,
    ensures
        m.attempting(o, policy, party, data, odds).1 is Some,
        selects(m.attempting(o, policy, party, data, odds).1->0, (column, row), (1, 1)),
{
}

proof fn playing_keeps_the_attempt(
    m: BattleV,
    o: Observation,
    member: Member,
    attempt: AttemptV,
    choice: ChoiceV,
)
    ensures
        m.playing(o, member, attempt, choice).0.catch.attempt == m.catch.attempt,
        m.playing(o, member, attempt, choice).0.catch.turn_counted == m.catch.turn_counted,
{
}

proof fn a_turn_keeps_the_attempt(
    m: BattleV,
    o: Observation,
    policy: BattlePolicy,
    member: Member,
    hud: HudReading,
    data: GameData,
    odds: Option<OddsV>,
)
    requires
        m.catch.attempt is Some,
    ensures
        ({
            let next = m.turn(o, policy, member, hud, data, odds).0;
            &&& next.catch.attempt is Some ==> next.catch.attempt == m.catch.attempt
            &&& next.catch.turn_counted == m.catch.turn_counted
        }),
{
    let attempt = m.catch.attempt->0;
    let key = attempt.turn_key(hud, m.disabled);
    if let Some(now) = m.turn_odds(key, odds) {
        let told = BattleV {
            catch: crate::catch::flow::CatchV { odds: Some((key, now)), ..m.catch },
            ..m
        };
        if let Some(choice) = BattleV::choice_by(attempt, now) {
            playing_keeps_the_attempt(told, o, member, attempt, choice);
        }
    }
}

/// A turn asleep is counted once, when the command menu first shows.
pub proof fn a_turn_asleep_is_counted_once(
    m: BattleV,
    o: Observation,
    policy: BattlePolicy,
    party: Party,
    data: GameData,
    odds: Option<OddsV>,
    now: OddsV,
    attempt: AttemptV,
    hp: (u16, u16),
    foe: u16,
    earlier: u64,
)
    requires
        confirmed_turn(m, o, party, attempt, hp, foe, earlier),
        odds_are(m, odds, now),
        m.attempting(o, policy, party, data, odds).0.catch.attempt is Some,
    ensures
        ({
            let next = m.attempting(o, policy, party, data, odds).0.catch.attempt->0;
            let counts = o.battle->0.menu->0 is Command && !m.catch.turn_counted
                && attempt.foe_status is Asleep && attempt.asleep_turns < 255;
            &&& next.asleep_turns == attempt.asleep_turns + if counts {
                1int
            } else {
                0
            }
            &&& next.foe_status == attempt.foe_status && next.balls == attempt.balls && next.plan
                == attempt.plan && next.throws == attempt.throws && next.opened == attempt.opened
            &&& o.battle->0.menu->0 is Command ==> m.attempting(
                o,
                policy,
                party,
                data,
                odds,
            ).0.catch.turn_counted
        }),
{
    let command = o.battle->0.menu->0 is Command;
    let begun = BattleV { catch: m.catch.turn_begun(command), ..m };
    let reading = HudReading { command, hp: hp.0, max: hp.1, foe };
    a_turn_keeps_the_attempt(begun, o, policy, party.members@[0], reading, data, odds);
}

// ---- Text ----

/// The text that a move of the lead was or is disabled tells which; that it is no
/// more tells that none is.
pub proof fn a_disabled_move_is_told(
    m: BattleV,
    party: Party,
    data: GameData,
    name: Seq<char>,
)
    requires
        party.members@.len() > 0,
        data.move_read(name) is Some,
        forall|i: int| 0 <= i < name.len() ==> #[trigger] name[i] != '’',
        ({
            let lead = displayed(party.members@[0].species@);
            forall|i: int| 0 <= i < lead.len() ==> #[trigger] lead[i] != '’'
        }),
    ensures
        ({
            let lead = displayed(party.members@[0].species@);
            let was = lead + "'s "@ + name + " was disabled!"@;
            let is = lead + "'s "@ + name + " is disabled!"@;
            let over = lead + " is disabled no more!"@;
            &&& m.page_told(was, party, data).disabled == Some(data.move_read(name)->0.key@)
            &&& m.page_told(is, party, data).disabled == Some(data.move_read(name)->0.key@)
            &&& m.page_told(over, party, data).disabled is None
            &&& m.page_told(was, party, data).catch == m.catch
            &&& m.page_told(over, party, data).last_move == m.last_move
        }),
{
    let lead = displayed(party.members@[0].species@);
    reveal_strlit("'s ");
    reveal_strlit(" was disabled!");
    reveal_strlit(" is disabled!");
    reveal_strlit(" is disabled no more!");
    let mark = "'s "@;
    let was = lead + mark + name + " was disabled!"@;
    let is = lead + mark + name + " is disabled!"@;
    let over = lead + " is disabled no more!"@;
    assert(swapped(was, '’', '\'') =~= was);
    assert(swapped(is, '’', '\'') =~= is);
    assert(swapped(over, '’', '\'') =~= over);
    let prefix = lead + mark;
    what_is_inside_is_told(prefix, name, " was disabled!"@);
    what_is_inside_is_told(prefix, name, " is disabled!"@);
    assert(was[lead.len() as int] == mark[0]);
    assert(is[lead.len() as int] == mark[0]);
    assert(over[lead.len() as int] == ' ');
    assert(mark[0] == '\'');
    // The end of one is not the end of the other.
    let rest = name + " is disabled!"@;
    assert(is.subrange(prefix.len() as int, is.len() as int) =~= rest);
    assert(!ends(rest, " was disabled!"@)) by {
        if ends(rest, " was disabled!"@) {
            let n = " was disabled!"@.len();
            let tail = rest.subrange(rest.len() - n, rest.len() as int);
            assert(tail[2] == 'a');
            assert(rest[rest.len() - 12] == 'i');
        }
    }
}

proof fn what_is_inside_is_told(prefix: Seq<char>, name: Seq<char>, suffix: Seq<char>)
    ensures
        inside(prefix + name + suffix, prefix, suffix) == Some(name),
{
    let all = prefix + name + suffix;
    assert(all.subrange(0, prefix.len() as int) =~= prefix);
    assert(begins(all, prefix));
    let rest = all.subrange(prefix.len() as int, all.len() as int);
    assert(rest =~= name + suffix);
    assert(rest.subrange(rest.len() - suffix.len(), rest.len() as int) =~= suffix);
    assert(ends(rest, suffix));
    assert(rest.subrange(0, rest.len() - suffix.len()) =~= name);
}

// ---- Opponents ----

/// The name over an opponent is that of the first species that is shown so, where
/// all that could read as it are shown the same; where two names could, or none,
/// it is not told who it is.
pub proof fn an_opponent_is_known_by_its_name(data: GameData, read: Seq<char>, i: int, j: int)
    requires
        0 <= i < data.species@.len(),
        reads_as(displayed(data.species@[i].key@), read),
    ensures
        (forall|k: int|
            0 <= k < data.species@.len() && reads_as(
                displayed((#[trigger] data.species@[k]).key@),
                read,
            ) ==> i <= k && displayed(data.species@[k].key@) == displayed(data.species@[i].key@))
            ==> species_shown(data, read) == Some(data.species@[i].key@),
        0 <= j < data.species@.len() && reads_as(displayed(data.species@[j].key@), read)
            && displayed(data.species@[j].key@) != displayed(data.species@[i].key@)
            ==> species_shown(data, read) is None,
{
    assert(shown_like(data, read, i));
    if only_shown(data, read, i) {
        let k = choose|k: int| only_shown(data, read, k);
        assert(only_shown(data, read, k));
        assert(shown_like(data, read, k));
        assert(data.species@[k].key@ == data.species@[k].key@);
        assert(data.species@[i].key@ == data.species@[i].key@);
    }
    if forall|k: int|
        0 <= k < data.species@.len() && reads_as(
            displayed((#[trigger] data.species@[k]).key@),
            read,
        ) ==> i <= k && displayed(data.species@[k].key@) == displayed(data.species@[i].key@) {
        assert(only_shown(data, read, i));
    }
    if exists|k: int| only_shown(data, read, k) {
        let k = choose|k: int| only_shown(data, read, k);
        assert(only_shown(data, read, k));
        assert(shown_like(data, read, i));
        assert(displayed(data.species@[i].key@) == displayed(data.species@[k].key@));
        if shown_like(data, read, j) {
            assert(displayed(data.species@[j].key@) == displayed(data.species@[k].key@));
        }
    }
}

/// A wild opponent is identified before anything is chosen; a trainer's is not
/// waited for.
pub proof fn a_wild_opponent_is_identified_first(
    m: BattleV,
    o: Observation,
    policy: BattlePolicy,
    party: Party,
    data: GameData,
    best: Option<Seq<char>>,
    odds: Option<OddsV>,
    column: u8,
    row: u8,
)
    requires
        m.catch.attempt is None,
        o.battle is Some,
        o.battle->0.menu == Some(BattleMenu::Command { column, row }),
    ensures
        ({
            let (next, d, _) = m.deciding(o, policy, party, data, best, odds);
            &&& d is Some
            &&& !m.trainer && !m.catch.decided ==> d->0 is Wait && next == m
            &&& m.trainer || m.catch.decided ==> d->0 is Act
        }),
{
}

/// A move that was confirmed uses up the one status move of the attempt where it
/// was that, and leaves it open where it was not.
pub proof fn a_confirmed_opener_is_used(c: CatchV)
    requires
        c.attempt is Some,
    ensures
        ({
            let next = c.move_confirmed();
            &&& next.attempt is Some && !next.opener_chosen
            &&& c.opener_chosen ==> next.attempt->0.opened
            &&& !c.opener_chosen ==> next.attempt->0.opened == c.attempt->0.opened
            &&& next.attempt->0.plan == c.attempt->0.plan && next.attempt->0.balls
                == c.attempt->0.balls && next.attempt->0.foe_status == c.attempt->0.foe_status
            &&& next.move_confirmed() == next
        }),
{
}

/// A Pokedex page is closed with A, on the second frame that shows it and not on
/// the first; without one nothing is pressed and the next is new.
pub proof fn a_pokedex_page_is_closed(c: CatchV, first: Observation, second: Observation)
    requires
        c.pokedex_seen is None,
        first.pokedex_page,
        second.frame_id != first.frame_id,
    ensures
        ({
            let (seen, d) = c.pokedex_looked(first);
            let (then, e) = seen.pokedex_looked(second);
            &&& d is Some && d->0 is Wait
            &&& second.pokedex_page ==> e is Some && button_pressed(e->0) == Some(Button::A)
            &&& !second.pokedex_page ==> e is None && then.pokedex_seen is None
        }),
{
}

/// Of moves with the same power the last one strikes.
pub proof fn of_equals_the_last_strikes(data: GameData, moves: Seq<Seq<char>>, k: int)
    requires
        0 <= k < moves.len(),
    ensures
        exists|i: int|
            0 <= i < moves.len() && #[trigger] moves[i] == strongest(data, moves) && power(
                data,
                moves[k],
            ) <= power(data, moves[i]) && (k > i ==> power(data, moves[k]) < power(
                data,
                moves[i],
            )),
{
    let i = the_last_of_the_strongest(data, moves);
    assert(moves[i] == strongest(data, moves));
}

proof fn the_last_of_the_strongest(data: GameData, moves: Seq<Seq<char>>) -> (i: int)
    requires
        moves.len() > 0,
    ensures
        0 <= i < moves.len(),
        moves[i] == strongest(data, moves),
        forall|k: int|
            0 <= k < moves.len() ==> power(data, #[trigger] moves[k]) <= power(data, moves[i]),
        forall|k: int|
            i < k < moves.len() ==> power(data, #[trigger] moves[k]) < power(data, moves[i]),
    decreases moves.len(),
{
    if moves.len() == 1 {
        0
    } else {
        let front = moves.drop_last();
        let j = the_last_of_the_strongest(data, front);
        assert(forall|k: int| 0 <= k < front.len() ==> #[trigger] moves[k] == front[k]);
        if power(data, moves.last()) >= power(data, front[j]) {
            moves.len() - 1
        } else {
            j
        }
    }
}

/// Without odds the attempt is over, and nothing else: the battle goes on as it
/// would have without one.
pub proof fn without_odds_the_battle_goes_on(
    m: BattleV,
    o: Observation,
    policy: BattlePolicy,
    party: Party,
    data: GameData,
    attempt: AttemptV,
    hp: (u16, u16),
    foe: u16,
    earlier: u64,
)
    requires
        confirmed_turn(m, o, party, attempt, hp, foe, earlier),
        m.catch.odds is None,
        !attempt.plan.shiny,
        attempt.plan.wanted || attempt.balls is None || attempt.balls->0 > 5,
    ensures
        ({
            let (next, d, events) = m.attempting(o, policy, party, data, None);
            &&& d is None && next.catch.attempt is None && events.len() == 1
            &&& next.catch.flee == m.catch.flee && next.run_attempts == m.run_attempts
        }),
{
}

/// Odds that are asked for are for the numbers on the screen and the attempt as it
/// stands, and the turn is decided by them: they are kept, and something is played
/// unless they say RUN or are too risky.
pub proof fn odds_are_asked_for_where_they_decide(
    m: BattleV,
    o: Observation,
    policy: BattlePolicy,
    party: Party,
    data: GameData,
    odds: OddsV,
)
    requires
        m.wants_odds(o, policy, party) is Some,
    ensures
        ({
            let (attempt, hud) = m.wants_odds(o, policy, party)->0;
            let (next, d, events) = m.attempting(o, policy, party, data, Some(odds));
            &&& m.catch.attempt is Some && party.members@.len() > 0
            &&& o.battle is Some && o.battle->0.player_hp_numbers == Some((hud.hp, hud.max))
                && o.battle->0.opponent_hp == Some(hud.foe)
            &&& attempt.plan == m.catch.attempt->0.plan && attempt.balls
                == m.catch.attempt->0.balls
            &&& next.catch.odds is Some && (next.catch.odds->0).1 == odds
            &&& d is Some || (odds.choice is Run || odds.risky)
        }),
{
    let command = o.battle->0.menu->0 is Command;
    let attempt = (m.wants_odds(o, policy, party)->0).0;
    let begun = BattleV { catch: m.catch.turn_begun(command), ..m };
    let member = party.leader()->0;
    let key = attempt.turn_key((m.wants_odds(o, policy, party)->0).1, m.disabled);
    let told = BattleV { catch: CatchV { odds: Some((key, odds)), ..begun.catch }, ..begun };
    if let Some(choice) = BattleV::choice_by(attempt, odds) {
        playing_keeps_the_odds(told, o, member, attempt, choice);
    }
}

proof fn playing_keeps_the_odds(
    m: BattleV,
    o: Observation,
    member: Member,
    attempt: AttemptV,
    choice: ChoiceV,
)
    ensures
        m.playing(o, member, attempt, choice).0.catch.odds == m.catch.odds,
{
}

} // verus!
