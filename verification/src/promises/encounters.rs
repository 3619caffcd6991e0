//! A wild Pokemon in battle: who it is, what the text says of it, and what comes
//! of a throw.

use vstd::prelude::*;

use crate::bag::reads_as;
use crate::battle::{opponent, BattlePolicy, BattleV};
use crate::catch::flow::{
    foe_planned, hp_to_plan, hud_read, identified, identifies, identity_read, seen_events,
    AttemptV, CatchV, HudReading, IdentityV,
};
use crate::catch::page::{status_phrase, throw_told};
use crate::catch::thrower::ThrowerV;
use crate::catch_odds::{ChoiceV, FoeStatus, OddsV};
use crate::event::{GameEventV, Pocket};
use crate::executor::DecisionV;
use crate::gamedata::GameData;
use crate::observe::{BattleObservation, Observation, ShinyReading};
use crate::party::{hp_plausible_for, Member, Party};
use crate::state::GameState;
use crate::stock::balls_in;
use crate::text::{begins, first_at, occurs_at, spaceless_start, within};

verus! {

// ---- Text ----

/// A ball that broke open is one ball less and one throw more; nothing else of
/// the attempt changes, and nothing is caught by it.
pub proof fn a_ball_that_fails_is_spent(c: CatchV, page: Seq<char>)
    requires
        !(within(page, "Gotcha!"@) && within(page, " was caught!"@)),
        (within(page, "Oh, no!"@) && within(page, "The POKéMON broke free!"@)) || (within(
            page,
            "Aww!"@,
        ) && within(page, "It appeared to be caught!"@)) || (within(page, "Aargh!"@) && within(
            page,
            "Almost had it!"@,
        )) || (within(page, "Shoot!"@) && within(page, "It was so close, too!"@)),
        c.attempt is Some,
        c.attempt->0.throws < u32::MAX,
    ensures
        ({
            let a = c.attempt->0;
            let next = c.throw_applied(page);
            let b = next.attempt->0;
            &&& next.attempt is Some
            &&& b.throws == a.throws + 1
            &&& b.balls is Some <==> a.balls is Some
            &&& a.balls is Some && a.balls->0 > 0 ==> b.balls->0 == a.balls->0 - 1
            &&& a.balls == Some(0u16) ==> b.balls == Some(0u16)
            &&& b.plan == a.plan && b.opened == a.opened && b.foe_status == a.foe_status
                && b.asleep_turns == a.asleep_turns
            &&& next.caught == c.caught && next.blocked == c.blocked && next.flee == c.flee
        }),
{
}

/// What was caught is the opponent that was identified; the attempt is left as it
/// was. A page that says nothing of a throw changes nothing.
pub proof fn what_is_caught_is_the_opponent(c: CatchV, page: Seq<char>)
    ensures
        within(page, "Gotcha!"@) && within(page, " was caught!"@) ==> ({
            let next = c.throw_applied(page);
            &&& c.foe is Some ==> next.caught == Some((c.foe->0).0)
            &&& c.foe is None ==> next.caught is None
            &&& next.attempt == c.attempt
        }),
        throw_told(page) is None ==> c.throw_applied(page) == c,
        c.caught is None && c.foe is Some && within(page, "Give a nickname to the"@)
            ==> c.question_applied(page).caught == Some((c.foe->0).0),
        !within(page, "Give a nickname to the"@) || c.caught is Some ==> c.question_applied(page)
            == c,
{
}

/// What the text may say of the opponent's state, and the state that it says.
pub open spec fn phrase_of(said: Seq<char>, status: FoeStatus) -> bool {
    match status {
        FoeStatus::Asleep => said == "fell asleep!"@ || said == "is fast asleep"@ || said
            == "is already asleep"@,
        FoeStatus::Paralyzed => said == "is paralyzed!"@ || said == "is already paralyzed"@,
        FoeStatus::Healthy => said == "woke up!"@,
    }
}

proof fn a_phrase_says_its_state(said: Seq<char>, rest: Seq<char>, status: FoeStatus)
    requires
        phrase_of(said, status),
    ensures
        status_phrase(said + rest) == Some(status),
        spaceless_start(seq![' '] + said + rest) == said + rest,
{
    reveal_strlit("fell asleep!");
    reveal_strlit("is fast asleep");
    reveal_strlit("is already asleep");
    reveal_strlit("is paralyzed!");
    reveal_strlit("is already paralyzed");
    reveal_strlit("woke up!");
    let all = said + rest;
    assert(all.subrange(0, said.len() as int) =~= said);
    assert(begins(all, said));
    a_beginning_shows(all, "fell asleep!"@);
    a_beginning_shows(all, "is fast asleep"@);
    a_beginning_shows(all, "is already asleep"@);
    a_beginning_shows(all, "is paralyzed!"@);
    a_beginning_shows(all, "is already paralyzed"@);
    a_beginning_shows(all, "woke up!"@);
    assert(all[0] == said[0]);
    assert(said.len() > 3 ==> all[3] == said[3]);
    assert(said.len() > 11 ==> all[11] == said[11]);
    let spaced = seq![' '] + said + rest;
    assert(spaced[0] == ' ');
    assert(spaced.drop_first() =~= all);
    reveal_with_fuel(spaceless_start, 3);
}

proof fn a_beginning_shows(all: Seq<char>, start: Seq<char>)
    ensures
        begins(all, start) ==> start.len() <= all.len() && forall|i: int|
            0 <= i < start.len() ==> #[trigger] all[i] == start[i],
{
    if begins(all, start) {
        assert forall|i: int| 0 <= i < start.len() implies #[trigger] all[i] == start[i] by {
            assert(all.subrange(0, start.len() as int)[i] == start[i]);
        }
    }
}

/// A sentence about the wild Pokemon of that name gives the state that it says:
/// the turns asleep go on counting where it sleeps, and are none where it does
/// not.
pub proof fn a_state_is_read_off_the_text(
    c: CatchV,
    before: Seq<char>,
    name: Seq<char>,
    said: Seq<char>,
    rest: Seq<char>,
    status: FoeStatus,
)
    requires
        phrase_of(said, status),
        c.attempt is Some,
        c.foe is Some,
        forall|j: int|
            0 <= j < before.len() ==> !occurs_at(
                before + "Wild "@ + name + seq![' '] + said + rest,
                "Wild "@,
                j,
            ),
    ensures
        ({
            let page = before + "Wild "@ + name + seq![' '] + said + rest;
            let a = c.attempt->0;
            let next = c.status_applied(page, name);
            let b = next.attempt->0;
            &&& next.attempt is Some
            &&& b.foe_status == status
            &&& b.asleep_turns == if status == FoeStatus::Asleep {
                a.asleep_turns
            } else {
                0
            }
            &&& b.plan == a.plan && b.balls == a.balls && b.throws == a.throws
        }),
{
    let page = before + "Wild "@ + name + seq![' '] + said + rest;
    reveal_strlit("Wild ");
    let n = before.len() as int;
    assert(page.subrange(n, n + 5) =~= "Wild "@);
    assert(first_at(page, "Wild "@, n));
    let at = choose|at: int| first_at(page, "Wild "@, at);
    assert(first_at(page, "Wild "@, at));
    assert(at == n) by {
        if at < n {
            assert(!occurs_at(page, "Wild "@, at));
        }
    }
    let after = page.subrange(n + 5, page.len() as int);
    let tail = seq![' '] + said + rest;
    assert(after =~= name + tail);
    assert(after.subrange(0, name.len() as int) =~= name);
    assert(after.subrange(name.len() as int, after.len() as int) =~= tail);
    assert(reads_as(name, name));
    a_phrase_says_its_state(said, rest, status);
}

// ---- Identification ----

/// An opponent is taken for who it is where the same was read on an earlier
/// frame: its mark tells caught from seen, its shine is told where it was clear,
/// and the attempt, if there is one, starts afresh with the balls that are held.
pub proof fn an_opponent_is_taken_for_who_it_is(
    m: BattleV,
    o: Observation,
    data: GameData,
    state: GameState,
    party: Party,
    odds: Option<OddsV>,
)
    requires
        identifies(m, o),
        opponent(data, o) is Some,
        o.battle->0.opponent_caught is Some,
        m.catch.identity is Some,
        (m.catch.identity->0).0 < o.frame_id,
        (m.catch.identity->0).1 == (IdentityV {
            species: (opponent(data, o)->0).0,
            level: (opponent(data, o)->0).1,
            caught: o.battle->0.opponent_caught->0,
            shiny: o.battle->0.opponent_shiny,
        }),
        m.catch.attempt is None,
    ensures
        ({
            let (next, events) = identified(m, o, data, state, party, odds);
            let species = (opponent(data, o)->0).0;
            let caught = o.battle->0.opponent_caught == Some(true);
            &&& next.catch.decided && next.catch.foe == opponent(data, o)
            &&& events[0] == if caught {
                GameEventV::SpeciesCaught { species }
            } else {
                GameEventV::SpeciesSeen { species }
            }
            &&& events.contains(GameEventV::ShinySeen { species })
                <==> o.battle->0.opponent_shiny == Some(ShinyReading::Shiny)
            &&& next.catch.attempt matches Some(a) ==> {
                &&& a.throws == 0 && !a.opened && a.foe_status == FoeStatus::Healthy
                    && a.asleep_turns == 0
                &&& a.plan.wanted <==> m.catch.wanted == Some(species)
                &&& a.plan.shiny <==> o.battle->0.opponent_shiny == Some(ShinyReading::Shiny)
                &&& state.saved.holds(Pocket::PokeBalls) is None ==> a.balls is None
                &&& state.saved.holds(Pocket::PokeBalls) is Some && balls_in(
                    data,
                    state.saved.holds(Pocket::PokeBalls)->0,
                ) <= u16::MAX ==> a.balls is Some && a.balls->0 == balls_in(
                    data,
                    state.saved.holds(Pocket::PokeBalls)->0,
                )
            }
            &&& party.leader() is None ==> next.catch.attempt is None
        }),
{
    let (next, events) = identified(m, o, data, state, party, odds);
    let id = (m.catch.identity->0).1;
    let first = seen_events(id);
    assert(events.drop_last() =~= first);
    assert(events[0] == first[0]);
    if id.shiny == Some(ShinyReading::Shiny) {
        assert(events[1] == (GameEventV::ShinySeen { species: id.species }));
    }
}

/// An opponent that no two frames agree on is given up after three seconds of
/// frames and no sooner; until then what was read last is remembered, with the
/// frame it was first read on.
pub proof fn an_opponent_is_not_guessed(
    m: BattleV,
    o: Observation,
    data: GameData,
    state: GameState,
    party: Party,
    odds: Option<OddsV>,
)
    requires
        identifies(m, o),
        m.catch.identity is None || (m.catch.identity->0).0 >= o.frame_id || identity_read(data, o)
            != Some((m.catch.identity->0).1),
    ensures
        ({
            let (next, events) = identified(m, o, data, state, party, odds);
            let since = match m.catch.identify_since {
                Some(s) => s,
                None => o.frame_id,
            };
            &&& next.catch.decided <==> o.frame_id >= since + 180
            &&& next.catch.attempt == m.catch.attempt && next.catch.foe == m.catch.foe
            &&& events.len() == if next.catch.decided {
                1int
            } else {
                0
            }
            &&& identity_read(data, o) is None ==> next.catch.identity is None
            &&& identity_read(data, o) is Some ==> next.catch.identity is Some && (
            next.catch.identity->0).1 == identity_read(data, o)->0
        }),
{
}

/// A catch is planned with the numbers on the screen where they can be true of
/// the Pokemon, else with the party's where those can, and else not at all; the
/// foe's health is its bar's, or full where that was not read.
pub proof fn a_plan_starts_from_what_can_be_true(
    battle: BattleObservation,
    member: Member,
    id: IdentityV,
)
    ensures
        ({
            let ok = |hp: Option<(u16, u16)>|
                hp is Some && hp_plausible_for(hp->0, member.level, Some(member.species@));
            let hp = hp_to_plan(battle, member);
            &&& ok(battle.player_hp_numbers) ==> hp == battle.player_hp_numbers
            &&& !ok(battle.player_hp_numbers) && ok(member.hp) ==> hp == member.hp
            &&& !ok(battle.player_hp_numbers) && !ok(member.hp) ==> hp is None
            &&& battle.opponent_hp is Some ==> foe_planned(id, battle).hp_per_mille
                == battle.opponent_hp->0
            &&& battle.opponent_hp is None ==> foe_planned(id, battle).hp_per_mille == 1000
            &&& foe_planned(id, battle).shiny <==> id.shiny == Some(ShinyReading::Shiny)
            &&& foe_planned(id, battle).caught == Some(id.caught)
            &&& foe_planned(id, battle).species == id.species && foe_planned(id, battle).level
                == id.level
        }),
{
}

// ---- Turns ----

/// A turn waits for its numbers for five seconds of frames; after that the
/// attempt is given up, and with it nothing but the attempt.
pub proof fn numbers_are_waited_for(c: CatchV, species: Seq<char>, frame: u64)
    ensures
        ({
            let since = match c.hud_waiting_since {
                Some(s) => s,
                None => frame,
            };
            let (next, d, events) = c.hud_waiting(species, frame);
            &&& next.attempt is None <==> c.attempt is None || frame > since + 300
            &&& frame <= since + 300 ==> next.attempt == c.attempt && next.hud_waiting_since
                == Some(since) && d is Some && d->0 is Wait && events.len() == 0
            &&& frame > since + 300 ==> next.hud_waiting_since is None && d is None && events.len()
                == 1
            &&& next.flee == c.flee && next.foe == c.foe
        }),
{
}

/// What a turn is decided by: the numbers of the screen, the state the text gave,
/// the turns asleep before this one, and the balls that may be thrown, which are
/// all for a shiny or a hunted Pokemon and those above five for another.
pub proof fn a_turn_is_decided_by_what_is_seen(
    a: AttemptV,
    hud: HudReading,
    disabled: Option<Seq<char>>,
    foe: (Seq<char>, u8),
    data: GameData,
)
    ensures
        ({
            let q = a.turn_question(hud, disabled, foe, data);
            let key = a.turn_key(hud, disabled);
            let rare = a.plan.shiny || a.plan.wanted;
            let held = match a.balls {
                Some(n) => n as int,
                None => 5,
            };
            &&& q.hp == (hud.hp, hud.max) && q.hp_per_mille == hud.foe
            &&& q.species == foe.0 && q.level == foe.1 && q.status == a.foe_status
            &&& q.shiny == a.plan.shiny && q.wanted == a.plan.wanted && q.ball == a.plan.ball
            &&& q.disabled == disabled && q.status_allowed == !a.opened
            &&& a.asleep_turns > 0 ==> q.asleep_for == a.asleep_turns - 1
            &&& a.asleep_turns == 0 ==> q.asleep_for == 0
            &&& rare ==> q.balls == held
            &&& !rare && held >= 5 ==> q.balls == held - 5
            &&& !rare && held < 5 ==> q.balls == 0
            &&& key.balls == q.balls && key.asleep_for == q.asleep_for && key.status == q.status
                && key.hp == hud.hp && key.max == hud.max && key.foe == hud.foe
                && key.status_allowed == q.status_allowed && key.disabled == disabled
        }),
{
}

/// The numbers of a turn are those on the screen, and none where they cannot be
/// true of the Pokemon.
pub proof fn a_turn_is_read_off_the_screen(
    battle: BattleObservation,
    member: Member,
    command: bool,
)
    ensures
        ({
            let r = hud_read(battle, member, command);
            &&& r is Some <==> battle.player_hp_numbers is Some && battle.opponent_hp is Some
                && hp_plausible_for(
                battle.player_hp_numbers->0,
                member.level,
                Some(member.species@),
            )
            &&& r is Some ==> (r->0.hp, r->0.max) == battle.player_hp_numbers->0 && r->0.foe
                == battle.opponent_hp->0 && r->0.command == command
        }),
{
}

// ---- The bag in battle ----

/// In a bag that was opened with a throw chosen, one is begun, which keeps the
/// reserve but for a shiny or a hunted Pokemon; a bag that was not opened for one
/// is left alone.
pub proof fn a_throw_is_begun_where_one_was_chosen(c: CatchV, o: Observation)
    requires
        c.thrower is None,
    ensures
        ({
            let next = c.armed(o);
            let chosen = match c.odds {
                Some(x) => Some(x.1.choice),
                None => if c.attempt is Some {
                    Some(c.attempt->0.plan.odds.choice)
                } else {
                    None
                },
            };
            &&& next.thrower is Some <==> o.bag is Some && c.attempt is Some && chosen == Some(
                ChoiceV::Throw,
            )
            &&& next.thrower is Some ==> (next.thrower->0.keep_reserve
                <==> !(c.attempt->0.plan.shiny || c.attempt->0.plan.wanted))
            &&& next.attempt == c.attempt && next.odds == c.odds && next.flee == c.flee
        }),
{
}

/// What comes of a throw's step: the balls that were counted are those of the
/// attempt; a throw that was given up ends the attempt, with flight where only
/// the reserve was left; one that was made leaves it to go on.
pub proof fn what_comes_of_a_throw(c: CatchV, t: ThrowerV, d: DecisionV)
    requires
        c.attempt is Some,
    ensures
        ({
            let (next, then, events) = c.settled(t, d);
            let over = d is Done;
            let lost = over && t.gave_up is Some;
            &&& next.attempt is None <==> lost
            &&& !lost ==> next.attempt->0.balls == (if t.counted is Some {
                t.counted
            } else {
                c.attempt->0.balls
            }) && next.attempt->0.plan == c.attempt->0.plan && next.attempt->0.throws
                == c.attempt->0.throws
            &&& next.thrower is None <==> over
            &&& next.flee <==> c.flee || (lost && t.at_reserve)
            &&& !over ==> then == d
            &&& over ==> then is Wait
            &&& events.len() == if lost {
                1int
            } else {
                0
            }
        }),
{
}

/// A throw that was used is put away once the battle is seen again; off its menus
/// the numbers are forgotten and the next turn is a new one.
pub proof fn a_new_turn_starts_unread(c: CatchV, o: Observation)
    ensures
        ({
            let next = c.frame_seen(o);
            let battle = o.battle is Some;
            let off = battle && o.battle->0.menu is None;
            &&& next.thrower == if battle && c.thrower is Some && c.thrower->0.is_used() {
                None
            } else {
                c.thrower
            }
            &&& next.hud == if off {
                None
            } else {
                c.hud
            }
            &&& next.turn_counted == (c.turn_counted && !off)
            &&& next.attempt == c.attempt && next.foe == c.foe && next.odds == c.odds
        }),
{
}

/// Where a catch was put is remembered from the page that says so; a ball that was
/// blocked ends the attempt, and a page that says neither leaves both alone.
pub proof fn what_else_a_page_says(
    c: CatchV,
    page: Seq<char>,
    printed: Seq<char>,
    placed: Option<u8>,
)
    ensures
        ({
            let next = c.page_applied(page, printed, placed);
            let blocked = within(page, "blocked the BALL"@);
            &&& placed is Some ==> next.box_index == placed
            &&& placed is None ==> next.box_index == c.box_index
            &&& blocked ==> next.blocked && next.attempt is None && next.thrower is None
            &&& !blocked ==> next.blocked == c.blocked && next.thrower == c.thrower && (
            next.attempt is Some <==> c.attempt is Some)
            &&& next.foe == c.foe && next.applied == page
        }),
{
}

/// The numbers of a turn are noted with the first frame that read them: the same
/// again are confirmed by any later frame, others take their place, and a frame
/// that reads none leaves them.
pub proof fn numbers_are_confirmed_by_a_later_frame(
    c: CatchV,
    a: HudReading,
    b: HudReading,
    first: u64,
    second: u64,
)
    requires
        c.hud is None,
        first < second,
    ensures
        ({
            let noted = c.hud_noted(Some(a), first);
            &&& noted.hud == Some((first, a)) && !c.hud_confirmed(Some(a), first)
            &&& !noted.hud_confirmed(Some(a), first)
            &&& noted.hud_confirmed(Some(b), second) <==> a == b
            &&& !noted.hud_confirmed(None, second)
            &&& noted.hud_noted(Some(b), second).hud == if a == b {
                Some((first, a))
            } else {
                Some((second, b))
            }
            &&& noted.hud_noted(None, second) == noted
        }),
{
}

/// A turn whose numbers no earlier frame read the same is not decided: nothing is
/// pressed, and the attempt stays while it is waited for.
pub proof fn an_unconfirmed_turn_is_not_decided(
    m: BattleV,
    o: Observation,
    policy: BattlePolicy,
    party: Party,
    data: GameData,
    odds: Option<OddsV>,
)
    requires
        m.attempts(o, party),
        m.catch.hud is None || (m.catch.hud->0).0 >= o.frame_id || hud_read(
            o.battle->0,
            party.leader()->0,
            o.battle->0.menu->0 is Command,
        ) != Some((m.catch.hud->0).1),
        m.catch.hud_waiting_since is None,
    ensures
        ({
            let (next, d, events) = m.attempting(o, policy, party, data, odds);
            &&& d is Some && d->0 is Wait && events.len() == 0
            &&& next.catch.attempt == m.catch.attempt && next.catch.odds == m.catch.odds
                && next.catch.thrower == m.catch.thrower
        }),
{
}

} // verus!
