//! A session of cycles, and what a save is trusted for.

use vstd::prelude::*;

use crate::checkpoint::{keeps_member, keeps_move, repaired, restores, Checkpoint, Restored};
use crate::event::{items_of, Pocket};
use crate::gamedata::GameData;
use crate::goal_session::{
    condition_flags, condition_vars, effect_flags, effect_vars, empty_from_start, hidden_flags,
    just_begun, name_set, path_flags, path_vars, pocket_nth, starts_on, story_flags, story_vars,
    trigger_vars, Condition, CycleEndV, Effect, Played, Session, Stage, Start, StoryEvents,
    StoryName,
};
use crate::motion::walker::pose_of;
use crate::observe::lines_of;
use crate::party::{slot_names, Member};
use crate::progress::Progress;
use crate::state::{fact_of, first_pocket, PartyMon, SavedKnowledge};
use crate::text::begins;

verus! {

/// With a restart, a cycle that was not stopped is followed by another: at once
/// where a Pokemon fainted and there is a save; else after a pause, from the save
/// where there is one, from a new game where the session began with one, and
/// after another look where there is neither.
pub proof fn what_follows_a_cycle(s: Session, cycle: u64, end: CycleEndV, saved: bool)
    requires
        s.restart is Some,
        !(end is Stopped),
        cycle < u64::MAX,
    ensures
        ({
            let next = s.after_cycle(cycle, end, false, saved);
            let fainted = end is Unsatisfied && begins(end->Unsatisfied_0, "fainted"@);
            &&& fainted && saved ==> next == (Stage::Restarting { cycle })
            &&& saved && !fainted ==> next == (Stage::Announcing {
                cycle,
                end,
                then_from: Some(Start::Continue),
            })
            &&& !saved && s.start == Start::NewGame ==> next == (Stage::Announcing {
                cycle,
                end,
                then_from: Some(Start::NewGame),
            })
            &&& !saved && s.start != Start::NewGame ==> next == (Stage::Announcing {
                cycle,
                end,
                then_from: None,
            })
        }),
{
}

/// After a pause the next cycle is played from where it was said, under the next
/// number; where nothing could be said, one looks again for a save.
pub proof fn what_follows_a_pause(
    s: Session,
    cycle: u64,
    end: CycleEndV,
    then_from: Option<Start>,
    saved: bool,
)
    requires
        cycle < u64::MAX,
    ensures
        ({
            let next = s.after_pause(cycle, end, then_from, false, saved);
            &&& then_from is Some ==> next == (Stage::Playing {
                start: then_from->0,
                cycle: (cycle + 1) as u64,
            })
            &&& then_from is None && saved ==> next == (Stage::Announcing {
                cycle,
                end,
                then_from: Some(Start::Continue),
            })
            &&& then_from is None && !saved ==> next is Announcing
        }),
{
}

// ---- What a story speaks of ----

/// A name of the game itself, not one of a script's own.
pub open spec fn is_of_the_game(n: StoryName, prefix: Seq<char>) -> bool {
    !n.local && begins(n.text@, prefix)
}

/// A story speaks of every flag that a path asks for, sets or clears, and of every
/// flag that hides someone.
pub proof fn a_story_speaks_of_its_flags(e: StoryEvents, i: int, j: int, n: StoryName)
    requires
        is_of_the_game(n, "FLAG_"@),
    ensures
        0 <= i < e.paths@.len() && 0 <= j < e.paths@[i].asks@.len() && e.paths@[i].asks@[j]
            == Condition::Flag(n) ==> story_flags(e).contains(n.text@),
        0 <= i < e.paths@.len() && 0 <= j < e.paths@[i].does@.len() && (e.paths@[i].does@[j]
            == Effect::SetFlag(n) || e.paths@[i].does@[j] == Effect::ClearFlag(n))
            ==> story_flags(e).contains(n.text@),
        0 <= i < e.hidden_by@.len() && e.hidden_by@[i] == Some(n) ==> story_flags(e).contains(
            n.text@,
        ),
{
    if 0 <= i < e.paths@.len() {
        let p = e.paths@[i];
        if 0 <= j < p.asks@.len() && p.asks@[j] == Condition::Flag(n) {
            assert(condition_flags(p.asks@[j]).contains(n.text@));
            assert(path_flags(e.paths@[i]).contains(n.text@));
        }
        if 0 <= j < p.does@.len() && (p.does@[j] == Effect::SetFlag(n) || p.does@[j]
            == Effect::ClearFlag(n)) {
            assert(effect_flags(p.does@[j]).contains(n.text@));
            assert(path_flags(e.paths@[i]).contains(n.text@));
        }
    }
    if 0 <= i < e.hidden_by@.len() && e.hidden_by@[i] == Some(n) {
        assert(hidden_flags(e.hidden_by@[i]).contains(n.text@));
    }
}

/// A story speaks of every variable that a path asks for or sets, that a trigger
/// asks for, and that a map looks at.
pub proof fn a_story_speaks_of_its_variables(e: StoryEvents, i: int, j: int, n: StoryName)
    requires
        is_of_the_game(n, "VAR_"@),
    ensures
        0 <= i < e.paths@.len() && 0 <= j < e.paths@[i].asks@.len() && e.paths@[i].asks@[j]
            == Condition::Var(n) ==> story_vars(e).contains(n.text@),
        0 <= i < e.paths@.len() && 0 <= j < e.paths@[i].does@.len() && e.paths@[i].does@[j]
            == Effect::SetVar(n) ==> story_vars(e).contains(n.text@),
        0 <= i < e.triggers@.len() && 0 <= j < e.triggers@[i]@.len() && e.triggers@[i]@[j]
            == Condition::Var(n) ==> story_vars(e).contains(n.text@),
        0 <= i < e.map_vars@.len() && e.map_vars@[i] == n ==> story_vars(e).contains(n.text@),
{
    if 0 <= i < e.paths@.len() {
        let p = e.paths@[i];
        if 0 <= j < p.asks@.len() && p.asks@[j] == Condition::Var(n) {
            assert(condition_vars(p.asks@[j]).contains(n.text@));
            assert(path_vars(e.paths@[i]).contains(n.text@));
        }
        if 0 <= j < p.does@.len() && p.does@[j] == Effect::SetVar(n) {
            assert(effect_vars(p.does@[j]).contains(n.text@));
            assert(path_vars(e.paths@[i]).contains(n.text@));
        }
    }
    if 0 <= i < e.triggers@.len() && 0 <= j < e.triggers@[i]@.len() && e.triggers@[i]@[j]
        == Condition::Var(n) {
        assert(condition_vars(e.triggers@[i]@[j]).contains(n.text@));
        assert(trigger_vars(e.triggers@[i]).contains(n.text@));
    }
    if 0 <= i < e.map_vars@.len() && e.map_vars@[i] == n {
        assert(name_set(e.map_vars@[i], "VAR_"@).contains(n.text@));
    }
}

/// A story speaks of the game's own names alone: every flag of it begins as flags
/// do, and every variable as variables do.
pub proof fn a_story_speaks_of_the_game(e: StoryEvents, name: Seq<char>)
    ensures
        story_flags(e).contains(name) ==> begins(name, "FLAG_"@),
        story_vars(e).contains(name) ==> begins(name, "VAR_"@),
{
    if story_flags(e).contains(name) {
        if exists|i: int| 0 <= i < e.paths@.len() && path_flags(#[trigger] e.paths@[i]).contains(name) {
            let i = choose|i: int|
                0 <= i < e.paths@.len() && path_flags(#[trigger] e.paths@[i]).contains(name);
            assert(path_flags(e.paths@[i]).contains(name));
        }
    }
    if story_vars(e).contains(name) {
        if exists|i: int| 0 <= i < e.paths@.len() && path_vars(#[trigger] e.paths@[i]).contains(name) {
            let i = choose|i: int|
                0 <= i < e.paths@.len() && path_vars(#[trigger] e.paths@[i]).contains(name);
            assert(path_vars(e.paths@[i]).contains(name));
        }
    }
}

// ---- What was stored ----

/// Health that no Pokemon of the level could have is forgotten, and nothing else
/// of it; health that can be true is kept.
pub proof fn only_impossible_health_is_forgotten(mon: PartyMon)
    ensures
        ({
            let r = repaired(mon);
            let hp = mon.hp.value;
            let level = mon.level.value;
            &&& hp is Some && level is Some && (hp->0).0 > (hp->0).1 ==> r.hp.value is None
            &&& hp is Some && level is Some && (hp->0).0 <= (hp->0).1 && (hp->0).1 >= level->0 + 10
                ==> r == mon
            &&& hp is None || level is None ==> r == mon
            &&& r.species == mon.species && r.level == mon.level && r.status == mon.status
                && r.moves == mon.moves && r.details == mon.details
        }),
{
}

/// A member that was kept reads back as it was: its species, its level, its moves
/// in order, and of each the PP that it had left.
pub proof fn a_kept_member_reads_back(
    mon: PartyMon,
    data: GameData,
    m: Member,
    back: Member,
    slot: int,
    i: int,
)
    requires
        keeps_member(mon, data, m),
        m.moves@.len() <= 4,
        back.describes(mon, slot),
        0 <= i < m.moves@.len(),
    ensures
        back.species@ == m.species@,
        back.level == m.level,
        lines_of(back.moves@) == lines_of(m.moves@),
        back.hp is Some ==> back.hp == m.hp,
        mon.moves@[i] is Some,
        mon.moves@[i]->0.pp.value is Some,
        (mon.moves@[i]->0.pp.value->0).0 == m.left(data, m.moves@[i]@),
{
    let all = mon.moves@;
    assert(all.len() == 4);
    let n = m.moves@.len();
    kept_names_read_back(mon, data, m, 4);
    assert(all.take(4) =~= all);
    assert(keeps_move(all[i], data, m, i));
}

proof fn kept_names_read_back(mon: PartyMon, data: GameData, m: Member, n: nat)
    requires
        keeps_member(mon, data, m),
        mon.moves@.len() == 4,
        n <= 4,
    ensures
        slot_names(mon.moves@.take(n as int)) == lines_of(m.moves@).take(
            if n < m.moves@.len() {
                n as int
            } else {
                m.moves@.len() as int
            },
        ),
    decreases n,
{
    let names = lines_of(m.moves@);
    if n == 0 {
        assert(slot_names(mon.moves@.take(0)) =~= names.take(0));
    } else {
        kept_names_read_back(mon, data, m, (n - 1) as nat);
        let front = mon.moves@.take(n as int);
        assert(front.drop_last() =~= mon.moves@.take(n - 1));
        assert(front.last() == mon.moves@[n - 1]);
        assert(keeps_move(mon.moves@[n - 1], data, m, n - 1));
        if n <= m.moves@.len() {
            assert(names[n - 1] == m.moves@[n - 1]@);
            assert(names.take(n - 1).push(names[n - 1]) =~= names.take(n as int));
        }
    }
}

/// Only what was stored for this very save is trusted: where the milestones and the
/// place of the save are the same, all that was stored is known again; and else the
/// party of the progress alone.
pub proof fn only_its_own_save_is_restored(
    path: Seq<char>,
    stored: Checkpoint,
    progress: Progress,
    data: GameData,
    r: Restored,
)
    requires
        restores(path, Ok(Some(stored)), progress, data, r),
    ensures
        ({
            let own = stored.identity is Some && lines_of(stored.identity->0.milestones@)
                == lines_of(progress.milestones@) && pose_of(stored.identity->0.saved_at)
                == pose_of(progress.saved_at);
            &&& own ==> r.knowledge == stored.knowledge && r.warning is None
            &&& !own ==> r.warning is Some && r.knowledge.money.value is None
                && r.knowledge.pockets@.len() == 0 && r.knowledge.world.flags@.len() == 0
            &&& !own && progress.party.members@.len() == 0 ==> r.knowledge.party.value is None
            &&& !own && progress.party.members@.len() > 0 ==> r.knowledge.party.value is Some
                && r.knowledge.party.value->0@.len() == progress.party.members@.len()
        }),
{
}

/// A game just begun: nobody in the party, every pocket empty, 3000 to spend, and of
/// the story's flags and variables each at its start, of the others none.
pub proof fn a_new_game_starts_with_nothing(
    k: SavedKnowledge,
    events: StoryEvents,
    pocket: Pocket,
    name: Seq<char>,
)
    requires
        just_begun(k, Some(&events)),
    ensures
        k.party.value is Some && k.party.value->0@.len() == 0,
        k.money.value == Some(3000u32),
        k.holds(pocket) is Some && k.holds(pocket)->0.len() == 0,
        k.caught@.len() == 0,
        story_flags(events).contains(name) ==> fact_of(k.world.flags@, name).value == Some(
            exists|i: int| 0 <= i < events.initial@.len() && (#[trigger] events.initial@[i])@ == name,
        ),
        !story_flags(events).contains(name) ==> fact_of(k.world.flags@, name).value is None,
        story_vars(events).contains(name) ==> fact_of(k.world.vars@, name).value == Some(0u16),
        !story_vars(events).contains(name) ==> fact_of(k.world.vars@, name).value is None,
{
    let at: int = match pocket {
        Pocket::Items => 0,
        Pocket::KeyItems => 1,
        Pocket::PokeBalls => 2,
        Pocket::TmCase => 3,
        Pocket::BerryPouch => 4,
    };
    assert(k.pockets@[0].0 == pocket_nth(0));
    assert(k.pockets@[1].0 == pocket_nth(1));
    assert(k.pockets@[2].0 == pocket_nth(2));
    assert(k.pockets@[3].0 == pocket_nth(3));
    assert(k.pockets@[4].0 == pocket_nth(4));
    assert(first_pocket(k.pockets@, pocket, at));
    let i = choose|i: int| first_pocket(k.pockets@, pocket, i);
    assert(first_pocket(k.pockets@, pocket, i));
    assert(i == at);
    assert(empty_from_start(k.pockets@[at].1));
    assert(items_of(k.pockets@[at].1.value->0@).len() == 0);
    let f = fact_of(k.world.flags@, name);
    let v = fact_of(k.world.vars@, name);
    assert(starts_on(events.initial@, name) == exists|i: int|
        0 <= i < events.initial@.len() && (#[trigger] events.initial@[i])@ == name);
}

/// A pause lasts what was set; what is played next is what the stage calls for, and
/// nothing is once the session is over.
pub proof fn a_pause_lasts_what_was_set(
    s: Session,
    cycle: u64,
    end: CycleEndV,
    then_from: Option<Start>,
    millis: u64,
    halted: bool,
    saved: bool,
    p: Played,
)
    ensures
        s.calls_for(
            Stage::Pausing { cycle, end, then_from },
            Played::Wait { millis, halted, saved },
        ) <==> s.restart == Some(millis),
        !s.calls_for(Stage::Over { cycles: cycle, last: end }, p),
        s.restart == Some(millis) ==> s.seconds() * 1000 <= millis < (s.seconds() + 1) * 1000,
{
}

} // verus!
