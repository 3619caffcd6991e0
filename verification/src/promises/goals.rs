//! Working on a goal: when it is over, what is asked next, and what is counted.

use vstd::prelude::*;

use crate::belief_view::Truth;
use crate::event::{GameEvent, GameEventV};
use crate::goal::{
    changing, contradiction, failures_at, false_at, listed, lists_at, source_of, with_failure, Fact,
    GoalRunV, GoalSubject, Plan, PlannedStep,
};
use crate::goal_loop::{
    distinct_probes, plan_probes, Answer, AskV, Here, LoopV, NoteV, SetbackV, StageV,
};
use crate::observe::{PlayerPose, PoseV};
use crate::state::{fact_of, KnowledgeSource, SavedKnowledge};

verus! {

// ---- What is asked next ----

/// A goal that is found to hold is done, whenever it is looked at: before a plan,
/// after a step, and after the last.
pub proof fn a_goal_that_holds_is_done(l: LoopV, assumes: Vec<Fact>)
    requires
        l.stage is Starting || l.stage is Checking || l.stage is Completed,
    ensures
        ({
            let next = l.after(Answer::Holds { holds: true, assumes }).0;
            &&& l.asks() == AskV::Holds
            &&& next.asks() == AskV::Over
            &&& next.run.report.satisfied
            &&& next.run.report.outcome == "goal satisfied"@
        }),
{
}

/// A goal that is found not to hold is planned for, worked on with the step that
/// follows, or, after the last step, planned for anew, as long as replans are
/// left.
pub proof fn a_goal_that_does_not_hold_goes_on(l: LoopV, assumes: Vec<Fact>, i: usize)
    requires
        l.wf(),
    ensures
        ({
            let (next, told) = l.after(Answer::Holds { holds: false, assumes });
            &&& l.stage is Starting ==> next.asks() == AskV::Plan
            &&& l.stage is Checking && l.stage->Checking_0 == i && i + 1 < l.steps ==> next.asks()
                == AskV::Step((i + 1) as usize)
            &&& l.stage is Checking && l.stage->Checking_0 == i && i + 1 == l.steps ==> next.asks()
                == AskV::Holds && next.stage is Completed
            &&& l.stage is Completed && l.run.plan_no <= l.run.max_replans ==> next.stage is Starting
            &&& l.stage is Completed && l.run.plan_no > l.run.max_replans ==> next.asks()
                == AskV::Over
            &&& next.run.report.satisfied == l.run.report.satisfied
        }),
{
}

/// A plan is begun as long as no more were made than the replans allow, and each
/// counts.
pub proof fn plans_are_counted(r: GoalRunV)
    requires
        r.plan_no < u32::MAX,
    ensures
        r.planning_begun().1 <==> r.plan_no <= r.max_replans,
        r.planning_begun().1 ==> r.planning_begun().0.plan_no == r.plan_no + 1,
        !r.planning_begun().1 ==> r.planning_begun().0.plan_no == r.plan_no,
        r.planning_begun().0.max_replans == r.max_replans,
{
}

/// A plan with steps is worked on from the first and put on record; one without,
/// and no plan at all, end the run with the goal not reached.
pub proof fn a_plan_is_worked_on(
    l: LoopV,
    plan: Plan,
    frame_id: u64,
    pose: Option<PlayerPose>,
    error: String,
)
    requires
        l.stage is Planning,
    ensures
        ({
            let next = l.after(Answer::Plan { plan, frame_id, pose }).0;
            let none = l.after(Answer::NoPlan(error)).0;
            let records = next.run.report.plans;
            &&& plan.lines@.len() > 0 ==> next.asks() == AskV::Step(0) && next.steps
                == plan.lines@.len()
            &&& plan.lines@.len() == 0 ==> next.asks() == AskV::Over
            &&& records.len() == l.run.report.plans.len() + 1
            &&& records.last().plan == plan && records.last().frame_id == frame_id
                && records.last().plan_no == l.run.plan_no && records.last().reason == l.reason
            &&& none.asks() == AskV::Over && none.run.report.plans == l.run.report.plans
            &&& next.run.report.satisfied == l.run.report.satisfied
            &&& none.run.report.satisfied == l.run.report.satisfied
        }),
{
}

/// A step is left out where everything that makes it needless is known to hold;
/// else the plan is dropped where one of its assumptions is known to be false;
/// and else it is run.
pub proof fn a_step_is_run_where_it_makes_sense(l: LoopV, i: usize, step: PlannedStep)
    requires
        l.wf(),
        l.stage == StageV::Reading(i),
        l.run.report.steps_skipped < u32::MAX,
    ensures
        ({
            let (next, told) = l.after(Answer::Step(step));
            let needless = step.unless@.len() > 0 && forall|k: int|
                0 <= k < step.unless@.len() ==> (#[trigger] step.unless@[k]).truth == Truth::True;
            let refuted = exists|k: int|
                0 <= k < step.assumes@.len() && (#[trigger] step.assumes@[k]).truth == Truth::False;
            &&& needless ==> {
                &&& i + 1 < l.steps ==> next.asks() == AskV::Step((i + 1) as usize)
                &&& i + 1 == l.steps ==> next.stage is Completed
                &&& next.run.report.steps_skipped == l.run.report.steps_skipped + 1
            }
            &&& !needless && refuted ==> (next.stage is Starting || next.stage is Over)
                && next.run.report.steps_skipped == l.run.report.steps_skipped
            &&& !needless && !refuted ==> next.asks() == AskV::Resolve(i) && next.run == l.run
                && told.len() == 0
            &&& needless || refuted ==> told.len() == 1
        }),
{
    if exists|k: int|
        0 <= k < step.assumes@.len() && (#[trigger] step.assumes@[k]).truth == Truth::False {
        let k = choose|k: int|
            0 <= k < step.assumes@.len() && (#[trigger] step.assumes@[k]).truth == Truth::False;
        some_falsehood_is_first(step.assumes@, k);
    } else {
        assert(contradiction(step.assumes@) is None) by {
            if exists|k: int| false_at(step.assumes@, k) {
                let k = choose|k: int| false_at(step.assumes@, k);
                assert(step.assumes@[k].truth == Truth::False);
            }
        }
    }
}

proof fn some_falsehood_is_first(facts: Seq<Fact>, i: int)
    requires
        0 <= i < facts.len(),
        facts[i].truth == Truth::False,
    ensures
        exists|k: int| false_at(facts, k),
    decreases i,
{
    if !false_at(facts, i) {
        let j = choose|j: int| 0 <= j < i && (#[trigger] facts[j]).truth == Truth::False;
        some_falsehood_is_first(facts, j);
    }
}

/// A step with a tool for it is run with it; one without has failed, and says
/// why.
pub proof fn a_step_needs_its_tool(
    l: LoopV,
    i: usize,
    step: PlannedStep,
    tool: String,
    error: String,
    here: Option<Here>,
)
    requires
        l.wf(),
        l.stage == StageV::Resolving(i, step),
    ensures
        ({
            let found = l.after(Answer::Tool(tool)).0;
            let (lost, told) = l.after(Answer::NoTool { error, here });
            &&& found.asks() == AskV::Invoke(i) && found.run.report == l.run.report
            &&& lost.run.report.failures == l.run.report.failures.push(
                step.intent@ + " failed: "@ + error@,
            )
            &&& lost.stage is Starting || lost.stage is Looking || lost.stage is Over
            &&& told.len() > 0
        }),
{
}

// ---- What is counted ----

/// A step that ran is counted, with all that was learned by it, and clears the
/// failures before it; one that failed is not counted and clears nothing. Either
/// way the last save is behind the game now.
pub proof fn what_a_step_leaves(r: GoalRunV, learned: Seq<GameEventV>)
    requires
        r.report.steps_run < u32::MAX,
    ensures
        ({
            let (done, save) = r.ran(learned, true);
            let (failed, save2) = r.ran(learned, false);
            &&& done.report.steps_run == r.report.steps_run + 1
            &&& failed.report.steps_run == r.report.steps_run
            &&& done.report.learned == r.report.learned + learned
            &&& failed.report.learned == r.report.learned + learned
            &&& done.last_failure is None && done.failed_at.len() == 0
            &&& failed.last_failure == r.last_failure && failed.failed_at == r.failed_at
            &&& !done.report.saved_at_end && !failed.report.saved_at_end
            &&& !save2
            &&& r.saved(learned, true).report.saved_at_end
            &&& !r.saved(learned, false).report.saved_at_end
        }),
{
}

/// What a save would keep: facts of the world, what is carried, the party, money,
/// the PC, what was caught, badges, and where to wake up. What only shows on the
/// way (a fight, a step, a sighting) is no reason to save.
pub proof fn what_is_worth_a_save(e: GameEventV)
    ensures
        e is FlagObserved || e is FlagTracked || e is VarObserved || e is VarTracked ==> changing(
            e,
        ),
        e is ItemsChanged || e is PocketObserved || e is MoneyObserved || e is MoneyChanged
            ==> changing(e),
        e is PartyObserved || e is PartyMonDerived || e is MovesObserved || e is MoveLearned || e
            is MoveReplaced || e is Evolved || e is Healed ==> changing(e),
        e is SentToPc || e is MonDeposited || e is MonWithdrawn || e is SpeciesCaught || e
            is BadgeEarned || e is ScriptPathRun || e is RespawnSet ==> changing(e),
        e is BattleStarted || e is BattleEnded || e is MapVisited || e is SpeciesSeen || e
            is ShinySeen || e is GoalProgress || e is MoveUsed || e is MovePpObserved ==> !changing(
            e,
        ),
{
}

/// Failures at a place are counted once for each name, and those elsewhere not at
/// all.
pub proof fn failures_are_counted_by_name(
    failed: Seq<(PoseV, Seq<char>)>,
    pose: PoseV,
    other: PoseV,
    name: Seq<char>,
)
    requires
        pose != other,
    ensures
        !failed.contains((pose, name)) ==> failures_at(with_failure(failed, pose, name), pose)
            == failures_at(failed, pose) + 1,
        failed.contains((pose, name)) ==> failures_at(with_failure(failed, pose, name), pose)
            == failures_at(failed, pose),
        failures_at(with_failure(failed, pose, name), other) == failures_at(failed, other),
        failures_at(Seq::empty(), pose) == 0,
        with_failure(with_failure(failed, pose, name), pose, name) == with_failure(
            failed,
            pose,
            name,
        ),
{
    let more = failed.push((pose, name));
    assert(more.drop_last() =~= failed);
    assert(more[failed.len() as int] == (pose, name));
    assert(more.contains((pose, name)));
}

/// The position is in doubt from the third name that failed at it on.
pub proof fn three_failures_put_a_place_in_doubt(r: GoalRunV, step: PlannedStep, pose: PoseV)
    requires
        !r.failed_at.contains((pose, step.name@)),
    ensures
        r.astray(step, Some(pose)) <==> failures_at(r.failed_at, pose) >= 2,
        !r.astray(step, None),
{
    let more = r.failed_at.push((pose, step.name@));
    assert(more.drop_last() =~= r.failed_at);
}

// ---- Probes ----

/// Every probe of a plan is made, none of them twice, and no other.
pub proof fn every_probe_is_made_once(probes: Seq<Option<String>>, name: Seq<char>)
    ensures
        distinct_probes(probes).contains(name) <==> exists|i: int|
            0 <= i < probes.len() && (#[trigger] probes[i]) is Some && probes[i]->0@ == name,
        distinct_probes(probes).no_duplicates(),
    decreases probes.len(),
{
    if probes.len() > 0 {
        let front = probes.drop_last();
        let before = distinct_probes(front);
        let all = distinct_probes(probes);
        every_probe_is_made_once(front, name);
        if before.contains(name) {
            let i = choose|i: int|
                0 <= i < front.len() && (#[trigger] front[i]) is Some && front[i]->0@ == name;
            assert(probes[i] is Some);
            let k = choose|k: int| 0 <= k < before.len() && before[k] == name;
            assert(all[k] == name);
        }
        if all.contains(name) && !before.contains(name) {
            let k = choose|k: int| 0 <= k < all.len() && all[k] == name;
            assert(k == before.len()) by {
                if k < before.len() {
                    assert(before[k] == name);
                }
            }
            assert(probes[probes.len() - 1] is Some);
        }
        if exists|i: int|
            0 <= i < probes.len() && (#[trigger] probes[i]) is Some && probes[i]->0@ == name {
            let i = choose|i: int|
                0 <= i < probes.len() && (#[trigger] probes[i]) is Some && probes[i]->0@ == name;
            if i < front.len() {
                assert(front[i] is Some);
            } else if !before.contains(name) {
                assert(all[before.len() as int] == name);
            }
        }
    }
}

/// In doubt of the position one looks, then makes the plan's probes one after the
/// other, and plans anew after the last.
pub proof fn in_doubt_the_plan_is_probed(
    l: LoopV,
    back: SetbackV,
    left: Seq<Seq<char>>,
    learned: Vec<GameEvent>,
)
    requires
        l.wf(),
    ensures
        ({
            let looked = l.after(Answer::Looked).0;
            let first = plan_probes(l.run.report.last_plan());
            let probed = l.after(Answer::Probed(learned)).0;
            &&& l.stage == StageV::Looking(back) && first.len() > 0 ==> looked.asks()
                == AskV::Probe(first[0])
            &&& l.stage == StageV::Looking(back) && first.len() == 0 ==> looked.stage is Starting
                || looked.stage is Over
            &&& l.stage == StageV::Probing(back, left) && left.len() > 1 ==> probed.asks()
                == AskV::Probe(left[1])
            &&& l.stage == StageV::Probing(back, left) && left.len() == 1 ==> (probed.stage
                is Starting || probed.stage is Over) && probed.reason == back.why
        }),
{
}

/// What is known of a fact is known from where the fact is: a flag (and a badge by
/// its flag), a variable, a visit, the pocket that lists an item, the party, the
/// money, or what was caught; where one is, is seen.
pub proof fn facts_are_known_from_their_source(k: SavedKnowledge, name: String, i: int)
    ensures
        source_of(k, GoalSubject::Flag { name }) == fact_of(k.world.flags@, name@).source,
        source_of(k, GoalSubject::Badge { flag: name }) == source_of(
            k,
            GoalSubject::Flag { name },
        ),
        source_of(k, GoalSubject::Var { name }) == fact_of(k.world.vars@, name@).source,
        source_of(k, GoalSubject::Visited { map: name }) == fact_of(
            k.world.visited@,
            name@,
        ).source,
        source_of(k, GoalSubject::Caught { species: name }) == fact_of(k.caught@, name@).source,
        source_of(k, GoalSubject::PartyHasMove) == k.party.source,
        source_of(k, GoalSubject::CanBeat) == k.party.source,
        source_of(k, GoalSubject::Healed) == k.party.source,
        source_of(k, GoalSubject::Money) == k.money.source,
        source_of(k, GoalSubject::At) == KnowledgeSource::Observed,
        lists_at(k, name@, i) ==> source_of(k, GoalSubject::HasItem { item: name })
            == k.pockets@[i].1.source,
        (forall|j: int|
            0 <= j < k.pockets@.len() ==> !listed((#[trigger] k.pockets@[j]).1.value, name@))
            ==> source_of(k, GoalSubject::HasItem { item: name }) == KnowledgeSource::Unknown,
{
    if lists_at(k, name@, i) {
        let j = choose|j: int| lists_at(k, name@, j);
        assert(lists_at(k, name@, j));
        if j < i {
            assert(!listed(k.pockets@[j].1.value, name@));
        }
        if i < j {
            assert(!listed(k.pockets@[i].1.value, name@));
        }
    }
}

/// A run that ends shows that it is done exactly where the goal was reached, and
/// that it was given up where not; one that was stopped says so.
pub proof fn how_a_run_ends(r: GoalRunV, stopped: bool)
    ensures
        ({
            let over = r.finishing(stopped);
            &&& r.report.satisfied ==> over.status.phase == "done"@
            &&& !r.report.satisfied ==> over.status.phase == "given up"@
            &&& over.report.satisfied == r.report.satisfied
            &&& stopped ==> over.report.outcome == "stopped"@
            &&& !stopped ==> over.report.outcome == r.report.outcome
            &&& over.status.detail == over.report.outcome
        }),
{
}

/// A save that failed is a failure of its step, and leaves the plan; one that was
/// made leads on to whether the goal holds.
pub proof fn a_save_may_fail(
    l: LoopV,
    i: usize,
    step: PlannedStep,
    learned: Vec<GameEvent>,
    error: String,
    assumes: Vec<Fact>,
    here: Option<Here>,
)
    requires
        l.wf(),
        l.stage == StageV::Saving(i, step),
    ensures
        ({
            let lost = l.after(Answer::Ran { learned, failed: Some(error), assumes, here }).0;
            let made = l.after(Answer::Ran { learned, failed: None, assumes, here }).0;
            &&& lost.run.report.failures == l.run.report.failures.push(
                step.intent@ + " failed: "@ + ("save: "@ + error@),
            )
            &&& lost.stage is Starting || lost.stage is Looking || lost.stage is Over
            &&& !lost.run.report.saved_at_end
            &&& made.asks() == AskV::Holds && made.run.report.saved_at_end
            &&& made.run.report.failures == l.run.report.failures
        }),
{
}

/// A failure that repeats the last one is noted as an intent not to be planned
/// again; a new one is not.
pub proof fn a_repeated_failure_is_noted(
    l: LoopV,
    i: usize,
    step: PlannedStep,
    error: String,
    here: Option<Here>,
)
    requires
        l.wf(),
        l.stage == StageV::Resolving(i, step),
    ensures
        ({
            let (next, told) = l.after(Answer::NoTool { error, here });
            let repeated = l.run.last_failure == Some((step.intent@, error@));
            &&& told.contains(NoteV::Infeasible(step.intent@)) <==> repeated
            &&& told[0] == NoteV::Progress(step.intent@ + " failed: "@ + error@)
            &&& next.run.report.infeasible.len() == l.run.report.infeasible.len() + if repeated {
                1int
            } else {
                0
            }
        }),
{
    let told = l.after(Answer::NoTool { error, here }).1;
    if l.run.last_failure == Some((step.intent@, error@)) {
        assert(told[1] == NoteV::Infeasible(step.intent@));
    }
}

/// After a step its assumptions are those that are known now: what is saved or
/// looked at next goes by them.
pub proof fn assumptions_are_read_again(
    l: LoopV,
    i: usize,
    step: PlannedStep,
    learned: Vec<GameEvent>,
    assumes: Vec<Fact>,
    here: Option<Here>,
)
    requires
        l.stage == StageV::Running(i, step),
    ensures
        ({
            let next = l.after(Answer::Ran { learned, failed: None, assumes, here }).0;
            let now = match next.stage {
                StageV::Saving(_, s) => s,
                StageV::Checking(_, s) => s,
                _ => step,
            };
            &&& next.stage is Saving || next.stage is Checking
            &&& now.assumes == assumes && now.intent == step.intent && now.name == step.name
                && now.unless == step.unless
        }),
{
}

} // verus!
