//! The execution loop's rules: plan, run the intents through the tools, apply
//! what they learned, replan on failure or when the belief contradicts what a
//! step assumed, save after belief-changing steps.
//!
//! Execution monitoring: an intent failing twice in a row for the same reason
//! is infeasible for the session (the planner then takes another branch); three
//! different intents failing at one pose escalate to a re-localisation and
//! probes of the plan's assumptions.

use vstd::prelude::*;

use crate::belief_view::Truth;
use crate::event::{events_of, text_of, GameEvent, GameEventV};
use crate::observe::{lines_of, PlayerPose, PoseV};
use crate::party::copy_lines;
use crate::save::{count, counted};
use crate::state::{fact_of, fact_source, KnowledgeSource, SavedKnowledge};
use crate::text::{cat, cat3, decimal, decimal_of, join, joined, same};

verus! {

/// Replans allowed before the loop gives up.
pub const DEFAULT_MAX_REPLANS: u32 = 8;

/// Different intents failing at one pose before re-localisation.
pub const RELOCALISE_AFTER: usize = 3;

/// The name under which the loop logs its progress.
pub const GOAL: &'static str = "Goal";

/// Events that change what the save file holds.
pub open spec fn changing(event: GameEventV) -> bool {
    event is FlagObserved || event is FlagTracked || event is VarObserved || event is VarTracked
        || event is ItemsChanged || event is PocketObserved || event is PartyObserved || event
        is PartyMonDerived || event is MovesObserved || event is MoveLearned || event
        is MoveReplaced || event is Evolved || event is Healed || event is MoneyObserved || event
        is MoneyChanged || event is SentToPc || event is MonDeposited || event is MonWithdrawn
        || event is SpeciesCaught || event is BadgeEarned || event is ScriptPathRun || event
        is RespawnSet
}

/// Events that change what the save file holds (flags, items, party,
/// money, Pokédex): the step is followed by a save where those are wanted.
pub fn changes_save(event: &GameEvent) -> (r: bool)
    ensures
        r == changing(event@),
{
    match event {
        GameEvent::FlagObserved { .. } => true,
        GameEvent::FlagTracked { .. } => true,
        GameEvent::VarObserved { .. } => true,
        GameEvent::VarTracked { .. } => true,
        GameEvent::ItemsChanged { .. } => true,
        GameEvent::PocketObserved { .. } => true,
        GameEvent::PartyObserved { .. } => true,
        GameEvent::PartyMonDerived { .. } => true,
        GameEvent::MovesObserved { .. } => true,
        GameEvent::MoveLearned { .. } => true,
        GameEvent::MoveReplaced { .. } => true,
        GameEvent::Evolved { .. } => true,
        GameEvent::Healed => true,
        GameEvent::MoneyObserved { .. } => true,
        GameEvent::MoneyChanged { .. } => true,
        GameEvent::SentToPc { .. } => true,
        GameEvent::MonDeposited { .. } => true,
        GameEvent::MonWithdrawn { .. } => true,
        GameEvent::SpeciesCaught { .. } => true,
        GameEvent::BadgeEarned { .. } => true,
        GameEvent::ScriptPathRun { .. } => true,
        GameEvent::RespawnSet { .. } => true,
        _ => false,
    }
}

/// What a goal may speak of.
#[derive(Debug, Clone, PartialEq, Eq)]
pub enum GoalSubject {
    Flag { name: String },
    /// A badge, by the flag it sets.
    Badge { flag: String },
    Var { name: String },
    Visited { map: String },
    HasItem { item: String },
    At,
    PartyHasMove,
    CanBeat,
    Healed,
    Caught { species: String },
    Money,
}

pub open spec fn listed(items: Option<Vec<(String, u16)>>, item: Seq<char>) -> bool {
    items is Some && exists|i: int|
        0 <= i < items->0@.len() && (#[trigger] items->0@[i]).0@ == item
}

/// Pocket `i` is the first that is known to list the item.
pub open spec fn lists_at(k: SavedKnowledge, item: Seq<char>, i: int) -> bool {
    &&& 0 <= i < k.pockets@.len()
    &&& listed(k.pockets@[i].1.value, item)
    &&& forall|j: int| 0 <= j < i ==> !listed((#[trigger] k.pockets@[j]).1.value, item)
}

/// Where the belief's word on an item comes from.
pub open spec fn item_source(k: SavedKnowledge, item: Seq<char>) -> KnowledgeSource {
    if exists|i: int| lists_at(k, item, i) {
        k.pockets@[choose|i: int| lists_at(k, item, i)].1.source
    } else {
        KnowledgeSource::Unknown
    }
}

/// Where the belief's word on a subject comes from.
pub open spec fn source_of(k: SavedKnowledge, p: GoalSubject) -> KnowledgeSource {
    match p {
        GoalSubject::Flag { name } => fact_of(k.world.flags@, name@).source,
        GoalSubject::Badge { flag } => fact_of(k.world.flags@, flag@).source,
        GoalSubject::Var { name } => fact_of(k.world.vars@, name@).source,
        GoalSubject::Visited { map } => fact_of(k.world.visited@, map@).source,
        GoalSubject::HasItem { item } => item_source(k, item@),
        GoalSubject::At => KnowledgeSource::Observed,
        GoalSubject::PartyHasMove => k.party.source,
        GoalSubject::CanBeat => k.party.source,
        GoalSubject::Healed => k.party.source,
        GoalSubject::Caught { species } => fact_of(k.caught@, species@).source,
        GoalSubject::Money => k.money.source,
    }
}

fn is_listed(items: &Option<Vec<(String, u16)>>, item: &str) -> (r: bool)
    ensures
        r == listed(*items, item@),
{
    let held = match items {
        Some(v) => v,
        None => {
            return false;
        },
    };
    let mut i: usize = 0;
    while i < held.len()
        invariant
            i <= held@.len(),
            *items == Some(*held),
            forall|j: int| 0 <= j < i ==> (#[trigger] held@[j]).0@ != item@,
        decreases held@.len() - i,
    {
        if same(held[i].0.as_str(), item) {
            assert(items->0@[i as int].0@ == item@);
            return true;
        }
        i += 1;
    }
    false
}

fn find_item_source(k: &SavedKnowledge, item: &str) -> (r: KnowledgeSource)
    ensures
        r == item_source(*k, item@),
{
    let mut i: usize = 0;
    while i < k.pockets.len()
        invariant
            i <= k.pockets@.len(),
            forall|j: int| 0 <= j < i ==> !listed((#[trigger] k.pockets@[j]).1.value, item@),
        decreases k.pockets@.len() - i,
    {
        if is_listed(&k.pockets[i].1.value, item) {
            proof {
                assert(lists_at(*k, item@, i as int));
                let c = choose|c: int| lists_at(*k, item@, c);
                assert(c == i) by {
                    assert(listed(k.pockets@[c].1.value, item@));
                    assert(listed(k.pockets@[i as int].1.value, item@));
                }
            }
            return k.pockets[i].1.source;
        }
        i += 1;
    }
    assert forall|c: int| !lists_at(*k, item@, c) by {
        if lists_at(*k, item@, c) {
            assert(listed(k.pockets@[c].1.value, item@));
        }
    }
    KnowledgeSource::Unknown
}

/// Where the belief's word on `p` comes from.
pub fn provenance(knowledge: &SavedKnowledge, p: &GoalSubject) -> (r: KnowledgeSource)
    ensures
        r == source_of(*knowledge, *p),
{
    match p {
        GoalSubject::Flag { name } => fact_source(&knowledge.world.flags, name.as_str()),
        GoalSubject::Badge { flag } => fact_source(&knowledge.world.flags, flag.as_str()),
        GoalSubject::Var { name } => fact_source(&knowledge.world.vars, name.as_str()),
        GoalSubject::Visited { map } => fact_source(&knowledge.world.visited, map.as_str()),
        GoalSubject::HasItem { item } => find_item_source(knowledge, item.as_str()),
        GoalSubject::At => KnowledgeSource::Observed,
        GoalSubject::PartyHasMove => knowledge.party.source,
        GoalSubject::CanBeat => knowledge.party.source,
        GoalSubject::Healed => knowledge.party.source,
        GoalSubject::Caught { species } => fact_source(&knowledge.caught, species.as_str()),
        GoalSubject::Money => knowledge.money.source,
    }
}

// ---- Plans and what shows of them ----

/// A condition of a planned step in words, with what the belief says of it now.
#[derive(Debug, Clone)]
pub struct Fact {
    pub text: String,
    pub truth: Truth,
    pub source: KnowledgeSource,
}

/// A planned step: the intent in words, its name, the conditions that make it
/// unnecessary and those it assumes.
#[derive(Debug, Clone)]
pub struct PlannedStep {
    pub intent: String,
    pub name: String,
    pub unless: Vec<Fact>,
    pub assumes: Vec<Fact>,
}

#[derive(Debug, Clone, PartialEq, Eq)]
pub struct Assumption {
    pub predicate: String,
    pub truth: String,
    pub source: String,
}

pub struct AssumptionV {
    pub predicate: Seq<char>,
    pub truth: Seq<char>,
    pub source: Seq<char>,
}

impl View for Assumption {
    type V = AssumptionV;

    open spec fn view(&self) -> AssumptionV {
        AssumptionV { predicate: self.predicate@, truth: self.truth@, source: self.source@ }
    }
}

impl Truth {
    pub open spec fn called(self) -> Seq<char> {
        match self {
            Truth::True => "True"@,
            Truth::False => "False"@,
            Truth::Unknown => "Unknown"@,
        }
    }

    pub fn name(self) -> (s: &'static str)
        ensures
            s@ == self.called(),
    {
        match self {
            Truth::True => "True",
            Truth::False => "False",
            Truth::Unknown => "Unknown",
        }
    }
}

impl KnowledgeSource {
    pub open spec fn called(self) -> Seq<char> {
        match self {
            KnowledgeSource::Unknown => "Unknown"@,
            KnowledgeSource::Observed => "Observed"@,
            KnowledgeSource::Followed => "Tracked"@,
            KnowledgeSource::Derived => "Derived"@,
        }
    }

    pub fn name(self) -> (s: &'static str)
        ensures
            s@ == self.called(),
    {
        match self {
            KnowledgeSource::Unknown => "Unknown",
            KnowledgeSource::Observed => "Observed",
            KnowledgeSource::Followed => "Tracked",
            KnowledgeSource::Derived => "Derived",
        }
    }
}

pub open spec fn shown(facts: Seq<Fact>) -> Seq<AssumptionV> {
    Seq::new(
        facts.len(),
        |i: int|
            AssumptionV {
                predicate: facts[i].text@,
                truth: facts[i].truth.called(),
                source: facts[i].source.called(),
            },
    )
}

pub open spec fn assumptions_of(v: Seq<Assumption>) -> Seq<AssumptionV> {
    Seq::new(v.len(), |i: int| v[i]@)
}

pub open spec fn texts(facts: Seq<Fact>) -> Seq<Seq<char>> {
    Seq::new(facts.len(), |i: int| facts[i].text@)
}

/// The conditions in words, with commas between them.
pub open spec fn listing(facts: Seq<Fact>) -> Seq<char> {
    joined(texts(facts), ", "@)
}

fn list(facts: &Vec<Fact>) -> (s: String)
    ensures
        s@ == listing(facts@),
{
    let mut lines: Vec<String> = Vec::new();
    let mut i: usize = 0;
    while i < facts.len()
        invariant
            i <= facts@.len(),
            lines@.len() == i,
            forall|j: int| 0 <= j < i ==> (#[trigger] lines@[j])@ == facts@[j].text@,
        decreases facts@.len() - i,
    {
        lines.push(facts[i].text.clone());
        i += 1;
    }
    assert(lines_of(lines@) =~= texts(facts@));
    join(&lines, ", ")
}

fn show(facts: &Vec<Fact>) -> (v: Vec<Assumption>)
    ensures
        assumptions_of(v@) == shown(facts@),
{
    let mut v: Vec<Assumption> = Vec::new();
    let mut i: usize = 0;
    while i < facts.len()
        invariant
            i <= facts@.len(),
            v@.len() == i,
            forall|j: int| 0 <= j < i ==> (#[trigger] v@[j])@ == shown(facts@)[j],
        decreases facts@.len() - i,
    {
        let f = &facts[i];
        v.push(
            Assumption {
                predicate: f.text.clone(),
                truth: f.truth.name().to_owned(),
                source: f.source.name().to_owned(),
            },
        );
        i += 1;
    }
    assert(assumptions_of(v@) =~= shown(facts@));
    v
}

/// What the loop shows while it runs.
#[derive(Debug, Clone, PartialEq, Eq)]
pub struct GoalStatus {
    pub goal: String,
    /// 1 for the first plan, +1 per replan.
    pub plan_no: u32,
    /// Why the current plan was made.
    pub reason: String,
    /// Current step (1-based; 0 while planning) of `steps`.
    pub step: usize,
    pub steps: usize,
    pub intent: Option<String>,
    /// `planning`, `running`, `skipped`, `failed`, `done`, `given up`.
    pub phase: String,
    pub detail: String,
    /// The current step's assumptions with what the belief says now.
    pub assumes: Vec<Assumption>,
    /// The whole plan, one line per step.
    pub plan: Vec<String>,
}

#[verifier::ext_equal]
pub struct StatusV {
    pub goal: Seq<char>,
    pub plan_no: u32,
    pub reason: Seq<char>,
    pub step: usize,
    pub steps: int,
    pub intent: Option<Seq<char>>,
    pub phase: Seq<char>,
    pub detail: Seq<char>,
    pub assumes: Seq<AssumptionV>,
    pub plan: Seq<Seq<char>>,
}

impl View for GoalStatus {
    type V = StatusV;

    open spec fn view(&self) -> StatusV {
        StatusV {
            goal: self.goal@,
            plan_no: self.plan_no,
            reason: self.reason@,
            step: self.step,
            steps: self.steps as int,
            intent: text_of(self.intent),
            phase: self.phase@,
            detail: self.detail@,
            assumes: assumptions_of(self.assumes@),
            plan: lines_of(self.plan@),
        }
    }
}

/// How a goal is run.
#[derive(Debug, Clone, PartialEq, Eq)]
pub struct GoalOptions {
    pub max_replans: u32,
    /// Save after every step that changed the save-relevant belief.
    pub save_game: bool,
    /// Where the plans are written (the recording's session directory).
    pub session_dir: Option<String>,
}

impl Default for GoalOptions {
    fn default() -> (o: GoalOptions)
        ensures
            o.max_replans == DEFAULT_MAX_REPLANS,
            !o.save_game,
            o.session_dir is None,
    {
        GoalOptions { max_replans: DEFAULT_MAX_REPLANS, save_game: false, session_dir: None }
    }
}

/// A plan: one line per step, what all of it assumes, and what to probe for
/// each assumption that can be probed.
#[derive(Debug, Clone)]
pub struct Plan {
    pub lines: Vec<String>,
    pub assumes: Vec<Fact>,
    pub probes: Vec<Option<String>>,
}

/// One (re)plan and why it was made.
#[derive(Debug, Clone)]
pub struct PlanRecord {
    pub plan_no: u32,
    pub reason: String,
    pub frame_id: u64,
    pub pose: Option<PlayerPose>,
    pub plan: Plan,
}

pub struct RecordV {
    pub plan_no: u32,
    pub reason: Seq<char>,
    pub frame_id: u64,
    pub pose: Option<PoseV>,
    pub plan: Plan,
}

pub open spec fn place_of(pose: Option<PlayerPose>) -> Option<PoseV> {
    match pose {
        Some(p) => Some(p@),
        None => None,
    }
}

impl View for PlanRecord {
    type V = RecordV;

    open spec fn view(&self) -> RecordV {
        RecordV {
            plan_no: self.plan_no,
            reason: self.reason@,
            frame_id: self.frame_id,
            pose: place_of(self.pose),
            plan: self.plan,
        }
    }
}

pub open spec fn records_of(plans: Seq<PlanRecord>) -> Seq<RecordV> {
    Seq::new(plans.len(), |i: int| plans[i]@)
}

/// How a goal run ended.
#[derive(Debug, Clone)]
pub struct GoalReport {
    pub goal: String,
    pub satisfied: bool,
    /// `goal satisfied`, `out of replans`, `no plan: …`, …
    pub outcome: String,
    /// Every plan made, oldest first (the last is the one in force at the end).
    pub plans: Vec<PlanRecord>,
    pub steps_run: u32,
    pub steps_skipped: u32,
    /// `intent: reason`, oldest first.
    pub failures: Vec<String>,
    /// Everything the tools learned, oldest first.
    pub learned: Vec<GameEvent>,
    /// Intents marked infeasible this session.
    pub infeasible: Vec<String>,
    /// A save followed the last step that ran (nothing changed since).
    pub saved_at_end: bool,
}

#[verifier::ext_equal]
pub struct ReportV {
    pub goal: Seq<char>,
    pub satisfied: bool,
    pub outcome: Seq<char>,
    pub plans: Seq<RecordV>,
    pub steps_run: u32,
    pub steps_skipped: u32,
    pub failures: Seq<Seq<char>>,
    pub learned: Seq<GameEventV>,
    pub infeasible: Seq<Seq<char>>,
    pub saved_at_end: bool,
}

impl View for GoalReport {
    type V = ReportV;

    open spec fn view(&self) -> ReportV {
        ReportV {
            goal: self.goal@,
            satisfied: self.satisfied,
            outcome: self.outcome@,
            plans: records_of(self.plans@),
            steps_run: self.steps_run,
            steps_skipped: self.steps_skipped,
            failures: lines_of(self.failures@),
            learned: events_of(self.learned@),
            infeasible: lines_of(self.infeasible@),
            saved_at_end: self.saved_at_end,
        }
    }
}

impl ReportV {
    /// The plan in force.
    pub open spec fn last_plan(self) -> Option<Plan> {
        if self.plans.len() == 0 {
            None
        } else {
            Some(self.plans.last().plan)
        }
    }
}

impl GoalReport {
    /// The plan in force.
    pub fn last_plan(&self) -> (r: Option<&Plan>)
        ensures
            match r {
                Some(p) => self@.last_plan() == Some(*p),
                None => self@.last_plan() is None,
            },
    {
        let n: usize = self.plans.len();
        if n == 0 {
            return None;
        }
        assert(records_of(self.plans@).last() == self.plans@[n - 1]@);
        Some(&self.plans[n - 1].plan)
    }
}

/// The loop's bookkeeping across plans.
#[derive(Debug)]
pub struct GoalRun {
    pub max_replans: u32,
    pub save_game: bool,
    /// Plans begun.
    pub plan_no: u32,
    pub report: GoalReport,
    pub status: GoalStatus,
    /// The last failure, to spot the same one twice in a row.
    pub last_failure: Option<(String, String)>,
    /// Intent names that failed at each pose since the last success.
    pub failed_at: Vec<(PlayerPose, String)>,
}

#[verifier::ext_equal]
pub struct GoalRunV {
    pub max_replans: u32,
    pub save_game: bool,
    pub plan_no: u32,
    pub report: ReportV,
    pub status: StatusV,
    pub last_failure: Option<(Seq<char>, Seq<char>)>,
    pub failed_at: Seq<(PoseV, Seq<char>)>,
}

pub open spec fn places_of(failed: Seq<(PlayerPose, String)>) -> Seq<(PoseV, Seq<char>)> {
    Seq::new(failed.len(), |i: int| (failed[i].0@, failed[i].1@))
}

impl View for GoalRun {
    type V = GoalRunV;

    open spec fn view(&self) -> GoalRunV {
        GoalRunV {
            max_replans: self.max_replans,
            save_game: self.save_game,
            plan_no: self.plan_no,
            report: self.report@,
            status: self.status@,
            last_failure: match self.last_failure {
                Some(f) => Some((f.0@, f.1@)),
                None => None,
            },
            failed_at: places_of(self.failed_at@),
        }
    }
}

/// What to do with a step before it is run.
#[derive(Debug)]
pub enum StepCheck {
    /// It is not needed, and why.
    Skip(String),
    /// What it assumed is known to be false: replan, and why.
    Replan(String),
    Run,
}

pub enum StepCheckV {
    Skip(Seq<char>),
    Replan(Seq<char>),
    Run,
}

impl View for StepCheck {
    type V = StepCheckV;

    open spec fn view(&self) -> StepCheckV {
        match *self {
            StepCheck::Skip(s) => StepCheckV::Skip(s@),
            StepCheck::Replan(s) => StepCheckV::Replan(s@),
            StepCheck::Run => StepCheckV::Run,
        }
    }
}

/// What a failed step leads to.
#[derive(Debug)]
pub struct Failure {
    /// Why to replan.
    pub why: String,
    /// The intent is not to be planned again.
    pub infeasible: bool,
    /// The position may be wrong: look afresh and probe what the plan assumed.
    pub relocalise: bool,
}

pub open spec fn all_true(facts: Seq<Fact>) -> bool {
    forall|i: int| 0 <= i < facts.len() ==> (#[trigger] facts[i]).truth == Truth::True
}

pub open spec fn false_at(facts: Seq<Fact>, i: int) -> bool {
    &&& 0 <= i < facts.len()
    &&& facts[i].truth == Truth::False
    &&& forall|j: int| 0 <= j < i ==> (#[trigger] facts[j]).truth != Truth::False
}

/// The first condition known to be false.
pub open spec fn contradiction(facts: Seq<Fact>) -> Option<Seq<char>> {
    if exists|i: int| false_at(facts, i) {
        Some(facts[choose|i: int| false_at(facts, i)].text@)
    } else {
        None
    }
}

fn holds_all(facts: &Vec<Fact>) -> (r: bool)
    ensures
        r == all_true(facts@),
{
    let mut i: usize = 0;
    while i < facts.len()
        invariant
            i <= facts@.len(),
            forall|j: int| 0 <= j < i ==> (#[trigger] facts@[j]).truth == Truth::True,
        decreases facts@.len() - i,
    {
        if facts[i].truth != Truth::True {
            assert(facts@[i as int].truth != Truth::True);
            return false;
        }
        i += 1;
    }
    true
}

fn find_false(facts: &Vec<Fact>) -> (r: Option<usize>)
    ensures
        match r {
            Some(i) => i < facts@.len() && contradiction(facts@) == Some(facts@[i as int].text@),
            None => contradiction(facts@) is None,
        },
{
    let mut i: usize = 0;
    while i < facts.len()
        invariant
            i <= facts@.len(),
            forall|j: int| 0 <= j < i ==> (#[trigger] facts@[j]).truth != Truth::False,
        decreases facts@.len() - i,
    {
        if facts[i].truth == Truth::False {
            proof {
                assert(false_at(facts@, i as int));
                let c = choose|c: int| false_at(facts@, c);
                assert(c == i) by {
                    assert(facts@[c].truth == Truth::False);
                    assert(facts@[i as int].truth == Truth::False);
                }
            }
            return Some(i);
        }
        i += 1;
    }
    assert forall|c: int| !false_at(facts@, c) by {
        if false_at(facts@, c) {
            assert(facts@[c].truth == Truth::False);
        }
    }
    None
}

/// How many different intents failed at a pose.
pub open spec fn failures_at(failed: Seq<(PoseV, Seq<char>)>, pose: PoseV) -> nat
    decreases failed.len(),
{
    if failed.len() == 0 {
        0
    } else {
        failures_at(failed.drop_last(), pose) + (if failed.last().0 == pose {
            1nat
        } else {
            0
        })
    }
}

/// The failures with one more, unless that intent failed there before.
pub open spec fn with_failure(
    failed: Seq<(PoseV, Seq<char>)>,
    pose: PoseV,
    name: Seq<char>,
) -> Seq<(PoseV, Seq<char>)> {
    if failed.contains((pose, name)) {
        failed
    } else {
        failed.push((pose, name))
    }
}

impl GoalRunV {
    pub open spec fn fresh(goal: Seq<char>, max_replans: u32, save_game: bool) -> GoalRunV {
        GoalRunV {
            max_replans,
            save_game,
            plan_no: 0,
            report: ReportV {
                goal,
                satisfied: false,
                outcome: Seq::empty(),
                plans: Seq::empty(),
                steps_run: 0,
                steps_skipped: 0,
                failures: Seq::empty(),
                learned: Seq::empty(),
                infeasible: Seq::empty(),
                saved_at_end: false,
            },
            status: StatusV {
                goal,
                plan_no: 0,
                reason: Seq::empty(),
                step: 0,
                steps: 0,
                intent: None,
                phase: Seq::empty(),
                detail: Seq::empty(),
                assumes: Seq::empty(),
                plan: Seq::empty(),
            },
            last_failure: None,
            failed_at: Seq::empty(),
        }
    }

    pub open spec fn ended(self, outcome: Seq<char>) -> GoalRunV {
        GoalRunV { report: ReportV { outcome, ..self.report }, ..self }
    }

    pub open spec fn showing(
        self,
        phase: Seq<char>,
        detail: Seq<char>,
        step: usize,
        planned: Option<PlannedStep>,
    ) -> GoalRunV {
        GoalRunV {
            status: StatusV {
                phase,
                detail,
                step,
                steps: self.status.plan.len() as int,
                intent: match planned {
                    Some(p) => Some(p.intent@),
                    None => None,
                },
                assumes: match planned {
                    Some(p) => shown(p.assumes@),
                    None => Seq::empty(),
                },
                ..self.status
            },
            ..self
        }
    }

    /// A plan is begun: `false` where no more are allowed.
    pub open spec fn planning_begun(self) -> (GoalRunV, bool) {
        if self.plan_no > self.max_replans {
            (
                self.ended(
                    "out of replans ("@ + decimal_of((self.plan_no - 1) as nat) + " made, "@
                        + decimal_of(self.max_replans as nat) + " allowed)"@,
                ),
                false,
            )
        } else {
            (GoalRunV { plan_no: counted(self.plan_no), ..self }, true)
        }
    }

    pub open spec fn satisfied(self) -> GoalRunV {
        let r = self.ended("goal satisfied"@);
        GoalRunV { report: ReportV { satisfied: true, ..r.report }, ..r }
    }

    pub open spec fn planning(self, reason: Seq<char>) -> GoalRunV {
        let r = GoalRunV {
            status: StatusV { plan_no: self.plan_no, reason, ..self.status },
            ..self
        };
        r.showing("planning"@, reason, 0, None)
    }

    /// A plan was made; `false` where it holds nothing to do.
    pub open spec fn planned(
        self,
        reason: Seq<char>,
        frame_id: u64,
        pose: Option<PoseV>,
        plan: Plan,
    ) -> (GoalRunV, bool) {
        let record = RecordV { plan_no: self.plan_no, reason, frame_id, pose, plan };
        let r = GoalRunV {
            report: ReportV { plans: self.report.plans.push(record), ..self.report },
            status: StatusV { plan: lines_of(plan.lines@), ..self.status },
            ..self
        };
        if plan.lines@.len() == 0 {
            (
                r.ended(
                    "the planner has nothing to do but the goal is not known to hold"@,
                ),
                false,
            )
        } else {
            (r, true)
        }
    }

    /// A step, before it is run.
    pub open spec fn checked(self, k: usize, step: PlannedStep) -> (GoalRunV, StepCheckV) {
        if step.unless@.len() > 0 && all_true(step.unless@) {
            // Settled by a probe earlier in the plan.
            let why = step.intent@ + ": skipped, already holds: "@ + listing(step.unless@);
            let r = GoalRunV {
                report: ReportV {
                    steps_skipped: counted(self.report.steps_skipped),
                    ..self.report
                },
                ..self
            };
            (r.showing("skipped"@, why, k, Some(step)), StepCheckV::Skip(why))
        } else {
            match contradiction(step.assumes@) {
                Some(p) => {
                    let why = "belief_contradiction: "@ + step.intent@ + " assumed "@ + p
                        + ", now false"@;
                    (self.showing("failed"@, why, k, Some(step)), StepCheckV::Replan(why))
                },
                None => (self, StepCheckV::Run),
            }
        }
    }

    /// What a tool learned.
    pub open spec fn learning(self, learned: Seq<GameEventV>) -> GoalRunV {
        GoalRunV {
            report: ReportV { learned: self.report.learned + learned, ..self.report },
            ..self
        }
    }

    /// A step's tool came back: what it learned, and whether it succeeded.
    pub open spec fn ran(self, learned: Seq<GameEventV>, ok: bool) -> (GoalRunV, bool) {
        let told = self.learning(learned);
        let r = GoalRunV { report: ReportV { saved_at_end: false, ..told.report }, ..told };
        if ok {
            (
                GoalRunV {
                    report: ReportV { steps_run: counted(r.report.steps_run), ..r.report },
                    last_failure: None,
                    failed_at: Seq::empty(),
                    ..r
                },
                self.save_game && exists|i: int|
                    0 <= i < learned.len() && changing(#[trigger] learned[i]),
            )
        } else {
            (r, false)
        }
    }

    /// The save after a step came back.
    pub open spec fn saved(self, learned: Seq<GameEventV>, ok: bool) -> GoalRunV {
        let told = self.learning(learned);
        GoalRunV { report: ReportV { saved_at_end: ok, ..told.report }, ..told }
    }

    /// The same failure twice in a row.
    pub open spec fn again(self, step: PlannedStep, reason: Seq<char>) -> bool {
        self.last_failure == Some((step.intent@, reason))
    }

    /// Three different intents failed at the pose.
    pub open spec fn astray(self, step: PlannedStep, pose: Option<PoseV>) -> bool {
        pose is Some && failures_at(
            with_failure(self.failed_at, pose->0, step.name@),
            pose->0,
        ) >= RELOCALISE_AFTER
    }

    /// A step failed: the plan-level loop rules.
    pub open spec fn failing(self, step: PlannedStep, reason: Seq<char>, pose: Option<PoseV>)
        -> GoalRunV {
        let why = step.intent@ + " failed: "@ + reason;
        GoalRunV {
            report: ReportV {
                failures: self.report.failures.push(why),
                infeasible: if self.again(step, reason) {
                    self.report.infeasible.push(step.intent@)
                } else {
                    self.report.infeasible
                },
                ..self.report
            },
            last_failure: if self.again(step, reason) {
                None
            } else {
                Some((step.intent@, reason))
            },
            failed_at: match pose {
                None => self.failed_at,
                Some(p) => if self.astray(step, pose) {
                    Seq::empty()
                } else {
                    with_failure(self.failed_at, p, step.name@)
                },
            },
            ..self
        }
    }

    /// The end of the run.
    pub open spec fn finishing(self, stopped: bool) -> GoalRunV {
        let r = if stopped {
            self.ended("stopped"@)
        } else {
            self
        };
        r.showing(
            if r.report.satisfied {
                "done"@
            } else {
                "given up"@
            },
            r.report.outcome,
            r.status.step,
            None,
        )
    }
}

fn empty_text() -> (s: String)
    ensures
        s@ == Seq::<char>::empty(),
{
    let s = String::new();
    assert(s@ =~= Seq::empty());
    s
}

impl GoalRun {
    pub fn new(goal: &str, opts: &GoalOptions) -> (r: GoalRun)
        ensures
            r@ == GoalRunV::fresh(goal@, opts.max_replans, opts.save_game),
    {
        let r = GoalRun {
            max_replans: opts.max_replans,
            save_game: opts.save_game,
            plan_no: 0,
            report: GoalReport {
                goal: goal.to_owned(),
                satisfied: false,
                outcome: empty_text(),
                plans: Vec::new(),
                steps_run: 0,
                steps_skipped: 0,
                failures: Vec::new(),
                learned: Vec::new(),
                infeasible: Vec::new(),
                saved_at_end: false,
            },
            status: GoalStatus {
                goal: goal.to_owned(),
                plan_no: 0,
                reason: empty_text(),
                step: 0,
                steps: 0,
                intent: None,
                phase: empty_text(),
                detail: empty_text(),
                assumes: Vec::new(),
                plan: Vec::new(),
            },
            last_failure: None,
            failed_at: Vec::new(),
        };
        proof {
            assert(records_of(r.report.plans@) =~= Seq::empty());
            assert(lines_of(r.report.failures@) =~= Seq::empty());
            assert(events_of(r.report.learned@) =~= Seq::empty());
            assert(lines_of(r.report.infeasible@) =~= Seq::empty());
            assert(assumptions_of(r.status.assumes@) =~= Seq::empty());
            assert(lines_of(r.status.plan@) =~= Seq::empty());
            assert(places_of(r.failed_at@) =~= Seq::empty());
        }
        r
    }

    /// Begins a plan: `false` where no more replans are allowed, and the run
    /// is over.
    pub fn begin_plan(&mut self) -> (r: bool)
        ensures
            final(self)@ == old(self)@.planning_begun().0,
            r == old(self)@.planning_begun().1,
    {
        if self.plan_no > self.max_replans {
            let mut outcome = cat3(
                "out of replans (",
                decimal(self.plan_no as u64 - 1).as_str(),
                " made, ",
            );
            outcome.append(decimal(self.max_replans as u64).as_str());
            outcome.append(" allowed)");
            self.report.outcome = outcome;
            return false;
        }
        self.plan_no = count(self.plan_no);
        true
    }

    /// The goal holds.
    pub fn satisfy(&mut self)
        ensures
            final(self)@ == old(self)@.satisfied(),
    {
        self.report.satisfied = true;
        self.report.outcome = "goal satisfied".to_owned();
    }

    /// Shows where the run stands.
    pub fn set_status(
        &mut self,
        phase: &str,
        detail: &str,
        step: usize,
        planned: Option<&PlannedStep>,
    )
        ensures
            final(self)@ == old(self)@.showing(
                phase@,
                detail@,
                step,
                match planned {
                    Some(p) => Some(*p),
                    None => None,
                },
            ),
    {
        self.status.phase = phase.to_owned();
        self.status.detail = detail.to_owned();
        self.status.step = step;
        self.status.steps = self.status.plan.len();
        assert(lines_of(self.status.plan@).len() == self.status.plan@.len());
        match planned {
            Some(p) => {
                self.status.intent = Some(p.intent.clone());
                self.status.assumes = show(&p.assumes);
            },
            None => {
                self.status.intent = None;
                let none: Vec<Assumption> = Vec::new();
                assert(assumptions_of(none@) =~= Seq::empty());
                self.status.assumes = none;
            },
        }
    }

    /// Shows that a plan is being made, and why.
    pub fn show_planning(&mut self, reason: &str)
        ensures
            final(self)@ == old(self)@.planning(reason@),
    {
        self.status.plan_no = self.plan_no;
        self.status.reason = reason.to_owned();
        self.set_status("planning", reason, 0, None);
    }

    /// There is no plan, and why: the run is over.
    pub fn no_plan(&mut self, error: &str)
        ensures
            final(self)@ == old(self)@.ended("no plan: "@ + error@).showing(
                "given up"@,
                error@,
                0,
                None,
            ),
    {
        self.report.outcome = cat("no plan: ", error);
        self.set_status("given up", error, 0, None);
    }

    /// A plan was made, and why: it is kept and shown. `false` where it holds
    /// nothing to do and the run is over.
    pub fn take_plan(
        &mut self,
        reason: &str,
        frame_id: u64,
        pose: Option<PlayerPose>,
        plan: Plan,
    ) -> (r: bool)
        ensures
            final(self)@ == old(self)@.planned(reason@, frame_id, place_of(pose), plan).0,
            r == old(self)@.planned(reason@, frame_id, place_of(pose), plan).1,
    {
        let empty = plan.lines.len() == 0;
        self.status.plan = copy_lines(&plan.lines);
        let ghost before = self.report.plans@;
        let record = PlanRecord {
            plan_no: self.plan_no,
            reason: reason.to_owned(),
            frame_id,
            pose,
            plan,
        };
        self.report.plans.push(record);
        assert(records_of(self.report.plans@) =~= records_of(before).push(record@));
        if empty {
            self.report.outcome = "the planner has nothing to do but the goal is not known to hold"
                .to_owned();
            return false;
        }
        true
    }

    /// Whether step `k` is to be run: not where everything it is unnecessary by
    /// holds, nor where something it assumes is known to be false.
    pub fn check_step(&mut self, k: usize, step: &PlannedStep) -> (r: StepCheck)
        ensures
            final(self)@ == old(self)@.checked(k, *step).0,
            r@ == old(self)@.checked(k, *step).1,
    {
        if step.unless.len() > 0 && holds_all(&step.unless) {
            self.report.steps_skipped = count(self.report.steps_skipped);
            let why = cat3(
                step.intent.as_str(),
                ": skipped, already holds: ",
                list(&step.unless).as_str(),
            );
            self.set_status("skipped", why.as_str(), k, Some(step));
            return StepCheck::Skip(why);
        }
        match find_false(&step.assumes) {
            Some(i) => {
                let mut why = cat3("belief_contradiction: ", step.intent.as_str(), " assumed ");
                why.append(step.assumes[i].text.as_str());
                why.append(", now false");
                self.set_status("failed", why.as_str(), k, Some(step));
                StepCheck::Replan(why)
            },
            None => StepCheck::Run,
        }
    }

    /// Step `k` of `n` is run by the tool intent `tool`; what is logged of it.
    pub fn run_step(&mut self, k: usize, n: usize, step: &PlannedStep, tool: &str) -> (note: String)
        ensures
            final(self)@ == old(self)@.showing("running"@, tool@, k, Some(*step)),
            note@ == "step "@ + decimal_of(k as nat) + "/"@ + decimal_of(n as nat) + ": "@
                + step.intent@,
    {
        self.set_status("running", tool, k, Some(step));
        let mut note = cat3("step ", decimal(k as u64).as_str(), "/");
        note.append(decimal(n as u64).as_str());
        note.append(": ");
        note.append(step.intent.as_str());
        note
    }

    pub(crate) fn learn(&mut self, learned: &mut Vec<GameEvent>)
        ensures
            final(self)@ == old(self)@.learning(events_of(old(learned)@)),
    {
        let ghost before = self.report.learned@;
        let ghost more = learned@;
        self.report.learned.append(learned);
        assert(events_of(self.report.learned@) =~= events_of(before) + events_of(more));
    }

    /// The tool of a step came back, with what it learned and whether it
    /// succeeded. Whether a save is to follow.
    pub fn step_ran(&mut self, learned: Vec<GameEvent>, ok: bool) -> (save: bool)
        ensures
            final(self)@ == old(self)@.ran(events_of(learned@), ok).0,
            save == old(self)@.ran(events_of(learned@), ok).1,
    {
        let ghost told = events_of(learned@);
        let mut changed = false;
        let mut i: usize = 0;
        while i < learned.len()
            invariant
                i <= learned@.len(),
                told == events_of(learned@),
                changed == exists|j: int| 0 <= j < i && changing(#[trigger] told[j]),
            decreases learned@.len() - i,
        {
            let c = changes_save(&learned[i]);
            assert(c == changing(told[i as int]));
            changed = changed || c;
            i += 1;
        }
        let mut learned = learned;
        self.learn(&mut learned);
        self.report.saved_at_end = false;
        if !ok {
            return false;
        }
        self.report.steps_run = count(self.report.steps_run);
        self.last_failure = None;
        let none: Vec<(PlayerPose, String)> = Vec::new();
        assert(places_of(none@) =~= Seq::empty());
        self.failed_at = none;
        self.save_game && changed
    }

    /// The save after a step came back.
    pub fn save_ran(&mut self, learned: Vec<GameEvent>, ok: bool)
        ensures
            final(self)@ == old(self)@.saved(events_of(learned@), ok),
    {
        let mut learned = learned;
        self.learn(&mut learned);
        self.report.saved_at_end = ok;
    }

    fn has_failed_at(&self, pose: &PlayerPose, name: &str) -> (r: bool)
        ensures
            r == self@.failed_at.contains((pose@, name@)),
    {
        let ghost all = self@.failed_at;
        let mut i: usize = 0;
        while i < self.failed_at.len()
            invariant
                i <= self.failed_at@.len(),
                all == places_of(self.failed_at@),
                forall|j: int| 0 <= j < i ==> #[trigger] all[j] != (pose@, name@),
            decreases self.failed_at@.len() - i,
        {
            if self.failed_at[i].0.same(pose) && same(self.failed_at[i].1.as_str(), name) {
                assert(all[i as int] == (pose@, name@));
                return true;
            }
            i += 1;
        }
        false
    }

    fn count_failures(&self, pose: &PlayerPose) -> (n: usize)
        ensures
            n == failures_at(self@.failed_at, pose@),
    {
        let ghost all = self@.failed_at;
        let mut n: usize = 0;
        let mut i: usize = 0;
        assert(all.take(0) =~= Seq::empty());
        while i < self.failed_at.len()
            invariant
                i <= self.failed_at@.len(),
                all == places_of(self.failed_at@),
                n <= i,
                n == failures_at(all.take(i as int), pose@),
            decreases self.failed_at@.len() - i,
        {
            assert(all.take(i + 1).drop_last() =~= all.take(i as int));
            assert(all.take(i + 1).last() == all[i as int]);
            if self.failed_at[i].0.same(pose) {
                n += 1;
            }
            i += 1;
        }
        assert(all.take(all.len() as int) =~= all);
        n
    }

    /// Notes that an intent failed at a pose; whether the position may be wrong.
    fn note_failure_at(&mut self, pose: &PlayerPose, name: &str) -> (relocalise: bool)
        ensures
            ({
                let failed = with_failure(old(self)@.failed_at, pose@, name@);
                &&& relocalise == (failures_at(failed, pose@) >= RELOCALISE_AFTER)
                &&& final(self)@ == (GoalRunV {
                    failed_at: if relocalise {
                        Seq::empty()
                    } else {
                        failed
                    },
                    ..old(self)@
                })
            }),
    {
        if !self.has_failed_at(pose, name) {
            let ghost before = self.failed_at@;
            self.failed_at.push((pose.copy(), name.to_owned()));
            assert(places_of(self.failed_at@) =~= places_of(before).push((pose@, name@)));
        }
        if self.count_failures(pose) >= RELOCALISE_AFTER {
            let none: Vec<(PlayerPose, String)> = Vec::new();
            assert(places_of(none@) =~= Seq::empty());
            self.failed_at = none;
            return true;
        }
        false
    }

    /// Books a step's failure and applies the plan-level loop rules: the same
    /// failure twice in a row makes the intent infeasible, and three different
    /// intents failing at one pose put the position in doubt.
    pub fn failed(&mut self, step: &PlannedStep, reason: &str, pose: Option<&PlayerPose>) -> (f:
        Failure)
        ensures
            ({
                let at = match pose {
                    Some(p) => Some(p@),
                    None => None,
                };
                &&& final(self)@ == old(self)@.failing(*step, reason@, at)
                &&& f.why@ == step.intent@ + " failed: "@ + reason@
                &&& f.infeasible == old(self)@.again(*step, reason@)
                &&& f.relocalise == old(self)@.astray(*step, at)
            }),
    {
        let why = cat3(step.intent.as_str(), " failed: ", reason);
        let ghost failures = self.report.failures@;
        self.report.failures.push(why.clone());
        assert(lines_of(self.report.failures@) =~= lines_of(failures).push(why@));
        let again = match &self.last_failure {
            Some(f) => f.0 == step.intent && same(f.1.as_str(), reason),
            None => false,
        };
        if again {
            let ghost infeasible = self.report.infeasible@;
            self.report.infeasible.push(step.intent.clone());
            assert(lines_of(self.report.infeasible@) =~= lines_of(infeasible).push(
                step.intent@,
            ));
            self.last_failure = None;
        } else {
            self.last_failure = Some((step.intent.clone(), reason.to_owned()));
        }
        let relocalise = match pose {
            Some(pose) => self.note_failure_at(pose, step.name.as_str()),
            None => false,
        };
        Failure { why, infeasible: again, relocalise }
    }

    /// The end of the run: what is shown, and what is recorded unless it was
    /// stopped.
    pub fn finish(&mut self, stopped: bool) -> (e: Option<GameEvent>)
        ensures
            final(self)@ == old(self)@.finishing(stopped),
            match e {
                Some(e) => !stopped && e@ == (GameEventV::GoalFinished {
                    goal: old(self)@.report.goal,
                    success: old(self)@.report.satisfied,
                    detail: old(self)@.report.outcome,
                }),
                None => stopped,
            },
    {
        if stopped {
            self.report.outcome = "stopped".to_owned();
        }
        let outcome = self.report.outcome.clone();
        let phase = if self.report.satisfied {
            "done"
        } else {
            "given up"
        };
        let step: usize = self.status.step;
        self.set_status(phase, outcome.as_str(), step, None);
        if stopped {
            None
        } else {
            Some(
                GameEvent::GoalFinished {
                    goal: self.report.goal.clone(),
                    success: self.report.satisfied,
                    detail: outcome,
                },
            )
        }
    }
}

/// What is logged when the position is in doubt at a pose: "3 different intents
/// failed at Route1 (3, 7): re-localising and probing …".
pub fn relocalise_note(pose: &str, assumes: &Vec<Fact>) -> (s: String)
    ensures
        s@ == decimal_of(RELOCALISE_AFTER as nat) + " different intents failed at "@ + pose@
            + ": re-localising and probing "@ + listing(assumes@),
{
    let mut s = cat3(
        decimal(RELOCALISE_AFTER as u64).as_str(),
        " different intents failed at ",
        pose,
    );
    s.append(": re-localising and probing ");
    s.append(list(assumes).as_str());
    s
}

/// The loop plans at most once more than it may replan.
pub proof fn replans_are_bounded(r: GoalRunV)
    requires
        r.plan_no > r.max_replans,
    ensures
        !r.planning_begun().1,
        r.planning_begun().0.report.satisfied == r.report.satisfied,
{
}

/// Every plan that is begun brings the end of the replans nearer.
pub proof fn every_plan_counts(r: GoalRunV)
    requires
        r.planning_begun().1,
        r.max_replans < u32::MAX,
    ensures
        r.planning_begun().0.plan_no == r.plan_no + 1,
        r.planning_begun().0.plan_no <= r.max_replans + 1,
{
}

/// The same failure twice in a row makes an intent infeasible; a success in
/// between clears it.
pub proof fn twice_the_same_failure_is_infeasible(
    r: GoalRunV,
    step: PlannedStep,
    reason: Seq<char>,
    pose: Option<PoseV>,
    learned: Seq<GameEventV>,
)
    requires
        !r.again(step, reason),
    ensures
        r.failing(step, reason, pose).again(step, reason),
        r.failing(step, reason, pose).failing(step, reason, pose).report.infeasible
            == r.report.infeasible.push(step.intent@),
        !r.failing(step, reason, pose).ran(learned, true).0.again(step, reason),
{
}

/// A third failure in a row of the same kind is counted afresh.
pub proof fn an_infeasible_intent_is_counted_afresh(
    r: GoalRunV,
    step: PlannedStep,
    reason: Seq<char>,
    pose: Option<PoseV>,
)
    requires
        r.again(step, reason),
    ensures
        !r.failing(step, reason, pose).again(step, reason),
{
}

/// Three intents of different names failing at one pose, with no success in
/// between, put the position in doubt, whatever failed elsewhere.
pub proof fn three_failures_at_a_pose_relocalise(
    r: GoalRunV,
    a: PlannedStep,
    b: PlannedStep,
    c: PlannedStep,
    ra: Seq<char>,
    rb: Seq<char>,
    pose: PoseV,
)
    requires
        a.name@ != b.name@,
        b.name@ != c.name@,
        a.name@ != c.name@,
        r.failed_at.len() == 0,
    ensures
        !r.astray(a, Some(pose)),
        ({
            let once = r.failing(a, ra, Some(pose));
            let twice = once.failing(b, rb, Some(pose));
            !once.astray(b, Some(pose)) && twice.astray(c, Some(pose))
        }),
{
    let f0 = r.failed_at;
    let f1 = f0.push((pose, a.name@));
    let f2 = f1.push((pose, b.name@));
    let f3 = f2.push((pose, c.name@));
    assert(f1.drop_last() =~= f0);
    assert(f2.drop_last() =~= f1);
    assert(f3.drop_last() =~= f2);
    assert(failures_at(f0, pose) == 0);
    assert(failures_at(f1, pose) == 1);
    assert(failures_at(f2, pose) == 2);
    assert(failures_at(f3, pose) == 3);
    assert(!f0.contains((pose, a.name@)));
    assert(!f1.contains((pose, b.name@)));
    assert(!f2.contains((pose, c.name@)));
}

/// A step is never run on an assumption that is known to be false.
pub proof fn a_contradicted_step_is_never_run(r: GoalRunV, k: usize, step: PlannedStep, i: int)
    requires
        0 <= i < step.assumes@.len(),
        step.assumes@[i].truth == Truth::False,
    ensures
        !(r.checked(k, step).1 is Run),
{
    first_false(step.assumes@, i);
}

proof fn first_false(facts: Seq<Fact>, i: int)
    requires
        0 <= i < facts.len(),
        facts[i].truth == Truth::False,
    ensures
        exists|c: int| false_at(facts, c),
    decreases i,
{
    if !false_at(facts, i) {
        let j = choose|j: int| 0 <= j < i && (#[trigger] facts[j]).truth == Truth::False;
        first_false(facts, j);
    }
}

} // verus!
