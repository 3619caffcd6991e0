//! The execution loop itself: what it asks for next, and what it makes of the
//! answer.
//!
//! Planning, looking, running tools and saving happen outside. The loop names
//! the one thing it needs ([`GoalLoop::ask`]) and goes on from what came back
//! ([`GoalLoop::answer`]): it plans, runs the steps in order, replans on failure
//! or contradiction, and ends when the goal is known to hold, when there is
//! nothing to plan, or when the replans run out.

use vstd::prelude::*;

use crate::event::{events_of, GameEvent};
use crate::goal::{
    all_true, changing, contradiction, listing, place_of, relocalise_note, Fact, GoalOptions,
    GoalRun, GoalRunV, Plan, PlannedStep, StepCheck, StepCheckV, RELOCALISE_AFTER,
};
use crate::observe::{lines_of, PlayerPose, PoseV};
use crate::text::{cat, decimal_of};

verus! {

/// What the loop needs next.
#[derive(Debug, PartialEq, Eq)]
pub enum Ask {
    /// Whether the goal is known to hold (looking first, where no pose is
    /// known).
    Holds,
    /// A plan from what is known now.
    Plan,
    /// A step of the plan (0-based), its conditions as the belief has them now.
    Step(usize),
    /// The tool of a step.
    Resolve(usize),
    /// Run the tool of a step.
    Invoke(usize),
    /// Save the game.
    Save,
    /// Look afresh.
    Look,
    /// Probe this.
    Probe(String),
    /// Nothing: the run is over.
    Over,
}

pub enum AskV {
    Holds,
    Plan,
    Step(usize),
    Resolve(usize),
    Invoke(usize),
    Save,
    Look,
    Probe(Seq<char>),
    Over,
}

impl View for Ask {
    type V = AskV;

    open spec fn view(&self) -> AskV {
        match *self {
            Ask::Holds => AskV::Holds,
            Ask::Plan => AskV::Plan,
            Ask::Step(i) => AskV::Step(i),
            Ask::Resolve(i) => AskV::Resolve(i),
            Ask::Invoke(i) => AskV::Invoke(i),
            Ask::Save => AskV::Save,
            Ask::Look => AskV::Look,
            Ask::Probe(p) => AskV::Probe(p@),
            Ask::Over => AskV::Over,
        }
    }
}

/// Where the player is, and that in words.
#[derive(Debug, Clone)]
pub struct Here {
    pub pose: PlayerPose,
    pub text: String,
}

/// What came back.
#[derive(Debug)]
pub enum Answer {
    /// Whether the goal holds, and what the current step assumed as the belief
    /// has it now.
    Holds { holds: bool, assumes: Vec<Fact> },
    Plan { plan: Plan, frame_id: u64, pose: Option<PlayerPose> },
    NoPlan(String),
    Step(PlannedStep),
    /// The tool, in words.
    Tool(String),
    NoTool { error: String, here: Option<Here> },
    /// A tool (or the save) came back: what it learned, how it failed, and what
    /// the step assumed as the belief has it now.
    Ran {
        learned: Vec<GameEvent>,
        failed: Option<String>,
        assumes: Vec<Fact>,
        here: Option<Here>,
    },
    Looked,
    /// What a probe learned.
    Probed(Vec<GameEvent>),
}

/// What is logged on the way.
#[derive(Debug, PartialEq, Eq)]
pub enum Note {
    Progress(String),
    /// The intent is not to be planned again in this session.
    Infeasible(String),
}

pub enum NoteV {
    Progress(Seq<char>),
    Infeasible(Seq<char>),
}

impl View for Note {
    type V = NoteV;

    open spec fn view(&self) -> NoteV {
        match *self {
            Note::Progress(s) => NoteV::Progress(s@),
            Note::Infeasible(s) => NoteV::Infeasible(s@),
        }
    }
}

pub open spec fn notes_of(notes: Seq<Note>) -> Seq<NoteV> {
    Seq::new(notes.len(), |i: int| notes[i]@)
}

/// A failure that is being dealt with: why to replan, and the step that is
/// shown as failed.
#[derive(Debug)]
pub struct Setback {
    pub why: String,
    pub at: Option<(usize, PlannedStep)>,
}

pub struct SetbackV {
    pub why: Seq<char>,
    pub at: Option<(usize, PlannedStep)>,
}

impl View for Setback {
    type V = SetbackV;

    open spec fn view(&self) -> SetbackV {
        SetbackV { why: self.why@, at: self.at }
    }
}

/// Where the loop stands.
#[derive(Debug)]
pub enum Stage {
    /// Before a plan.
    Starting,
    Planning,
    /// Before a step.
    Reading(usize),
    Resolving(usize, PlannedStep),
    Running(usize, PlannedStep),
    Saving(usize, PlannedStep),
    /// After a step.
    Checking(usize, PlannedStep),
    /// After the last step.
    Completed,
    /// The position is in doubt.
    Looking(Setback),
    /// What is left to be probed.
    Probing(Setback, Vec<String>),
    Over,
}

pub enum StageV {
    Starting,
    Planning,
    Reading(usize),
    Resolving(usize, PlannedStep),
    Running(usize, PlannedStep),
    Saving(usize, PlannedStep),
    Checking(usize, PlannedStep),
    Completed,
    Looking(SetbackV),
    Probing(SetbackV, Seq<Seq<char>>),
    Over,
}

impl View for Stage {
    type V = StageV;

    open spec fn view(&self) -> StageV {
        match *self {
            Stage::Starting => StageV::Starting,
            Stage::Planning => StageV::Planning,
            Stage::Reading(i) => StageV::Reading(i),
            Stage::Resolving(i, s) => StageV::Resolving(i, s),
            Stage::Running(i, s) => StageV::Running(i, s),
            Stage::Saving(i, s) => StageV::Saving(i, s),
            Stage::Checking(i, s) => StageV::Checking(i, s),
            Stage::Completed => StageV::Completed,
            Stage::Looking(b) => StageV::Looking(b@),
            Stage::Probing(b, left) => StageV::Probing(b@, lines_of(left@)),
            Stage::Over => StageV::Over,
        }
    }
}

/// The loop: the bookkeeping across plans, why the plan in force was made, its
/// steps, and where it stands.
#[derive(Debug)]
pub struct GoalLoop {
    pub run: GoalRun,
    pub reason: String,
    pub steps: usize,
    pub stage: Stage,
}

#[verifier::ext_equal]
pub struct LoopV {
    pub run: GoalRunV,
    pub reason: Seq<char>,
    pub steps: usize,
    pub stage: StageV,
}

impl View for GoalLoop {
    type V = LoopV;

    open spec fn view(&self) -> LoopV {
        LoopV { run: self.run@, reason: self.reason@, steps: self.steps, stage: self.stage@ }
    }
}

/// What can be probed, each thing once, in the order of the assumptions.
pub open spec fn distinct_probes(probes: Seq<Option<String>>) -> Seq<Seq<char>>
    decreases probes.len(),
{
    if probes.len() == 0 {
        Seq::empty()
    } else {
        let before = distinct_probes(probes.drop_last());
        match probes.last() {
            Some(p) => if before.contains(p@) {
                before
            } else {
                before.push(p@)
            },
            None => before,
        }
    }
}

pub open spec fn plan_probes(plan: Option<Plan>) -> Seq<Seq<char>> {
    match plan {
        Some(p) => distinct_probes(p.probes@),
        None => Seq::empty(),
    }
}

pub open spec fn plan_assumes(plan: Option<Plan>) -> Seq<Fact> {
    match plan {
        Some(p) => p.assumes@,
        None => Seq::empty(),
    }
}

/// A step with what it assumes read afresh.
pub open spec fn reread(step: PlannedStep, assumes: Vec<Fact>) -> PlannedStep {
    PlannedStep { intent: step.intent, name: step.name, unless: step.unless, assumes }
}

pub open spec fn pose_here(here: Option<Here>) -> Option<PoseV> {
    match here {
        Some(h) => Some(h.pose@),
        None => None,
    }
}

pub open spec fn said(s: Seq<char>) -> Seq<NoteV> {
    seq![NoteV::Progress(s)]
}

impl LoopV {
    /// The steps asked for are steps of the plan, and the plans are counted.
    pub open spec fn wf(self) -> bool {
        &&& self.run.plan_no <= self.run.max_replans + 1
        &&& match self.stage {
            StageV::Reading(i) => i < self.steps,
            StageV::Resolving(i, _) => i < self.steps,
            StageV::Running(i, _) => i < self.steps,
            StageV::Saving(i, _) => i < self.steps,
            StageV::Checking(i, _) => i < self.steps,
            StageV::Looking(b) => b.at matches Some(at) ==> at.0 < self.steps,
            StageV::Probing(b, left) => left.len() > 0 && (b.at matches Some(at) ==> at.0
                < self.steps),
            _ => true,
        }
    }

    pub open spec fn asks(self) -> AskV {
        match self.stage {
            StageV::Starting => AskV::Holds,
            StageV::Planning => AskV::Plan,
            StageV::Reading(i) => AskV::Step(i),
            StageV::Resolving(i, _) => AskV::Resolve(i),
            StageV::Running(i, _) => AskV::Invoke(i),
            StageV::Saving(_, _) => AskV::Save,
            StageV::Checking(_, _) => AskV::Holds,
            StageV::Completed => AskV::Holds,
            StageV::Looking(_) => AskV::Look,
            StageV::Probing(_, left) => AskV::Probe(left[0]),
            StageV::Over => AskV::Over,
        }
    }

    pub open spec fn at(self, stage: StageV) -> LoopV {
        LoopV { stage, ..self }
    }

    pub open spec fn with_run(self, run: GoalRunV) -> LoopV {
        LoopV { run, ..self }
    }

    /// Another plan is made, as far as the replans go.
    pub open spec fn replanning(self, why: Seq<char>) -> LoopV {
        let begun = self.run.planning_begun();
        LoopV {
            run: begun.0,
            reason: why,
            stage: if begun.1 {
                StageV::Starting
            } else {
                StageV::Over
            },
            ..self
        }
    }

    /// The goal holds.
    pub open spec fn met(self) -> LoopV {
        self.with_run(self.run.satisfied()).at(StageV::Over)
    }

    /// The step after one that is done with.
    pub open spec fn past(self, i: usize) -> LoopV {
        self.at(
            if i + 1 < self.steps {
                StageV::Reading((i + 1) as usize)
            } else {
                StageV::Completed
            },
        )
    }

    /// A failure is dealt with.
    pub open spec fn set_back(self, back: SetbackV) -> LoopV {
        let run = match back.at {
            Some(at) => self.run.showing("failed"@, back.why, (at.0 + 1) as usize, Some(at.1)),
            None => self.run,
        };
        self.with_run(run).replanning(back.why)
    }

    /// A step failed: the loop rules are applied, and the position is looked
    /// into where it is in doubt.
    pub open spec fn failing(
        self,
        i: usize,
        step: PlannedStep,
        reason: Seq<char>,
        here: Option<Here>,
        shown: bool,
    ) -> (LoopV, Seq<NoteV>) {
        let pose = pose_here(here);
        let why = step.intent@ + " failed: "@ + reason;
        let back = SetbackV {
            why,
            at: if shown {
                Some((i, step))
            } else {
                None
            },
        };
        let next = self.with_run(self.run.failing(step, reason, pose));
        let told = if self.run.again(step, reason) {
            said(why).push(NoteV::Infeasible(step.intent@))
        } else {
            said(why)
        };
        if self.run.astray(step, pose) {
            (
                next.at(StageV::Looking(back)),
                told.push(
                    NoteV::Progress(
                        decimal_of(RELOCALISE_AFTER as nat) + " different intents failed at "@
                            + here->0.text@ + ": re-localising and probing "@ + listing(
                            plan_assumes(self.run.report.last_plan()),
                        ),
                    ),
                ),
            )
        } else {
            (next.set_back(back), told)
        }
    }

    pub open spec fn after_start(self, answer: Answer) -> (LoopV, Seq<NoteV>) {
        match answer {
            Answer::Holds { holds, .. } => if holds {
                (self.met(), Seq::empty())
            } else {
                (
                    self.with_run(self.run.planning(self.reason)).at(StageV::Planning),
                    Seq::empty(),
                )
            },
            _ => (self, Seq::empty()),
        }
    }

    pub open spec fn after_planning(self, answer: Answer) -> (LoopV, Seq<NoteV>) {
        match answer {
            Answer::Plan { plan, frame_id, pose } => {
                let taken = self.run.planned(self.reason, frame_id, place_of(pose), plan);
                (
                    LoopV {
                        run: taken.0,
                        steps: plan.lines.len(),
                        stage: if taken.1 {
                            StageV::Reading(0)
                        } else {
                            StageV::Over
                        },
                        ..self
                    },
                    Seq::empty(),
                )
            },
            Answer::NoPlan(e) => (
                self.with_run(
                    self.run.ended("no plan: "@ + e@).showing("given up"@, e@, 0, None),
                ).at(StageV::Over),
                Seq::empty(),
            ),
            _ => (self, Seq::empty()),
        }
    }

    pub open spec fn after_reading(self, i: usize, answer: Answer) -> (LoopV, Seq<NoteV>) {
        match answer {
            Answer::Step(step) => {
                let checked = self.run.checked((i + 1) as usize, step);
                let next = self.with_run(checked.0);
                match checked.1 {
                    StepCheckV::Skip(why) => (next.past(i), said(why)),
                    StepCheckV::Replan(why) => (next.replanning(why), said(why)),
                    StepCheckV::Run => (next.at(StageV::Resolving(i, step)), Seq::empty()),
                }
            },
            _ => (self, Seq::empty()),
        }
    }

    pub open spec fn after_resolving(self, i: usize, step: PlannedStep, answer: Answer) -> (
        LoopV,
        Seq<NoteV>,
    ) {
        match answer {
            Answer::Tool(tool) => (
                self.with_run(
                    self.run.showing("running"@, tool@, (i + 1) as usize, Some(step)),
                ).at(StageV::Running(i, step)),
                said(
                    "step "@ + decimal_of((i + 1) as nat) + "/"@ + decimal_of(self.steps as nat)
                        + ": "@ + step.intent@,
                ),
            ),
            Answer::NoTool { error, here } => self.failing(i, step, error@, here, true),
            _ => (self, Seq::empty()),
        }
    }

    pub open spec fn after_running(self, i: usize, step: PlannedStep, answer: Answer) -> (
        LoopV,
        Seq<NoteV>,
    ) {
        match answer {
            Answer::Ran { learned, failed, assumes, here } => {
                let now = reread(step, assumes);
                let ran = self.run.ran(events_of(learned@), failed is None);
                let next = self.with_run(ran.0);
                match failed {
                    Some(e) => next.failing(i, now, e@, here, true),
                    None => if ran.1 {
                        (next.at(StageV::Saving(i, now)), Seq::empty())
                    } else {
                        (next.at(StageV::Checking(i, now)), Seq::empty())
                    },
                }
            },
            _ => (self, Seq::empty()),
        }
    }

    pub open spec fn after_saving(self, i: usize, step: PlannedStep, answer: Answer) -> (
        LoopV,
        Seq<NoteV>,
    ) {
        match answer {
            Answer::Ran { learned, failed, assumes, here } => {
                let now = reread(step, assumes);
                let next = self.with_run(self.run.saved(events_of(learned@), failed is None));
                match failed {
                    Some(e) => next.failing(i, now, "save: "@ + e@, here, false),
                    None => (next.at(StageV::Checking(i, now)), Seq::empty()),
                }
            },
            _ => (self, Seq::empty()),
        }
    }

    pub open spec fn after_checking(self, i: usize, step: PlannedStep, answer: Answer) -> (
        LoopV,
        Seq<NoteV>,
    ) {
        match answer {
            Answer::Holds { holds, assumes } => if holds {
                let now = reread(step, assumes);
                (
                    self.with_run(
                        self.run.showing(
                            "done"@,
                            "goal satisfied"@,
                            (i + 1) as usize,
                            Some(now),
                        ),
                    ).met(),
                    Seq::empty(),
                )
            } else {
                (self.past(i), Seq::empty())
            },
            _ => (self, Seq::empty()),
        }
    }

    pub open spec fn after_completion(self, answer: Answer) -> (LoopV, Seq<NoteV>) {
        match answer {
            Answer::Holds { holds, .. } => if holds {
                (self.met(), Seq::empty())
            } else {
                (
                    self.replanning("the plan ran through but the goal does not hold"@),
                    Seq::empty(),
                )
            },
            _ => (self, Seq::empty()),
        }
    }

    pub open spec fn probing(self, back: SetbackV, left: Seq<Seq<char>>) -> LoopV {
        if left.len() == 0 {
            self.set_back(back)
        } else {
            self.at(StageV::Probing(back, left))
        }
    }

    pub open spec fn after_looking(self, back: SetbackV, answer: Answer) -> (LoopV, Seq<NoteV>) {
        match answer {
            Answer::Looked => (
                self.probing(back, plan_probes(self.run.report.last_plan())),
                Seq::empty(),
            ),
            _ => (self, Seq::empty()),
        }
    }

    pub open spec fn after_probing(self, back: SetbackV, left: Seq<Seq<char>>, answer: Answer) -> (
        LoopV,
        Seq<NoteV>,
    ) {
        match answer {
            Answer::Probed(learned) => (
                self.with_run(self.run.learning(events_of(learned@))).probing(
                    back,
                    left.remove(0),
                ),
                Seq::empty(),
            ),
            _ => (self, Seq::empty()),
        }
    }

    /// Where the loop stands after an answer, and what is logged.
    pub open spec fn after(self, answer: Answer) -> (LoopV, Seq<NoteV>) {
        match self.stage {
            StageV::Starting => self.after_start(answer),
            StageV::Planning => self.after_planning(answer),
            StageV::Reading(i) => self.after_reading(i, answer),
            StageV::Resolving(i, step) => self.after_resolving(i, step, answer),
            StageV::Running(i, step) => self.after_running(i, step, answer),
            StageV::Saving(i, step) => self.after_saving(i, step, answer),
            StageV::Checking(i, step) => self.after_checking(i, step, answer),
            StageV::Completed => self.after_completion(answer),
            StageV::Looking(back) => self.after_looking(back, answer),
            StageV::Probing(back, left) => self.after_probing(back, left, answer),
            StageV::Over => (self, Seq::empty()),
        }
    }
}

fn no_notes() -> (notes: Vec<Note>)
    ensures
        notes_of(notes@) == Seq::<NoteV>::empty(),
{
    let notes: Vec<Note> = Vec::new();
    assert(notes_of(notes@) =~= Seq::empty());
    notes
}

fn say(s: String) -> (notes: Vec<Note>)
    ensures
        notes_of(notes@) == said(s@),
{
    let notes: Vec<Note> = vec![Note::Progress(s)];
    assert(notes_of(notes@) =~= said(s@));
    notes
}

fn add_note(notes: &mut Vec<Note>, note: Note)
    ensures
        notes_of(final(notes)@) == notes_of(old(notes)@).push(note@),
{
    let ghost before = notes@;
    notes.push(note);
    assert(notes_of(notes@) =~= notes_of(before).push(note@));
}

fn holds_line(lines: &Vec<String>, s: &String) -> (r: bool)
    ensures
        r == lines_of(lines@).contains(s@),
{
    let mut i: usize = 0;
    while i < lines.len()
        invariant
            i <= lines@.len(),
            forall|j: int| 0 <= j < i ==> #[trigger] lines_of(lines@)[j] != s@,
        decreases lines@.len() - i,
    {
        if lines[i] == *s {
            assert(lines_of(lines@)[i as int] == s@);
            return true;
        }
        i += 1;
    }
    false
}

fn pick_probes(probes: &Vec<Option<String>>) -> (v: Vec<String>)
    ensures
        lines_of(v@) == distinct_probes(probes@),
{
    let mut v: Vec<String> = Vec::new();
    let mut i: usize = 0;
    assert(probes@.take(0) =~= Seq::empty());
    assert(lines_of(v@) =~= Seq::empty());
    while i < probes.len()
        invariant
            i <= probes@.len(),
            lines_of(v@) == distinct_probes(probes@.take(i as int)),
        decreases probes@.len() - i,
    {
        assert(probes@.take(i + 1).drop_last() =~= probes@.take(i as int));
        assert(probes@.take(i + 1).last() == probes@[i as int]);
        match &probes[i] {
            Some(p) => {
                if !holds_line(&v, p) {
                    let ghost before = v@;
                    v.push(p.clone());
                    assert(lines_of(v@) =~= lines_of(before).push(p@));
                }
            },
            None => {},
        }
        i += 1;
    }
    assert(probes@.take(probes@.len() as int) =~= probes@);
    v
}

impl GoalLoop {
    /// The loop at the start of a run.
    pub fn new(goal: &str, opts: &GoalOptions) -> (l: GoalLoop)
        ensures
            l@ == (LoopV {
                run: GoalRunV::fresh(goal@, opts.max_replans, opts.save_game).planning_begun().0,
                reason: "start"@,
                steps: 0,
                stage: StageV::Starting,
            }),
            l@.wf(),
    {
        let mut run = GoalRun::new(goal, opts);
        run.begin_plan();
        GoalLoop { run, reason: "start".to_owned(), steps: 0, stage: Stage::Starting }
    }

    /// What is needed next.
    pub fn ask(&self) -> (a: Ask)
        requires
            self@.wf(),
        ensures
            a@ == self@.asks(),
    {
        match &self.stage {
            Stage::Starting => Ask::Holds,
            Stage::Planning => Ask::Plan,
            Stage::Reading(i) => Ask::Step(*i),
            Stage::Resolving(i, _) => Ask::Resolve(*i),
            Stage::Running(i, _) => Ask::Invoke(*i),
            Stage::Saving(_, _) => Ask::Save,
            Stage::Checking(_, _) => Ask::Holds,
            Stage::Completed => Ask::Holds,
            Stage::Looking(_) => Ask::Look,
            Stage::Probing(_, left) => {
                assert(lines_of(left@).len() == left@.len());
                Ask::Probe(left[0].clone())
            },
            Stage::Over => Ask::Over,
        }
    }

    fn replan(&mut self, why: String)
        ensures
            final(self)@ == old(self)@.replanning(why@),
    {
        let more = self.run.begin_plan();
        self.reason = why;
        self.stage = if more {
            Stage::Starting
        } else {
            Stage::Over
        };
    }

    fn succeed(&mut self)
        ensures
            final(self)@ == old(self)@.met(),
    {
        self.run.satisfy();
        self.stage = Stage::Over;
    }

    fn pass(&mut self, i: usize)
        requires
            i < old(self).steps,
        ensures
            final(self)@ == old(self)@.past(i),
    {
        self.stage = if i + 1 < self.steps {
            Stage::Reading(i + 1)
        } else {
            Stage::Completed
        };
    }

    fn give_way(&mut self, back: Setback)
        requires
            back.at matches Some(at) ==> at.0 < old(self).steps,
        ensures
            final(self)@ == old(self)@.set_back(back@),
    {
        match &back.at {
            Some(at) => {
                self.run.set_status("failed", back.why.as_str(), at.0 + 1, Some(&at.1));
            },
            None => {},
        }
        self.replan(back.why);
    }

    fn fail(
        &mut self,
        i: usize,
        step: PlannedStep,
        reason: &str,
        here: Option<Here>,
        shown: bool,
    ) -> (notes: Vec<Note>)
        requires
            i < old(self).steps,
        ensures
            final(self)@ == old(self)@.failing(i, step, reason@, here, shown).0,
            notes_of(notes@) == old(self)@.failing(i, step, reason@, here, shown).1,
    {
        let ghost before = self@;
        let failure = match &here {
            Some(h) => self.run.failed(&step, reason, Some(&h.pose)),
            None => self.run.failed(&step, reason, None),
        };
        assert(self@ == before.with_run(before.run.failing(step, reason@, pose_here(here))));
        let mut notes = say(failure.why.clone());
        if failure.infeasible {
            add_note(&mut notes, Note::Infeasible(step.intent.clone()));
        }
        if failure.relocalise {
            match &here {
                Some(h) => {
                    let text = self.doubt(h);
                    add_note(&mut notes, Note::Progress(text));
                },
                None => {},
            }
        }
        let back = Setback {
            why: failure.why,
            at: if shown {
                Some((i, step))
            } else {
                None
            },
        };
        if failure.relocalise {
            self.stage = Stage::Looking(back);
        } else {
            self.give_way(back);
        }
        notes
    }

    /// What is logged when the position is in doubt.
    fn doubt(&self, here: &Here) -> (s: String)
        ensures
            s@ == decimal_of(RELOCALISE_AFTER as nat) + " different intents failed at "@
                + here.text@ + ": re-localising and probing "@ + listing(
                plan_assumes(self@.run.report.last_plan()),
            ),
    {
        match self.run.report.last_plan() {
            Some(p) => relocalise_note(here.text.as_str(), &p.assumes),
            None => {
                let none: Vec<Fact> = Vec::new();
                assert(none@ =~= Seq::empty());
                relocalise_note(here.text.as_str(), &none)
            },
        }
    }

    fn started(&mut self, answer: Answer) -> (notes: Vec<Note>)
        ensures
            final(self)@ == old(self)@.at(StageV::Starting).after_start(answer).0,
            notes_of(notes@) == old(self)@.at(StageV::Starting).after_start(answer).1,
    {
        self.stage = Stage::Starting;
        if let Answer::Holds { holds, .. } = answer {
            if holds {
                self.succeed();
            } else {
                let reason = self.reason.clone();
                self.run.show_planning(reason.as_str());
                self.stage = Stage::Planning;
            }
        }
        no_notes()
    }

    fn planned(&mut self, answer: Answer) -> (notes: Vec<Note>)
        ensures
            final(self)@ == old(self)@.at(StageV::Planning).after_planning(answer).0,
            notes_of(notes@) == old(self)@.at(StageV::Planning).after_planning(answer).1,
    {
        self.stage = Stage::Planning;
        match answer {
            Answer::Plan { plan, frame_id, pose } => {
                let steps: usize = plan.lines.len();
                let reason = self.reason.clone();
                let more = self.run.take_plan(reason.as_str(), frame_id, pose, plan);
                self.steps = steps;
                self.stage = if more {
                    Stage::Reading(0)
                } else {
                    Stage::Over
                };
            },
            Answer::NoPlan(e) => {
                self.run.no_plan(e.as_str());
                self.stage = Stage::Over;
            },
            _ => {},
        }
        no_notes()
    }

    fn read(&mut self, i: usize, answer: Answer) -> (notes: Vec<Note>)
        requires
            i < old(self).steps,
        ensures
            final(self)@ == old(self)@.at(StageV::Reading(i)).after_reading(i, answer).0,
            notes_of(notes@) == old(self)@.at(StageV::Reading(i)).after_reading(i, answer).1,
    {
        self.stage = Stage::Reading(i);
        if let Answer::Step(step) = answer {
            match self.run.check_step(i + 1, &step) {
                StepCheck::Skip(why) => {
                    self.pass(i);
                    return say(why);
                },
                StepCheck::Replan(why) => {
                    self.replan(why.clone());
                    return say(why);
                },
                StepCheck::Run => {
                    self.stage = Stage::Resolving(i, step);
                },
            }
        }
        no_notes()
    }

    fn resolved(&mut self, i: usize, step: PlannedStep, answer: Answer) -> (notes: Vec<Note>)
        requires
            i < old(self).steps,
        ensures
            ({
                let r = old(self)@.at(StageV::Resolving(i, step)).after_resolving(i, step, answer);
                final(self)@ == r.0 && notes_of(notes@) == r.1
            }),
    {
        match answer {
            Answer::Tool(tool) => {
                let note = self.run.run_step(i + 1, self.steps, &step, tool.as_str());
                self.stage = Stage::Running(i, step);
                say(note)
            },
            Answer::NoTool { error, here } => {
                let ghost before = self@;
                let notes = self.fail(i, step, error.as_str(), here, true);
                proof {
                    same_failure(before, StageV::Resolving(i, step), i, step, error@, here, true);
                }
                notes
            },
            _ => {
                self.stage = Stage::Resolving(i, step);
                no_notes()
            },
        }
    }

    fn ran(&mut self, i: usize, step: PlannedStep, answer: Answer) -> (notes: Vec<Note>)
        requires
            i < old(self).steps,
        ensures
            ({
                let r = old(self)@.at(StageV::Running(i, step)).after_running(i, step, answer);
                final(self)@ == r.0 && notes_of(notes@) == r.1
            }),
    {
        match answer {
            Answer::Ran { learned, failed, assumes, here } => {
                let now = PlannedStep {
                    intent: step.intent,
                    name: step.name,
                    unless: step.unless,
                    assumes,
                };
                let save = self.run.step_ran(learned, failed.is_none());
                match failed {
                    Some(e) => {
                        let ghost before = self@;
                        let notes = self.fail(i, now, e.as_str(), here, true);
                        proof {
                            same_failure(
                                before,
                                StageV::Running(i, step),
                                i,
                                now,
                                e@,
                                here,
                                true,
                            );
                        }
                        notes
                    },
                    None => {
                        self.stage = if save {
                            Stage::Saving(i, now)
                        } else {
                            Stage::Checking(i, now)
                        };
                        no_notes()
                    },
                }
            },
            _ => {
                self.stage = Stage::Running(i, step);
                no_notes()
            },
        }
    }

    fn saved(&mut self, i: usize, step: PlannedStep, answer: Answer) -> (notes: Vec<Note>)
        requires
            i < old(self).steps,
        ensures
            ({
                let r = old(self)@.at(StageV::Saving(i, step)).after_saving(i, step, answer);
                final(self)@ == r.0 && notes_of(notes@) == r.1
            }),
    {
        match answer {
            Answer::Ran { learned, failed, assumes, here } => {
                let now = PlannedStep {
                    intent: step.intent,
                    name: step.name,
                    unless: step.unless,
                    assumes,
                };
                self.run.save_ran(learned, failed.is_none());
                match failed {
                    Some(e) => {
                        let ghost before = self@;
                        let reason = cat("save: ", e.as_str());
                        let notes = self.fail(i, now, reason.as_str(), here, false);
                        proof {
                            same_failure(
                                before,
                                StageV::Saving(i, step),
                                i,
                                now,
                                reason@,
                                here,
                                false,
                            );
                        }
                        notes
                    },
                    None => {
                        self.stage = Stage::Checking(i, now);
                        no_notes()
                    },
                }
            },
            _ => {
                self.stage = Stage::Saving(i, step);
                no_notes()
            },
        }
    }

    fn checked(&mut self, i: usize, step: PlannedStep, answer: Answer) -> (notes: Vec<Note>)
        requires
            i < old(self).steps,
        ensures
            ({
                let r = old(self)@.at(StageV::Checking(i, step)).after_checking(i, step, answer);
                final(self)@ == r.0 && notes_of(notes@) == r.1
            }),
    {
        match answer {
            Answer::Holds { holds, assumes } => {
                if holds {
                    let now = PlannedStep {
                        intent: step.intent,
                        name: step.name,
                        unless: step.unless,
                        assumes,
                    };
                    self.run.set_status("done", "goal satisfied", i + 1, Some(&now));
                    self.succeed();
                } else {
                    self.pass(i);
                }
            },
            _ => {
                self.stage = Stage::Checking(i, step);
            },
        }
        no_notes()
    }

    fn completed(&mut self, answer: Answer) -> (notes: Vec<Note>)
        ensures
            final(self)@ == old(self)@.at(StageV::Completed).after_completion(answer).0,
            notes_of(notes@) == old(self)@.at(StageV::Completed).after_completion(answer).1,
    {
        self.stage = Stage::Completed;
        if let Answer::Holds { holds, .. } = answer {
            if holds {
                self.succeed();
            } else {
                self.replan("the plan ran through but the goal does not hold".to_owned());
            }
        }
        no_notes()
    }

    fn probe(&mut self, back: Setback, left: Vec<String>)
        requires
            back.at matches Some(at) ==> at.0 < old(self).steps,
        ensures
            final(self)@ == old(self)@.probing(back@, lines_of(left@)),
    {
        assert(lines_of(left@).len() == left@.len());
        if left.len() == 0 {
            self.give_way(back);
        } else {
            self.stage = Stage::Probing(back, left);
        }
    }

    fn looked(&mut self, back: Setback, answer: Answer) -> (notes: Vec<Note>)
        requires
            back.at matches Some(at) ==> at.0 < old(self).steps,
        ensures
            ({
                let r = old(self)@.at(StageV::Looking(back@)).after_looking(back@, answer);
                final(self)@ == r.0 && notes_of(notes@) == r.1
            }),
    {
        match answer {
            Answer::Looked => {
                let probes: Vec<String> = match self.run.report.last_plan() {
                    Some(p) => pick_probes(&p.probes),
                    None => {
                        let none: Vec<String> = Vec::new();
                        assert(lines_of(none@) =~= Seq::empty());
                        none
                    },
                };
                self.probe(back, probes);
            },
            _ => {
                self.stage = Stage::Looking(back);
            },
        }
        no_notes()
    }

    fn probed(&mut self, back: Setback, left: Vec<String>, answer: Answer) -> (notes: Vec<Note>)
        requires
            left@.len() > 0,
            back.at matches Some(at) ==> at.0 < old(self).steps,
        ensures
            ({
                let l = lines_of(left@);
                let r = old(self)@.at(StageV::Probing(back@, l)).after_probing(back@, l, answer);
                final(self)@ == r.0 && notes_of(notes@) == r.1
            }),
    {
        let mut left = left;
        match answer {
            Answer::Probed(learned) => {
                let mut learned = learned;
                self.run.learn(&mut learned);
                let ghost before = left@;
                left.remove(0);
                assert(lines_of(left@) =~= lines_of(before).remove(0));
                self.probe(back, left);
            },
            _ => {
                self.stage = Stage::Probing(back, left);
            },
        }
        no_notes()
    }

    /// Goes on from what came back, and what is logged. An answer to another
    /// question is not taken.
    pub fn answer(&mut self, answer: Answer) -> (notes: Vec<Note>)
        requires
            old(self)@.wf(),
        ensures
            final(self)@ == old(self)@.after(answer).0,
            notes_of(notes@) == old(self)@.after(answer).1,
            final(self)@.wf(),
    {
        proof {
            the_loop_stays_within_its_plan(self@, answer);
        }
        let ghost before = self@;
        let mut stage = Stage::Over;
        std::mem::swap(&mut self.stage, &mut stage);
        assert(self@.at(before.stage) =~= before);
        match stage {
            Stage::Starting => self.started(answer),
            Stage::Planning => self.planned(answer),
            Stage::Reading(i) => self.read(i, answer),
            Stage::Resolving(i, step) => self.resolved(i, step, answer),
            Stage::Running(i, step) => self.ran(i, step, answer),
            Stage::Saving(i, step) => self.saved(i, step, answer),
            Stage::Checking(i, step) => self.checked(i, step, answer),
            Stage::Completed => self.completed(answer),
            Stage::Looking(back) => self.looked(back, answer),
            Stage::Probing(back, left) => {
                assert(lines_of(left@).len() == left@.len());
                self.probed(back, left, answer)
            },
            Stage::Over => no_notes(),
        }
    }
}

/// What a failure leads to does not depend on the stage it comes in.
proof fn same_failure(
    l: LoopV,
    stage: StageV,
    i: usize,
    step: PlannedStep,
    reason: Seq<char>,
    here: Option<Here>,
    shown: bool,
)
    ensures
        l.at(stage).failing(i, step, reason, here, shown) == l.failing(
            i,
            step,
            reason,
            here,
            shown,
        ),
{
}

/// What is left of a run: the plans that may still be made, how far the plan in
/// force is, and what is left of it. Compared in that order.
pub struct Left {
    pub plans: int,
    pub phase: int,
    pub steps: int,
    pub probes: int,
}

impl Left {
    pub open spec fn less_than(self, o: Left) -> bool {
        ||| self.plans < o.plans
        ||| self.plans == o.plans && self.phase < o.phase
        ||| self.plans == o.plans && self.phase == o.phase && self.steps < o.steps
        ||| self.plans == o.plans && self.phase == o.phase && self.steps == o.steps && self.probes
            < o.probes
    }

    pub open spec fn counted(self) -> bool {
        self.plans >= 0 && self.phase >= 0 && self.steps >= 0 && self.probes >= 0
    }
}

impl LoopV {
    pub open spec fn left(self) -> Left {
        let plans = self.run.max_replans + 1 - self.run.plan_no;
        let n = self.steps as int;
        match self.stage {
            StageV::Starting => Left { plans, phase: 3, steps: 0, probes: 0 },
            StageV::Planning => Left { plans, phase: 2, steps: 0, probes: 0 },
            StageV::Reading(i) => Left { plans, phase: 1, steps: 5 * (n - i) + 4, probes: 0 },
            StageV::Resolving(i, _) => Left { plans, phase: 1, steps: 5 * (n - i) + 3, probes: 0 },
            StageV::Running(i, _) => Left { plans, phase: 1, steps: 5 * (n - i) + 2, probes: 0 },
            StageV::Saving(i, _) => Left { plans, phase: 1, steps: 5 * (n - i) + 1, probes: 0 },
            StageV::Checking(i, _) => Left { plans, phase: 1, steps: 5 * (n - i), probes: 0 },
            StageV::Completed => Left { plans, phase: 1, steps: 3, probes: 0 },
            StageV::Looking(_) => Left { plans, phase: 1, steps: 2, probes: 0 },
            StageV::Probing(_, left) => Left {
                plans,
                phase: 1,
                steps: 1,
                probes: left.len() as int,
            },
            StageV::Over => Left { plans, phase: 0, steps: 0, probes: 0 },
        }
    }

    /// The answer is one to what is asked.
    pub open spec fn takes(self, answer: Answer) -> bool {
        match self.asks() {
            AskV::Holds => answer is Holds,
            AskV::Plan => answer is Plan || answer is NoPlan,
            AskV::Step(_) => answer is Step,
            AskV::Resolve(_) => answer is Tool || answer is NoTool,
            AskV::Invoke(_) => answer is Ran,
            AskV::Save => answer is Ran,
            AskV::Look => answer is Looked,
            AskV::Probe(_) => answer is Probed,
            AskV::Over => false,
        }
    }

    /// As many plans were made as may be, and steps of this plan are in force.
    spec fn within(self, phase: int, steps: int, o: LoopV) -> bool {
        &&& o.wf()
        &&& o.run.max_replans == self.run.max_replans
        &&& self.run.max_replans < u32::MAX ==> o.left().less_than(
            Left {
                plans: self.run.max_replans + 1 - self.run.plan_no,
                phase,
                steps,
                probes: 0,
            },
        )
    }
}

proof fn replanning_ends(l: LoopV, why: Seq<char>)
    requires
        l.run.plan_no <= l.run.max_replans + 1,
    ensures
        l.within(1, 0, l.replanning(why)),
{
}

proof fn setting_back_ends(l: LoopV, back: SetbackV)
    requires
        l.run.plan_no <= l.run.max_replans + 1,
    ensures
        l.within(1, 0, l.set_back(back)),
{
    let run = match back.at {
        Some(at) => l.run.showing("failed"@, back.why, (at.0 + 1) as usize, Some(at.1)),
        None => l.run,
    };
    assert(run.plan_no == l.run.plan_no && run.max_replans == l.run.max_replans);
    replanning_ends(l.with_run(run), back.why);
}

proof fn failing_ends(
    l: LoopV,
    i: usize,
    step: PlannedStep,
    reason: Seq<char>,
    here: Option<Here>,
    shown: bool,
)
    requires
        l.run.plan_no <= l.run.max_replans + 1,
        i < l.steps,
    ensures
        l.within(1, 3, l.failing(i, step, reason, here, shown).0),
{
    let back = SetbackV {
        why: step.intent@ + " failed: "@ + reason,
        at: if shown {
            Some((i, step))
        } else {
            None
        },
    };
    let next = l.with_run(l.run.failing(step, reason, pose_here(here)));
    assert(next.run.plan_no == l.run.plan_no && next.run.max_replans == l.run.max_replans);
    setting_back_ends(next, back);
}

proof fn passing_ends(l: LoopV, i: usize)
    requires
        l.run.plan_no <= l.run.max_replans + 1,
        i < l.steps,
    ensures
        l.within(1, 5 * (l.steps - i), l.past(i)),
{
}

proof fn probing_ends(l: LoopV, back: SetbackV, left: Seq<Seq<char>>)
    requires
        l.run.plan_no <= l.run.max_replans + 1,
        back.at matches Some(at) ==> at.0 < l.steps,
    ensures
        l.within(1, 2, l.probing(back, left)),
        left.len() == 0 ==> l.within(1, 0, l.probing(back, left)),
{
    setting_back_ends(l, back);
}

proof fn starting_ends(l: LoopV, answer: Answer)
    requires
        l.wf(),
        l.stage is Starting,
        l.takes(answer),
    ensures
        l.within(3, 0, l.after_start(answer).0),
{
}

proof fn planning_ends(l: LoopV, answer: Answer)
    requires
        l.wf(),
        l.stage is Planning,
        l.takes(answer),
    ensures
        l.within(2, 0, l.after_planning(answer).0),
{
    if let Answer::Plan { plan, frame_id, pose } = answer {
        let taken = l.run.planned(l.reason, frame_id, place_of(pose), plan);
        assert(taken.0.plan_no == l.run.plan_no && taken.0.max_replans == l.run.max_replans);
        assert(plan.lines.len() == plan.lines@.len());
    }
}

proof fn reading_ends(l: LoopV, i: usize, answer: Answer)
    requires
        l.wf(),
        l.stage == StageV::Reading(i),
        l.takes(answer),
    ensures
        l.within(1, 5 * (l.steps - i) + 4, l.after_reading(i, answer).0),
{
    if let Answer::Step(step) = answer {
        let checked = l.run.checked((i + 1) as usize, step);
        let next = l.with_run(checked.0);
        assert(next.run.plan_no == l.run.plan_no && next.run.max_replans == l.run.max_replans);
        match checked.1 {
            StepCheckV::Skip(why) => passing_ends(next, i),
            StepCheckV::Replan(why) => replanning_ends(next, why),
            StepCheckV::Run => {},
        }
    }
}

proof fn resolving_ends(l: LoopV, i: usize, step: PlannedStep, answer: Answer)
    requires
        l.wf(),
        l.stage == StageV::Resolving(i, step),
        l.takes(answer),
    ensures
        l.within(1, 5 * (l.steps - i) + 3, l.after_resolving(i, step, answer).0),
{
    if let Answer::NoTool { error, here } = answer {
        failing_ends(l, i, step, error@, here, true);
    }
}

proof fn running_ends(l: LoopV, i: usize, step: PlannedStep, answer: Answer)
    requires
        l.wf(),
        l.stage == StageV::Running(i, step),
        l.takes(answer),
    ensures
        l.within(1, 5 * (l.steps - i) + 2, l.after_running(i, step, answer).0),
{
    if let Answer::Ran { learned, failed, assumes, here } = answer {
        let ran = l.run.ran(events_of(learned@), failed is None);
        let next = l.with_run(ran.0);
        assert(next.run.plan_no == l.run.plan_no && next.run.max_replans == l.run.max_replans);
        if let Some(e) = failed {
            failing_ends(next, i, reread(step, assumes), e@, here, true);
        }
    }
}

proof fn saving_ends(l: LoopV, i: usize, step: PlannedStep, answer: Answer)
    requires
        l.wf(),
        l.stage == StageV::Saving(i, step),
        l.takes(answer),
    ensures
        l.within(1, 5 * (l.steps - i) + 1, l.after_saving(i, step, answer).0),
{
    if let Answer::Ran { learned, failed, assumes, here } = answer {
        let next = l.with_run(l.run.saved(events_of(learned@), failed is None));
        assert(next.run.plan_no == l.run.plan_no && next.run.max_replans == l.run.max_replans);
        if let Some(e) = failed {
            failing_ends(next, i, reread(step, assumes), "save: "@ + e@, here, false);
        }
    }
}

proof fn checking_ends(l: LoopV, i: usize, step: PlannedStep, answer: Answer)
    requires
        l.wf(),
        l.stage == StageV::Checking(i, step),
        l.takes(answer),
    ensures
        l.within(1, 5 * (l.steps - i), l.after_checking(i, step, answer).0),
{
    passing_ends(l, i);
}

proof fn completion_ends(l: LoopV, answer: Answer)
    requires
        l.wf(),
        l.stage is Completed,
        l.takes(answer),
    ensures
        l.within(1, 3, l.after_completion(answer).0),
{
    replanning_ends(l, "the plan ran through but the goal does not hold"@);
}

proof fn looking_ends(l: LoopV, back: SetbackV, answer: Answer)
    requires
        l.wf(),
        l.stage == StageV::Looking(back),
        l.takes(answer),
    ensures
        l.within(1, 2, l.after_looking(back, answer).0),
{
    probing_ends(l, back, plan_probes(l.run.report.last_plan()));
}

proof fn a_probe_ends(l: LoopV, back: SetbackV, left: Seq<Seq<char>>, answer: Answer)
    requires
        l.wf(),
        l.stage == StageV::Probing(back, left),
        l.takes(answer),
    ensures
        l.after_probing(back, left, answer).0.wf(),
        l.run.max_replans < u32::MAX ==> l.after_probing(back, left, answer).0.left().less_than(
            l.left(),
        ),
{
    if let Answer::Probed(learned) = answer {
        let next = l.with_run(l.run.learning(events_of(learned@)));
        assert(next.run.plan_no == l.run.plan_no && next.run.max_replans == l.run.max_replans);
        probing_ends(next, back, left.remove(0));
    }
}

/// An answer to another question changes nothing.
pub proof fn only_what_is_asked_is_taken(l: LoopV, answer: Answer)
    requires
        l.wf(),
        !l.takes(answer),
    ensures
        l.after(answer) == (l, Seq::<NoteV>::empty()),
{
}

/// Every answer to what is asked leaves less of the run: it comes to its end,
/// whatever the planner and the tools do. (The replans are counted to
/// `u32::MAX`: with that many allowed they never run out.)
pub proof fn the_loop_ends(l: LoopV, answer: Answer)
    requires
        l.wf(),
        l.takes(answer),
        l.run.max_replans < u32::MAX,
    ensures
        l.left().counted(),
        l.after(answer).0.left().counted(),
        l.after(answer).0.left().less_than(l.left()),
{
    an_answer_leads_on(l, answer);
    the_loop_stays_within_its_plan(l, answer);
}

proof fn an_answer_leads_on(l: LoopV, answer: Answer)
    requires
        l.wf(),
        l.takes(answer),
    ensures
        l.after(answer).0.wf(),
        l.run.max_replans < u32::MAX ==> l.after(answer).0.left().less_than(l.left()),
{
    match l.stage {
        StageV::Starting => starting_ends(l, answer),
        StageV::Planning => planning_ends(l, answer),
        StageV::Reading(i) => reading_ends(l, i, answer),
        StageV::Resolving(i, step) => resolving_ends(l, i, step, answer),
        StageV::Running(i, step) => running_ends(l, i, step, answer),
        StageV::Saving(i, step) => saving_ends(l, i, step, answer),
        StageV::Checking(i, step) => checking_ends(l, i, step, answer),
        StageV::Completed => completion_ends(l, answer),
        StageV::Looking(back) => looking_ends(l, back, answer),
        StageV::Probing(back, left) => a_probe_ends(l, back, left, answer),
        StageV::Over => {},
    }
}

/// Whatever comes back, the steps asked for are steps of the plan, and no more
/// plans are made than there may be.
pub proof fn the_loop_stays_within_its_plan(l: LoopV, answer: Answer)
    requires
        l.wf(),
    ensures
        l.after(answer).0.wf(),
{
    if l.takes(answer) {
        an_answer_leads_on(l, answer);
    } else {
        only_what_is_asked_is_taken(l, answer);
    }
}

/// The run counts as satisfied only on an answer that the goal holds.
pub proof fn satisfied_means_known_to_hold(l: LoopV, answer: Answer)
    requires
        l.wf(),
        !l.run.report.satisfied,
        l.after(answer).0.run.report.satisfied,
    ensures
        answer is Holds && answer->holds,
        l.after(answer).0.stage is Over,
{
    if !(answer is Holds) {
        nothing_else_satisfies(l, answer);
    }
}

proof fn nothing_else_satisfies(l: LoopV, answer: Answer)
    requires
        l.wf(),
        !(answer is Holds),
    ensures
        l.after(answer).0.run.report.satisfied == l.run.report.satisfied,
{
    match l.stage {
        StageV::Resolving(i, step) => {
            if let Answer::NoTool { error, here } = answer {
                a_failure_keeps_the_result(l, i, step, error@, here, true);
            }
        },
        StageV::Running(i, step) => {
            if let Answer::Ran { learned, failed, assumes, here } = answer {
                let next = l.with_run(l.run.ran(events_of(learned@), failed is None).0);
                assert(next.run.report.satisfied == l.run.report.satisfied);
                if let Some(e) = failed {
                    a_failure_keeps_the_result(next, i, reread(step, assumes), e@, here, true);
                }
            }
        },
        StageV::Saving(i, step) => {
            if let Answer::Ran { learned, failed, assumes, here } = answer {
                let next = l.with_run(l.run.saved(events_of(learned@), failed is None));
                assert(next.run.report.satisfied == l.run.report.satisfied);
                if let Some(e) = failed {
                    let reason = "save: "@ + e@;
                    a_failure_keeps_the_result(
                        next,
                        i,
                        reread(step, assumes),
                        reason,
                        here,
                        false,
                    );
                }
            }
        },
        _ => {},
    }
}

proof fn a_failure_keeps_the_result(
    l: LoopV,
    i: usize,
    step: PlannedStep,
    reason: Seq<char>,
    here: Option<Here>,
    shown: bool,
)
    ensures
        l.failing(i, step, reason, here, shown).0.run.report.satisfied
            == l.run.report.satisfied,
{
    let next = l.with_run(l.run.failing(step, reason, pose_here(here)));
    assert(next.run.report.satisfied == l.run.report.satisfied);
}

/// A tool is looked up only for a step as it was read, where it is needed and
/// nothing it assumes is known to be false.
pub proof fn only_sound_steps_are_run(l: LoopV, i: usize, answer: Answer)
    requires
        l.wf(),
        l.stage == StageV::Reading(i),
        l.after(answer).0.stage is Resolving,
    ensures
        answer is Step,
        l.after(answer).0.stage == StageV::Resolving(i, answer->Step_0),
        answer->Step_0.unless@.len() == 0 || !all_true(answer->Step_0.unless@),
        contradiction(answer->Step_0.assumes@) is None,
        l.after(answer).0.run == l.run,
{
}

/// The steps of a plan are taken in order: one is read when the plan was made,
/// or when the one before it was skipped, or ran without reaching the goal.
pub proof fn steps_are_taken_in_order(l: LoopV, answer: Answer, j: usize)
    requires
        l.wf(),
        l.takes(answer),
        l.after(answer).0.stage == StageV::Reading(j),
    ensures
        match l.stage {
            StageV::Planning => j == 0,
            StageV::Reading(i) => j == i + 1,
            StageV::Checking(i, _) => j == i + 1,
            _ => false,
        },
{
}

/// A save follows a step exactly where saves are wanted and the step changed
/// what the save holds.
pub proof fn a_save_follows_a_change(
    l: LoopV,
    i: usize,
    step: PlannedStep,
    learned: Vec<GameEvent>,
    assumes: Vec<Fact>,
    here: Option<Here>,
)
    requires
        l.wf(),
        l.stage == StageV::Running(i, step),
    ensures
        ({
            let next = l.after(Answer::Ran { learned, failed: None, assumes, here }).0;
            let told = events_of(learned@);
            if l.run.save_game && exists|k: int|
                0 <= k < told.len() && changing(#[trigger] told[k]) {
                next.asks() is Save
            } else {
                next.asks() is Holds
            }
        }),
{
}

/// A tool that fails leaves the plan: the failure is kept, and the loop replans
/// (after looking into the position, where it is in doubt) or is out of replans.
pub proof fn a_failure_leaves_the_plan(
    l: LoopV,
    i: usize,
    step: PlannedStep,
    learned: Vec<GameEvent>,
    error: String,
    assumes: Vec<Fact>,
    here: Option<Here>,
)
    requires
        l.wf(),
        l.stage == StageV::Running(i, step),
    ensures
        ({
            let next = l.after(Answer::Ran { learned, failed: Some(error), assumes, here }).0;
            &&& next.run.report.failures == l.run.report.failures.push(
                step.intent@ + " failed: "@ + error@,
            )
            &&& next.stage is Starting || next.stage is Looking || next.stage is Over
            &&& next.stage is Over ==> l.run.plan_no > l.run.max_replans
        }),
{
    let next = l.with_run(l.run.ran(events_of(learned@), false).0);
    assert(next.run.report.failures == l.run.report.failures);
    let now = reread(step, assumes);
    let failing = next.run.failing(now, error@, pose_here(here));
    assert(failing.report.failures == l.run.report.failures.push(
        step.intent@ + " failed: "@ + error@,
    ));
}

} // verus!
