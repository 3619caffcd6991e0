use pokebot_agent::belief_view::Truth;
use pokebot_agent::event::GameEvent;
use pokebot_agent::goal::{Fact, GoalOptions, Plan, PlannedStep};
use pokebot_agent::goal_loop::{Answer, Ask, GoalLoop, Here, Note};
use pokebot_agent::observe::PlayerPose;
use pokebot_agent::state::KnowledgeSource;

fn fact(text: &str, truth: Truth) -> Fact {
    Fact { text: text.into(), truth, source: KnowledgeSource::Observed }
}

fn step(intent: &str, name: &str) -> PlannedStep {
    PlannedStep { intent: intent.into(), name: name.into(), unless: vec![], assumes: vec![] }
}

fn here() -> Option<Here> {
    Some(Here {
        pose: PlayerPose { map: "Route1".into(), x: 3, y: 7 },
        text: "Route1 (3, 7)".into(),
    })
}

fn holds(holds: bool) -> Answer {
    Answer::Holds { holds, assumes: vec![] }
}

fn plan(lines: &[&str], probes: &[Option<&str>]) -> Answer {
    Answer::Plan {
        plan: Plan {
            lines: lines.iter().map(|l| l.to_string()).collect(),
            assumes: vec![fact("flag A", Truth::True), fact("balls", Truth::Unknown)],
            probes: probes.iter().map(|p| p.map(|p| p.to_string())).collect(),
        },
        frame_id: 40,
        pose: None,
    }
}

fn ran(learned: Vec<GameEvent>, failed: Option<&str>) -> Answer {
    Answer::Ran { learned, failed: failed.map(|f| f.to_string()), assumes: vec![], here: here() }
}

fn quiet(l: &mut GoalLoop, a: Answer) {
    assert_eq!(l.answer(a), vec![]);
}

fn said(l: &mut GoalLoop, a: Answer, text: &str) {
    assert_eq!(l.answer(a), vec![Note::Progress(text.into())]);
}

fn start(opts: &GoalOptions) -> GoalLoop {
    GoalLoop::new("badge 1", opts)
}

/// A loop that has just planned.
fn planned(opts: &GoalOptions, lines: &[&str]) -> GoalLoop {
    let mut l = start(opts);
    assert_eq!(l.ask(), Ask::Holds);
    quiet(&mut l, holds(false));
    assert_eq!(l.ask(), Ask::Plan);
    quiet(&mut l, plan(lines, &[Some("bag"), None, Some("party"), Some("bag")]));
    l
}

/// Runs the next step, which fails.
fn fail(l: &mut GoalLoop, intent: &str, name: &str, why: &str) -> Vec<Note> {
    quiet(l, Answer::Step(step(intent, name)));
    l.answer(Answer::Tool("tool".into()));
    l.answer(ran(vec![], Some(why)))
}

#[test]
fn a_goal_that_holds_needs_no_plan() {
    let mut l = start(&GoalOptions::default());
    quiet(&mut l, holds(true));
    assert_eq!(l.ask(), Ask::Over);
    assert!(l.run.report.satisfied);
    assert_eq!(l.run.report.outcome, "goal satisfied");
    assert!(l.run.report.plans.is_empty());
}

#[test]
fn steps_run_in_order_until_the_goal_holds() {
    let mut l = planned(&GoalOptions::default(), &["1. a", "2. b", "3. c"]);
    assert_eq!(l.run.status.phase, "planning");
    assert_eq!(l.ask(), Ask::Step(0));
    quiet(&mut l, Answer::Step(step("go Route2", "Go")));
    assert_eq!(l.ask(), Ask::Resolve(0));
    said(&mut l, Answer::Tool("Go { map: Route2 }".into()), "step 1/3: go Route2");
    assert_eq!(l.run.status.phase, "running");
    assert_eq!(l.ask(), Ask::Invoke(0));
    quiet(&mut l, ran(vec![GameEvent::BattleStarted], None));
    assert_eq!(l.ask(), Ask::Holds);
    quiet(&mut l, holds(false));
    assert_eq!(l.ask(), Ask::Step(1));
    // Settled meanwhile.
    let mut settled = step("buy balls", "Buy");
    settled.unless = vec![fact("balls >= 5", Truth::True)];
    said(
        &mut l,
        Answer::Step(settled),
        "buy balls: skipped, already holds: balls >= 5",
    );
    assert_eq!(l.ask(), Ask::Step(2));
    quiet(&mut l, Answer::Step(step("beat Brock", "Battle")));
    said(&mut l, Answer::Tool("Battle".into()), "step 3/3: beat Brock");
    quiet(&mut l, ran(vec![], None));
    quiet(&mut l, holds(true));
    assert_eq!(l.ask(), Ask::Over);
    let r = &l.run.report;
    assert!(r.satisfied);
    assert_eq!((r.steps_run, r.steps_skipped), (2, 1));
    assert_eq!(r.learned, vec![GameEvent::BattleStarted]);
    assert_eq!((l.run.status.phase.as_str(), l.run.status.step), ("done", 3));
}

#[test]
fn an_answer_to_another_question_is_not_taken() {
    let mut l = start(&GoalOptions::default());
    quiet(&mut l, Answer::Looked);
    quiet(&mut l, ran(vec![], Some("x")));
    assert_eq!(l.ask(), Ask::Holds);
    assert!(l.run.report.failures.is_empty());
}

#[test]
fn a_save_follows_a_step_that_changed_it() {
    let opts = GoalOptions { save_game: true, ..GoalOptions::default() };
    let money = || vec![GameEvent::MoneyChanged { delta: -200, reason: "bought".into() }];
    let run = |l: &mut GoalLoop| {
        quiet(l, Answer::Step(step("buy", "Buy")));
        l.answer(Answer::Tool("Buy".into()));
        l.answer(ran(money(), None));
    };
    let mut l = planned(&opts, &["1. buy"]);
    run(&mut l);
    assert_eq!(l.ask(), Ask::Save);
    quiet(&mut l, ran(vec![], None));
    assert!(l.run.report.saved_at_end);
    assert_eq!(l.ask(), Ask::Holds);
    // The last step, and the goal does not hold.
    quiet(&mut l, holds(false));
    assert_eq!(l.ask(), Ask::Holds);
    quiet(&mut l, holds(false));
    assert_eq!(l.reason, "the plan ran through but the goal does not hold");
    // A save that fails.
    let mut l = planned(&opts, &["1. buy"]);
    run(&mut l);
    said(&mut l, ran(vec![], Some("stuck")), "buy failed: save: stuck");
    assert!(!l.run.report.saved_at_end);
    assert_eq!(l.run.status.phase, "running");
    assert_eq!(l.reason, "buy failed: save: stuck");
    // Without saves none follows.
    let mut l = planned(&GoalOptions::default(), &["1. buy"]);
    run(&mut l);
    assert_eq!(l.ask(), Ask::Holds);
}

#[test]
fn a_contradiction_replans() {
    let mut l = planned(&GoalOptions::default(), &["1. go"]);
    let mut s = step("go Route2", "Go");
    s.assumes = vec![fact("flag B", Truth::False)];
    let why = "belief_contradiction: go Route2 assumed flag B, now false";
    said(&mut l, Answer::Step(s), why);
    assert_eq!((l.ask(), l.reason.as_str(), l.run.plan_no), (Ask::Holds, why, 2));
}

#[test]
fn failures_mark_intents_and_put_the_position_in_doubt() {
    let mut l = planned(&GoalOptions::default(), &["1. go"]);
    let again = |l: &mut GoalLoop| {
        quiet(l, holds(false));
        quiet(l, plan(&["1. x"], &[Some("bag"), None, Some("party"), Some("bag")]));
    };
    assert_eq!(
        fail(&mut l, "go", "Go", "no path"),
        vec![Note::Progress("go failed: no path".into())]
    );
    again(&mut l);
    assert_eq!(l.run.status.reason, "go failed: no path");
    assert_eq!(
        fail(&mut l, "go", "Go", "no path"),
        vec![Note::Progress("go failed: no path".into()), Note::Infeasible("go".into())]
    );
    again(&mut l);
    fail(&mut l, "talk", "Talk", "nobody");
    again(&mut l);
    quiet(&mut l, Answer::Step(step("fly", "Fly")));
    assert_eq!(
        l.answer(Answer::NoTool { error: "no such tool".into(), here: here() }),
        vec![
            Note::Progress("fly failed: no such tool".into()),
            Note::Progress(
                "3 different intents failed at Route1 (3, 7): re-localising and probing \
                 flag A, balls"
                    .into()
            ),
        ]
    );
    // Each fact is probed once.
    assert_eq!(l.ask(), Ask::Look);
    quiet(&mut l, Answer::Looked);
    assert_eq!(l.ask(), Ask::Probe("bag".into()));
    quiet(&mut l, Answer::Probed(vec![GameEvent::BattleStarted]));
    assert_eq!(l.ask(), Ask::Probe("party".into()));
    assert_eq!(l.run.status.phase, "planning");
    quiet(&mut l, Answer::Probed(vec![]));
    assert_eq!(l.ask(), Ask::Holds);
    assert_eq!(l.run.status.phase, "failed");
    assert_eq!(l.run.status.intent.as_deref(), Some("fly"));
    assert_eq!(l.run.report.learned, vec![GameEvent::BattleStarted]);
    assert_eq!(l.reason, "fly failed: no such tool");
}

#[test]
fn the_loop_ends_without_a_plan_or_replans() {
    let mut l = start(&GoalOptions::default());
    quiet(&mut l, holds(false));
    quiet(&mut l, Answer::NoPlan("unreachable".into()));
    assert_eq!((l.ask(), l.run.report.outcome.as_str()), (Ask::Over, "no plan: unreachable"));
    let mut l = planned(&GoalOptions::default(), &[]);
    assert_eq!(l.ask(), Ask::Over);
    assert_eq!(
        l.run.report.outcome,
        "the planner has nothing to do but the goal is not known to hold"
    );
    let mut l = planned(&GoalOptions { max_replans: 0, ..GoalOptions::default() }, &["1. go"]);
    fail(&mut l, "go", "Go", "no path");
    assert_eq!(l.ask(), Ask::Over);
    assert_eq!(l.run.report.outcome, "out of replans (0 made, 0 allowed)");
    quiet(&mut l, holds(true));
    assert!(!l.run.report.satisfied);
}
