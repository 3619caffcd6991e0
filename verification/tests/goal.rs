use pokebot_agent::belief_view::Truth;
use pokebot_agent::event::{GameEvent, Pocket};
use pokebot_agent::goal::{
    changes_save, provenance, relocalise_note, Fact, GoalOptions, GoalRun, GoalSubject, Plan,
    PlannedStep, StepCheck,
};
use pokebot_agent::observe::PlayerPose;
use pokebot_agent::state::{Knowledge, KnowledgeSource, SavedKnowledge};

fn fact(text: &str, truth: Truth) -> Fact {
    Fact { text: text.into(), truth, source: KnowledgeSource::Observed }
}

fn step(intent: &str, name: &str) -> PlannedStep {
    PlannedStep { intent: intent.into(), name: name.into(), unless: vec![], assumes: vec![] }
}

fn plan(lines: &[&str]) -> Plan {
    Plan {
        lines: lines.iter().map(|l| l.to_string()).collect(),
        assumes: vec![],
        probes: vec![],
    }
}

fn run() -> GoalRun {
    GoalRun::new("badge 1", &GoalOptions::default())
}

fn pose(x: i32) -> PlayerPose {
    PlayerPose { map: "Route1".into(), x, y: 7 }
}

#[test]
fn replans_run_out() {
    let mut r = GoalRun::new("badge 1", &GoalOptions { max_replans: 2, ..GoalOptions::default() });
    for _ in 0..3 {
        assert!(r.begin_plan());
    }
    assert!(!r.begin_plan());
    assert_eq!(r.report.outcome, "out of replans (2 made, 2 allowed)");
}

#[test]
fn options_default_to_eight_replans_without_saves() {
    let o = GoalOptions::default();
    assert_eq!((o.max_replans, o.save_game, o.session_dir), (8, false, None));
}

#[test]
fn a_step_that_is_settled_is_skipped() {
    let mut r = run();
    let mut s = step("buy 5 ITEM_POKE_BALL", "Buy");
    s.unless = vec![fact("balls >= 5", Truth::True), fact("money", Truth::True)];
    match r.check_step(1, &s) {
        StepCheck::Skip(why) => assert_eq!(
            why,
            "buy 5 ITEM_POKE_BALL: skipped, already holds: balls >= 5, money"
        ),
        other => panic!("{other:?}"),
    }
    assert_eq!((r.report.steps_skipped, r.status.phase.as_str()), (1, "skipped"));
    s.unless[1].truth = Truth::Unknown;
    assert!(matches!(r.check_step(1, &s), StepCheck::Run));
    s.unless.clear();
    assert!(matches!(r.check_step(1, &s), StepCheck::Run));
}

#[test]
fn a_contradicted_step_replans() {
    let mut r = run();
    let mut s = step("go Route2", "Go");
    s.assumes = vec![
        fact("flag A", Truth::True),
        fact("flag B", Truth::False),
        fact("flag C", Truth::False),
    ];
    match r.check_step(2, &s) {
        StepCheck::Replan(why) => {
            assert_eq!(why, "belief_contradiction: go Route2 assumed flag B, now false")
        }
        other => panic!("{other:?}"),
    }
    assert_eq!((r.status.phase.as_str(), r.status.step), ("failed", 2));
    assert_eq!(r.status.intent.as_deref(), Some("go Route2"));
    assert_eq!(r.status.assumes.len(), 3);
    assert_eq!(r.status.assumes[1].truth, "False");
    assert_eq!(r.status.assumes[1].source, "Observed");
}

#[test]
fn the_same_failure_twice_is_infeasible() {
    let mut r = run();
    let s = step("talk Oak", "Talk");
    let first = r.failed(&s, "no path", None);
    assert_eq!(first.why, "talk Oak failed: no path");
    assert!(!first.infeasible);
    assert!(r.failed(&s, "no path", None).infeasible);
    assert_eq!(r.report.infeasible, vec!["talk Oak"]);
    // Counted afresh; another reason in between, or a success, clears it.
    assert!(!r.failed(&s, "no path", None).infeasible);
    assert!(!r.failed(&s, "stuck", None).infeasible);
    r.step_ran(vec![], true);
    assert!(!r.failed(&s, "stuck", None).infeasible);
    assert_eq!(r.report.failures.len(), 5);
}

#[test]
fn three_intents_failing_at_a_pose_put_it_in_doubt() {
    let mut r = run();
    let here = pose(3);
    assert!(!r.failed(&step("a", "Go"), "x", Some(&here)).relocalise);
    // The same intent again does not count twice, nor does another place.
    assert!(!r.failed(&step("a", "Go"), "y", Some(&here)).relocalise);
    assert!(!r.failed(&step("b", "Talk"), "x", Some(&pose(4))).relocalise);
    assert!(!r.failed(&step("b", "Talk"), "x", Some(&here)).relocalise);
    assert!(r.failed(&step("c", "Buy"), "x", Some(&here)).relocalise);
    assert!(r.failed_at.is_empty());
    assert_eq!(
        relocalise_note("Route1 (3, 7)", &vec![fact("flag A", Truth::True)]),
        "3 different intents failed at Route1 (3, 7): re-localising and probing flag A"
    );
}

#[test]
fn a_step_that_changed_the_save_is_saved() {
    let money = || vec![GameEvent::MoneyChanged { delta: -200, reason: "bought".into() }];
    let mut r = run();
    assert!(!r.step_ran(money(), true));
    let mut r =
        GoalRun::new("badge 1", &GoalOptions { save_game: true, ..GoalOptions::default() });
    assert!(!r.step_ran(vec![GameEvent::BattleEnded], true));
    assert!(!r.step_ran(money(), false));
    assert!(r.step_ran(money(), true));
    assert!(!r.report.saved_at_end);
    r.save_ran(vec![GameEvent::GameSaved], true);
    assert!(r.report.saved_at_end);
    assert_eq!(r.report.steps_run, 2);
    assert_eq!(r.report.learned.len(), 4);
}

#[test]
fn events_that_change_the_save() {
    assert!(changes_save(&GameEvent::Healed));
    assert!(changes_save(&GameEvent::BadgeEarned { badge: 1 }));
    assert!(!changes_save(&GameEvent::BattleStarted));
    assert!(!changes_save(&GameEvent::SpeciesSeen { species: "SPECIES_PIDGEY".into() }));
}

#[test]
fn a_run_ends_with_its_outcome() {
    let mut r = run();
    r.begin_plan();
    r.show_planning("start");
    assert_eq!((r.status.plan_no, r.status.phase.as_str()), (1, "planning"));
    assert!(r.report.last_plan().is_none());
    assert!(r.take_plan("start", 40, Some(pose(3)), plan(&["1. go Route2 (3s)"])));
    let record = &r.report.plans[0];
    assert_eq!((record.plan_no, record.reason.as_str(), record.frame_id), (1, "start", 40));
    assert_eq!(record.pose, Some(pose(3)));
    assert_eq!(r.report.last_plan().unwrap().lines, vec!["1. go Route2 (3s)"]);
    assert_eq!(r.status.plan, vec!["1. go Route2 (3s)"]);
    let note = r.run_step(1, 1, &step("go Route2", "Go"), "Go { map: Route2 }");
    assert_eq!(note, "step 1/1: go Route2");
    assert_eq!((r.status.step, r.status.steps), (1, 1));
    r.satisfy();
    assert_eq!(
        r.finish(false),
        Some(GameEvent::GoalFinished {
            goal: "badge 1".into(),
            success: true,
            detail: "goal satisfied".into()
        })
    );
    assert_eq!(r.status.phase, "done");
    let mut r = run();
    assert_eq!(r.finish(true), None);
    assert_eq!((r.report.outcome.as_str(), r.status.phase.as_str()), ("stopped", "given up"));
    let mut r = run();
    r.no_plan("unreachable");
    assert_eq!(r.report.outcome, "no plan: unreachable");
    assert!(!r.take_plan("start", 0, None, plan(&[])));
    assert_eq!(r.report.plans.len(), 1);
    assert_eq!(
        r.report.outcome,
        "the planner has nothing to do but the goal is not known to hold"
    );
}

#[test]
fn the_beliefs_word_has_a_source() {
    let mut k = SavedKnowledge::default();
    k.world.flags.push(("FLAG_A".into(), Knowledge::derived(true, 0)));
    k.pockets.push((Pocket::Items, Knowledge::observed(vec![("ITEM_POTION".into(), 1)], 1)));
    k.money = Knowledge::followed(3, None);
    k.caught.push(("SPECIES_PIDGEY".into(), Knowledge::observed(true, 1)));
    let of = |s: GoalSubject| provenance(&k, &s);
    assert_eq!(of(GoalSubject::Flag { name: "FLAG_A".into() }), KnowledgeSource::Derived);
    assert_eq!(of(GoalSubject::Badge { flag: "FLAG_B".into() }), KnowledgeSource::Unknown);
    assert_eq!(of(GoalSubject::HasItem { item: "ITEM_POTION".into() }), KnowledgeSource::Observed);
    assert_eq!(of(GoalSubject::HasItem { item: "ITEM_ETHER".into() }), KnowledgeSource::Unknown);
    assert_eq!(of(GoalSubject::At), KnowledgeSource::Observed);
    assert_eq!(of(GoalSubject::Money), KnowledgeSource::Followed);
    assert_eq!(of(GoalSubject::Healed), KnowledgeSource::Unknown);
    assert_eq!(
        of(GoalSubject::Caught { species: "SPECIES_PIDGEY".into() }),
        KnowledgeSource::Observed
    );
}
