use pokebot_agent::action::{Action, Expectation};
use pokebot_agent::executor::{Decision, Executor, Outcome};
use pokebot_agent::motion::{InputKind, Timing};
use pokebot_agent::observe::{Observation, PlayerPose, ScreenState};
use pokebot_agent::pending::Moment;
use pokebot_agent::task_run::{Landing, RunStep, TaskRun};

fn pose(x: i32) -> PlayerPose {
    PlayerPose { map: "Route1".into(), x, y: 5 }
}

fn observation(frame: u64, x: i32) -> Observation {
    let mut o = Observation::bare(frame, ScreenState::Overworld);
    o.player = Some(pose(x));
    o
}

fn moment(frame: u64) -> Moment {
    Moment { frame, at_ns: frame * 20_000_000 }
}

fn step_to(x: i32) -> Action {
    Action::new("tap Right".into(), vec![], Expectation::PlayerAt(pose(x)), 30)
        .timed(InputKind::WalkTile, 1)
}

fn see(r: &mut TaskRun, e: &Executor, frame: u64, x: i32, outside: bool, idle: bool) -> RunStep {
    r.see(e, "Walk", moment(frame), &observation(frame, x), outside, idle)
}

/// A run with an action in flight from frame 10.
fn flying(e: &Executor) -> TaskRun {
    let mut r = TaskRun::new();
    assert!(matches!(see(&mut r, e, 10, 0, false, true), RunStep::Decide));
    match r.decide(e, 10, Decision::Act(step_to(1))) {
        RunStep::Issue { action, deadline } => {
            assert_eq!((action.label.as_str(), deadline), ("tap Right", 10 + e.max_frames));
            r.launch(e, action, moment(10), &observation(10, 0), deadline);
        }
        other => panic!("{other:?}"),
    }
    r
}

fn landed(s: RunStep) -> Landing {
    match s {
        RunStep::Landed(l) => l,
        other => panic!("{other:?}"),
    }
}

#[test]
fn an_action_is_followed_to_its_confirmation() {
    let e = Executor::default();
    let mut r = flying(&e);
    assert!(matches!(see(&mut r, &e, 12, 0, false, false), RunStep::Look));
    assert!(matches!(see(&mut r, &e, 30, 1, false, true), RunStep::Look));
    let l = landed(see(&mut r, &e, 31, 1, false, true));
    assert_eq!((l.outcome, l.frames, l.after_idle), (Outcome::Confirmed, 21, Some(1)));
    assert!(!l.release && l.note.is_none());
    assert_eq!(l.action.label, "tap Right");
    let s = l.sample.unwrap();
    assert_eq!((s.units, s.to_effect_ns, s.effect_to_done_ns), (1, 400_000_000, 0));
    // The task decides on the next frame.
    assert!(r.flight.is_none());
    assert!(matches!(see(&mut r, &e, 32, 1, false, true), RunStep::Decide));
}

#[test]
fn an_action_that_shows_nothing_times_out() {
    let e = Executor { latency_frames: 5, ..Executor::default() };
    let mut r = flying(&e);
    assert!(matches!(see(&mut r, &e, 20, 0, false, true), RunStep::Look));
    assert!(matches!(see(&mut r, &e, 55, 0, false, true), RunStep::Look));
    let l = landed(see(&mut r, &e, 56, 0, false, true));
    assert_eq!((l.outcome, l.frames, l.after_idle), (Outcome::TimedOut, 46, Some(36)));
    assert_eq!(l.note.as_deref(), Some("Walk: \"tap Right\" not confirmed after 46 frames"));
    assert!(l.sample.is_none());
}

#[test]
fn outside_the_game_an_action_waits() {
    let e = Executor::default();
    let mut r = flying(&e);
    assert!(matches!(see(&mut r, &e, 500, 0, true, true), RunStep::Look));
    assert!(r.flight.is_some());
    assert!(matches!(see(&mut r, &e, 501, 1, false, true), RunStep::Look));
    assert_eq!(landed(see(&mut r, &e, 502, 1, false, true)).outcome, Outcome::Confirmed);
    // Between actions the way back into the game is taken.
    let mut r = TaskRun::new();
    let presses = (0..2000)
        .filter(|&f| matches!(see(&mut r, &e, f, 0, true, true), RunStep::Press(_)))
        .count();
    assert!(presses > 0);
}

#[test]
fn a_task_ends_in_flight_too() {
    let e = Executor { max_frames: 100, ..Executor::default() };
    let mut r = flying(&e);
    assert!(matches!(see(&mut r, &e, 110, 0, false, false), RunStep::Look));
    match see(&mut r, &e, 111, 1, false, true) {
        RunStep::Finish { success, detail } => {
            assert_eq!((success, detail.as_str()), (false, "gave up after 100 frames"))
        }
        other => panic!("{other:?}"),
    }
}

#[test]
fn a_walking_hold_is_predicted_from_the_timing_model() {
    let e = Executor { timing: Some(Timing::new("emulator")), ..Executor::default() };
    let hold = Action::new("hold".into(), vec![], Expectation::PlayerAt(pose(4)), 30)
        .timed(InputKind::WalkTile, 4)
        .interruptible();
    let mut r = TaskRun::new();
    r.launch(&e, hold, moment(0), &observation(0, 0), 1000);
    assert!(r.flight.as_ref().unwrap().pending.tracker.is_some());
    // It never moves: released as stalled.
    let l = (1..100)
        .find_map(|f| match see(&mut r, &e, f, 0, false, false) {
            RunStep::Landed(l) => Some(l),
            _ => None,
        })
        .unwrap();
    assert_eq!((l.outcome, l.release), (Outcome::Stalled, true));
    // Where it arrives the hold is released at once.
    let hold = Action::new("hold".into(), vec![], Expectation::PlayerAt(pose(4)), 30)
        .timed(InputKind::WalkTile, 4)
        .interruptible();
    let mut r = TaskRun::new();
    r.launch(&e, hold, moment(0), &observation(0, 0), 1000);
    assert!(matches!(see(&mut r, &e, 5, 4, false, false), RunStep::Release));
}

#[test]
fn decisions_end_a_task_or_keep_it_looking() {
    let e = Executor::default();
    let mut r = TaskRun::new();
    assert!(matches!(r.decide(&e, 3, Decision::Wait("text".into())), RunStep::Look));
    assert!(matches!(
        r.decide(&e, 3 + 1351, Decision::Wait("text".into())),
        RunStep::Press(_)
    ));
    match r.decide(&e, 9, Decision::Done("saved".into())) {
        RunStep::Finish { success, detail } => {
            assert_eq!((success, detail.as_str()), (true, "saved"))
        }
        other => panic!("{other:?}"),
    }
    match r.decide(&e, 9, Decision::Fail("no".into())) {
        RunStep::Finish { success, detail } => assert_eq!((success, detail.as_str()), (false, "no")),
        other => panic!("{other:?}"),
    }
}
