use pokebot_agent::action::{Action, Expectation};
use pokebot_agent::executor::{
    finished, nudge, unconfirmed, Decision, Executor, ExecutorError, FrameStep, Outcome, Outside,
    OutsideRecovery, RunState, TaskStep,
};
use pokebot_agent::event::GameEvent;
use pokebot_agent::input::{Button, ControllerCommand};
use pokebot_agent::motion::walker::Track;
use pokebot_agent::motion::{InputKind, Timing};
use pokebot_agent::observe::{
    DialogueKind, DialogueObservation, Observation, PlayerPose, ScreenState,
};
use pokebot_agent::pending::{Moment, Pending, CONFIRM_FRAMES};

fn pose(x: i32) -> PlayerPose {
    PlayerPose { map: "Route1".into(), x, y: 5 }
}

fn observation(frame: u64, x: Option<i32>) -> Observation {
    let mut o = Observation::bare(frame, ScreenState::Overworld);
    o.player = x.map(pose);
    o
}

/// 20 ms per frame.
fn moment(frame: u64) -> Moment {
    Moment { frame, at_ns: frame * 20_000_000 }
}

const MS: u64 = 1_000_000;

fn emulator() -> Executor {
    Executor { timing: Some(Timing::new("emulator")), ..Executor::default() }
}

fn walk(to: i32, tiles: usize) -> Action {
    Action::new("walk".into(), vec![], Expectation::PlayerAt(pose(to)), 30)
        .timed(InputKind::WalkTile, tiles)
}

#[test]
fn movement_timing_ends_at_arrival_not_controller_idle() {
    let mut p = Pending::new(walk(4, 4), moment(0), &observation(0, Some(0)));
    p.note_frame(moment(14), &observation(14, Some(1)), false, false);
    p.note_frame(moment(54), &observation(54, Some(4)), false, false);
    p.note_frame(moment(200), &observation(200, Some(4)), true, false);
    p.note_frame(moment(201), &observation(201, Some(4)), true, false);
    let s = p.timing_sample(false).unwrap();
    assert_eq!(
        (s.kind, s.units, s.to_effect_ns, s.effect_to_done_ns),
        (InputKind::WalkTile, 4, 280 * MS, 800 * MS)
    );
    assert_eq!(p.confirmations, 2);
}

/// A hold of 4 tiles: the player leaves the start tile on frame 20 and
/// stands on the target from frame 60 on; confirmed on frame 61.
#[test]
fn a_confirmed_hold_feeds_the_syncer() {
    let executor = emulator();
    let mut p = Pending::new(walk(4, 4).interruptible(), moment(0), &observation(0, Some(0)));
    p.tracker = p.hold_tracker(executor.timing.as_ref());
    assert!(p.tracker.is_some());
    let mut confirmed_at = None;
    for frame in 1..=61 {
        let x = match frame {
            0..=19 => Some(0),
            20..=39 => Some(1),
            40..=49 => Some(2),
            50..=59 => Some(3),
            _ => Some(4),
        };
        let idle = frame >= 55;
        let track = p.note_frame(moment(frame), &observation(frame, x), idle, false);
        assert!(matches!(track, Track::OnTrack { .. }), "frame {frame}: {track:?}");
        if p.confirmations >= CONFIRM_FRAMES {
            confirmed_at = Some(frame);
            break;
        }
    }
    assert_eq!(confirmed_at, Some(61));
    assert_eq!(p.first_effect.map(|m| m.frame), Some(20));
    assert_eq!(p.met_since.map(|m| m.frame), Some(60));
    // Wall clock: 20 ms per frame here.
    let s = p.timing_sample(false).unwrap();
    assert_eq!((s.kind, s.units), (InputKind::WalkTile, 4));
    assert_eq!((s.to_effect_ns, s.effect_to_done_ns), (400 * MS, 800 * MS));
    // Frame clock: the game's frame period instead.
    let frame_ms = 1000.0 / 59.7275;
    let to_effect = p.timing_sample(true).unwrap().to_effect_ns as f64 / 1e6;
    assert!((to_effect - 20.0 * frame_ms).abs() < 0.01, "{to_effect}");
}

#[test]
fn a_hold_whose_player_stays_put_stalls() {
    let executor = emulator();
    let mut p = Pending::new(walk(6, 6).interruptible(), moment(0), &observation(0, Some(0)));
    p.tracker = p.hold_tracker(executor.timing.as_ref());
    let mut stalled_at = None;
    for frame in 1..=60 {
        // The player never moves (an NPC in the way); 20 ms per frame.
        let track = p.note_frame(moment(frame), &observation(frame, Some(0)), false, false);
        if matches!(track, Track::Stalled { .. }) {
            stalled_at = Some(frame);
            break;
        }
    }
    // Two tiles predicted at 536 ms (frame 27), lagging by 2 from then;
    // 100 ms later (frame 32) the hold is called stalled.
    assert_eq!(stalled_at, Some(32));
    assert!(p.timing_sample(false).is_none());
}

#[test]
fn actions_without_timing_or_tracking_are_untouched() {
    let executor = Executor::default();
    let action = Action::new("press A".into(), vec![], Expectation::MenuOpen, 30);
    let mut p = Pending::new(action, moment(0), &observation(0, None));
    assert!(p.hold_tracker(executor.timing.as_ref()).is_none());
    assert_eq!(executor.allowance(Some(InputKind::MenuPress)), 0);
    let hw = Executor { latency_frames: 30, ..Executor::default() };
    assert_eq!(hw.allowance(None), 30);
    for frame in 1..=3 {
        p.note_frame(moment(frame), &observation(frame, None), true, false);
    }
    assert!(p.timing_sample(false).is_none());
    assert_eq!(p.confirmations, 0);
}

#[test]
fn an_action_is_confirmed_on_its_second_frame() {
    let mut p = Pending::new(walk(1, 1), moment(0), &observation(0, Some(0)));
    let v = p.judge(moment(1), &observation(1, Some(1)), true, false, 0);
    assert_eq!((v.outcome, v.release), (None, false));
    let v = p.judge(moment(2), &observation(2, Some(1)), true, false, 0);
    assert_eq!(v.outcome, Some(Outcome::Confirmed));
}

#[test]
fn an_action_times_out_after_its_frames_and_the_allowance() {
    let mut p = Pending::new(walk(1, 1), moment(0), &observation(0, Some(0)));
    for frame in 1..=41 {
        let v = p.judge(moment(frame), &observation(frame, Some(0)), true, false, 10);
        assert_eq!(v.outcome, None, "frame {frame}");
    }
    let v = p.judge(moment(42), &observation(42, Some(0)), true, false, 10);
    assert_eq!(v.outcome, Some(Outcome::TimedOut));
}

#[test]
fn only_an_interruptible_action_is_cut_short() {
    let mut talking = observation(1, Some(0));
    talking.dialogue = Some(DialogueObservation {
        kind: DialogueKind::MessageBox,
        waiting_for_input: false,
        ready_for_a: false,
        text_cells: vec![],
        lines: vec![],
    });
    let mut hold = Pending::new(walk(4, 4).interruptible(), moment(0), &observation(0, Some(0)));
    let v = hold.judge(moment(1), &talking, false, false, 0);
    assert_eq!((v.outcome, v.release), (Some(Outcome::Interrupted), true));
    let mut tap = Pending::new(walk(4, 4), moment(0), &observation(0, Some(0)));
    assert_eq!(tap.judge(moment(1), &talking, false, false, 0).outcome, None);
}

#[test]
fn a_hold_is_released_where_it_was_to_end() {
    let mut p = Pending::new(walk(4, 4).interruptible(), moment(0), &observation(0, Some(0)));
    p.tracker = p.hold_tracker(emulator().timing.as_ref());
    let v = p.judge(moment(54), &observation(54, Some(4)), false, false, 0);
    assert_eq!((v.outcome, v.release), (None, true));
}

fn button(a: &Action) -> Button {
    match a.commands.as_slice() {
        [ControllerCommand::Press(b)] => *b,
        other => panic!("{other:?}"),
    }
}

#[test]
fn the_way_back_into_the_game_alternates_home_and_a() {
    let mut r = OutsideRecovery::default();
    assert!(matches!(r.recover_outside(true, 100), Outside::Waiting));
    assert!(matches!(r.recover_outside(true, 190), Outside::Waiting));
    match r.recover_outside(true, 191) {
        Outside::Recover(a) => {
            assert_eq!(button(&a), Button::Home);
            assert_eq!(a.label, "recover: the console left the game, press Home");
        }
        other => panic!("{other:?}"),
    }
    assert!(matches!(r.recover_outside(true, 192), Outside::Waiting));
    match r.recover_outside(true, 282) {
        Outside::Recover(a) => assert_eq!(button(&a), Button::A),
        other => panic!("{other:?}"),
    }
    assert!(matches!(r.recover_outside(false, 283), Outside::Inside));
    assert_eq!(r, OutsideRecovery::default());
}

#[test]
fn a_long_wait_is_nudged_once_and_then_fails() {
    let e = Executor { max_wait_frames: 100, ..Executor::default() };
    let mut s = RunState::default();
    let wait = || Decision::Wait("text".into());
    assert!(matches!(s.look(&e, 0, false), FrameStep::Decide));
    assert!(matches!(s.decide(&e, 0, wait()), TaskStep::Look));
    assert!(matches!(s.decide(&e, 50, wait()), TaskStep::Look));
    match s.decide(&e, 51, wait()) {
        TaskStep::Nudge(a) => {
            assert_eq!(a.label, "recover: stuck waiting (text), press B");
            assert_eq!(button(&a), Button::B);
        }
        other => panic!("{other:?}"),
    }
    assert!(matches!(s.decide(&e, 100, wait()), TaskStep::Look));
    match s.decide(&e, 101, wait()) {
        TaskStep::Finish { success, detail } => {
            assert_eq!((success, detail.as_str()), (false, "stuck waiting: text"))
        }
        other => panic!("{other:?}"),
    }
    // An action starts the wait afresh.
    let act = Decision::Act(Action::new("a".into(), vec![], Expectation::InputsDone, 1));
    match s.decide(&e, 102, act) {
        TaskStep::Perform { deadline, .. } => assert_eq!(deadline, 72_000),
        other => panic!("{other:?}"),
    }
    assert!(matches!(s.decide(&e, 103, wait()), TaskStep::Look));
}

#[test]
fn a_task_has_so_many_frames() {
    let e = Executor { max_frames: 10, ..Executor::default() };
    let mut s = RunState::default();
    assert!(matches!(s.look(&e, 5, false), FrameStep::Decide));
    assert!(matches!(s.look(&e, 15, true), FrameStep::Look));
    match s.look(&e, 16, false) {
        FrameStep::GiveUp(r) => assert_eq!(r, "gave up after 10 frames"),
        other => panic!("{other:?}"),
    }
    assert_eq!(e.past_deadline(16, 15).as_deref(), Some("gave up after 10 frames"));
    assert_eq!(e.past_deadline(15, 15), None);
    match s.decide(&e, 9, Decision::Done("ok".into())) {
        TaskStep::Finish { success: true, detail } => assert_eq!(detail, "ok"),
        other => panic!("{other:?}"),
    }
}

#[test]
fn results_and_errors_in_words() {
    assert_eq!(
        ExecutorError::TaskFailed { task: "Save".into(), reason: "stuck".into() }.message(),
        "Save failed: stuck"
    );
    assert_eq!(ExecutorError::Stopped.message(), "stopped by user");
    assert_eq!(ExecutorError::Device("no signal".into()).message(), "no signal");
    assert_eq!(
        finished("Save", true, "saved"),
        GameEvent::GoalFinished { goal: "Save".into(), success: true, detail: "saved".into() }
    );
    assert_eq!(
        unconfirmed("save", "press A", 40),
        "save: \"press A\" not confirmed after 40 frames"
    );
    assert_eq!(nudge("x").timeout_frames, 30);
}
