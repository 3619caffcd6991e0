use pokebot_agent::action::{Action, Expectation};
use pokebot_agent::executor::Outcome;
use pokebot_agent::input::Direction;
use pokebot_agent::motion::syncer::round_ms;
use pokebot_agent::motion::{Estimate, HoldTracker, InputKind, Timing, Track, WalkStep, Walker};
use pokebot_agent::observe::{Observation, PlayerPose, ScreenState};
use pokebot_agent::world::Step;

const MS: u64 = 1_000_000;

#[test]
fn defaults_reproduce_todays_constants() {
    let s = Timing::new("emulator");
    // run_hold: TILE_MS * tiles - TILE_MS / 2.
    assert_eq!(s.hold_for(InputKind::WalkTile, 1), 134);
    assert_eq!(s.hold_for(InputKind::WalkTile, 4), 268 * 4 - 134);
    assert_eq!(s.hold_for(InputKind::WalkTile, 8), 268 * 8 - 134);
    // STEP_TIMEOUT, the hold timeout, WARP_TIMEOUT, the face timeout.
    assert_eq!(s.timeout_frames(InputKind::WalkTile, 1), 30);
    assert_eq!(s.timeout_frames(InputKind::WalkTile, 4), 30 + 16 + 8);
    assert_eq!(s.timeout_frames(InputKind::WarpFade, 1), 180);
    assert_eq!(s.timeout_frames(InputKind::Turn, 1), 6);
    // The executor's latency_frames: 0 on the emulator, 30 on hardware.
    assert_eq!(s.expect_frames(None), 0);
    assert_eq!(s.expect_frames(Some(InputKind::WalkTile)), 0);
    let hw = Timing::new("switch");
    assert_eq!(hw.expect_frames(None), 30);
    assert_eq!(hw.expect_frames(Some(InputKind::MenuPress)), 30);
    assert_eq!(hw.hold_for(InputKind::WalkTile, 3), s.hold_for(InputKind::WalkTile, 3));
}

/// A device that walks a tile in 600 ms and shows it 200 ms late.
#[test]
fn a_slow_device_gets_longer_timeouts() {
    let mut slow = Timing::new("switch");
    slow.walk =
        Estimate { latency_ns: 200 * MS, unit_ns: 600 * MS, spread_ns: 5 * MS, samples: 40 };
    let frame_ms = 1000.0 / 59.7275;
    let frames = |ms: f64| (ms / frame_ms).ceil() as u64;
    assert_eq!(slow.timeout_frames(InputKind::WalkTile, 1), frames(200.0 + 600.0 + 10.0));
    assert!(slow.timeout_frames(InputKind::WalkTile, 1) > 30);
    assert_eq!(
        slow.timeout_frames(InputKind::WalkTile, 4),
        frames(200.0 + 300.0 + 10.0).max(30 + 16 + 8)
    );
    assert_eq!(slow.expect_frames(Some(InputKind::WalkTile)), 30);
    // Holds follow: 4 tiles = 4·600 − 300, and two spreads.
    assert_eq!(slow.hold_for(InputKind::WalkTile, 4), 2400 - 300 + 10);
    // Half a unit is not cut to whole nanoseconds.
    let odd = Estimate { latency_ns: 0, unit_ns: 999_999, spread_ns: 0, samples: 1 };
    assert_eq!((odd.hold_for(1), odd.hold_for(2), odd.hold_for(0)), (0, 1, 0));
    let even = Estimate { unit_ns: 1_000_000, ..odd };
    assert_eq!((even.hold_for(1), even.hold_for(2)), (1, 2));
    let vast = Estimate { unit_ns: u64::MAX, ..odd };
    assert_eq!(vast.hold_for(usize::MAX), u64::MAX);
    assert_eq!(round_ms(1_499_999), 1);
    assert_eq!(round_ms(1_500_000), 2);
}

fn pose(x: i32, y: i32) -> PlayerPose {
    PlayerPose { map: "Route1".into(), x, y }
}

fn observation(frame: u64, at: Option<(i32, i32)>) -> Observation {
    let mut o = Observation::bare(frame, ScreenState::Overworld);
    o.player = at.map(|(x, y)| pose(x, y));
    o
}

fn path_right(from: (i32, i32), tiles: usize) -> Vec<Step> {
    (1..=tiles as i32)
        .map(|i| Step { dir: Direction::Right, to: (from.0 + i, from.1) })
        .collect()
}

#[test]
fn a_straight_run_is_a_hold_with_the_syncers_timing() {
    let sync = Timing::new("emulator");
    let mut w = Walker::new();
    // Right×5: hold for 4 (the last step stays a tap).
    match w.next(
        &observation(1, Some((3, 7))),
        &path_right((3, 7), 5),
        Some(Direction::Right),
        &sync,
        0,
    ) {
        WalkStep::Hold { dir, tiles, target, millis, timeout_frames } => {
            assert_eq!(dir, Direction::Right);
            assert_eq!(tiles, 4);
            assert_eq!(target, pose(7, 7));
            assert_eq!(millis, 268 * 4 - 134);
            assert_eq!(timeout_frames, 30 + 16 + 8);
        }
        other => panic!("{other:?}"),
    }
    // Facing another way: the hold also covers the turn (8 frames).
    let mut w = Walker::new();
    let step = w.next(
        &observation(1, Some((3, 7))),
        &path_right((3, 7), 5),
        Some(Direction::Down),
        &sync,
        0,
    );
    assert!(
        matches!(step, WalkStep::Hold { millis, .. } if millis == 268 * 4 - 134 + 134),
        "{step:?}"
    );
}

fn walking(step: WalkStep) -> (u64, Option<u64>) {
    match step {
        WalkStep::Walking { predicted, observed } => (predicted, observed),
        other => panic!("{other:?}"),
    }
}

#[test]
fn poses_arriving_late_cancel_the_hold() {
    let sync = Timing::new("emulator");
    let mut w = Walker::new();
    let none = vec![];
    assert!(matches!(
        w.next(
            &observation(1, Some((3, 7))),
            &path_right((3, 7), 6),
            Some(Direction::Right),
            &sync,
            0
        ),
        WalkStep::Hold { tiles: 4, .. }
    ));
    // Tile 1 done at 268 ms, tile 2 at 536 ms: the player is seen on
    // tile 1 at 300 ms, fine.
    assert_eq!(
        walking(w.next(&observation(2, Some((4, 7))), &none, None, &sync, 300 * MS)),
        (1, Some(1))
    );
    // Not located for a while: no verdict.
    assert_eq!(walking(w.next(&observation(3, None), &none, None, &sync, 600 * MS)), (2, None));
    // Still on tile 1 at 820 ms (prediction: 3): lagging by 2, but
    // not yet for 100 ms.
    assert_eq!(
        walking(w.next(&observation(4, Some((4, 7))), &none, None, &sync, 820 * MS)),
        (3, Some(1))
    );
    // Still there 100 ms later: cancel, then taps for two moves.
    assert!(matches!(
        w.next(&observation(5, Some((4, 7))), &none, None, &sync, 925 * MS),
        WalkStep::Cancel
    ));
    let action = Action::new("walk".into(), vec![], Expectation::PlayerAt(pose(8, 7)), 30);
    let done = w.on_outcome(&action, Outcome::Stalled).unwrap();
    assert!(done.faced && done.blocked.is_none());
    assert!(matches!(
        w.next(
            &observation(6, Some((4, 7))),
            &path_right((4, 7), 4),
            Some(Direction::Right),
            &sync,
            1000 * MS
        ),
        WalkStep::Tap { dir: Direction::Right, to: (5, 7), timeout_frames: 30 }
    ));
}

#[test]
fn a_pose_catching_up_clears_the_lag() {
    let sync = Timing::new("emulator");
    let mut tracker = HoldTracker::new(pose(0, 0), 6, &sync);
    let mut track = |ms: u64, p: &PlayerPose| tracker.track(ms * MS, Some(p));
    assert!(matches!(track(820, &pose(1, 0)), Track::OnTrack { .. }));
    // Caught up: the clock restarts.
    assert!(matches!(track(880, &pose(3, 0)), Track::OnTrack { .. }));
    assert!(matches!(track(1500, &pose(3, 0)), Track::OnTrack { .. }));
    assert_eq!(track(1600, &pose(3, 0)), Track::Stalled { predicted: 5, observed: 3 });
    // Another map: no evidence.
    let elsewhere = PlayerPose { map: "Route2".into(), x: 0, y: 0 };
    assert!(matches!(track(1700, &elsewhere), Track::OnTrack { observed: None, .. }));
}

#[test]
fn a_tap_in_a_new_direction_turns_first() {
    let sync = Timing::new("emulator");
    let mut w = Walker::new();
    let step = w.next(
        &observation(1, Some((3, 7))),
        &path_right((3, 7), 1),
        Some(Direction::Down),
        &sync,
        0,
    );
    assert!(
        matches!(step, WalkStep::Turn { dir: Direction::Right, timeout_frames: 6 }),
        "{step:?}"
    );
    // A turn has no step in flight.
    let action = Action::new("turn".into(), vec![], Expectation::InputsDone, 6);
    assert!(w.on_outcome(&action, Outcome::Confirmed).is_none());
    // Facing Right now: a tap.
    assert!(matches!(
        w.next(
            &observation(2, Some((3, 7))),
            &path_right((3, 7), 1),
            Some(Direction::Right),
            &sync,
            0
        ),
        WalkStep::Tap { to: (4, 7), .. }
    ));
}

#[test]
fn a_missed_tap_while_facing_the_way_learns_the_blocker() {
    let sync = Timing::new("emulator");
    let mut w = Walker::new();
    assert!(matches!(
        w.next(
            &observation(1, Some((3, 7))),
            &path_right((3, 7), 1),
            Some(Direction::Right),
            &sync,
            0
        ),
        WalkStep::Tap { to: (4, 7), .. }
    ));
    let action = Action::new("walk".into(), vec![], Expectation::PlayerMovedFrom(pose(3, 7)), 30);
    let done = w.on_outcome(&action, Outcome::TimedOut).unwrap();
    assert!(done.faced);
    assert_eq!(done.blocked, Some(("Route1".to_owned(), (4, 7))));
    assert_eq!(w.stalled(), 0);
    // Nothing in flight: no verdict.
    assert!(w.on_outcome(&action, Outcome::Confirmed).is_none());
}

#[test]
fn two_missed_taps_learn_the_blocker_when_the_facing_is_unknown() {
    // Taps the navigator issues itself (toward warps) without a turn.
    let mut w = Walker::new();
    let action = Action::new("walk".into(), vec![], Expectation::PlayerMovedFrom(pose(3, 7)), 30);
    w.note_tap(pose(3, 7), Direction::Right, (4, 7), false);
    let first = w.on_outcome(&action, Outcome::TimedOut).unwrap();
    assert!(first.faced && first.blocked.is_none());
    assert_eq!(w.stalled(), 1);
    w.note_tap(pose(3, 7), Direction::Right, (4, 7), false);
    let second = w.on_outcome(&action, Outcome::TimedOut).unwrap();
    assert_eq!(second.blocked, Some(("Route1".to_owned(), (4, 7))));
    assert_eq!(w.stalled(), 0);
}

#[test]
fn an_empty_path_has_arrived() {
    let sync = Timing::new("emulator");
    let mut w = Walker::new();
    assert!(matches!(
        w.next(&observation(1, Some((3, 7))), &vec![], None, &sync, 0),
        WalkStep::Arrived
    ));
    assert_eq!(walking(w.next(&observation(1, None), &vec![], None, &sync, 0)), (0, None));
    w.note_tap(pose(3, 7), Direction::Right, (4, 7), false);
    w.clear_pending();
    let action = Action::new("walk".into(), vec![], Expectation::InputsDone, 30);
    assert!(w.on_outcome(&action, Outcome::Confirmed).is_none());
}
