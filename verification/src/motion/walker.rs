//! One walking leg: holds along straight runs, taps for single tiles, and
//! predictive tracking of a hold while it runs.

use vstd::prelude::*;

use crate::action::{Action, Expectation, ExpectationV};
use crate::executor::Outcome;
use crate::input::Direction;
use crate::motion::syncer::{round_ms, rounded_ms, Estimate, InputKind, Timing, NS_PER_MS};
use crate::nav::{run_length, straight_run};
use crate::observe::{Observation, PlayerPose, PoseV};
use crate::save::{count, counted};
use crate::world::{Spot, Step};

verus! {

/// Shortest time the located pose may lag the prediction before a hold is
/// cancelled (the spread of the model when that is larger), in nanoseconds.
pub const STALL_MIN_NS: u64 = 100_000_000;

/// Longest run walked with one hold: keeps hardware feedback frequent even
/// across long straight roads.
pub const MAX_HOLD: u64 = 4;

/// What the walker wants next.
#[derive(Debug)]
pub enum WalkStep {
    /// Hold `dir` for `millis` to walk `tiles` tiles, ending on `target`.
    Hold { dir: Direction, tiles: u64, target: PlayerPose, millis: u64, timeout_frames: u64 },
    /// Tap `dir` once to step onto `to` (the player already faces `dir`).
    Tap { dir: Direction, to: Spot, timeout_frames: u64 },
    /// Turn to face `dir` before stepping: a short press in a new
    /// direction only turns the player, so the step needs its own press.
    Turn { dir: Direction, timeout_frames: u64 },
    /// The active hold is stalling: release the buttons and replan.
    Cancel,
    Arrived,
    /// The active hold is going as predicted (or the player isn't located).
    Walking { predicted: u64, observed: Option<u64> },
}

pub enum WalkStepV {
    Hold { dir: Direction, tiles: u64, target: PoseV, millis: u64, timeout_frames: u64 },
    Tap { dir: Direction, to: Spot, timeout_frames: u64 },
    Turn { dir: Direction, timeout_frames: u64 },
    Cancel,
    Arrived,
    Walking { predicted: u64, observed: Option<u64> },
}

impl View for WalkStep {
    type V = WalkStepV;

    open spec fn view(&self) -> WalkStepV {
        match *self {
            WalkStep::Hold { dir, tiles, target, millis, timeout_frames } => WalkStepV::Hold {
                dir,
                tiles,
                target: target@,
                millis,
                timeout_frames,
            },
            WalkStep::Tap { dir, to, timeout_frames } => WalkStepV::Tap {
                dir,
                to,
                timeout_frames,
            },
            WalkStep::Turn { dir, timeout_frames } => WalkStepV::Turn { dir, timeout_frames },
            WalkStep::Cancel => WalkStepV::Cancel,
            WalkStep::Arrived => WalkStepV::Arrived,
            WalkStep::Walking { predicted, observed } => WalkStepV::Walking {
                predicted,
                observed,
            },
        }
    }
}

/// Where a hold's prediction and the located pose stand.
#[derive(Debug, Clone, Copy, PartialEq, Eq, Structural)]
pub enum Track {
    OnTrack { predicted: u64, observed: Option<u64> },
    /// The pose lagged the prediction by more than a tile for too long.
    Stalled { predicted: u64, observed: u64 },
}

/// Predicts the player's tile during a hold and notices when the located
/// pose falls behind it (blocked, or slower than modelled). Times are
/// nanoseconds after the issue.
#[derive(Debug)]
pub struct HoldTracker {
    pub from: PlayerPose,
    pub tiles: u64,
    pub latency_ns: u64,
    pub unit_ns: u64,
    pub stall_after_ns: u64,
    /// Since when the pose has lagged by more than a tile.
    pub lag_since_ns: Option<u64>,
}

#[verifier::ext_equal]
pub struct TrackerV {
    pub from: PoseV,
    pub tiles: u64,
    pub latency_ns: u64,
    pub unit_ns: u64,
    pub stall_after_ns: u64,
    pub lag_since_ns: Option<u64>,
}

impl View for HoldTracker {
    type V = TrackerV;

    open spec fn view(&self) -> TrackerV {
        TrackerV {
            from: self.from@,
            tiles: self.tiles,
            latency_ns: self.latency_ns,
            unit_ns: self.unit_ns,
            stall_after_ns: self.stall_after_ns,
            lag_since_ns: self.lag_since_ns,
        }
    }
}

/// The distance between two tiles.
pub open spec fn apart(a: PoseV, b: PoseV) -> int {
    (if a.x >= b.x {
        a.x - b.x
    } else {
        b.x - a.x
    }) + (if a.y >= b.y {
        a.y - b.y
    } else {
        b.y - a.y
    })
}

impl TrackerV {
    pub open spec fn of(from: PoseV, tiles: u64, e: Estimate, turn_ns: u64) -> TrackerV {
        TrackerV {
            from,
            tiles,
            latency_ns: if e.latency_ns + turn_ns > u64::MAX {
                u64::MAX
            } else {
                (e.latency_ns + turn_ns) as u64
            },
            unit_ns: if e.unit_ns > NS_PER_MS {
                e.unit_ns
            } else {
                NS_PER_MS
            },
            stall_after_ns: if e.spread_ns > STALL_MIN_NS {
                e.spread_ns
            } else {
                STALL_MIN_NS
            },
            lag_since_ns: None,
        }
    }

    /// The units that fit in the time after the latency, up to the tiles held.
    pub open spec fn done(self, elapsed: u64) -> u64 {
        let units = if elapsed > self.latency_ns {
            (elapsed - self.latency_ns) / (self.unit_ns as int)
        } else {
            0
        };
        if units < self.tiles {
            units as u64
        } else {
            self.tiles
        }
    }

    pub open spec fn seen(self, pose: PoseV) -> Option<u64> {
        if pose.map == self.from.map {
            Some(apart(pose, self.from) as u64)
        } else {
            None
        }
    }

    /// One frame of the hold.
    pub open spec fn tracked_on(self, elapsed: u64, pose: Option<PoseV>) -> (TrackerV, Track) {
        let predicted = self.done(elapsed);
        let observed = match pose {
            Some(p) => self.seen(p),
            None => None,
        };
        match observed {
            // No evidence either way: an unlocated moving sprite is normal.
            None => (self, Track::OnTrack { predicted, observed }),
            Some(seen) => if predicted > seen + 1 {
                let since = match self.lag_since_ns {
                    Some(s) => s,
                    None => elapsed,
                };
                (
                    TrackerV { lag_since_ns: Some(since), ..self },
                    if elapsed >= since + self.stall_after_ns {
                        Track::Stalled { predicted, observed: seen }
                    } else {
                        Track::OnTrack { predicted, observed }
                    },
                )
            } else {
                (TrackerV { lag_since_ns: None, ..self }, Track::OnTrack { predicted, observed })
            },
        }
    }
}

pub open spec fn pose_of(pose: Option<PlayerPose>) -> Option<PoseV> {
    match pose {
        Some(p) => Some(p@),
        None => None,
    }
}

fn difference(a: i32, b: i32) -> (d: u64)
    ensures
        d == if a >= b {
            a - b
        } else {
            b - a
        },
{
    if a >= b {
        (a as i64 - b as i64) as u64
    } else {
        (b as i64 - a as i64) as u64
    }
}

impl HoldTracker {
    /// A hold of `tiles` tiles issued from `from`, judged by the estimate of
    /// a walking tile.
    pub fn new(from: PlayerPose, tiles: u64, timing: &Timing) -> (t: HoldTracker)
        ensures
            t@ == TrackerV::of(from@, tiles, timing.of(InputKind::WalkTile), 0),
    {
        HoldTracker::with_turn(from, tiles, timing, 0)
    }

    /// As [`HoldTracker::new`], for a hold that first turns the player
    /// (`turn_ns` before the first tile).
    pub fn with_turn(from: PlayerPose, tiles: u64, timing: &Timing, turn_ns: u64) -> (t:
        HoldTracker)
        ensures
            t@ == TrackerV::of(from@, tiles, timing.of(InputKind::WalkTile), turn_ns),
    {
        let e = timing.estimate(InputKind::WalkTile);
        HoldTracker {
            from,
            tiles,
            latency_ns: if e.latency_ns > u64::MAX - turn_ns {
                u64::MAX
            } else {
                e.latency_ns + turn_ns
            },
            unit_ns: if e.unit_ns > NS_PER_MS {
                e.unit_ns
            } else {
                NS_PER_MS
            },
            stall_after_ns: if e.spread_ns > STALL_MIN_NS {
                e.spread_ns
            } else {
                STALL_MIN_NS
            },
            lag_since_ns: None,
        }
    }

    /// Tiles the game should have finished `elapsed_ns` after the issue.
    pub fn predicted(&self, elapsed_ns: u64) -> (tiles: u64)
        requires
            self.unit_ns > 0,
        ensures
            tiles == self@.done(elapsed_ns),
    {
        let units: u64 = if elapsed_ns > self.latency_ns {
            (elapsed_ns - self.latency_ns) / self.unit_ns
        } else {
            0
        };
        if units < self.tiles {
            units
        } else {
            self.tiles
        }
    }

    /// Tiles the located `pose` is from the start (a straight run), if it
    /// is on the same map.
    pub fn observed(&self, pose: &PlayerPose) -> (r: Option<u64>)
        ensures
            r == self@.seen(pose@),
    {
        if pose.map == self.from.map {
            Some(difference(pose.x, self.from.x) + difference(pose.y, self.from.y))
        } else {
            None
        }
    }

    /// One frame `elapsed_ns` after the issue, with the located pose if any.
    pub fn track(&mut self, elapsed_ns: u64, pose: Option<&PlayerPose>) -> (t: Track)
        requires
            old(self).unit_ns > 0,
        ensures
            ({
                let step = old(self)@.tracked_on(
                    elapsed_ns,
                    match pose {
                        Some(p) => Some(p@),
                        None => None,
                    },
                );
                final(self)@ == step.0 && t == step.1
            }),
    {
        let predicted = self.predicted(elapsed_ns);
        let observed = match pose {
            Some(p) => self.observed(p),
            None => None,
        };
        let seen: u64 = match observed {
            Some(seen) => seen,
            None => {
                return Track::OnTrack { predicted, observed };
            },
        };
        if predicted > 0 && predicted - 1 > seen {
            let since: u64 = match self.lag_since_ns {
                Some(s) => s,
                None => elapsed_ns,
            };
            self.lag_since_ns = Some(since);
            if elapsed_ns >= since && elapsed_ns - since >= self.stall_after_ns {
                return Track::Stalled { predicted, observed: seen };
            }
        } else {
            self.lag_since_ns = None;
        }
        Track::OnTrack { predicted, observed }
    }
}

/// What a finished step tells the navigator.
#[derive(Debug)]
pub struct StepDone {
    /// The direction that was pushed.
    pub dir: Direction,
    /// Whether the player now faces `dir` (a move or a turn happened).
    pub faced: bool,
    /// A tile learned to be blocked: (map, tile).
    pub blocked: Option<(String, Spot)>,
}

pub struct StepDoneV {
    pub dir: Direction,
    pub faced: bool,
    pub blocked: Option<(Seq<char>, Spot)>,
}

impl View for StepDone {
    type V = StepDoneV;

    open spec fn view(&self) -> StepDoneV {
        StepDoneV {
            dir: self.dir,
            faced: self.faced,
            blocked: match self.blocked {
                Some(b) => Some((b.0@, b.1)),
                None => None,
            },
        }
    }
}

/// The step in flight.
#[derive(Debug)]
pub struct Flight {
    pub from: PlayerPose,
    pub dir: Direction,
    pub to: Spot,
    /// The player was believed to face `dir` when the step was issued, so
    /// a tap that doesn't move them is a block, not a turn.
    pub facing: bool,
}

pub struct FlightV {
    pub from: PoseV,
    pub dir: Direction,
    pub to: Spot,
    pub facing: bool,
}

impl View for Flight {
    type V = FlightV;

    open spec fn view(&self) -> FlightV {
        FlightV { from: self.from@, dir: self.dir, to: self.to, facing: self.facing }
    }
}

/// Holds and taps along a path, with the bookkeeping of the step in
/// flight: which tile it aims at, how many taps failed in a row, and
/// whether to walk with taps for a while (after a hold fell short).
#[derive(Debug)]
pub struct Walker {
    /// Moves left to make with taps instead of holds.
    pub single_steps: u32,
    /// Taps in a row that did not move the player.
    pub stalled: u32,
    /// The step in flight.
    pub pending: Option<Flight>,
    /// The hold in flight, and when it was issued (in nanoseconds).
    pub hold: Option<(HoldTracker, u64)>,
}

#[verifier::ext_equal]
pub struct WalkerV {
    pub single_steps: u32,
    pub stalled: u32,
    pub pending: Option<FlightV>,
    pub hold: Option<(TrackerV, u64)>,
}

impl View for Walker {
    type V = WalkerV;

    open spec fn view(&self) -> WalkerV {
        WalkerV {
            single_steps: self.single_steps,
            stalled: self.stalled,
            pending: match self.pending {
                Some(f) => Some(f@),
                None => None,
            },
            hold: match self.hold {
                Some(h) => Some((h.0@, h.1)),
                None => None,
            },
        }
    }
}

impl WalkerV {
    pub open spec fn fresh() -> WalkerV {
        WalkerV { single_steps: 0, stalled: 0, pending: None, hold: None }
    }

    /// A frame of the hold in flight.
    pub open spec fn holding(self, pose: Option<PoseV>, now: u64) -> (WalkerV, WalkStepV) {
        let hold = self.hold->0;
        let elapsed = if now > hold.1 {
            (now - hold.1) as u64
        } else {
            0
        };
        let step = hold.0.tracked_on(elapsed, pose);
        match step.1 {
            Track::Stalled { .. } => (
                WalkerV { hold: None, single_steps: 2, ..self },
                WalkStepV::Cancel,
            ),
            Track::OnTrack { predicted, observed } => (
                WalkerV { hold: Some((step.0, hold.1)), ..self },
                WalkStepV::Walking { predicted, observed },
            ),
        }
    }

    /// The next step along a path.
    pub open spec fn stepping(
        self,
        pose: PoseV,
        path: Seq<Step>,
        facing: Option<Direction>,
        timing: Timing,
        now: u64,
    ) -> (WalkerV, WalkStepV) {
        if path.len() == 0 {
            (self, WalkStepV::Arrived)
        } else {
            let step = path[0];
            let straight = run_length((pose.x, pose.y), path);
            let run = if straight < MAX_HOLD {
                straight
            } else {
                MAX_HOLD as int
            };
            let ahead = facing == Some(step.dir);
            let flight = FlightV { from: pose, dir: step.dir, to: step.to, facing: ahead };
            if run >= 2 && self.single_steps == 0 {
                let end = path[run - 1].to;
                // A hold in a new direction turns the player first; hold that
                // much longer.
                let turn = if ahead {
                    0
                } else {
                    timing.of(InputKind::Turn).unit_ns
                };
                (
                    WalkerV {
                        pending: Some(flight),
                        hold: Some(
                            (
                                TrackerV::of(
                                    pose,
                                    run as u64,
                                    timing.of(InputKind::WalkTile),
                                    turn,
                                ),
                                now,
                            ),
                        ),
                        ..self
                    },
                    WalkStepV::Hold {
                        dir: step.dir,
                        tiles: run as u64,
                        target: PoseV { map: pose.map, x: end.0, y: end.1 },
                        millis: hold_and_turn(timing, run, turn),
                        timeout_frames: timing.timeout(InputKind::WalkTile, run) as u64,
                    },
                )
            } else if !ahead {
                (
                    WalkerV { pending: None, ..self },
                    WalkStepV::Turn {
                        dir: step.dir,
                        timeout_frames: timing.timeout(InputKind::Turn, 1) as u64,
                    },
                )
            } else {
                (
                    WalkerV {
                        single_steps: if self.single_steps > 0 {
                            (self.single_steps - 1) as u32
                        } else {
                            0
                        },
                        pending: Some(flight),
                        ..self
                    },
                    WalkStepV::Tap {
                        dir: step.dir,
                        to: step.to,
                        timeout_frames: timing.timeout(InputKind::WalkTile, 1) as u64,
                    },
                )
            }
        }
    }

    pub open spec fn stepped(
        self,
        pose: Option<PoseV>,
        path: Seq<Step>,
        facing: Option<Direction>,
        timing: Timing,
        now: u64,
    ) -> (WalkerV, WalkStepV) {
        if self.hold is Some {
            self.holding(pose, now)
        } else {
            match pose {
                None => (self, WalkStepV::Walking { predicted: 0, observed: None }),
                Some(pose) => self.stepping(pose, path, facing, timing, now),
            }
        }
    }

    /// The verdict on the step in flight.
    pub open spec fn settled(self, expect: ExpectationV, outcome: Outcome) -> (
        WalkerV,
        Option<StepDoneV>,
    ) {
        let w = WalkerV { hold: None, pending: None, ..self };
        match self.pending {
            None => (w, None),
            Some(f) => if outcome == Outcome::Confirmed {
                (
                    WalkerV { stalled: 0, ..w },
                    Some(StepDoneV { dir: f.dir, faced: true, blocked: None }),
                )
            } else if expect is PlayerAt {
                // A hold that fell short, stalled or was cut off: replan from
                // wherever we are, with taps for a bit (they learn what blocks
                // the way).
                (
                    WalkerV {
                        single_steps: if outcome == Outcome::TimedOut || outcome
                            == Outcome::Stalled {
                            2
                        } else {
                            w.single_steps
                        },
                        ..w
                    },
                    Some(StepDoneV { dir: f.dir, faced: true, blocked: None }),
                )
            } else if outcome == Outcome::TimedOut && expect is PlayerMovedFrom {
                // A tap the player already faced along: something is in
                // the way; avoid that tile. Otherwise the first miss
                // probably just turned them and the second is the block.
                let misses = counted(w.stalled);
                if f.facing || misses >= 2 {
                    (
                        WalkerV { stalled: 0, ..w },
                        Some(
                            StepDoneV {
                                dir: f.dir,
                                faced: true,
                                blocked: Some((f.from.map, f.to)),
                            },
                        ),
                    )
                } else {
                    (
                        WalkerV { stalled: misses, ..w },
                        Some(StepDoneV { dir: f.dir, faced: true, blocked: None }),
                    )
                }
            } else {
                (
                    WalkerV { stalled: counted(w.stalled), ..w },
                    Some(StepDoneV { dir: f.dir, faced: false, blocked: None }),
                )
            },
        }
    }
}

/// A hold and the turn before it, in milliseconds.
pub open spec fn hold_and_turn(timing: Timing, run: int, turn: u64) -> u64 {
    let sum = timing.of(InputKind::WalkTile).hold_ms(run) + rounded_ms(turn as int);
    if sum < u64::MAX {
        sum as u64
    } else {
        u64::MAX
    }
}

impl Default for Walker {
    fn default() -> (w: Walker)
        ensures
            w@ == WalkerV::fresh(),
    {
        Walker { single_steps: 0, stalled: 0, pending: None, hold: None }
    }
}

impl Walker {
    /// A hold in flight is timed by a unit that lasts.
    pub open spec fn valid(self) -> bool {
        self.hold matches Some(h) ==> h.0.unit_ns > 0
    }

    pub fn new() -> (w: Walker)
        ensures
            w@ == WalkerV::fresh(),
            w.valid(),
    {
        Walker { single_steps: 0, stalled: 0, pending: None, hold: None }
    }

    /// How many taps in a row failed to move the player.
    pub fn stalled(&self) -> (n: u32)
        ensures
            n == self@.stalled,
    {
        self.stalled
    }

    /// The next step along `path` from the located pose, or, while a hold
    /// runs, how it is going. `facing` is the direction the player is
    /// believed to face: a tap in another direction is preceded by a turn
    /// (a hold turns and walks by itself). `now` is in nanoseconds on the
    /// clock that the whole walk is timed by.
    pub fn next(
        &mut self,
        observation: &Observation,
        path: &Vec<Step>,
        facing: Option<Direction>,
        timing: &Timing,
        now: u64,
    ) -> (s: WalkStep)
        requires
            old(self).valid(),
        ensures
            ({
                let step = old(self)@.stepped(
                    pose_of(observation.player),
                    path@,
                    facing,
                    *timing,
                    now,
                );
                final(self)@ == step.0 && s@ == step.1
            }),
            final(self).valid(),
    {
        match &mut self.hold {
            Some(hold) => {
                let elapsed: u64 = if now > hold.1 {
                    now - hold.1
                } else {
                    0
                };
                let pose = match &observation.player {
                    Some(p) => Some(p),
                    None => None,
                };
                let track = hold.0.track(elapsed, pose);
                match track {
                    Track::Stalled { .. } => {},
                    Track::OnTrack { predicted, observed } => {
                        return WalkStep::Walking { predicted, observed };
                    },
                }
                self.hold = None;
                self.single_steps = 2;
                return WalkStep::Cancel;
            },
            None => {},
        }
        let pose = match &observation.player {
            Some(p) => p,
            None => {
                return WalkStep::Walking { predicted: 0, observed: None };
            },
        };
        if path.len() == 0 {
            return WalkStep::Arrived;
        }
        let step = path[0];
        let straight = straight_run((pose.x, pose.y), path);
        let run: usize = if straight < 4 {
            straight
        } else {
            4
        };
        let ahead = match facing {
            Some(dir) => dir == step.dir,
            None => false,
        };
        if run >= 2 && self.single_steps == 0 {
            let end = path[run - 1].to;
            let target = PlayerPose { map: pose.map.clone(), x: end.0, y: end.1 };
            let turn: u64 = if ahead {
                0
            } else {
                timing.estimate(InputKind::Turn).unit_ns
            };
            self.pending = Some(
                Flight { from: pose.copy(), dir: step.dir, to: step.to, facing: ahead },
            );
            self.hold = Some(
                (HoldTracker::with_turn(pose.copy(), run as u64, timing, turn), now),
            );
            let held = timing.hold_for(InputKind::WalkTile, run);
            let turned = round_ms(turn);
            return WalkStep::Hold {
                dir: step.dir,
                tiles: run as u64,
                target,
                millis: if held > u64::MAX - turned {
                    u64::MAX
                } else {
                    held + turned
                },
                timeout_frames: timing.timeout_frames(InputKind::WalkTile, run),
            };
        }
        if !ahead {
            self.pending = None;
            return WalkStep::Turn {
                dir: step.dir,
                timeout_frames: timing.timeout_frames(InputKind::Turn, 1),
            };
        }
        if self.single_steps > 0 {
            self.single_steps = self.single_steps - 1;
        }
        self.pending = Some(
            Flight { from: pose.copy(), dir: step.dir, to: step.to, facing: true },
        );
        WalkStep::Tap {
            dir: step.dir,
            to: step.to,
            timeout_frames: timing.timeout_frames(InputKind::WalkTile, 1),
        }
    }

    /// A single press toward `to` issued by the navigator itself (warps,
    /// map edges): followed like a tap.
    pub fn note_tap(&mut self, from: PlayerPose, dir: Direction, to: Spot, facing: bool)
        ensures
            final(self)@ == (WalkerV {
                hold: None,
                pending: Some(FlightV { from: from@, dir, to, facing }),
                ..old(self)@
            }),
            final(self).valid(),
    {
        self.hold = None;
        self.pending = Some(Flight { from, dir, to, facing });
    }

    /// Nothing in flight (a turn in place, a warp push).
    pub fn clear_pending(&mut self)
        ensures
            final(self)@ == (WalkerV { hold: None, pending: None, ..old(self)@ }),
            final(self).valid(),
    {
        self.hold = None;
        self.pending = None;
    }

    /// The executor's verdict on the step in flight.
    pub fn on_outcome(&mut self, action: &Action, outcome: Outcome) -> (r: Option<StepDone>)
        ensures
            ({
                let step = old(self)@.settled(action.expect@, outcome);
                &&& final(self)@ == step.0
                &&& match r {
                    Some(d) => step.1 == Some(d@),
                    None => step.1 is None,
                }
            }),
            final(self).valid(),
    {
        self.hold = None;
        let flight = match self.pending.take() {
            Some(f) => f,
            None => {
                return None;
            },
        };
        let mut faced = true;
        let mut blocked: Option<(String, Spot)> = None;
        if outcome == Outcome::Confirmed {
            self.stalled = 0;
        } else if matches!(action.expect, Expectation::PlayerAt(_)) {
            if outcome == Outcome::TimedOut || outcome == Outcome::Stalled {
                self.single_steps = 2;
            }
        } else if outcome == Outcome::TimedOut && matches!(
            action.expect,
            Expectation::PlayerMovedFrom(_)
        ) {
            self.stalled = count(self.stalled);
            if flight.facing || self.stalled >= 2 {
                blocked = Some((flight.from.map, flight.to));
                self.stalled = 0;
            }
        } else {
            faced = false;
            self.stalled = count(self.stalled);
        }
        Some(StepDone { dir: flight.dir, faced, blocked })
    }
}

/// A hold is cancelled only after its player was seen more than a tile behind
/// the prediction, and for long enough.
pub proof fn only_a_lasting_lag_stalls(t: TrackerV, elapsed: u64, pose: Option<PoseV>)
    requires
        t.tracked_on(elapsed, pose).1 is Stalled,
    ensures
        pose is Some,
        pose->0.map == t.from.map,
        t.done(elapsed) > t.seen(pose->0)->0 + 1,
        t.lag_since_ns is Some || t.stall_after_ns == 0,
        t.lag_since_ns matches Some(since) ==> elapsed >= since + t.stall_after_ns,
{
}

/// A pose that caught up starts the clock of a later lag afresh.
pub proof fn catching_up_clears_the_lag(t: TrackerV, elapsed: u64, pose: PoseV)
    requires
        pose.map == t.from.map,
        t.done(elapsed) <= t.seen(pose)->0 + 1,
    ensures
        t.tracked_on(elapsed, Some(pose)).0.lag_since_ns is None,
{
}

/// The prediction never goes back, and never past the tiles held.
pub proof fn a_prediction_only_grows(t: TrackerV, earlier: u64, later: u64)
    requires
        t.unit_ns > 0,
        earlier <= later,
    ensures
        t.done(earlier) <= t.done(later) <= t.tiles,
{
    if earlier > t.latency_ns {
        let a = earlier - t.latency_ns;
        let b = later - t.latency_ns;
        let u = t.unit_ns as int;
        assert(a / u <= b / u) by (nonlinear_arith)
            requires
                0 <= a <= b,
                u > 0,
        ;
    }
    assert(later > t.latency_ns ==> (later - t.latency_ns) / (t.unit_ns as int) >= 0)
        by (nonlinear_arith)
        requires
            t.unit_ns > 0,
    ;
}

/// After a hold that stalled, the next moves along a path are taps (or the
/// turns before them), until two were made.
pub proof fn a_stalled_hold_is_followed_by_taps(
    w: WalkerV,
    pose: Option<PoseV>,
    now: u64,
    at: PoseV,
    path: Seq<Step>,
    facing: Option<Direction>,
    timing: Timing,
    later: u64,
)
    requires
        w.hold is Some,
        w.holding(pose, now).1 is Cancel,
        path.len() > 0,
    ensures
        ({
            let after = w.holding(pose, now).0;
            let first = after.stepped(Some(at), path, facing, timing, later);
            &&& first.1 is Tap || first.1 is Turn
            &&& first.0.stepped(Some(at), path, facing, timing, later).1 is Tap
                || first.0.stepped(Some(at), path, facing, timing, later).1 is Turn
        }),
{
}

} // verus!
