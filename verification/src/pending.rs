//! The action in flight: what each frame shows of it, and when it has an
//! outcome.

use vstd::prelude::*;

use crate::action::{Action, ActionV};
use crate::executor::Outcome;
use crate::motion::syncer::{InputKind, Timing, FRAMES_PER_SPAN, SPAN_NS};
use crate::motion::walker::{pose_of, HoldTracker, Track, TrackerV};
use crate::observe::{Observation, PlayerPose, PoseV, ScreenState};
use crate::save::{count, counted};

verus! {

/// Consecutive frames an expectation must hold to count as confirmed.
pub const CONFIRM_FRAMES: u32 = 2;

/// A moment on the frame clock and the wall clock (in nanoseconds).
#[derive(Debug, Clone, Copy, PartialEq, Eq, Structural)]
pub struct Moment {
    pub frame: u64,
    pub at_ns: u64,
}

/// How long some frames take, in nanoseconds.
pub open spec fn frames_ns(frames: int) -> int {
    frames * SPAN_NS / (FRAMES_PER_SPAN as int)
}

/// Nanoseconds from one moment to another: on the frame clock when the video is
/// stepped by the bot (wall time means nothing then), else on the frames'
/// capture times.
pub open spec fn elapsed(from: Moment, to: Moment, frame_clock: bool) -> u64 {
    if frame_clock {
        let frames = if to.frame > from.frame {
            to.frame - from.frame
        } else {
            0
        };
        let ns = frames_ns(frames);
        if ns < u64::MAX {
            ns as u64
        } else {
            u64::MAX
        }
    } else if to.at_ns > from.at_ns {
        (to.at_ns - from.at_ns) as u64
    } else {
        0
    }
}

pub fn elapsed_ns(from: Moment, to: Moment, frame_clock: bool) -> (ns: u64)
    ensures
        ns == elapsed(from, to, frame_clock),
{
    if frame_clock {
        let frames: u64 = if to.frame > from.frame {
            to.frame - from.frame
        } else {
            0
        };
        assert(frames * SPAN_NS <= u64::MAX * SPAN_NS) by (nonlinear_arith)
            requires
                frames <= u64::MAX,
                SPAN_NS == 10_000_000_000_000u64,
        ;
        let ns: u128 = frames as u128 * (SPAN_NS as u128) / (FRAMES_PER_SPAN as u128);
        if ns < u64::MAX as u128 {
            ns as u64
        } else {
            u64::MAX
        }
    } else if to.at_ns > from.at_ns {
        to.at_ns - from.at_ns
    } else {
        0
    }
}

/// The action in flight and what has been seen of it.
#[derive(Debug)]
pub struct Pending {
    pub action: Action,
    pub issued: Moment,
    /// Where the player stood when the inputs were issued.
    pub issued_pose: Option<PlayerPose>,
    /// First frame at which the controller had applied all inputs.
    pub idle_since: Option<u64>,
    pub confirmations: u32,
    /// First frame at which the action showed an effect: its expectation
    /// held, or the player left the tile it was on.
    pub first_effect: Option<Moment>,
    /// First frame of the run of frames on which the expectation held.
    pub met_since: Option<Moment>,
    /// Predicts the player's tile during a walking hold.
    pub tracker: Option<HoldTracker>,
}

#[verifier::ext_equal]
pub struct PendingV {
    pub action: ActionV,
    pub issued: Moment,
    pub issued_pose: Option<PoseV>,
    pub idle_since: Option<u64>,
    pub confirmations: u32,
    pub first_effect: Option<Moment>,
    pub met_since: Option<Moment>,
    pub tracker: Option<TrackerV>,
}

impl View for Pending {
    type V = PendingV;

    open spec fn view(&self) -> PendingV {
        PendingV {
            action: self.action@,
            issued: self.issued,
            issued_pose: pose_of(self.issued_pose),
            idle_since: self.idle_since,
            confirmations: self.confirmations,
            first_effect: self.first_effect,
            met_since: self.met_since,
            tracker: match self.tracker {
                Some(t) => Some(t@),
                None => None,
            },
        }
    }
}

/// A timing sample in nanoseconds: the kind of input, its units, from the issue
/// to the first effect, and from there until the expectation was met.
#[derive(Debug, Clone, Copy, PartialEq, Eq, Structural)]
pub struct TimingSample {
    pub kind: InputKind,
    pub units: usize,
    pub to_effect_ns: u64,
    pub effect_to_done_ns: u64,
}

/// What a frame means for the action in flight.
#[derive(Debug, Clone, Copy, PartialEq, Eq, Structural)]
pub struct FrameVerdict {
    /// Release the buttons now.
    pub release: bool,
    pub outcome: Option<Outcome>,
    pub track: Track,
}

pub open spec fn on_track() -> Track {
    Track::OnTrack { predicted: 0, observed: None }
}

/// Something came up (a wild battle, a trainer, an NPC talking).
pub open spec fn came_up(o: Observation) -> bool {
    o.dialogue is Some || o.battle is Some || o.menu is Some || o.screen == ScreenState::Transition
}

impl PendingV {
    pub open spec fn begun(action: ActionV, issued: Moment, pose: Option<PoseV>) -> PendingV {
        PendingV {
            action,
            issued,
            issued_pose: pose,
            idle_since: None,
            confirmations: 0,
            first_effect: None,
            met_since: None,
            tracker: None,
        }
    }

    /// The player left the tile the action was issued from.
    pub open spec fn moved(self, o: Observation) -> bool {
        self.issued_pose is Some && o.player is Some && o.player->0@ != self.issued_pose->0
    }

    /// What a frame shows: the first effect, the run of confirming frames, and
    /// whether a walking hold is stalling.
    pub open spec fn noted(self, now: Moment, o: Observation, idle: bool, frame_clock: bool) -> (
        PendingV,
        Track,
    ) {
        let met = self.action.expect.met(o);
        let p = PendingV {
            first_effect: if self.first_effect is None && (met || self.moved(o)) {
                Some(now)
            } else {
                self.first_effect
            },
            idle_since: if idle && self.idle_since is None {
                Some(now.frame)
            } else {
                self.idle_since
            },
            met_since: if !met {
                None
            } else if self.met_since is None {
                Some(now)
            } else {
                self.met_since
            },
            confirmations: if idle && met {
                counted(self.confirmations)
            } else {
                0
            },
            ..self
        };
        // Once the buttons are released the timeout takes over.
        if self.tracker is Some && !idle {
            let step = self.tracker->0.tracked_on(
                elapsed(self.issued, now, frame_clock),
                pose_of(o.player),
            );
            (PendingV { tracker: Some(step.0), ..p }, step.1)
        } else {
            (p, on_track())
        }
    }

    /// Frames after the inputs finish before the action has timed out.
    pub open spec fn patience(self, allowance: u64) -> int {
        (if self.action.timeout_frames > CONFIRM_FRAMES {
            self.action.timeout_frames as int
        } else {
            CONFIRM_FRAMES as int
        }) + allowance
    }

    /// What a frame makes of the action.
    pub open spec fn judged(
        self,
        now: Moment,
        o: Observation,
        idle: bool,
        frame_clock: bool,
        allowance: u64,
    ) -> (PendingV, FrameVerdict) {
        let interrupted = self.action.interruptible && !idle && came_up(o);
        let step = self.noted(now, o, idle, frame_clock);
        let p = step.0;
        let stalled = !interrupted && step.1 is Stalled;
        // Release a directional hold as soon as its destination is visible.
        let there = !idle && p.tracker is Some && p.action.expect.met(o);
        let timed_out = p.idle_since is Some && now.frame > p.idle_since->0 + p.patience(
            allowance,
        );
        (
            p,
            FrameVerdict {
                release: there || interrupted || stalled,
                outcome: if interrupted {
                    Some(Outcome::Interrupted)
                } else if stalled {
                    Some(Outcome::Stalled)
                } else if p.confirmations >= CONFIRM_FRAMES {
                    Some(Outcome::Confirmed)
                } else if timed_out {
                    Some(Outcome::TimedOut)
                } else {
                    None
                },
                track: step.1,
            },
        )
    }

    /// The confirmed action's intervals.
    pub open spec fn sample(self, frame_clock: bool) -> Option<TimingSample> {
        match (self.action.timing, self.met_since) {
            (Some((kind, units)), Some(done)) => {
                let effect = match self.first_effect {
                    Some(m) => m,
                    None => done,
                };
                Some(
                    TimingSample {
                        kind,
                        units,
                        to_effect_ns: elapsed(self.issued, effect, frame_clock),
                        effect_to_done_ns: elapsed(effect, done, frame_clock),
                    },
                )
            },
            _ => None,
        }
    }

    /// The predictor of a walking hold that may be cut short: an interruptible
    /// action of two or more tiles, issued from a located tile, with a timing
    /// model to predict from.
    pub open spec fn predictor(self, timing: Option<Timing>) -> Option<TrackerV> {
        match (self.action.timing, self.issued_pose, timing) {
            (Some((InputKind::WalkTile, tiles)), Some(from), Some(timing)) => if tiles >= 2
                && self.action.interruptible {
                Some(TrackerV::of(from, tiles as u64, timing.of(InputKind::WalkTile), 0))
            } else {
                None
            },
            _ => None,
        }
    }
}

impl Pending {
    /// A walking hold is predicted by a unit that lasts.
    pub open spec fn valid(self) -> bool {
        self.tracker matches Some(t) ==> t.unit_ns > 0
    }

    pub fn new(action: Action, issued: Moment, observation: &Observation) -> (p: Pending)
        ensures
            p@ == PendingV::begun(action@, issued, pose_of(observation.player)),
            p.valid(),
    {
        let issued_pose = match &observation.player {
            Some(p) => Some(p.copy()),
            None => None,
        };
        Pending {
            action,
            issued,
            issued_pose,
            idle_since: None,
            confirmations: 0,
            first_effect: None,
            met_since: None,
            tracker: None,
        }
    }

    pub fn issued_frame(&self) -> (frame: u64)
        ensures
            frame == self@.issued.frame,
    {
        self.issued.frame
    }

    /// A predictor for a walking hold that may be cut short.
    pub fn hold_tracker(&self, timing: Option<&Timing>) -> (r: Option<HoldTracker>)
        ensures
            ({
                let wanted = self@.predictor(
                    match timing {
                        Some(t) => Some(*t),
                        None => None,
                    },
                );
                match r {
                    Some(t) => wanted == Some(t@) && t.unit_ns > 0,
                    None => wanted is None,
                }
            }),
    {
        let tiles: usize = match self.action.timing {
            Some((InputKind::WalkTile, tiles)) => tiles,
            _ => {
                return None;
            },
        };
        match (&self.issued_pose, timing) {
            (Some(from), Some(timing)) => {
                if tiles >= 2 && self.action.interruptible {
                    Some(HoldTracker::new(from.copy(), tiles as u64, timing))
                } else {
                    None
                }
            },
            _ => None,
        }
    }

    /// Notes what this frame shows: the first effect, the run of confirming
    /// frames, and whether a walking hold is stalling.
    pub fn note_frame(
        &mut self,
        now: Moment,
        observation: &Observation,
        idle: bool,
        frame_clock: bool,
    ) -> (track: Track)
        requires
            old(self).valid(),
        ensures
            final(self)@ == old(self)@.noted(now, *observation, idle, frame_clock).0,
            track == old(self)@.noted(now, *observation, idle, frame_clock).1,
            final(self).valid(),
            final(self).action == old(self).action,
    {
        let met = self.action.expect.met(observation);
        if self.first_effect.is_none() {
            let moved = match (&self.issued_pose, &observation.player) {
                (Some(from), Some(seen)) => !seen.same(from),
                _ => false,
            };
            if met || moved {
                self.first_effect = Some(now);
            }
        }
        if idle && self.idle_since.is_none() {
            self.idle_since = Some(now.frame);
        }
        if !met {
            self.met_since = None;
        } else if self.met_since.is_none() {
            self.met_since = Some(now);
        }
        self.confirmations = if idle && met {
            count(self.confirmations)
        } else {
            0
        };
        let elapsed: u64 = elapsed_ns(self.issued, now, frame_clock);
        match &mut self.tracker {
            Some(tracker) => {
                if !idle {
                    let pose = match &observation.player {
                        Some(p) => Some(p),
                        None => None,
                    };
                    tracker.track(elapsed, pose)
                } else {
                    Track::OnTrack { predicted: 0, observed: None }
                }
            },
            None => Track::OnTrack { predicted: 0, observed: None },
        }
    }

    /// What a frame of the game makes of the action: whether to release the
    /// buttons, and its outcome once it has one. `idle` tells that the
    /// controller has applied all inputs, and `allowance` how many frames more
    /// the action may take on this device.
    pub fn judge(
        &mut self,
        now: Moment,
        observation: &Observation,
        idle: bool,
        frame_clock: bool,
        allowance: u64,
    ) -> (v: FrameVerdict)
        requires
            old(self).valid(),
        ensures
            final(self)@ == old(self)@.judged(now, *observation, idle, frame_clock, allowance).0,
            v == old(self)@.judged(now, *observation, idle, frame_clock, allowance).1,
            final(self).valid(),
            final(self).action == old(self).action,
    {
        let interrupted = self.action.interruptible && !idle && (observation.dialogue.is_some()
            || observation.battle.is_some() || observation.menu.is_some() || observation.screen
            == ScreenState::Transition);
        let track = self.note_frame(now, observation, idle, frame_clock);
        let stalled = !interrupted && matches!(track, Track::Stalled { .. });
        let there = !idle && self.tracker.is_some() && self.action.expect.met(observation);
        let confirm: u64 = CONFIRM_FRAMES as u64;
        let patience: u64 = if self.action.timeout_frames > confirm {
            self.action.timeout_frames
        } else {
            confirm
        };
        let timed_out = match self.idle_since {
            Some(since) => now.frame as u128 > since as u128 + patience as u128
                + allowance as u128,
            None => false,
        };
        FrameVerdict {
            release: there || interrupted || stalled,
            outcome: if interrupted {
                Some(Outcome::Interrupted)
            } else if stalled {
                Some(Outcome::Stalled)
            } else if self.confirmations >= CONFIRM_FRAMES {
                Some(Outcome::Confirmed)
            } else if timed_out {
                Some(Outcome::TimedOut)
            } else {
                None
            },
            track,
        }
    }

    /// The confirmed action's intervals for the timing model.
    pub fn timing_sample(&self, frame_clock: bool) -> (r: Option<TimingSample>)
        ensures
            r == self@.sample(frame_clock),
    {
        let (kind, units) = match self.action.timing {
            Some(t) => t,
            None => {
                return None;
            },
        };
        let done = match self.met_since {
            Some(m) => m,
            None => {
                return None;
            },
        };
        let effect = match self.first_effect {
            Some(m) => m,
            None => done,
        };
        Some(
            TimingSample {
                kind,
                units,
                to_effect_ns: elapsed_ns(self.issued, effect, frame_clock),
                effect_to_done_ns: elapsed_ns(effect, done, frame_clock),
            },
        )
    }
}

/// An action is confirmed only where its expectation holds on this frame and
/// held on the one before, with the controller done both times.
pub proof fn confirming_takes_two_frames(
    p: PendingV,
    first: Moment,
    o1: Observation,
    idle1: bool,
    second: Moment,
    o2: Observation,
    idle2: bool,
    frame_clock: bool,
    allowance: u64,
)
    requires
        p.judged(first, o1, idle1, frame_clock, allowance).0.judged(
            second,
            o2,
            idle2,
            frame_clock,
            allowance,
        ).1.outcome == Some(Outcome::Confirmed),
    ensures
        idle1,
        idle2,
        p.action.expect.met(o1),
        p.action.expect.met(o2),
{
}

/// A fresh action is never confirmed by its first frame.
pub proof fn one_frame_never_confirms(
    action: ActionV,
    issued: Moment,
    pose: Option<PoseV>,
    now: Moment,
    o: Observation,
    idle: bool,
    frame_clock: bool,
    allowance: u64,
)
    ensures
        PendingV::begun(action, issued, pose).judged(
            now,
            o,
            idle,
            frame_clock,
            allowance,
        ).1.outcome != Some(Outcome::Confirmed),
{
}

/// Only an interruptible action is interrupted, and only while its inputs are
/// being played; the buttons are then released.
pub proof fn only_a_hold_is_interrupted(
    p: PendingV,
    now: Moment,
    o: Observation,
    idle: bool,
    frame_clock: bool,
    allowance: u64,
)
    requires
        p.judged(now, o, idle, frame_clock, allowance).1.outcome matches Some(out) && (out
            == Outcome::Interrupted || out == Outcome::Stalled),
    ensures
        !idle,
        p.judged(now, o, idle, frame_clock, allowance).1.release,
        p.judged(now, o, idle, frame_clock, allowance).1.outcome == Some(Outcome::Interrupted)
            ==> p.action.interruptible && came_up(o),
        p.judged(now, o, idle, frame_clock, allowance).1.outcome == Some(Outcome::Stalled)
            ==> p.tracker is Some,
{
}

/// Every action whose inputs were played has an outcome once its patience is
/// over.
pub proof fn every_action_ends(
    p: PendingV,
    now: Moment,
    o: Observation,
    idle: bool,
    frame_clock: bool,
    allowance: u64,
)
    requires
        p.idle_since is Some,
        now.frame > p.idle_since->0 + p.patience(allowance),
    ensures
        p.judged(now, o, idle, frame_clock, allowance).1.outcome is Some,
{
}

/// A walk's timing sample ends when the player was first seen where the action
/// wanted, however long the controller went on.
pub proof fn a_sample_ends_at_arrival(
    p: PendingV,
    now: Moment,
    o: Observation,
    idle: bool,
    frame_clock: bool,
)
    requires
        p.met_since is Some,
        p.first_effect is Some,
        p.action.expect.met(o),
    ensures
        p.noted(now, o, idle, frame_clock).0.sample(frame_clock) == p.sample(frame_clock),
{
}

} // verus!
