//! A task on the device, frame by frame: the task decides while nothing is in
//! flight, an action that was issued is followed to its outcome, and the way
//! back into the game, the waiting and the end of the task go by the executor's
//! rules.

use vstd::prelude::*;

use crate::action::{Action, ActionV};
use crate::executor::{
    gave_up, later, unconfirmed, Decision, DecisionV, Executor, FrameStep, FrameStepV, Outcome,
    RunState, TaskStep, TaskStepV,
};
use crate::motion::syncer::InputKind;
use crate::motion::walker::{pose_of, Track};
use crate::observe::Observation;
use crate::pending::{FrameVerdict, Moment, Pending, PendingV, TimingSample};
use crate::text::decimal_of;

verus! {

/// The action in flight and the last frame it may take.
#[derive(Debug)]
pub struct Flight {
    pub pending: Pending,
    pub deadline: u64,
}

pub struct FlightV {
    pub pending: PendingV,
    pub deadline: u64,
}

impl View for Flight {
    type V = FlightV;

    open spec fn view(&self) -> FlightV {
        FlightV { pending: self.pending@, deadline: self.deadline }
    }
}

/// An action that came to its outcome.
#[derive(Debug)]
pub struct Landing {
    pub action: Action,
    pub outcome: Outcome,
    /// Release the buttons.
    pub release: bool,
    /// Frames since it was issued, and since its inputs were done.
    pub frames: u64,
    pub after_idle: Option<u64>,
    pub track: Track,
    /// What is said of it where it timed out.
    pub note: Option<String>,
    /// What it teaches of the timing where it was confirmed.
    pub sample: Option<TimingSample>,
}

pub struct LandingV {
    pub action: ActionV,
    pub outcome: Outcome,
    pub release: bool,
    pub frames: u64,
    pub after_idle: Option<u64>,
    pub track: Track,
    pub note: Option<Seq<char>>,
    pub sample: Option<TimingSample>,
}

impl View for Landing {
    type V = LandingV;

    open spec fn view(&self) -> LandingV {
        LandingV {
            action: self.action@,
            outcome: self.outcome,
            release: self.release,
            frames: self.frames,
            after_idle: self.after_idle,
            track: self.track,
            note: match self.note {
                Some(s) => Some(s@),
                None => None,
            },
            sample: self.sample,
        }
    }
}

/// What to do next.
#[derive(Debug)]
pub enum RunStep {
    /// Look at another frame.
    Look,
    /// Release the buttons, and look.
    Release,
    /// Press this (the way back into the game, or a nudge), and look.
    Press(Action),
    /// Let the task decide on this frame.
    Decide,
    /// Issue the action's inputs; it may take until `deadline`.
    Issue { action: Action, deadline: u64 },
    /// Tell the task of the outcome.
    Landed(Landing),
    Finish { success: bool, detail: String },
}

pub enum RunStepV {
    Look,
    Release,
    Press(ActionV),
    Decide,
    Issue { action: ActionV, deadline: u64 },
    Landed(LandingV),
    Finish { success: bool, detail: Seq<char> },
}

impl View for RunStep {
    type V = RunStepV;

    open spec fn view(&self) -> RunStepV {
        match *self {
            RunStep::Look => RunStepV::Look,
            RunStep::Release => RunStepV::Release,
            RunStep::Press(a) => RunStepV::Press(a@),
            RunStep::Decide => RunStepV::Decide,
            RunStep::Issue { action, deadline } => RunStepV::Issue { action: action@, deadline },
            RunStep::Landed(l) => RunStepV::Landed(l@),
            RunStep::Finish { success, detail } => RunStepV::Finish { success, detail: detail@ },
        }
    }
}

/// A running task.
#[derive(Debug)]
pub struct TaskRun {
    pub state: RunState,
    pub flight: Option<Flight>,
}

pub struct TaskRunV {
    pub state: RunState,
    pub flight: Option<FlightV>,
}

impl View for TaskRun {
    type V = TaskRunV;

    open spec fn view(&self) -> TaskRunV {
        TaskRunV {
            state: self.state,
            flight: match self.flight {
                Some(f) => Some(f@),
                None => None,
            },
        }
    }
}

pub open spec fn since(frame: u64, from: u64) -> u64 {
    if frame > from {
        (frame - from) as u64
    } else {
        0
    }
}

pub open spec fn input_kind(timing: Option<(InputKind, usize)>) -> Option<InputKind> {
    match timing {
        Some(t) => Some(t.0),
        None => None,
    }
}

/// How an action in flight lands on a frame.
pub open spec fn landing(
    p: PendingV,
    v: FrameVerdict,
    name: Seq<char>,
    frame: u64,
    frame_clock: bool,
) -> LandingV {
    let frames = since(frame, p.issued.frame);
    LandingV {
        action: p.action,
        outcome: v.outcome->0,
        release: v.release,
        frames,
        after_idle: match p.idle_since {
            Some(i) => Some(since(frame, i)),
            None => None,
        },
        track: v.track,
        note: if v.outcome->0 == Outcome::TimedOut {
            Some(
                name + ": \""@ + p.action.label + "\" not confirmed after "@ + decimal_of(
                    frames as nat,
                ) + " frames"@,
            )
        } else {
            None
        },
        sample: if v.outcome->0 == Outcome::Confirmed {
            p.sample(frame_clock)
        } else {
            None
        },
    }
}

impl TaskRunV {
    /// A frame while an action is in flight. Outside the game it can't show its
    /// effect.
    pub open spec fn flown(
        self,
        e: Executor,
        name: Seq<char>,
        now: Moment,
        o: Observation,
        outside: bool,
        idle: bool,
    ) -> (TaskRunV, RunStepV) {
        let f = self.flight->0;
        if now.frame > f.deadline {
            (
                TaskRunV { flight: None, ..self },
                RunStepV::Finish { success: false, detail: gave_up(e.max_frames) },
            )
        } else if outside {
            (self, RunStepV::Look)
        } else {
            let allowance = e.allowed(input_kind(f.pending.action.timing)) as u64;
            let (p, v) = f.pending.judged(now, o, idle, e.frame_clock, allowance);
            if v.outcome is Some {
                (
                    TaskRunV { flight: None, ..self },
                    RunStepV::Landed(landing(p, v, name, now.frame, e.frame_clock)),
                )
            } else {
                (
                    TaskRunV {
                        flight: Some(FlightV { pending: p, deadline: f.deadline }),
                        ..self
                    },
                    if v.release {
                        RunStepV::Release
                    } else {
                        RunStepV::Look
                    },
                )
            }
        }
    }

    /// A frame while nothing is in flight.
    pub open spec fn free(self, e: Executor, frame: u64, outside: bool) -> (TaskRunV, RunStepV) {
        let looked = self.state.looked(e, frame, outside);
        (
            TaskRunV { state: looked.0, ..self },
            match looked.1 {
                FrameStepV::Decide => RunStepV::Decide,
                FrameStepV::Look => RunStepV::Look,
                FrameStepV::Recover(a) => RunStepV::Press(a),
                FrameStepV::GiveUp(detail) => RunStepV::Finish { success: false, detail },
            },
        )
    }

    pub open spec fn seen(
        self,
        e: Executor,
        name: Seq<char>,
        now: Moment,
        o: Observation,
        outside: bool,
        idle: bool,
    ) -> (TaskRunV, RunStepV) {
        if self.flight is Some {
            self.flown(e, name, now, o, outside, idle)
        } else {
            self.free(e, now.frame, outside)
        }
    }

    /// A decision of the task on a frame.
    pub open spec fn decided(self, e: Executor, frame: u64, decision: DecisionV) -> (
        TaskRunV,
        RunStepV,
    ) {
        let d = self.state.decided(e, frame, decision);
        (
            TaskRunV { state: d.0, ..self },
            match d.1 {
                TaskStepV::Perform { action, deadline } => RunStepV::Issue { action, deadline },
                TaskStepV::Look => RunStepV::Look,
                TaskStepV::Nudge(a) => RunStepV::Press(a),
                TaskStepV::Finish { success, detail } => RunStepV::Finish { success, detail },
            },
        )
    }

    /// An action's inputs were issued.
    pub open spec fn launched(
        self,
        e: Executor,
        action: ActionV,
        issued: Moment,
        o: Observation,
        deadline: u64,
    ) -> TaskRunV {
        let p = PendingV::begun(action, issued, pose_of(o.player));
        TaskRunV {
            flight: Some(
                FlightV { pending: PendingV { tracker: p.predictor(e.timing), ..p }, deadline },
            ),
            ..self
        }
    }

    /// The action in flight has the task's own deadline.
    pub open spec fn on_time(self, e: Executor) -> bool {
        self.flight matches Some(f) ==> self.state.first_frame matches Some(first) && f.deadline
            == later(first, e.max_frames)
    }
}

fn frames_since(frame: u64, from: u64) -> (n: u64)
    ensures
        n == since(frame, from),
{
    if frame > from {
        frame - from
    } else {
        0
    }
}

impl TaskRun {
    /// A walking hold in flight is predicted by a unit that lasts.
    pub open spec fn valid(self) -> bool {
        self.flight matches Some(f) ==> f.pending.valid()
    }

    pub fn new() -> (r: TaskRun)
        ensures
            r@ == (TaskRunV { state: RunState::fresh(), flight: None }),
            r.valid(),
    {
        TaskRun { state: RunState::default(), flight: None }
    }

    fn land(
        e: &Executor,
        name: &str,
        p: Pending,
        v: FrameVerdict,
        outcome: Outcome,
        frame: u64,
    ) -> (l: Landing)
        requires
            v.outcome == Some(outcome),
        ensures
            l@ == landing(p@, v, name@, frame, e.frame_clock),
    {
        let frames: u64 = frames_since(frame, p.issued_frame());
        let note = if outcome == Outcome::TimedOut {
            Some(unconfirmed(name, p.action.label.as_str(), frames))
        } else {
            None
        };
        let sample = if outcome == Outcome::Confirmed {
            p.timing_sample(e.frame_clock)
        } else {
            None
        };
        let after_idle = match p.idle_since {
            Some(i) => Some(frames_since(frame, i)),
            None => None,
        };
        Landing {
            action: p.action,
            outcome,
            release: v.release,
            frames,
            after_idle,
            track: v.track,
            note,
            sample,
        }
    }

    fn fly(
        &mut self,
        flight: Flight,
        e: &Executor,
        name: &str,
        now: Moment,
        o: &Observation,
        outside: bool,
        idle: bool,
    ) -> (s: RunStep)
        requires
            flight.pending.valid(),
            old(self).flight is None,
        ensures
            ({
                let before = TaskRunV { state: old(self).state, flight: Some(flight@) };
                let r = before.flown(*e, name@, now, *o, outside, idle);
                final(self)@ == r.0 && s@ == r.1
            }),
            final(self).valid(),
    {
        let mut flight = flight;
        if let Some(detail) = e.past_deadline(now.frame, flight.deadline) {
            return RunStep::Finish { success: false, detail };
        }
        if outside {
            self.flight = Some(flight);
            return RunStep::Look;
        }
        let kind = match flight.pending.action.timing {
            Some(t) => Some(t.0),
            None => None,
        };
        let allowance: u64 = e.allowance(kind);
        let v = flight.pending.judge(now, o, idle, e.frame_clock, allowance);
        match v.outcome {
            Some(outcome) => RunStep::Landed(
                TaskRun::land(e, name, flight.pending, v, outcome, now.frame),
            ),
            None => {
                self.flight = Some(flight);
                if v.release {
                    RunStep::Release
                } else {
                    RunStep::Look
                }
            },
        }
    }

    /// A frame of the running task: what to do on it. `outside` tells that the
    /// console shows something other than the game, `idle` that the controller
    /// has applied all inputs.
    pub fn see(
        &mut self,
        e: &Executor,
        name: &str,
        now: Moment,
        o: &Observation,
        outside: bool,
        idle: bool,
    ) -> (s: RunStep)
        requires
            old(self).valid(),
        ensures
            final(self)@ == old(self)@.seen(*e, name@, now, *o, outside, idle).0,
            s@ == old(self)@.seen(*e, name@, now, *o, outside, idle).1,
            final(self).valid(),
    {
        let mut flight: Option<Flight> = None;
        std::mem::swap(&mut self.flight, &mut flight);
        match flight {
            Some(flight) => self.fly(flight, e, name, now, o, outside, idle),
            None => match self.state.look(e, now.frame, outside) {
                FrameStep::Decide => RunStep::Decide,
                FrameStep::Look => RunStep::Look,
                FrameStep::Recover(a) => RunStep::Press(a),
                FrameStep::GiveUp(detail) => RunStep::Finish { success: false, detail },
            },
        }
    }

    /// What to do with the task's decision on a frame.
    pub fn decide(&mut self, e: &Executor, frame: u64, decision: Decision) -> (s: RunStep)
        requires
            old(self).valid(),
        ensures
            final(self)@ == old(self)@.decided(*e, frame, decision@).0,
            s@ == old(self)@.decided(*e, frame, decision@).1,
            final(self).valid(),
    {
        match self.state.decide(e, frame, decision) {
            TaskStep::Perform { action, deadline } => RunStep::Issue { action, deadline },
            TaskStep::Look => RunStep::Look,
            TaskStep::Nudge(a) => RunStep::Press(a),
            TaskStep::Finish { success, detail } => RunStep::Finish { success, detail },
        }
    }

    /// The action's inputs were issued, on a frame that showed `o`.
    pub fn launch(
        &mut self,
        e: &Executor,
        action: Action,
        issued: Moment,
        o: &Observation,
        deadline: u64,
    )
        ensures
            final(self)@ == old(self)@.launched(*e, action@, issued, *o, deadline),
            final(self).valid(),
    {
        let mut pending = Pending::new(action, issued, o);
        let tracker = match &e.timing {
            Some(t) => pending.hold_tracker(Some(t)),
            None => pending.hold_tracker(None),
        };
        pending.tracker = tracker;
        self.flight = Some(Flight { pending, deadline });
    }
}

/// A task is over once its frames are used up, whether or not an action is in
/// flight.
pub proof fn a_task_is_over_in_flight_too(
    r: TaskRunV,
    e: Executor,
    name: Seq<char>,
    now: Moment,
    o: Observation,
    outside: bool,
    idle: bool,
)
    requires
        r.on_time(e),
        r.state.first_frame matches Some(first) && now.frame > first + e.max_frames,
    ensures
        r.seen(e, name, now, o, outside, idle).1 == (RunStepV::Finish {
            success: false,
            detail: gave_up(e.max_frames),
        }),
{
}

/// What a task issues shares the task's deadline, and keeps it.
pub proof fn every_flight_is_on_time(
    r: TaskRunV,
    e: Executor,
    name: Seq<char>,
    now: Moment,
    o: Observation,
    outside: bool,
    idle: bool,
    decision: DecisionV,
    issued: Moment,
)
    requires
        r.on_time(e),
    ensures
        ({
            let (next, step) = r.seen(e, name, now, o, outside, idle);
            &&& next.on_time(e)
            &&& step is Decide ==> {
                let (chosen, what) = next.decided(e, now.frame, decision);
                &&& chosen.on_time(e)
                &&& what matches RunStepV::Issue { action, deadline } ==> chosen.launched(
                    e,
                    action,
                    issued,
                    o,
                    deadline,
                ).on_time(e)
            }
        }),
{
}

/// The task decides only while nothing is in flight, and only in the game.
pub proof fn nothing_is_decided_in_flight(
    r: TaskRunV,
    e: Executor,
    name: Seq<char>,
    now: Moment,
    o: Observation,
    outside: bool,
    idle: bool,
)
    requires
        r.seen(e, name, now, o, outside, idle).1 is Decide,
    ensures
        r.flight is None,
        !outside,
        r.seen(e, name, now, o, outside, idle).0.flight is None,
{
}

/// Outside the game no action has an outcome.
pub proof fn outside_the_game_nothing_lands(
    r: TaskRunV,
    e: Executor,
    name: Seq<char>,
    now: Moment,
    o: Observation,
    idle: bool,
)
    ensures
        !(r.seen(e, name, now, o, true, idle).1 is Landed),
{
}

/// Only a confirmed action teaches timing, and only one that timed out is
/// remarked on.
pub proof fn only_confirmed_actions_teach(
    r: TaskRunV,
    e: Executor,
    name: Seq<char>,
    now: Moment,
    o: Observation,
    outside: bool,
    idle: bool,
    l: LandingV,
)
    requires
        r.seen(e, name, now, o, outside, idle).1 == RunStepV::Landed(l),
    ensures
        l.sample is Some ==> l.outcome == Outcome::Confirmed,
        l.note is Some <==> l.outcome == Outcome::TimedOut,
        r.seen(e, name, now, o, outside, idle).0.flight is None,
{
}

} // verus!
