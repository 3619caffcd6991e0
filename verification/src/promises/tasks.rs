//! Running a task: what is done on a frame, when it is given up, and what a
//! landed action reports.

use vstd::prelude::*;

use crate::action::ActionV;
use crate::executor::{pressing, sending, DecisionV, Executor, Outcome, RunState, TaskStepV};
use crate::input::{Button, CommandV};
use crate::motion::syncer::InputKind;
use crate::motion::walker::pose_of;
use crate::observe::Observation;
use crate::pending::Moment;
use crate::promises::button_pressed;
use crate::task_run::TaskRunV;

verus! {

/// The one button that an action presses.
pub open spec fn presses(a: ActionV, b: Button) -> bool {
    a.commands == seq![CommandV::Press(b)]
}

/// A frame of a task: it is given up once its frames are over; outside the game
/// nothing is decided, and after more than ninety frames there a button is
/// pressed, Home and A in turn; inside it is the task's turn.
pub proof fn what_a_frame_is_for(s: RunState, e: Executor, frame: u64, outside: bool)
    requires
        s.outside.presses < u32::MAX,
    ensures
        ({
            let (next, step) = s.looked(e, frame, outside);
            let first = match s.first_frame {
                Some(f) => f,
                None => frame,
            };
            let since = match s.outside.since {
                Some(f) => f,
                None => frame,
            };
            let over = frame > first + e.max_frames;
            let lost = outside && frame > since + 90;
            &&& step is GiveUp <==> over
            &&& !over && !outside ==> step is Decide && next.outside.presses == 0
                && next.outside.since is None
            &&& !over && outside && !lost ==> step is Look && next.outside.since == Some(since)
            &&& !over && lost ==> step is Recover && presses(
                step->Recover_0,
                if s.outside.presses % 2 == 0 {
                    Button::Home
                } else {
                    Button::A
                },
            ) && next.outside.presses == s.outside.presses + 1 && next.outside.since == Some(frame)
            &&& next.first_frame == Some(first)
        }),
{
}

/// What becomes of a decision: an action is performed, within the frames of the
/// task; what is done or failed ends it so; a wait is watched, with one press of
/// B after half of the time that is allowed for it, and failure after all of it.
pub proof fn what_becomes_of_a_decision(s: RunState, e: Executor, frame: u64, d: DecisionV)
    requires
        s.first_frame is Some,
        s.first_frame->0 + e.max_frames <= u64::MAX,
    ensures
        ({
            let (next, step) = s.decided(e, frame, d);
            let since = match s.waiting_since {
                Some(f) => f,
                None => frame,
            };
            &&& d matches DecisionV::Act(a) ==> step == (TaskStepV::Perform {
                action: a,
                deadline: (s.first_frame->0 + e.max_frames) as u64,
            }) && next.waiting_since is None && !next.nudged
            &&& d is Done ==> step is Finish && step->success && step->detail == d->Done_0
            &&& d is Fail ==> step is Finish && !step->success && step->detail == d->Fail_0
            &&& d is Wait ==> {
                &&& next.waiting_since == Some(since)
                &&& step is Nudge <==> !s.nudged && frame > since + e.max_wait_frames / 2
                &&& step is Nudge ==> presses(step->Nudge_0, Button::B) && next.nudged
                &&& step is Finish <==> s.nudged && frame > since + e.max_wait_frames || (!s.nudged
                    && frame > since + e.max_wait_frames && !(frame > since + e.max_wait_frames
                    / 2))
                &&& step is Finish ==> !step->success
                &&& !(step is Perform)
            }
        }),
{
}

/// What is sent is the one command, with the time it was given, and is not cut
/// short.
pub proof fn one_command_is_sent(label: Seq<char>, b: Button, c: CommandV, a: ActionV, frames: u64)
    ensures
        sending(label, c, a.expect, frames) matches DecisionV::Act(x) && x.commands == seq![c]
            && x.expect == a.expect && x.timeout_frames == frames && !x.interruptible && x.timing
            is None && x.label == label,
        button_pressed(pressing(label, b, a.expect, frames)) == Some(b),
{
}

/// An action that was issued is awaited until it lands or the task's frames are
/// over; in between nothing new is decided. What lands says how long it took from
/// its issue, and whether it was seen.
pub proof fn an_action_is_awaited(
    t: TaskRunV,
    e: Executor,
    name: Seq<char>,
    now: Moment,
    o: Observation,
    outside: bool,
    idle: bool,
)
    requires
        t.flight is Some,
        t.flight->0.pending.issued.frame <= now.frame,
    ensures
        ({
            let (next, step) = t.seen(e, name, now, o, outside, idle);
            let f = t.flight->0;
            let late = now.frame > f.deadline;
            &&& late ==> step is Finish && !step->success && next.flight is None
            &&& !late && outside ==> step is Look && next == t
            &&& !late && !outside ==> step is Landed || step is Look || step is Release
            &&& step is Landed ==> {
                &&& next.flight is None
                &&& step->Landed_0.action == f.pending.action
                &&& step->Landed_0.frames == now.frame - f.pending.issued.frame
                &&& step->Landed_0.note is Some <==> step->Landed_0.outcome == Outcome::TimedOut
                &&& step->Landed_0.sample is Some ==> step->Landed_0.outcome == Outcome::Confirmed
            }
            &&& step is Look || step is Release ==> next.flight is Some && next.flight->0.deadline
                == f.deadline && next.flight->0.pending.action == f.pending.action
                && next.flight->0.pending.issued == f.pending.issued
            &&& next.state == t.state
        }),
{
}

/// What was launched flies as it was issued, from where the player was seen, with
/// the deadline it was given.
pub proof fn what_is_launched_flies(
    t: TaskRunV,
    e: Executor,
    action: ActionV,
    issued: Moment,
    o: Observation,
    deadline: u64,
)
    ensures
        ({
            let next = t.launched(e, action, issued, o, deadline);
            &&& next.flight is Some && next.flight->0.deadline == deadline
            &&& next.flight->0.pending.action == action && next.flight->0.pending.issued == issued
            &&& next.flight->0.pending.issued_pose == pose_of(o.player)
            &&& next.flight->0.pending.confirmations == 0
                && next.flight->0.pending.idle_since is None
                && next.flight->0.pending.first_effect is None
            &&& next.state == t.state
        }),
{
}

/// A decision goes through unchanged: an action is issued, a wait looks on, and
/// an end is an end.
pub proof fn a_decision_goes_through(t: TaskRunV, e: Executor, frame: u64, d: DecisionV)
    ensures
        ({
            let (next, step) = t.decided(e, frame, d);
            &&& d matches DecisionV::Act(a) ==> step is Issue && step->action == a
            &&& d is Done ==> step is Finish && step->success
            &&& d is Fail ==> step is Finish && !step->success
            &&& d is Wait ==> step is Look || step is Press || step is Finish
            &&& next.flight == t.flight
        }),
{
}

/// What lands says how long its inputs had been done.
pub proof fn what_lands_says_how_long_it_took(
    t: TaskRunV,
    e: Executor,
    name: Seq<char>,
    now: Moment,
    o: Observation,
    done: u64,
)
    requires
        t.flight is Some,
        t.flight->0.pending.idle_since == Some(done),
        done <= now.frame,
        t.seen(e, name, now, o, false, true).1 is Landed,
    ensures
        t.seen(e, name, now, o, false, true).1->Landed_0.after_idle == Some(
            (now.frame - done) as u64,
        ),
{
}

/// A device is allowed what was measured of it, and without a measure the frames
/// that it was set to.
pub proof fn a_device_is_allowed_its_frames(e: Executor, kind: Option<InputKind>)
    ensures
        e.timing is None ==> e.allowed(kind) == e.latency_frames,
        e.timing is Some ==> e.allowed(kind) == e.timing->0.allowance(kind),
{
}

} // verus!
