//! Decisions of a task, what came of an action, and the rules of running one:
//! when a task is stuck, and how to get back into the game.

use vstd::prelude::*;

use crate::action::{Action, ActionV, Expectation, ExpectationV};
use crate::event::{GameEvent, GameEventV};
use crate::input::{commands_of, Button, CommandV, ControllerCommand};
use crate::motion::syncer::{InputKind, Timing};
use crate::save::{count, counted};
use crate::text::{cat, cat3, decimal, decimal_of};

verus! {

/// What came of an action.
#[derive(Debug, Clone, Copy, PartialEq, Eq, Structural)]
pub enum Outcome {
    Confirmed,
    TimedOut,
    /// An interruptible action was cancelled because something came up.
    Interrupted,
    /// An interruptible walk was cancelled because the player fell behind
    /// the tile the timing model predicted (blocked, or slower than
    /// modelled).
    Stalled,
}

/// What a task wants next.
#[derive(Debug, Clone)]
pub enum Decision {
    Act(Action),
    /// Look at another frame first, and why.
    Wait(String),
    Done(String),
    Fail(String),
}

/// What a decision says.
pub enum DecisionV {
    Act(ActionV),
    Wait(Seq<char>),
    Done(Seq<char>),
    Fail(Seq<char>),
}

impl View for Decision {
    type V = DecisionV;

    open spec fn view(&self) -> DecisionV {
        match *self {
            Decision::Act(a) => DecisionV::Act(a@),
            Decision::Wait(r) => DecisionV::Wait(r@),
            Decision::Done(r) => DecisionV::Done(r@),
            Decision::Fail(r) => DecisionV::Fail(r@),
        }
    }
}

/// Sends one command, and what it is to show.
pub open spec fn sending(
    label: Seq<char>,
    command: CommandV,
    expect: ExpectationV,
    timeout: u64,
) -> DecisionV {
    DecisionV::Act(
        ActionV {
            label,
            commands: seq![command],
            expect,
            timeout_frames: timeout,
            interruptible: false,
            timing: None,
        },
    )
}

/// Presses one button, and what that is to show.
pub open spec fn pressing(
    label: Seq<char>,
    button: Button,
    expect: ExpectationV,
    timeout: u64,
) -> DecisionV {
    sending(label, CommandV::Press(button), expect, timeout)
}

pub(crate) fn send(
    label: String,
    command: ControllerCommand,
    expect: Expectation,
    timeout: u64,
) -> (d: Decision)
    ensures
        d@ == sending(label@, command@, expect@, timeout),
{
    let mut commands: Vec<ControllerCommand> = Vec::new();
    commands.push(command);
    assert(commands_of(commands@) =~= seq![command@]);
    Decision::Act(Action::new(label, commands, expect, timeout))
}

pub(crate) fn press(label: String, button: Button, expect: Expectation, timeout: u64) -> (d:
    Decision)
    ensures
        d@ == pressing(label@, button, expect@, timeout),
{
    send(label, ControllerCommand::Press(button), expect, timeout)
}

pub(crate) fn wait_for(reason: &str) -> (d: Decision)
    ensures
        d@ == DecisionV::Wait(reason@),
{
    Decision::Wait(reason.to_owned())
}

/// Frames the console may show something other than the game (HOME menu,
/// a system dialog) before the executor tries to get back into it.
pub const OUTSIDE_GAME_FRAMES: u64 = 90;

/// Why a task ended without its goal.
#[derive(Debug, Clone, PartialEq, Eq)]
pub enum ExecutorError {
    TaskFailed { task: String, reason: String },
    Stopped,
    /// A device failed, and what it said.
    Device(String),
}

impl ExecutorError {
    pub open spec fn told(self) -> Seq<char> {
        match self {
            ExecutorError::TaskFailed { task, reason } => task@ + " failed: "@ + reason@,
            ExecutorError::Stopped => "stopped by user"@,
            ExecutorError::Device(detail) => detail@,
        }
    }

    /// The error in words.
    pub fn message(&self) -> (s: String)
        ensures
            s@ == self.told(),
    {
        match self {
            ExecutorError::TaskFailed { task, reason } => cat3(
                task.as_str(),
                " failed: ",
                reason.as_str(),
            ),
            ExecutorError::Stopped => "stopped by user".to_owned(),
            ExecutorError::Device(detail) => detail.clone(),
        }
    }
}

/// How long a task may take.
#[derive(Debug, Clone, Copy)]
pub struct Executor {
    /// Longest the task may wait without acting before it counts as stuck.
    pub max_wait_frames: u64,
    /// Hard cap on the whole task.
    pub max_frames: u64,
    /// Extra frames every action may take to show its effect: 0 for an
    /// emulator stepped by the bot, more for real hardware (controller, game
    /// and capture latency). Superseded by the timing model when there is one.
    pub latency_frames: u64,
    /// The timing model: consulted for the allowance and to predict walking
    /// holds.
    pub timing: Option<Timing>,
    /// Measure time in frames (at the game's rate) instead of wall time:
    /// for an in-process emulator stepped by the bot.
    pub frame_clock: bool,
}

impl Default for Executor {
    fn default() -> (e: Executor)
        ensures
            e == (Executor {
                max_wait_frames: 2700,
                max_frames: 72_000,
                latency_frames: 0,
                timing: None,
                frame_clock: false,
            }),
    {
        Executor {
            max_wait_frames: 45 * 60,
            max_frames: 60 * 60 * 20,
            latency_frames: 0,
            timing: None,
            frame_clock: false,
        }
    }
}

/// Bookkeeping of the executor's way back into the game when the console
/// shows something else (HOME menu, a system dialog).
#[derive(Debug, Clone, Copy, PartialEq, Eq, Structural)]
pub struct OutsideRecovery {
    pub since: Option<u64>,
    pub presses: u32,
}

impl Default for OutsideRecovery {
    fn default() -> (r: OutsideRecovery)
        ensures
            r == (OutsideRecovery { since: None, presses: 0 }),
    {
        OutsideRecovery { since: None, presses: 0 }
    }
}

/// Where the console stands.
#[derive(Debug)]
pub enum Outside {
    /// In the game.
    Inside,
    /// Outside it: look at another frame.
    Waiting,
    /// Outside it for long: press this.
    Recover(Action),
}

pub enum OutsideV {
    Inside,
    Waiting,
    Recover(ActionV),
}

impl View for Outside {
    type V = OutsideV;

    open spec fn view(&self) -> OutsideV {
        match *self {
            Outside::Inside => OutsideV::Inside,
            Outside::Waiting => OutsideV::Waiting,
            Outside::Recover(a) => OutsideV::Recover(a@),
        }
    }
}

/// A single press that is done once its input is.
pub open spec fn blind_press(label: Seq<char>, button: Button) -> ActionV {
    ActionV {
        label,
        commands: seq![CommandV::Press(button)],
        expect: ExpectationV::InputsDone,
        timeout_frames: 30,
        interruptible: false,
        timing: None,
    }
}

fn press_blindly(label: String, button: Button) -> (a: Action)
    ensures
        a@ == blind_press(label@, button),
{
    let mut commands: Vec<ControllerCommand> = Vec::new();
    commands.push(ControllerCommand::Press(button));
    assert(commands_of(commands@) =~= seq![CommandV::Press(button)]);
    Action::new(label, commands, Expectation::InputsDone, 30)
}

impl OutsideRecovery {
    /// Home (back to the game), then A, alternating.
    pub open spec fn button(self) -> Button {
        if self.presses % 2 == 0 {
            Button::Home
        } else {
            Button::A
        }
    }

    pub open spec fn stepped(self, outside: bool, frame: u64) -> (OutsideRecovery, OutsideV) {
        if !outside {
            (OutsideRecovery { since: None, presses: 0 }, OutsideV::Inside)
        } else {
            let since = match self.since {
                Some(s) => s,
                None => frame,
            };
            if frame > since + OUTSIDE_GAME_FRAMES {
                (
                    OutsideRecovery { since: Some(frame), presses: counted(self.presses) },
                    OutsideV::Recover(
                        blind_press(
                            "recover: the console left the game, press "@
                                + self.button().called(),
                            self.button(),
                        ),
                    ),
                )
            } else {
                (OutsideRecovery { since: Some(since), ..self }, OutsideV::Waiting)
            }
        }
    }

    /// Outside the game (HOME menu, system dialog) on the current frame:
    /// after [`OUTSIDE_GAME_FRAMES`] presses Home (back to the game), then
    /// A, alternating.
    pub fn recover_outside(&mut self, outside: bool, frame: u64) -> (r: Outside)
        ensures
            *final(self) == old(self).stepped(outside, frame).0,
            r@ == old(self).stepped(outside, frame).1,
    {
        if !outside {
            self.since = None;
            self.presses = 0;
            return Outside::Inside;
        }
        let since: u64 = match self.since {
            Some(s) => s,
            None => frame,
        };
        if frame >= since && frame - since > OUTSIDE_GAME_FRAMES {
            let button = if self.presses % 2 == 0 {
                Button::Home
            } else {
                Button::A
            };
            self.presses = count(self.presses);
            self.since = Some(frame);
            return Outside::Recover(
                press_blindly(
                    cat("recover: the console left the game, press ", button.name()),
                    button,
                ),
            );
        }
        self.since = Some(since);
        Outside::Waiting
    }
}

/// One B press when a wait has gone on too long: it closes menus and
/// pages the task doesn't know, advances text, and is the safe answer
/// (NO) to an unexpected question.
pub open spec fn nudging(reason: Seq<char>) -> ActionV {
    blind_press("recover: stuck waiting ("@ + reason + "), press B"@, Button::B)
}

pub fn nudge(reason: &str) -> (a: Action)
    ensures
        a@ == nudging(reason@),
{
    press_blindly(cat3("recover: stuck waiting (", reason, "), press B"), Button::B)
}

/// What is remembered while a task runs.
#[derive(Debug, Clone, Copy, PartialEq, Eq, Structural)]
pub struct RunState {
    pub first_frame: Option<u64>,
    /// Since when the task has waited.
    pub waiting_since: Option<u64>,
    /// The recovery press was made since the task last acted on its own.
    pub nudged: bool,
    pub outside: OutsideRecovery,
}

impl Default for RunState {
    fn default() -> (s: RunState)
        ensures
            s == RunState::fresh(),
    {
        RunState {
            first_frame: None,
            waiting_since: None,
            nudged: false,
            outside: OutsideRecovery { since: None, presses: 0 },
        }
    }
}

/// What to do with a frame of a running task.
#[derive(Debug)]
pub enum FrameStep {
    /// Let the task decide.
    Decide,
    /// Nothing the task decides can help: look at another frame.
    Look,
    /// The console is outside the game: press this.
    Recover(Action),
    /// The task took too long, and why it fails.
    GiveUp(String),
}

pub enum FrameStepV {
    Decide,
    Look,
    Recover(ActionV),
    GiveUp(Seq<char>),
}

impl View for FrameStep {
    type V = FrameStepV;

    open spec fn view(&self) -> FrameStepV {
        match *self {
            FrameStep::Decide => FrameStepV::Decide,
            FrameStep::Look => FrameStepV::Look,
            FrameStep::Recover(a) => FrameStepV::Recover(a@),
            FrameStep::GiveUp(r) => FrameStepV::GiveUp(r@),
        }
    }
}

/// What to do with a decision.
#[derive(Debug)]
pub enum TaskStep {
    /// Perform the action, giving up after frame `deadline`.
    Perform { action: Action, deadline: u64 },
    Look,
    /// The task waits for too long: press this once.
    Nudge(Action),
    Finish { success: bool, detail: String },
}

pub enum TaskStepV {
    Perform { action: ActionV, deadline: u64 },
    Look,
    Nudge(ActionV),
    Finish { success: bool, detail: Seq<char> },
}

impl View for TaskStep {
    type V = TaskStepV;

    open spec fn view(&self) -> TaskStepV {
        match *self {
            TaskStep::Perform { action, deadline } => TaskStepV::Perform {
                action: action@,
                deadline,
            },
            TaskStep::Look => TaskStepV::Look,
            TaskStep::Nudge(a) => TaskStepV::Nudge(a@),
            TaskStep::Finish { success, detail } => TaskStepV::Finish { success, detail: detail@ },
        }
    }
}

/// "gave up after 72000 frames".
pub open spec fn gave_up(max_frames: u64) -> Seq<char> {
    "gave up after "@ + decimal_of(max_frames as nat) + " frames"@
}

/// The frame a number of frames after another.
pub open spec fn later(frame: u64, frames: u64) -> u64 {
    if frame + frames <= u64::MAX {
        (frame + frames) as u64
    } else {
        u64::MAX
    }
}

impl RunState {
    pub open spec fn fresh() -> RunState {
        RunState {
            first_frame: None,
            waiting_since: None,
            nudged: false,
            outside: OutsideRecovery { since: None, presses: 0 },
        }
    }

    pub open spec fn first(self, frame: u64) -> u64 {
        match self.first_frame {
            Some(f) => f,
            None => frame,
        }
    }

    /// A frame, before the task decides on it.
    pub open spec fn looked(self, e: Executor, frame: u64, outside: bool) -> (
        RunState,
        FrameStepV,
    ) {
        let first = self.first(frame);
        let s = RunState { first_frame: Some(first), ..self };
        if frame > first + e.max_frames {
            (s, FrameStepV::GiveUp(gave_up(e.max_frames)))
        } else {
            let step = s.outside.stepped(outside, frame);
            (
                RunState { outside: step.0, ..s },
                match step.1 {
                    OutsideV::Inside => FrameStepV::Decide,
                    OutsideV::Waiting => FrameStepV::Look,
                    OutsideV::Recover(a) => FrameStepV::Recover(a),
                },
            )
        }
    }

    /// A decision of the task on a frame.
    pub open spec fn decided(self, e: Executor, frame: u64, decision: DecisionV) -> (
        RunState,
        TaskStepV,
    ) {
        match decision {
            DecisionV::Act(action) => (
                RunState { waiting_since: None, nudged: false, ..self },
                TaskStepV::Perform { action, deadline: later(self.first(frame), e.max_frames) },
            ),
            DecisionV::Wait(reason) => {
                let since = match self.waiting_since {
                    Some(s) => s,
                    None => frame,
                };
                let s = RunState { waiting_since: Some(since), ..self };
                if !self.nudged && frame > since + e.max_wait_frames / 2 {
                    (RunState { nudged: true, ..s }, TaskStepV::Nudge(nudging(reason)))
                } else if frame > since + e.max_wait_frames {
                    (
                        s,
                        TaskStepV::Finish {
                            success: false,
                            detail: "stuck waiting: "@ + reason,
                        },
                    )
                } else {
                    (s, TaskStepV::Look)
                }
            },
            DecisionV::Done(summary) => (
                self,
                TaskStepV::Finish { success: true, detail: summary },
            ),
            DecisionV::Fail(reason) => (
                self,
                TaskStepV::Finish { success: false, detail: reason },
            ),
        }
    }

    /// A frame of the running task, before the task decides on it: too many
    /// frames end it, and outside the game nothing it decides can help.
    pub fn look(&mut self, executor: &Executor, frame: u64, outside: bool) -> (s: FrameStep)
        ensures
            *final(self) == old(self).looked(*executor, frame, outside).0,
            s@ == old(self).looked(*executor, frame, outside).1,
    {
        let first: u64 = match self.first_frame {
            Some(f) => f,
            None => frame,
        };
        self.first_frame = Some(first);
        if frame >= first && frame - first > executor.max_frames {
            return FrameStep::GiveUp(
                cat3("gave up after ", decimal(executor.max_frames).as_str(), " frames"),
            );
        }
        match self.outside.recover_outside(outside, frame) {
            Outside::Inside => FrameStep::Decide,
            Outside::Waiting => FrameStep::Look,
            Outside::Recover(a) => FrameStep::Recover(a),
        }
    }

    /// What to do with the task's decision on a frame. Halfway to giving a wait
    /// up, one B is tried.
    pub fn decide(&mut self, executor: &Executor, frame: u64, decision: Decision) -> (s: TaskStep)
        ensures
            *final(self) == old(self).decided(*executor, frame, decision@).0,
            s@ == old(self).decided(*executor, frame, decision@).1,
    {
        match decision {
            Decision::Act(action) => {
                self.waiting_since = None;
                self.nudged = false;
                let first: u64 = match self.first_frame {
                    Some(f) => f,
                    None => frame,
                };
                let deadline: u64 = if executor.max_frames <= u64::MAX - first {
                    first + executor.max_frames
                } else {
                    u64::MAX
                };
                TaskStep::Perform { action, deadline }
            },
            Decision::Wait(reason) => {
                let since: u64 = match self.waiting_since {
                    Some(s) => s,
                    None => frame,
                };
                self.waiting_since = Some(since);
                let waited: u64 = if frame >= since {
                    frame - since
                } else {
                    0
                };
                if !self.nudged && waited > executor.max_wait_frames / 2 {
                    self.nudged = true;
                    return TaskStep::Nudge(nudge(reason.as_str()));
                }
                if waited > executor.max_wait_frames {
                    return TaskStep::Finish {
                        success: false,
                        detail: cat("stuck waiting: ", reason.as_str()),
                    };
                }
                TaskStep::Look
            },
            Decision::Done(summary) => TaskStep::Finish { success: true, detail: summary },
            Decision::Fail(reason) => TaskStep::Finish { success: false, detail: reason },
        }
    }
}

impl Executor {
    pub open spec fn allowed(self, kind: Option<InputKind>) -> int {
        match self.timing {
            Some(t) => t.allowance(kind),
            None => self.latency_frames as int,
        }
    }

    /// Extra frames an action of `kind` may take to show its effect.
    pub fn allowance(&self, kind: Option<InputKind>) -> (frames: u64)
        ensures
            frames == self.allowed(kind),
    {
        match &self.timing {
            Some(t) => t.expect_frames(kind),
            None => self.latency_frames,
        }
    }

    /// Why a frame ends the action in flight without an outcome, where it does:
    /// its deadline passed.
    pub fn past_deadline(&self, frame: u64, deadline: u64) -> (r: Option<String>)
        ensures
            match r {
                Some(reason) => frame > deadline && reason@ == gave_up(self.max_frames),
                None => frame <= deadline,
            },
    {
        if frame > deadline {
            Some(cat3("gave up after ", decimal(self.max_frames).as_str(), " frames"))
        } else {
            None
        }
    }
}

/// The goal's result, as it is recorded.
pub fn finished(name: &str, success: bool, detail: &str) -> (e: GameEvent)
    ensures
        e@ == (GameEventV::GoalFinished { goal: name@, success, detail: detail@ }),
{
    GameEvent::GoalFinished { goal: name.to_owned(), success, detail: detail.to_owned() }
}

/// What is said of an action that timed out: "save: \"press A\" not confirmed
/// after 40 frames".
pub fn unconfirmed(name: &str, label: &str, frames: u64) -> (s: String)
    ensures
        s@ == name@ + ": \""@ + label@ + "\" not confirmed after "@ + decimal_of(frames as nat)
            + " frames"@,
{
    let mut s = cat3(name, ": \"", label);
    s.append("\" not confirmed after ");
    s.append(decimal(frames).as_str());
    s.append(" frames");
    s
}

/// A task that only waits is pressed once halfway, and fails after the longest
/// wait; a wait never lasts longer.
pub proof fn a_wait_ends(s: RunState, e: Executor, frame: u64, reason: Seq<char>)
    requires
        s.waiting_since is Some,
        frame > s.waiting_since->0 + e.max_wait_frames,
    ensures
        ({
            let once = s.decided(e, frame, DecisionV::Wait(reason));
            let twice = once.0.decided(e, frame, DecisionV::Wait(reason));
            if s.nudged {
                once.1 is Finish && !once.1->success
            } else {
                once.1 is Nudge && twice.1 is Finish && !twice.1->success
            }
        }),
{
}

/// The recovery press is made at most once between two actions of the task.
pub proof fn a_wait_is_nudged_once(s: RunState, e: Executor, frame: u64, reason: Seq<char>)
    requires
        s.nudged,
    ensures
        !(s.decided(e, frame, DecisionV::Wait(reason)).1 is Nudge),
        s.decided(e, frame, DecisionV::Wait(reason)).0.nudged,
{
}

/// No task runs past its frames.
pub proof fn a_task_ends(s: RunState, e: Executor, frame: u64, outside: bool)
    requires
        s.first_frame is Some,
        frame > s.first_frame->0 + e.max_frames,
    ensures
        s.looked(e, frame, outside).1 is GiveUp,
{
}

/// Outside the game the task decides nothing, and the recovery presses
/// alternate, never closer than the time given to the console.
pub proof fn recovery_alternates(r: OutsideRecovery, first: u64, second: u64)
    requires
        r.presses < u32::MAX,
        r.stepped(true, first).1 is Recover,
        r.stepped(true, first).0.stepped(true, second).1 is Recover,
    ensures
        r.stepped(true, first).0.button() != r.button(),
        second > first + OUTSIDE_GAME_FRAMES,
{
}

/// Back in the game, the next recovery begins with Home again.
pub proof fn recovery_starts_afresh(r: OutsideRecovery, frame: u64)
    ensures
        r.stepped(false, frame).1 is Inside,
        r.stepped(false, frame).0.button() == Button::Home,
{
}

} // verus!
