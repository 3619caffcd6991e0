//! Bringing the game up on a real console: wait while it is off or asleep,
//! unlock it when it comes back, find the software on the HOME menu and start
//! it.
//!
//! What can be seen:
//! - the capture: an all-black frame means no HDMI signal (off or asleep);
//!   a lit letterbox around the game's viewport means a console screen (the
//!   lock screen, the HOME menu, the user picker, a dialog); otherwise it is
//!   the game;
//! - the controller: whether the console has it configured over USB
//!   ([`ConsoleLink::Attached`]), has suspended the bus (asleep), or not at
//!   all (off, or a dock that powers its ports down in sleep).
//!
//! [`ConsoleGuard`] decides (time, screen and link in; inputs out). Times are
//! in nanoseconds since the guard started.

use std::collections::VecDeque;

use vstd::prelude::*;
use vstd::string::StringExecFns;

use crate::input::{Button, ButtonSet, CommandV, ControllerCommand, TimedInput};
use crate::save::{count, counted};
use crate::text::{cat, cat3, decimal, decimal_of};

verus! {

/// What the capture shows, as far as the console is concerned.
#[derive(Debug, Clone, Copy, PartialEq, Eq, Structural)]
pub enum ConsoleScreen {
    /// All black: no signal, or a fade.
    Dark,
    /// The game's viewport with a black letterbox.
    Game,
    /// The letterbox is lit: a console screen, not the game.
    System,
}

impl ConsoleScreen {
    pub fn classify(dark: bool, outside_game: bool) -> (s: ConsoleScreen)
        ensures
            s == if outside_game {
                ConsoleScreen::System
            } else if dark {
                ConsoleScreen::Dark
            } else {
                ConsoleScreen::Game
            },
    {
        if outside_game {
            ConsoleScreen::System
        } else if dark {
            ConsoleScreen::Dark
        } else {
            ConsoleScreen::Game
        }
    }

    pub open spec fn called(self) -> Seq<char> {
        match self {
            ConsoleScreen::Dark => "Dark"@,
            ConsoleScreen::Game => "Game"@,
            ConsoleScreen::System => "System"@,
        }
    }

    pub fn name(self) -> (s: &'static str)
        ensures
            s@ == self.called(),
    {
        match self {
            ConsoleScreen::Dark => "Dark",
            ConsoleScreen::Game => "Game",
            ConsoleScreen::System => "System",
        }
    }
}

/// How the console holds the controller.
#[derive(Debug, Clone, Copy, PartialEq, Eq, Structural)]
pub enum ConsoleLink {
    Unknown,
    Attached,
    Suspended,
    Detached,
}

impl ConsoleLink {
    pub open spec fn called(self) -> Seq<char> {
        match self {
            ConsoleLink::Unknown => "Unknown"@,
            ConsoleLink::Attached => "Attached"@,
            ConsoleLink::Suspended => "Suspended"@,
            ConsoleLink::Detached => "Detached"@,
        }
    }

    pub fn name(self) -> (s: &'static str)
        ensures
            s@ == self.called(),
    {
        match self {
            ConsoleLink::Unknown => "Unknown",
            ConsoleLink::Attached => "Attached",
            ConsoleLink::Suspended => "Suspended",
            ConsoleLink::Detached => "Detached",
        }
    }
}

pub const SECOND: u64 = 1_000_000_000;

/// The game counts as up after showing this long without interruption.
pub const GAME_CONFIRM: u64 = 3_000_000_000;

/// Black this long (outside a launch) means off or asleep. The game's own
/// fades last well under a second.
pub const OFF_AFTER: u64 = 10_000_000_000;

/// A console screen must hold this long before the guard acts on it.
pub const SYSTEM_SETTLE: u64 = 2_000_000_000;

/// A launch may show black this long (software booting) before the console
/// counts as off again.
pub const LAUNCH_DARK: u64 = 60_000_000_000;

/// Time for the game to appear after a launch's last input.
pub const LAUNCH_TIMEOUT: u64 = 60_000_000_000;

/// HOME presses asking a suspended console to wake up, this far apart.
pub const WAKE_EVERY: u64 = 30_000_000_000;

/// HOME-menu slot tried by each launch attempt, in turn: the first slot (the
/// software played last) twice, then the next ones.
pub open spec fn slot_tried(attempt: u32) -> u32 {
    if attempt % 4 < 2 {
        0
    } else if attempt % 4 == 2 {
        1
    } else {
        2
    }
}

/// One decision of the guard.
#[derive(Debug, Clone, PartialEq)]
pub struct ConsoleTick {
    /// A state change worth logging.
    pub note: Option<String>,
    /// An input to send now, with its label.
    pub act: Option<(String, ControllerCommand)>,
    /// The game is up.
    pub ready: Option<String>,
}

/// What a tick says.
pub struct TickV {
    pub note: Option<Seq<char>>,
    pub act: Option<(Seq<char>, CommandV)>,
    pub ready: Option<Seq<char>>,
}

pub open spec fn idle() -> TickV {
    TickV { note: None, act: None, ready: None }
}

impl View for ConsoleTick {
    type V = TickV;

    open spec fn view(&self) -> TickV {
        TickV {
            note: match self.note {
                Some(s) => Some(s@),
                None => None,
            },
            act: match self.act {
                Some(a) => Some((a.0@, a.1@)),
                None => None,
            },
            ready: match self.ready {
                Some(s) => Some(s@),
                None => None,
            },
        }
    }
}

impl Default for ConsoleTick {
    fn default() -> (t: ConsoleTick)
        ensures
            t@ == idle(),
    {
        ConsoleTick { note: None, act: None, ready: None }
    }
}

/// One input of a launch.
#[derive(Debug, Clone)]
pub struct Step {
    pub label: String,
    pub command: ControllerCommand,
    /// Pause after sending it.
    pub wait: u64,
}

pub struct StepV {
    pub label: Seq<char>,
    pub command: CommandV,
    pub wait: u64,
}

impl View for Step {
    type V = StepV;

    open spec fn view(&self) -> StepV {
        StepV { label: self.label@, command: self.command@, wait: self.wait }
    }
}

pub open spec fn steps_of(s: Seq<Step>) -> Seq<StepV> {
    s.map_values(|x: Step| x@)
}

#[derive(Debug, Clone)]
pub enum Mode {
    Watch,
    Off { next_wake: u64 },
    Launch { steps: VecDeque<Step>, next_at: u64, deadline: Option<u64> },
}

pub enum ModeV {
    Watch,
    Off { next_wake: u64 },
    Launch { steps: Seq<StepV>, next_at: u64, deadline: Option<u64> },
}

impl View for Mode {
    type V = ModeV;

    open spec fn view(&self) -> ModeV {
        match *self {
            Mode::Watch => ModeV::Watch,
            Mode::Off { next_wake } => ModeV::Off { next_wake },
            Mode::Launch { steps, next_at, deadline } => ModeV::Launch {
                steps: steps_of(steps@),
                next_at,
                deadline,
            },
        }
    }
}

/// Decides what to press to get from whatever the console shows to the
/// game running. Deterministic: same (time, screen, link) sequence, same
/// inputs.
#[derive(Debug, Clone)]
pub struct ConsoleGuard {
    /// What shows, and since when.
    pub screen: Option<(ConsoleScreen, u64)>,
    pub mode: Mode,
    pub attempt: u32,
    /// The console just came back from off/asleep: the lock screen ("press
    /// the same button three times") is likely up.
    pub woke: bool,
}

/// What the guard knows.
pub struct GuardV {
    pub screen: Option<(ConsoleScreen, u64)>,
    pub mode: ModeV,
    pub attempt: u32,
    pub woke: bool,
}

impl View for ConsoleGuard {
    type V = GuardV;

    open spec fn view(&self) -> GuardV {
        GuardV {
            screen: self.screen,
            mode: self.mode@,
            attempt: self.attempt,
            woke: self.woke,
        }
    }
}

/// The same button tapped three times.
pub open spec fn triple(button: Button) -> Seq<TimedInput> {
    Seq::new(
        6,
        |i: int|
            if i % 2 == 0 {
                TimedInput { buttons: ButtonSet::only_spec(button), millis: 100 }
            } else {
                TimedInput { buttons: ButtonSet::nothing(), millis: 250 }
            },
    )
}

/// The same button tapped three times (the console's lock screen).
pub fn three_taps(button: Button) -> (c: ControllerCommand)
    ensures
        c@ == CommandV::Sequence(triple(button)),
{
    let press = TimedInput { buttons: ButtonSet::only(button), millis: 100 };
    let release = TimedInput { buttons: ButtonSet::none(), millis: 250 };
    let inputs: Vec<TimedInput> = vec![press, release, press, release, press, release];
    assert(inputs@ =~= triple(button));
    ControllerCommand::Sequence(inputs)
}

/// Three presses, each of the one button, with nothing held in between.
pub proof fn triple_presses_three_times(button: Button)
    ensures
        triple(button).len() == 6,
        forall|i: int|
            0 <= i < 3 ==> (#[trigger] triple(button)[2 * i]).buttons == ButtonSet::only_spec(
                button,
            ),
        forall|i: int|
            0 <= i < 3 ==> (#[trigger] triple(button)[2 * i + 1]).buttons == ButtonSet::nothing(),
{
}

pub open spec fn unlock_step() -> StepV {
    StepV {
        label: "unlock: press A three times"@,
        command: CommandV::Sequence(triple(Button::A)),
        wait: (2 * SECOND) as u64,
    }
}

pub open spec fn home_step() -> StepV {
    StepV {
        label: "press HOME: resumes a suspended game, else the cursor goes to the first software"@,
        command: CommandV::Press(Button::Home),
        wait: (2 * SECOND) as u64,
    }
}

pub open spec fn right_step(n: int) -> StepV {
    StepV {
        label: "move right to slot "@ + decimal_of((n + 2) as nat),
        command: CommandV::Press(Button::Right),
        wait: 500_000_000,
    }
}

pub open spec fn start_step(slot: u32) -> StepV {
    StepV {
        label: "start the software in slot "@ + decimal_of((slot + 1) as nat) + ": press A"@,
        command: CommandV::Press(Button::A),
        wait: (4 * SECOND) as u64,
    }
}

pub open spec fn confirm_step() -> StepV {
    StepV {
        label: "confirm (user picker, closing other software): press A"@,
        command: CommandV::Press(Button::A),
        wait: 0,
    }
}

/// The inputs of a launch: unlock where that is needed, HOME, right to the
/// slot, start it, confirm.
pub open spec fn launch_steps(slot: u32, unlock: bool) -> Seq<StepV> {
    (if unlock {
        seq![unlock_step()]
    } else {
        Seq::<StepV>::empty()
    }) + seq![home_step()] + Seq::new(slot as nat, |n: int| right_step(n)) + seq![
        start_step(slot),
        confirm_step(),
    ]
}

impl GuardV {
    pub open spec fn unlocks(self) -> bool {
        self.woke || self.attempt % 2 == 1
    }

    /// The guard once it has planned the next launch.
    pub open spec fn launching(self, now: u64) -> GuardV {
        GuardV {
            mode: ModeV::Launch {
                steps: launch_steps(slot_tried(self.attempt), self.unlocks()),
                next_at: now,
                deadline: None,
            },
            attempt: counted(self.attempt),
            woke: false,
            ..self
        }
    }

    pub open spec fn launch_note(self) -> Seq<char> {
        "a console screen instead of the game: launch attempt "@ + decimal_of(
            (self.attempt + 1) as nat,
        ) + " (slot "@ + decimal_of((slot_tried(self.attempt) + 1) as nat) + if self.unlocks() {
            ", unlock first"@
        } else {
            ""@
        } + ")"@
    }

    /// Since when the screen shows what it shows now.
    pub open spec fn since(self, now: u64, screen: ConsoleScreen) -> u64 {
        match self.screen {
            Some(s) => if s.0 == screen {
                s.1
            } else {
                now
            },
            None => now,
        }
    }

    /// How long the screen has shown what it shows now.
    pub open spec fn held(self, now: u64, screen: ConsoleScreen) -> int {
        let since = self.since(now, screen);
        if now >= since {
            now - since
        } else {
            0
        }
    }

    pub open spec fn seen(self, now: u64, screen: ConsoleScreen) -> GuardV {
        GuardV { screen: Some((screen, self.since(now, screen))), ..self }
    }

    pub open spec fn ready_text(self) -> Seq<char> {
        if self.attempt == 0 {
            "the game is on screen"@
        } else {
            "the game is on screen after "@ + decimal_of(self.attempt as nat)
                + " launch attempt(s)"@
        }
    }

    /// One decision: the guard afterwards, and the tick.
    pub open spec fn stepped(self, now: u64, screen: ConsoleScreen, link: ConsoleLink) -> (
        GuardV,
        TickV,
    ) {
        let held = self.held(now, screen);
        let g = self.seen(now, screen);
        if screen == ConsoleScreen::Game && held >= GAME_CONFIRM {
            (g, TickV { ready: Some(g.ready_text()), ..idle() })
        } else {
            match g.mode {
                ModeV::Watch => if screen == ConsoleScreen::Dark && (held >= OFF_AFTER || link
                    == ConsoleLink::Detached || link == ConsoleLink::Suspended) {
                    (
                        GuardV { mode: ModeV::Off { next_wake: now }, ..g },
                        TickV {
                            note: Some(
                                "the Switch is off or asleep (no picture, controller link "@
                                    + link.called() + "); waiting for it to be turned on"@,
                            ),
                            ..idle()
                        },
                    )
                } else if screen == ConsoleScreen::System && held >= SYSTEM_SETTLE {
                    (g.launching(now), TickV { note: Some(g.launch_note()), ..idle() })
                } else {
                    (g, idle())
                },
                ModeV::Off { next_wake } => if screen != ConsoleScreen::Dark {
                    (
                        GuardV { mode: ModeV::Watch, woke: true, ..g },
                        TickV {
                            note: Some("the Switch is on ("@ + screen.called() + " on screen)"@),
                            ..idle()
                        },
                    )
                } else if link == ConsoleLink::Suspended && now >= next_wake {
                    (
                        GuardV { mode: ModeV::Off { next_wake: (now + WAKE_EVERY) as u64 }, ..g },
                        TickV {
                            act: Some(
                                (
                                    "wake the Switch: press HOME (USB remote wakeup)"@,
                                    CommandV::Press(Button::Home),
                                ),
                            ),
                            ..idle()
                        },
                    )
                } else {
                    (g, idle())
                },
                ModeV::Launch { steps, next_at, deadline } => if screen == ConsoleScreen::Dark
                    && held >= LAUNCH_DARK {
                    (
                        GuardV { mode: ModeV::Off { next_wake: now }, ..g },
                        TickV {
                            note: Some("no picture since the launch: waiting again"@),
                            ..idle()
                        },
                    )
                } else if screen == ConsoleScreen::System && now >= next_at && steps.len() > 0 {
                    // Inputs go only to a console screen: over the game (or a
                    // booting one) HOME would suspend it.
                    (
                        GuardV {
                            mode: ModeV::Launch {
                                steps: steps.drop_first(),
                                next_at: (now + steps[0].wait) as u64,
                                deadline: if steps.len() == 1 {
                                    Some((now + LAUNCH_TIMEOUT) as u64)
                                } else {
                                    deadline
                                },
                            },
                            ..g
                        },
                        TickV { act: Some((steps[0].label, steps[0].command)), ..idle() },
                    )
                } else if deadline is Some && now >= deadline->0 {
                    if screen == ConsoleScreen::System {
                        (g.launching(now), TickV { note: Some(g.launch_note()), ..idle() })
                    } else {
                        (GuardV { mode: ModeV::Watch, ..g }, idle())
                    }
                } else {
                    (g, idle())
                },
            }
        }
    }

    /// The pauses of a planned launch are short enough for the clock.
    pub open spec fn wf(self) -> bool {
        self.mode matches ModeV::Launch { steps, .. } ==> forall|i: int|
            0 <= i < steps.len() ==> (#[trigger] steps[i]).wait <= LAUNCH_TIMEOUT
    }
}

impl Default for ConsoleGuard {
    fn default() -> (g: ConsoleGuard)
        ensures
            g@ == (GuardV { screen: None, mode: ModeV::Watch, attempt: 0, woke: false }),
            g@.wf(),
    {
        ConsoleGuard::new()
    }
}

fn one_step(label: String, command: ControllerCommand, wait: u64) -> (s: Step)
    ensures
        s@ == (StepV { label: label@, command: command@, wait }),
{
    Step { label, command, wait }
}

fn add_step(steps: &mut VecDeque<Step>, step: Step)
    ensures
        steps_of(final(steps)@) == steps_of(old(steps)@).push(step@),
{
    let ghost before = steps@;
    steps.push_back(step);
    assert(steps_of(steps@) =~= steps_of(before).push(step@));
}

impl ConsoleGuard {
    pub fn new() -> (g: ConsoleGuard)
        ensures
            g@ == (GuardV { screen: None, mode: ModeV::Watch, attempt: 0, woke: false }),
            g@.wf(),
    {
        ConsoleGuard { screen: None, mode: Mode::Watch, attempt: 0, woke: false }
    }

    /// Launch attempts started so far.
    pub fn attempts(&self) -> (n: u32)
        ensures
            n == self@.attempt,
    {
        self.attempt
    }

    /// Plans the next launch attempt; returns its description.
    fn start_launch(&mut self, now: u64) -> (note: String)
        ensures
            final(self)@ == old(self)@.launching(now),
            note@ == old(self)@.launch_note(),
    {
        let attempt = self.attempt;
        let ghost start = self@;
        self.attempt = count(attempt);
        let slot: u32 = if attempt % 4 < 2 {
            0
        } else if attempt % 4 == 2 {
            1
        } else {
            2
        };
        let mut steps: VecDeque<Step> = VecDeque::new();
        let unlock = self.woke || attempt % 2 == 1;
        if unlock {
            add_step(
                &mut steps,
                one_step(
                    "unlock: press A three times".to_owned(),
                    three_taps(Button::A),
                    2 * SECOND,
                ),
            );
        }
        assert(steps_of(steps@) =~= if unlock {
            seq![unlock_step()]
        } else {
            Seq::<StepV>::empty()
        });
        add_step(
            &mut steps,
            one_step(
                "press HOME: resumes a suspended game, else the cursor goes to the first software".to_owned(),
                ControllerCommand::Press(Button::Home),
                2 * SECOND,
            ),
        );
        let ghost home = steps_of(steps@);
        let mut n: u32 = 0;
        assert(home + Seq::new(0, |k: int| right_step(k)) =~= home);
        while n < slot
            invariant
                n <= slot <= 2,
                steps_of(steps@) == home + Seq::new(n as nat, |k: int| right_step(k)),
            decreases slot - n,
        {
            add_step(
                &mut steps,
                one_step(
                    cat("move right to slot ", decimal(n as u64 + 2).as_str()),
                    ControllerCommand::Press(Button::Right),
                    500_000_000,
                ),
            );
            n += 1;
            assert(steps_of(steps@) =~= home + Seq::new(n as nat, |k: int| right_step(k)));
        }
        add_step(
            &mut steps,
            one_step(
                cat3("start the software in slot ", decimal(slot as u64 + 1).as_str(), ": press A"),
                ControllerCommand::Press(Button::A),
                4 * SECOND,
            ),
        );
        add_step(
            &mut steps,
            one_step(
                "confirm (user picker, closing other software): press A".to_owned(),
                ControllerCommand::Press(Button::A),
                0,
            ),
        );
        assert(steps_of(steps@) =~= launch_steps(slot, unlock));
        self.woke = false;
        self.mode = Mode::Launch { steps, next_at: now, deadline: None };
        let mut note = cat(
            "a console screen instead of the game: launch attempt ",
            decimal(attempt as u64 + 1).as_str(),
        );
        note.append(" (slot ");
        note.append(decimal(slot as u64 + 1).as_str());
        note.append(
            if unlock {
                ", unlock first"
            } else {
                ""
            },
        );
        note.append(")");
        note
    }

    /// Sends the next input of a launch, where one is due.
    fn launch_input(&mut self, now: u64) -> (r: Option<Step>)
        requires
            now + LAUNCH_TIMEOUT <= u64::MAX,
            old(self)@.wf(),
        ensures
            match old(self)@.mode {
                ModeV::Launch { steps, next_at, deadline } => if now >= next_at && steps.len() > 0 {
                    &&& r matches Some(step) && step@ == steps[0]
                    &&& final(self)@ == (GuardV {
                        mode: ModeV::Launch {
                            steps: steps.drop_first(),
                            next_at: (now + steps[0].wait) as u64,
                            deadline: if steps.len() == 1 {
                                Some((now + LAUNCH_TIMEOUT) as u64)
                            } else {
                                deadline
                            },
                        },
                        ..old(self)@
                    })
                } else {
                    r is None && final(self)@ == old(self)@
                },
                _ => r is None && final(self)@ == old(self)@,
            },
    {
        match &mut self.mode {
            Mode::Launch { steps, next_at, deadline } => {
                if now < *next_at {
                    return None;
                }
                let ghost all = steps@;
                match steps.pop_front() {
                    Some(step) => {
                        assert(steps_of(all)[0] == step@);
                        assert(steps_of(steps@) =~= steps_of(all).drop_first());
                        *next_at = now + step.wait;
                        if steps.len() == 0 {
                            *deadline = Some(now + LAUNCH_TIMEOUT);
                        }
                        Some(step)
                    },
                    None => None,
                }
            },
            _ => None,
        }
    }

    /// `now` is the time since the guard started.
    pub fn step(&mut self, now: u64, screen: ConsoleScreen, link: ConsoleLink) -> (tick:
        ConsoleTick)
        requires
            old(self)@.wf(),
            now + LAUNCH_TIMEOUT <= u64::MAX,
        ensures
            final(self)@ == old(self)@.stepped(now, screen, link).0,
            tick@ == old(self)@.stepped(now, screen, link).1,
            final(self)@.wf(),
    {
        let ghost start = self@;
        proof {
            start.stepping_keeps_the_clock(now, screen, link);
        }
        let since: u64 = match self.screen {
            Some(s) => if s.0 == screen {
                s.1
            } else {
                now
            },
            None => now,
        };
        self.screen = Some((screen, since));
        let held: u64 = if now >= since {
            now - since
        } else {
            0
        };
        let mut tick = ConsoleTick::default();
        if screen == ConsoleScreen::Game && held >= GAME_CONFIRM {
            tick.ready = Some(
                if self.attempt == 0 {
                    "the game is on screen".to_owned()
                } else {
                    cat3(
                        "the game is on screen after ",
                        decimal(self.attempt as u64).as_str(),
                        " launch attempt(s)",
                    )
                },
            );
            return tick;
        }
        match &self.mode {
            Mode::Watch => {
                let asleep = link == ConsoleLink::Detached || link == ConsoleLink::Suspended;
                if screen == ConsoleScreen::Dark && (held >= OFF_AFTER || asleep) {
                    tick.note = Some(
                        cat3(
                            "the Switch is off or asleep (no picture, controller link ",
                            link.name(),
                            "); waiting for it to be turned on",
                        ),
                    );
                    self.mode = Mode::Off { next_wake: now };
                } else if screen == ConsoleScreen::System && held >= SYSTEM_SETTLE {
                    tick.note = Some(self.start_launch(now));
                }
            },
            Mode::Off { next_wake } => {
                if screen != ConsoleScreen::Dark {
                    tick.note = Some(cat3("the Switch is on (", screen.name(), " on screen)"));
                    self.woke = true;
                    self.mode = Mode::Watch;
                } else if link == ConsoleLink::Suspended && now >= *next_wake {
                    // A pressed button makes the controller ask for a USB
                    // remote wakeup, like HOME on a wired pad.
                    tick.act = Some(
                        (
                            "wake the Switch: press HOME (USB remote wakeup)".to_owned(),
                            ControllerCommand::Press(Button::Home),
                        ),
                    );
                    self.mode = Mode::Off { next_wake: now + WAKE_EVERY };
                }
            },
            Mode::Launch { deadline, .. } => {
                let late = match *deadline {
                    Some(d) => now >= d,
                    None => false,
                };
                if screen == ConsoleScreen::Dark && held >= LAUNCH_DARK {
                    tick.note = Some("no picture since the launch: waiting again".to_owned());
                    self.mode = Mode::Off { next_wake: now };
                    return tick;
                }
                if screen == ConsoleScreen::System {
                    match self.launch_input(now) {
                        Some(step) => {
                            tick.act = Some((step.label, step.command));
                            return tick;
                        },
                        None => {},
                    }
                }
                if late {
                    if screen == ConsoleScreen::System {
                        tick.note = Some(self.start_launch(now));
                    } else {
                        self.mode = Mode::Watch;
                    }
                }
            },
        }
        tick
    }
}

impl GuardV {
    /// A step keeps the pauses of a planned launch short enough for the clock.
    pub proof fn stepping_keeps_the_clock(self, now: u64, screen: ConsoleScreen, link: ConsoleLink)
        requires
            self.wf(),
        ensures
            self.stepped(now, screen, link).0.wf(),
    {
        let g = self.seen(now, screen);
        let planned = launch_steps(slot_tried(g.attempt), g.unlocks());
        assert forall|i: int| 0 <= i < planned.len() implies (#[trigger] planned[i]).wait
            <= LAUNCH_TIMEOUT by {}
        if let ModeV::Launch { steps, .. } = self.mode {
            assert forall|i: int| 0 <= i < steps.len() - 1 implies (
            #[trigger] steps.drop_first()[i]).wait <= LAUNCH_TIMEOUT by {
                assert(steps.drop_first()[i] == steps[i + 1]);
            }
        }
    }

    /// Nothing is ever pressed while the game is on screen.
    pub proof fn the_game_is_never_pressed(self, now: u64, link: ConsoleLink)
        ensures
            self.stepped(now, ConsoleScreen::Game, link).1.act is None,
    {
    }

    /// On a black screen the one input is HOME, to a console that was found
    /// off or asleep and has suspended the bus.
    pub proof fn black_gets_home_alone(self, now: u64, link: ConsoleLink)
        requires
            self.stepped(now, ConsoleScreen::Dark, link).1.act is Some,
        ensures
            (self.stepped(now, ConsoleScreen::Dark, link).1.act->0).1 == CommandV::Press(
                Button::Home,
            ),
            link == ConsoleLink::Suspended,
            self.mode is Off,
    {
    }

    /// HOME presses to a sleeping console are at least [`WAKE_EVERY`] apart:
    /// after one, none goes out before that time has passed.
    pub proof fn wake_presses_are_spaced(self, now: u64, later: u64, link: ConsoleLink)
        requires
            self.stepped(now, ConsoleScreen::Dark, ConsoleLink::Suspended).1.act is Some,
            now <= later < now + WAKE_EVERY,
            now + WAKE_EVERY <= u64::MAX,
        ensures
            self.stepped(now, ConsoleScreen::Dark, ConsoleLink::Suspended).0.stepped(
                later,
                ConsoleScreen::Dark,
                link,
            ).1.act is None,
    {
    }

    /// The game counts as up exactly when it has shown for [`GAME_CONFIRM`].
    pub proof fn ready_means_the_game_held(self, now: u64, screen: ConsoleScreen, link: ConsoleLink)
        ensures
            self.stepped(now, screen, link).1.ready is Some <==> screen == ConsoleScreen::Game
                && self.held(now, screen) >= GAME_CONFIRM,
    {
    }

    /// A launch that has run its inputs and its time starts over with the next
    /// attempt while a console screen shows: the guard never gives up.
    pub proof fn a_failed_launch_is_retried(self, now: u64, link: ConsoleLink)
        requires
            self.mode matches ModeV::Launch { steps, deadline, .. } && steps.len() == 0
                && deadline is Some && now >= deadline->0,
        ensures
            ({
                let next = self.stepped(now, ConsoleScreen::System, link).0;
                &&& next.attempt == counted(self.attempt)
                &&& next.mode == ModeV::Launch {
                    steps: launch_steps(slot_tried(self.attempt), self.unlocks()),
                    next_at: now,
                    deadline: None,
                }
            }),
    {
    }
}

/// What a step of the guard goes by.
pub struct Look {
    pub now: u64,
    pub screen: ConsoleScreen,
    pub link: ConsoleLink,
}

/// The guard after its first `n` steps.
pub open spec fn guard_after(looks: Seq<Look>, n: nat) -> GuardV
    decreases n,
{
    if n == 0 {
        GuardV { screen: None, mode: ModeV::Watch, attempt: 0, woke: false }
    } else {
        let l = looks[n - 1];
        guard_after(looks, (n - 1) as nat).stepped(l.now, l.screen, l.link).0
    }
}

/// What the guard says on step `n`.
pub open spec fn tick_on(looks: Seq<Look>, n: nat) -> TickV {
    let l = looks[n as int];
    guard_after(looks, n).stepped(l.now, l.screen, l.link).1
}

/// The clock never goes back.
pub open spec fn clock_runs(looks: Seq<Look>) -> bool {
    forall|i: int, j: int|
        0 <= i <= j < looks.len() ==> (#[trigger] looks[i]).now <= (#[trigger] looks[j]).now
}

/// The screen showed the same on all steps from `r` to `n`.
pub open spec fn unbroken(looks: Seq<Look>, r: int, n: int) -> bool {
    forall|i: int| r <= i <= n ==> (#[trigger] looks[i]).screen == looks[n].screen
}

/// The guard knows since when the screen shows what it shows: from the first
/// step of the unbroken run.
proof fn the_run_is_known(looks: Seq<Look>, n: nat) -> (r: int)
    requires
        n < looks.len(),
    ensures
        0 <= r <= n,
        unbroken(looks, r, n as int),
        r > 0 ==> looks[r - 1].screen != looks[n as int].screen,
        guard_after(looks, n).since(looks[n as int].now, looks[n as int].screen) == looks[r].now,
        guard_after(looks, n + 1).screen == Some((looks[n as int].screen, looks[r].now)),
    decreases n,
{
    if n == 0 {
        0
    } else {
        let r = the_run_is_known(looks, (n - 1) as nat);
        if looks[n - 1].screen == looks[n as int].screen {
            r
        } else {
            n as int
        }
    }
}

/// Over all that a guard sees from its start, with a clock that never goes
/// back: it is ready exactly where the game has shown without a break since
/// [`GAME_CONFIRM`] ago or longer; nothing is pressed while the game shows; and
/// on a black screen nothing but HOME, to a suspended console.
pub proof fn the_guard_waits_for_the_game(looks: Seq<Look>, n: nat)
    requires
        n < looks.len(),
        clock_runs(looks),
    ensures
        tick_on(looks, n).ready is Some <==> looks[n as int].screen == ConsoleScreen::Game
            && exists|r: int|
            0 <= r <= n && #[trigger] unbroken(looks, r, n as int) && looks[n as int].now
                - looks[r].now >= GAME_CONFIRM,
        looks[n as int].screen == ConsoleScreen::Game ==> tick_on(looks, n).act is None,
        looks[n as int].screen == ConsoleScreen::Dark && tick_on(looks, n).act is Some ==> looks[
        n as int].link == ConsoleLink::Suspended && (tick_on(looks, n).act->0).1
            == CommandV::Press(Button::Home),
{
    let l = looks[n as int];
    let g = guard_after(looks, n);
    let r = the_run_is_known(looks, n);
    g.ready_means_the_game_held(l.now, l.screen, l.link);
    g.the_game_is_never_pressed(l.now, l.link);
    if l.screen == ConsoleScreen::Dark && tick_on(looks, n).act is Some {
        g.black_gets_home_alone(l.now, l.link);
    }
    assert forall|q: int| 0 <= q <= n && #[trigger] unbroken(looks, q, n as int) implies looks[r].now
        <= looks[q].now by {
        if q < r {
            assert(looks[r - 1].screen == l.screen);
        }
    }
    assert(looks[r].now <= l.now);
}

} // verus!
