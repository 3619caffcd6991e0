//! In-game saving (Start menu → SAVE → YES [→ overwrite YES]) and continuing
//! a saved game (title → CONTINUE → skip the recap).

use vstd::prelude::*;

use crate::action::{Action, Expectation, ExpectationV};
use crate::event::{events_of, report, GameEvent, GameEventV};
use crate::executor::{press, pressing, wait_for, Decision, DecisionV, Outcome};
use crate::input::Button;
use crate::new_game::{advance_or_wait, advancing, resetting, select, selecting, soft_reset};
use crate::observe::{MenuObservation, Observation, ScreenState};
use crate::text::{cat, same};

verus! {

/// Quiet frames in the overworld after the save messages before finishing.
pub const SETTLED: u32 = 60;

/// Timed-out actions that saving survives.
pub const SAVE_ATTEMPTS: u32 = 8;

/// Timed-out actions that continuing survives.
pub const CONTINUE_ATTEMPTS: u32 = 20;

/// One more, up to the largest number.
pub open spec fn counted(n: u32) -> u32 {
    if n < u32::MAX {
        (n + 1) as u32
    } else {
        n
    }
}

pub(crate) fn count(n: u32) -> (r: u32)
    ensures
        r == counted(n),
{
    if n < u32::MAX {
        n + 1
    } else {
        n
    }
}

#[derive(Debug, Clone, Copy, PartialEq, Eq, Structural)]
pub enum SavePhase {
    OpenMenu,
    Saving,
}

/// Saves the game through the Start menu. SAVE is found by position: it is
/// always third from the bottom (…, SAVE, OPTION, EXIT), whatever else the
/// menu contains. Row pitch differs between menus and the window's bottom is
/// hidden by the help bar, so instead of counting rows the task uses the menu's
/// wrap-around: from the top entry, Up goes to EXIT, then OPTION, then SAVE.
#[derive(Debug, Clone, Copy, PartialEq, Eq, Structural)]
pub struct SaveGameTask {
    pub phase: SavePhase,
    /// Up presses after wrapping from the top entry to EXIT (0 = not yet).
    pub ups_from_bottom: u32,
    pub answered: u32,
    pub quiet: u32,
    pub attempts: u32,
}

impl Default for SaveGameTask {
    fn default() -> (t: SaveGameTask)
        ensures
            t == (SaveGameTask {
                phase: SavePhase::OpenMenu,
                ups_from_bottom: 0,
                answered: 0,
                quiet: 0,
                attempts: 0,
            }),
    {
        SaveGameTask {
            phase: SavePhase::OpenMenu,
            ups_from_bottom: 0,
            answered: 0,
            quiet: 0,
            attempts: 0,
        }
    }
}

/// The ▶ is on a menu's first entry.
pub open spec fn on_first_entry(menu: MenuObservation) -> bool {
    menu.cursor_y <= menu.window.y + 8
}

fn at_top(menu: &MenuObservation) -> (r: bool)
    ensures
        r == on_first_entry(*menu),
{
    menu.cursor_y <= 8 || menu.cursor_y - 8 <= menu.window.y
}

impl SaveGameTask {
    pub fn name(&self) -> (s: &'static str)
        ensures
            s@ == "SaveGame"@,
    {
        "SaveGame"
    }

    /// A step of the ▶ from the first entry up past EXIT and OPTION to SAVE.
    pub open spec fn toward_save(self, menu: MenuObservation) -> DecisionV {
        let up = |label: Seq<char>, up: bool|
            pressing(
                label,
                Button::Up,
                ExpectationV::MenuCursorMoved { from_y: menu.cursor_y, up },
                45,
            );
        if self.ups_from_bottom == 0 {
            // Menus remember their cursor: first go to the top.
            if !on_first_entry(menu) {
                up("cursor up to the first entry"@, true)
            } else {
                up("wrap to EXIT"@, false)
            }
        } else if self.ups_from_bottom == 1 {
            up("cursor to OPTION"@, true)
        } else if self.ups_from_bottom == 2 {
            up("cursor to SAVE"@, true)
        } else {
            // The save summary and "Would you like to save…?" open; the
            // YES/NO appears once the text has printed.
            pressing("choose SAVE"@, Button::A, ExpectationV::DialogueOpen, 60)
        }
    }

    /// The messages are gone: a save was answered and the player is on the map.
    pub open spec fn finishing(self, o: Observation) -> bool {
        self.phase == SavePhase::Saving && o.dialogue is None && o.menu is None && self.answered > 0
            && o.player is Some
    }

    /// What the task does.
    pub open spec fn deciding(self, o: Observation) -> DecisionV {
        if self.attempts > SAVE_ATTEMPTS {
            DecisionV::Fail("could not save"@)
        } else if self.phase == SavePhase::OpenMenu {
            if o.dialogue is Some {
                advancing(o.dialogue, "dialogue"@)
            } else if o.menu is Some {
                self.toward_save(o.menu->0)
            } else if o.player is Some {
                pressing("open the Start menu"@, Button::Start, ExpectationV::MenuOpen, 60)
            } else {
                DecisionV::Wait("waiting for the overworld"@)
            }
        } else if o.dialogue is Some {
            // "Would you like to save the game?" / "…overwrite it?"
            if o.menu is Some {
                selecting(o.menu->0, 0, "answer YES"@)
            } else {
                advancing(o.dialogue, "saving"@)
            }
        } else if self.finishing(o) {
            if counted(self.quiet) >= SETTLED {
                DecisionV::Done("game saved"@)
            } else {
                DecisionV::Wait("save finishing"@)
            }
        } else if o.menu is Some && self.answered > 0 {
            // Start menu still open after saving: close it.
            pressing("close the Start menu"@, Button::B, ExpectationV::MenuClosed, 45)
        } else {
            DecisionV::Wait("waiting for the save prompt"@)
        }
    }

    /// What is told: that the game was saved, once it is.
    pub open spec fn telling(self, o: Observation) -> Seq<GameEventV> {
        if self.deciding(o) is Done {
            seq![GameEventV::GameSaved]
        } else {
            Seq::empty()
        }
    }

    /// The task after it has looked at a frame.
    pub open spec fn decided(self, o: Observation) -> SaveGameTask {
        if self.attempts > SAVE_ATTEMPTS || self.phase == SavePhase::OpenMenu {
            self
        } else if o.dialogue is Some {
            SaveGameTask { quiet: 0, ..self }
        } else if self.finishing(o) {
            SaveGameTask { quiet: counted(self.quiet), ..self }
        } else {
            self
        }
    }

    /// The next decision. `GameSaved` is reported with the decision that the
    /// game is saved, and with no other.
    pub fn next(&mut self, o: &Observation, events: &mut Vec<GameEvent>) -> (d: Decision)
        ensures
            d@ == old(self).deciding(*o),
            *final(self) == old(self).decided(*o),
            events_of(final(events)@) == events_of(old(events)@) + old(self).telling(*o),
    {
        if self.attempts > SAVE_ATTEMPTS {
            return Decision::Fail("could not save".to_owned());
        }
        match self.phase {
            SavePhase::OpenMenu => {
                if o.dialogue.is_some() {
                    return advance_or_wait(&o.dialogue, "dialogue");
                }
                match &o.menu {
                    Some(menu) => {
                        if self.ups_from_bottom == 0 {
                            if !at_top(menu) {
                                press(
                                    "cursor up to the first entry".to_owned(),
                                    Button::Up,
                                    Expectation::MenuCursorMoved {
                                        from_y: menu.cursor_y,
                                        up: true,
                                    },
                                    45,
                                )
                            } else {
                                press(
                                    "wrap to EXIT".to_owned(),
                                    Button::Up,
                                    Expectation::MenuCursorMoved {
                                        from_y: menu.cursor_y,
                                        up: false,
                                    },
                                    45,
                                )
                            }
                        } else if self.ups_from_bottom == 1 {
                            press(
                                "cursor to OPTION".to_owned(),
                                Button::Up,
                                Expectation::MenuCursorMoved { from_y: menu.cursor_y, up: true },
                                45,
                            )
                        } else if self.ups_from_bottom == 2 {
                            press(
                                "cursor to SAVE".to_owned(),
                                Button::Up,
                                Expectation::MenuCursorMoved { from_y: menu.cursor_y, up: true },
                                45,
                            )
                        } else {
                            press(
                                "choose SAVE".to_owned(),
                                Button::A,
                                Expectation::DialogueOpen,
                                60,
                            )
                        }
                    },
                    None => {
                        if o.player.is_some() {
                            press(
                                "open the Start menu".to_owned(),
                                Button::Start,
                                Expectation::MenuOpen,
                                60,
                            )
                        } else {
                            wait_for("waiting for the overworld")
                        }
                    },
                }
            },
            SavePhase::Saving => {
                if o.dialogue.is_some() {
                    self.quiet = 0;
                    return match &o.menu {
                        Some(menu) => select(menu, 0, "answer YES"),
                        None => advance_or_wait(&o.dialogue, "saving"),
                    };
                }
                if self.answered > 0 && o.menu.is_none() && o.player.is_some() {
                    self.quiet = count(self.quiet);
                    if self.quiet >= SETTLED {
                        report(events, GameEvent::GameSaved);
                        return Decision::Done("game saved".to_owned());
                    }
                    return wait_for("save finishing");
                }
                if o.menu.is_some() && self.answered > 0 {
                    return press(
                        "close the Start menu".to_owned(),
                        Button::B,
                        Expectation::MenuClosed,
                        45,
                    );
                }
                wait_for("waiting for the save prompt")
            },
        }
    }

    /// What an outcome makes of the task.
    pub open spec fn after(self, label: Seq<char>, outcome: Outcome) -> SaveGameTask {
        match outcome {
            Outcome::TimedOut => SaveGameTask { attempts: counted(self.attempts), ..self },
            Outcome::Confirmed => if label == "answer YES"@ {
                SaveGameTask { answered: counted(self.answered), ..self }
            } else if label == "wrap to EXIT"@ {
                SaveGameTask { ups_from_bottom: 1, ..self }
            } else if label == "cursor to OPTION"@ {
                SaveGameTask { ups_from_bottom: 2, ..self }
            } else if label == "cursor to SAVE"@ {
                SaveGameTask { ups_from_bottom: 3, ..self }
            } else if label == "choose SAVE"@ {
                SaveGameTask { phase: SavePhase::Saving, ..self }
            } else {
                self
            },
            _ => self,
        }
    }

    /// Takes in what came of an action.
    pub fn on_outcome(&mut self, action: &Action, outcome: Outcome)
        ensures
            *final(self) == old(self).after(action.label@, outcome),
    {
        match outcome {
            Outcome::TimedOut => self.attempts = count(self.attempts),
            Outcome::Confirmed => {
                if same(&action.label, "answer YES") {
                    self.answered = count(self.answered);
                } else if same(&action.label, "wrap to EXIT") {
                    self.ups_from_bottom = 1;
                } else if same(&action.label, "cursor to OPTION") {
                    self.ups_from_bottom = 2;
                } else if same(&action.label, "cursor to SAVE") {
                    self.ups_from_bottom = 3;
                } else if same(&action.label, "choose SAVE") {
                    self.phase = SavePhase::Saving;
                }
            },
            _ => {},
        }
    }

    /// The game counts as saved only after a save question was answered YES,
    /// on a frame with no message or menu that shows the player, the last of a
    /// quiet spell of [`SETTLED`] such frames.
    pub proof fn saved_means_answered_and_quiet(self, o: Observation)
        requires
            self.deciding(o) is Done,
        ensures
            self.phase == SavePhase::Saving,
            self.answered > 0,
            o.dialogue is None,
            o.menu is None,
            o.player is Some,
            self.quiet + 1 >= SETTLED,
    {
    }

    /// Confirmed Up presses from the first entry lead to EXIT, OPTION and SAVE
    /// in turn, and confirming there starts the save.
    pub proof fn ups_from_the_top_reach_save(self, menu: MenuObservation)
        requires
            self.phase == SavePhase::OpenMenu,
            self.ups_from_bottom == 0,
            on_first_entry(menu),
        ensures
            ({
                let label = |t: SaveGameTask| t.toward_save(menu)->Act_0.label;
                let exit = self.after(label(self), Outcome::Confirmed);
                let option = exit.after(label(exit), Outcome::Confirmed);
                let save = option.after(label(option), Outcome::Confirmed);
                let saving = save.after(label(save), Outcome::Confirmed);
                &&& exit.ups_from_bottom == 1
                &&& option.ups_from_bottom == 2
                &&& save.ups_from_bottom == 3
                &&& saving == SaveGameTask { phase: SavePhase::Saving, ups_from_bottom: 3, ..self }
            }),
    {
        reveal_strlit("answer YES");
        reveal_strlit("wrap to EXIT");
        reveal_strlit("cursor to OPTION");
        reveal_strlit("cursor to SAVE");
        reveal_strlit("choose SAVE");
        assert("wrap to EXIT"@[0] != "answer YES"@[0]);
        assert("cursor to OPTION"@[0] != "answer YES"@[0]);
        assert("cursor to OPTION"@[0] != "wrap to EXIT"@[0]);
        assert("cursor to SAVE"@[0] != "answer YES"@[0]);
        assert("cursor to SAVE"@[0] != "wrap to EXIT"@[0]);
        assert("cursor to SAVE"@.len() != "cursor to OPTION"@.len());
        assert("choose SAVE"@[0] != "answer YES"@[0]);
        assert("choose SAVE"@[0] != "wrap to EXIT"@[0]);
        assert("choose SAVE"@[1] != "cursor to OPTION"@[1]);
        assert("choose SAVE"@[1] != "cursor to SAVE"@[1]);
    }
}

#[derive(Debug, Clone, Copy, PartialEq, Eq, Structural)]
pub enum ContinuePhase {
    SoftReset,
    AwaitTitle,
    MainMenu,
    Resume,
}

impl ContinuePhase {
    pub open spec fn called(self) -> Seq<char> {
        match self {
            ContinuePhase::SoftReset => "SoftReset"@,
            ContinuePhase::AwaitTitle => "AwaitTitle"@,
            ContinuePhase::MainMenu => "MainMenu"@,
            ContinuePhase::Resume => "Resume"@,
        }
    }

    pub fn name(self) -> (s: &'static str)
        ensures
            s@ == self.called(),
    {
        match self {
            ContinuePhase::SoftReset => "SoftReset",
            ContinuePhase::AwaitTitle => "AwaitTitle",
            ContinuePhase::MainMenu => "MainMenu",
            ContinuePhase::Resume => "Resume",
        }
    }
}

/// Loads the saved game: soft reset, title, CONTINUE, then skip the
/// "Previously on your quest…" recap until the player is on the map.
#[derive(Debug, Clone, Copy, PartialEq, Eq, Structural)]
pub struct ContinueTask {
    pub phase: ContinuePhase,
    pub located: u32,
    pub attempts: u32,
}

impl Default for ContinueTask {
    fn default() -> (t: ContinueTask)
        ensures
            t == (ContinueTask { phase: ContinuePhase::SoftReset, located: 0, attempts: 0 }),
    {
        ContinueTask { phase: ContinuePhase::SoftReset, located: 0, attempts: 0 }
    }
}

impl ContinueTask {
    pub fn name(&self) -> (s: &'static str)
        ensures
            s@ == "ContinueGame"@,
    {
        "ContinueGame"
    }

    /// The phase to act in: the main menu may come without the title.
    pub open spec fn phase_on(self, o: Observation) -> ContinuePhase {
        if self.phase == ContinuePhase::AwaitTitle && o.screen == ScreenState::MainMenu {
            ContinuePhase::MainMenu
        } else {
            self.phase
        }
    }

    /// The player is on the map with nothing over it.
    pub open spec fn in_control(o: Observation) -> bool {
        o.player is Some && o.dialogue is None && o.menu is None
    }

    /// What the task does.
    pub open spec fn deciding(self, o: Observation) -> DecisionV {
        if self.attempts > CONTINUE_ATTEMPTS {
            DecisionV::Fail("stuck in "@ + self.phase.called())
        } else {
            match self.phase_on(o) {
                ContinuePhase::SoftReset => resetting(),
                ContinuePhase::AwaitTitle => if o.screen == ScreenState::TitleScreen {
                    pressing(
                        "press Start on the title screen"@,
                        Button::Start,
                        ExpectationV::ScreenIsNot(ScreenState::TitleScreen),
                        120,
                    )
                } else {
                    pressing(
                        "press Start to skip the intro"@,
                        Button::Start,
                        ExpectationV::ScreenIs(ScreenState::TitleScreen),
                        150,
                    )
                },
                ContinuePhase::MainMenu => if o.menu is Some && o.screen == ScreenState::MainMenu {
                    selecting(o.menu->0, 0, "choose CONTINUE"@)
                } else {
                    DecisionV::Wait("waiting for the main menu"@)
                },
                ContinuePhase::Resume => if ContinueTask::in_control(o) {
                    if counted(self.located) >= SETTLED {
                        DecisionV::Done("continued the saved game"@)
                    } else {
                        DecisionV::Wait("confirming we're in control"@)
                    }
                } else {
                    // The recap plays by itself; B skips it.
                    pressing(
                        "press B to skip the recap"@,
                        Button::B,
                        ExpectationV::InputsDone,
                        45,
                    )
                },
            }
        }
    }

    /// The task after it has looked at a frame.
    pub open spec fn decided(self, o: Observation) -> ContinueTask {
        if self.attempts > CONTINUE_ATTEMPTS {
            self
        } else {
            ContinueTask {
                phase: self.phase_on(o),
                located: if self.phase != ContinuePhase::Resume {
                    self.located
                } else if ContinueTask::in_control(o) {
                    counted(self.located)
                } else {
                    0
                },
                ..self
            }
        }
    }

    /// The next decision.
    pub fn next(&mut self, o: &Observation) -> (d: Decision)
        ensures
            d@ == old(self).deciding(*o),
            *final(self) == old(self).decided(*o),
    {
        if self.attempts > CONTINUE_ATTEMPTS {
            return Decision::Fail(cat("stuck in ", self.phase.name()));
        }
        if self.phase == ContinuePhase::AwaitTitle && o.screen == ScreenState::MainMenu {
            self.phase = ContinuePhase::MainMenu;
        }
        match self.phase {
            ContinuePhase::SoftReset => soft_reset(),
            ContinuePhase::AwaitTitle => if o.screen == ScreenState::TitleScreen {
                press(
                    "press Start on the title screen".to_owned(),
                    Button::Start,
                    Expectation::ScreenIsNot(ScreenState::TitleScreen),
                    120,
                )
            } else {
                press(
                    "press Start to skip the intro".to_owned(),
                    Button::Start,
                    Expectation::ScreenIs(ScreenState::TitleScreen),
                    150,
                )
            },
            ContinuePhase::MainMenu => {
                if let Some(menu) = &o.menu {
                    if o.screen == ScreenState::MainMenu {
                        return select(menu, 0, "choose CONTINUE");
                    }
                }
                wait_for("waiting for the main menu")
            },
            ContinuePhase::Resume => {
                if o.player.is_some() && o.dialogue.is_none() && o.menu.is_none() {
                    self.located = count(self.located);
                    if self.located >= SETTLED {
                        return Decision::Done("continued the saved game".to_owned());
                    }
                    return wait_for("confirming we're in control");
                }
                self.located = 0;
                press(
                    "press B to skip the recap".to_owned(),
                    Button::B,
                    Expectation::InputsDone,
                    45,
                )
            },
        }
    }

    /// What an outcome makes of the task.
    pub open spec fn after(self, label: Seq<char>, outcome: Outcome) -> ContinueTask {
        if outcome == Outcome::TimedOut {
            ContinueTask { attempts: counted(self.attempts), ..self }
        } else {
            match self.phase {
                ContinuePhase::SoftReset => ContinueTask {
                    phase: ContinuePhase::AwaitTitle,
                    ..self
                },
                ContinuePhase::AwaitTitle => if label == "press Start on the title screen"@ {
                    ContinueTask { phase: ContinuePhase::MainMenu, ..self }
                } else {
                    self
                },
                ContinuePhase::MainMenu => if label == "choose CONTINUE"@ {
                    ContinueTask { phase: ContinuePhase::Resume, ..self }
                } else {
                    self
                },
                ContinuePhase::Resume => self,
            }
        }
    }

    /// Takes in what came of an action.
    pub fn on_outcome(&mut self, action: &Action, outcome: Outcome)
        ensures
            *final(self) == old(self).after(action.label@, outcome),
    {
        if outcome == Outcome::TimedOut {
            self.attempts = count(self.attempts);
            return;
        }
        match self.phase {
            ContinuePhase::SoftReset => self.phase = ContinuePhase::AwaitTitle,
            ContinuePhase::AwaitTitle => {
                if same(&action.label, "press Start on the title screen") {
                    self.phase = ContinuePhase::MainMenu;
                }
            },
            ContinuePhase::MainMenu => {
                if same(&action.label, "choose CONTINUE") {
                    self.phase = ContinuePhase::Resume;
                }
            },
            ContinuePhase::Resume => {},
        }
    }

    /// The game counts as continued only on the map, after CONTINUE was
    /// chosen, at the end of a spell of [`SETTLED`] frames in control.
    pub proof fn continued_means_in_control(self, o: Observation)
        requires
            self.deciding(o) is Done,
        ensures
            self.phase == ContinuePhase::Resume,
            ContinueTask::in_control(o),
            self.located + 1 >= SETTLED,
    {
    }
}

} // verus!
