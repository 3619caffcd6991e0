//! Start a new game from power-on: title screen, the new-game tutorial,
//! Professor Oak's introduction, gender, player name and rival name, until
//! the player is confirmed to be in control in their bedroom.
//!
//! Every step is driven by what is on screen; the phase only tells the task
//! how to interpret a menu or keyboard it sees (e.g. the first two-row menu
//! is the gender question, the five-row one the rival presets).

use vstd::prelude::*;
use vstd::string::{StrSliceExecFns, StringExecFns};

use crate::action::{copy_cells, Action, Expectation, ExpectationV};
use crate::event::{events_of, report, GameEvent, GameEventV};
use crate::executor::{press, pressing, send, sending, wait_for, Decision, DecisionV, Outcome};
use crate::input::{Button, ButtonSet, CommandV, ControllerCommand};
use crate::keyboard::{
    key_at, key_position, moves, path, tap_inputs, taps, typeable, valid_names_have_keys,
    validate_name,
};
use crate::observe::{
    DialogueObservation, Gender, KeyboardFocus, MenuObservation, NamingObservation, Observation,
    ScreenState,
};
use crate::text::{cat, cat3, chars, decimal, decimal_of, same};

verus! {

/// Timed-out attempts allowed per phase before giving up.
pub const MAX_ATTEMPTS: u32 = 12;

/// Frames of "nothing on screen" after the outro before checking control.
pub const SETTLE_FRAMES: u32 = 90;

/// The buttons of a soft reset are held this long, in milliseconds.
pub const RESET_MS: u64 = 250;

/// The row of a rival name in the list of presets, below NEW NAME.
pub open spec fn preset_row(name: Seq<char>) -> Option<u8> {
    if name == "GREEN"@ {
        Some(1)
    } else if name == "GARY"@ {
        Some(2)
    } else if name == "KAZ"@ {
        Some(3)
    } else if name == "TORU"@ {
        Some(4)
    } else {
        None
    }
}

/// Rival names offered in the list (after "NEW NAME").
pub const RIVAL_PRESETS: [&'static str; 4] = ["GREEN", "GARY", "KAZ", "TORU"];

#[derive(Debug, Clone)]
pub struct NewGameConfig {
    pub gender: Gender,
    pub player_name: String,
    pub rival_name: String,
    /// Soft-reset (A+B+Start+Select) first so the task can start from any state.
    pub soft_reset: bool,
}

impl Default for NewGameConfig {
    fn default() -> (c: NewGameConfig)
        ensures
            c.gender == Gender::Boy,
            c.player_name@ == "RED"@,
            c.rival_name@ == "GREEN"@,
            c.soft_reset,
    {
        NewGameConfig {
            gender: Gender::Boy,
            player_name: "RED".to_owned(),
            rival_name: "GREEN".to_owned(),
            soft_reset: true,
        }
    }
}

impl NewGameConfig {
    /// Both names can be typed.
    pub open spec fn valid(self) -> bool {
        typeable(self.player_name@) && typeable(self.rival_name@)
    }

    pub fn validate(&self) -> (r: Result<(), String>)
        ensures
            r is Ok <==> self.valid(),
            r matches Err(e) ==> if typeable(self.player_name@) {
                crate::keyboard::name_problem(self.rival_name@, e@)
            } else {
                crate::keyboard::name_problem(self.player_name@, e@)
            },
    {
        match validate_name(&self.player_name) {
            Err(e) => Err(e),
            Ok(()) => validate_name(&self.rival_name),
        }
    }
}

/// The default configuration can be played.
pub proof fn default_names_are_valid()
    ensures
        typeable("RED"@),
        typeable("GREEN"@),
        preset_row("GREEN"@) == Some(1u8),
{
    reveal_strlit("RED");
    reveal_strlit("GREEN");
}

#[derive(Debug, Clone, Copy, PartialEq, Eq, Structural)]
pub enum Phase {
    SoftReset,
    AwaitTitle,
    Title,
    AfterTitle,
    Intro,
    Gender,
    PlayerIntro,
    PlayerName,
    ConfirmPlayer,
    RivalIntro,
    RivalChoice,
    RivalName,
    ConfirmRival,
    Outro,
    OpenStartMenu,
    CloseStartMenu,
    Done,
}

impl Phase {
    /// What the task is doing.
    pub open spec fn described(self) -> Seq<char> {
        match self {
            Phase::SoftReset => "soft reset"@,
            Phase::AwaitTitle => "waiting for the title screen"@,
            Phase::Title => "leaving the title screen"@,
            Phase::AfterTitle => "entering the new game"@,
            Phase::Intro => "tutorial and Oak's introduction"@,
            Phase::Gender => "choosing gender"@,
            Phase::PlayerIntro => "waiting for the name prompt"@,
            Phase::PlayerName => "typing the player's name"@,
            Phase::ConfirmPlayer => "confirming the player's name"@,
            Phase::RivalIntro => "meeting the rival"@,
            Phase::RivalChoice => "choosing the rival's name"@,
            Phase::RivalName => "typing the rival's name"@,
            Phase::ConfirmRival => "confirming the rival's name"@,
            Phase::Outro => "finishing the introduction"@,
            Phase::OpenStartMenu => "checking control (opening Start menu)"@,
            Phase::CloseStartMenu => "checking control (closing Start menu)"@,
            Phase::Done => "done"@,
        }
    }

    pub fn describe(self) -> (s: &'static str)
        ensures
            s@ == self.described(),
    {
        match self {
            Phase::SoftReset => "soft reset",
            Phase::AwaitTitle => "waiting for the title screen",
            Phase::Title => "leaving the title screen",
            Phase::AfterTitle => "entering the new game",
            Phase::Intro => "tutorial and Oak's introduction",
            Phase::Gender => "choosing gender",
            Phase::PlayerIntro => "waiting for the name prompt",
            Phase::PlayerName => "typing the player's name",
            Phase::ConfirmPlayer => "confirming the player's name",
            Phase::RivalIntro => "meeting the rival",
            Phase::RivalChoice => "choosing the rival's name",
            Phase::RivalName => "typing the rival's name",
            Phase::ConfirmRival => "confirming the rival's name",
            Phase::Outro => "finishing the introduction",
            Phase::OpenStartMenu => "checking control (opening Start menu)",
            Phase::CloseStartMenu => "checking control (closing Start menu)",
            Phase::Done => "done",
        }
    }

    pub open spec fn called(self) -> Seq<char> {
        match self {
            Phase::SoftReset => "SoftReset"@,
            Phase::AwaitTitle => "AwaitTitle"@,
            Phase::Title => "Title"@,
            Phase::AfterTitle => "AfterTitle"@,
            Phase::Intro => "Intro"@,
            Phase::Gender => "Gender"@,
            Phase::PlayerIntro => "PlayerIntro"@,
            Phase::PlayerName => "PlayerName"@,
            Phase::ConfirmPlayer => "ConfirmPlayer"@,
            Phase::RivalIntro => "RivalIntro"@,
            Phase::RivalChoice => "RivalChoice"@,
            Phase::RivalName => "RivalName"@,
            Phase::ConfirmRival => "ConfirmRival"@,
            Phase::Outro => "Outro"@,
            Phase::OpenStartMenu => "OpenStartMenu"@,
            Phase::CloseStartMenu => "CloseStartMenu"@,
            Phase::Done => "Done"@,
        }
    }

    pub fn name(self) -> (s: &'static str)
        ensures
            s@ == self.called(),
    {
        match self {
            Phase::SoftReset => "SoftReset",
            Phase::AwaitTitle => "AwaitTitle",
            Phase::Title => "Title",
            Phase::AfterTitle => "AfterTitle",
            Phase::Intro => "Intro",
            Phase::Gender => "Gender",
            Phase::PlayerIntro => "PlayerIntro",
            Phase::PlayerName => "PlayerName",
            Phase::ConfirmPlayer => "ConfirmPlayer",
            Phase::RivalIntro => "RivalIntro",
            Phase::RivalChoice => "RivalChoice",
            Phase::RivalName => "RivalName",
            Phase::ConfirmRival => "ConfirmRival",
            Phase::Outro => "Outro",
            Phase::OpenStartMenu => "OpenStartMenu",
            Phase::CloseStartMenu => "CloseStartMenu",
            Phase::Done => "Done",
        }
    }

    /// How many more phases one frame can move past.
    pub open spec fn rank(self) -> nat {
        match self {
            Phase::AwaitTitle => 4,
            Phase::Title => 3,
            Phase::AfterTitle => 2,
            Phase::Intro | Phase::PlayerIntro | Phase::ConfirmPlayer | Phase::RivalIntro
            | Phase::ConfirmRival | Phase::Outro => 1,
            _ => 0,
        }
    }
}

#[derive(Debug, Clone)]
pub struct NewGameTask {
    pub config: NewGameConfig,
    pub phase: Phase,
    /// Actions of this phase that timed out.
    pub attempts: u32,
    /// Consecutive frames with no UI during the outro.
    pub quiet_frames: u32,
    /// A transition (fade/shrink) happened since the outro began.
    pub outro_transition: bool,
    /// Pressed Start on the keyboard; next is A on OK.
    pub confirming_name: bool,
    pub rival_from_list: bool,
}

/// The progress report of a phase.
pub open spec fn progress(phase: Phase) -> GameEventV {
    GameEventV::GoalProgress {
        goal: "NewGame"@,
        phase: phase.called(),
        detail: phase.described(),
    }
}

/// Moves the menu cursor one row toward `row`, or confirms when there.
pub open spec fn selecting(menu: MenuObservation, row: u8, label: Seq<char>) -> DecisionV {
    if row >= menu.rows {
        DecisionV::Fail(label + ": menu has only "@ + decimal_of(menu.rows as nat) + " rows"@)
    } else if menu.cursor_row == row {
        pressing(label, Button::A, ExpectationV::MenuClosed, 90)
    } else if menu.cursor_row < row {
        pressing(
            label + ": cursor "@ + "Down"@,
            Button::Down,
            ExpectationV::MenuCursorAt((menu.cursor_row + 1) as u8),
            45,
        )
    } else {
        pressing(
            label + ": cursor "@ + "Up"@,
            Button::Up,
            ExpectationV::MenuCursorAt((menu.cursor_row - 1) as u8),
            45,
        )
    }
}

/// Moves the menu cursor one row toward `row`, or confirms when there.
pub(crate) fn select(menu: &MenuObservation, row: u8, label: &str) -> (d: Decision)
    ensures
        d@ == selecting(*menu, row, label@),
{
    if row >= menu.rows {
        let mut r = cat(label, ": menu has only ");
        r.append(decimal(menu.rows as u64).as_str());
        r.append(" rows");
        Decision::Fail(r)
    } else if menu.cursor_row == row {
        press(label.to_owned(), Button::A, Expectation::MenuClosed, 90)
    } else if menu.cursor_row < row {
        press(
            cat3(label, ": cursor ", "Down"),
            Button::Down,
            Expectation::MenuCursorAt(menu.cursor_row + 1),
            45,
        )
    } else {
        press(
            cat3(label, ": cursor ", "Up"),
            Button::Up,
            Expectation::MenuCursorAt(menu.cursor_row - 1),
            45,
        )
    }
}

/// Presses A when the game waits for it, otherwise waits.
pub open spec fn advancing(dialogue: Option<DialogueObservation>, waiting: Seq<char>) -> DecisionV {
    match dialogue {
        Some(d) => if d.ready_for_a {
            pressing(
                "advance text"@,
                Button::A,
                ExpectationV::TextAdvanced { kind: d.kind, baseline: d.text_cells@ },
                90,
            )
        } else {
            DecisionV::Wait("text is printing"@)
        },
        None => DecisionV::Wait(waiting),
    }
}

/// Presses A when the game waits for it, otherwise waits.
pub(crate) fn advance_or_wait(dialogue: &Option<DialogueObservation>, waiting: &str) -> (d:
    Decision)
    ensures
        d@ == advancing(*dialogue, waiting@),
{
    match dialogue {
        Some(d) => if d.ready_for_a {
            press(
                "advance text".to_owned(),
                Button::A,
                Expectation::TextAdvanced { kind: d.kind, baseline: copy_cells(&d.text_cells) },
                90,
            )
        } else {
            wait_for("text is printing")
        },
        None => wait_for(waiting),
    }
}

/// Holds A, B, Start and Select together.
pub open spec fn resetting() -> DecisionV {
    sending(
        "soft reset (A+B+Start+Select)"@,
        CommandV::Hold {
            buttons: ButtonSet::nothing().with_spec(Button::A).with_spec(Button::B).with_spec(
                Button::Start,
            ).with_spec(Button::Select),
            millis: RESET_MS,
        },
        ExpectationV::InputsDone,
        0,
    )
}

/// Holds A, B, Start and Select together.
pub(crate) fn soft_reset() -> (d: Decision)
    ensures
        d@ == resetting(),
{
    send(
        "soft reset (A+B+Start+Select)".to_owned(),
        ControllerCommand::Hold {
            buttons: ButtonSet::none().with(Button::A).with(Button::B).with(Button::Start).with(
                Button::Select,
            ),
            millis: RESET_MS,
        },
        Expectation::InputsDone,
        0,
    )
}

impl NewGameTask {
    pub open spec fn wf(self) -> bool {
        self.config.valid()
    }

    pub fn new(config: NewGameConfig) -> (r: Result<NewGameTask, String>)
        ensures
            r is Ok <==> config.valid(),
            r matches Ok(t) ==> t == NewGameTask::fresh(config) && t.wf(),
            r matches Err(e) ==> if typeable(config.player_name@) {
                crate::keyboard::name_problem(config.rival_name@, e@)
            } else {
                crate::keyboard::name_problem(config.player_name@, e@)
            },
    {
        match config.validate() {
            Err(e) => return Err(e),
            Ok(()) => {},
        }
        let phase = if config.soft_reset {
            Phase::SoftReset
        } else {
            Phase::AwaitTitle
        };
        Ok(
            NewGameTask {
                config,
                phase,
                attempts: 0,
                quiet_frames: 0,
                outro_transition: false,
                confirming_name: false,
                rival_from_list: false,
            },
        )
    }

    /// A game that has not begun.
    pub open spec fn fresh(config: NewGameConfig) -> NewGameTask {
        NewGameTask {
            config,
            phase: if config.soft_reset {
                Phase::SoftReset
            } else {
                Phase::AwaitTitle
            },
            attempts: 0,
            quiet_frames: 0,
            outro_transition: false,
            confirming_name: false,
            rival_from_list: false,
        }
    }

    /// The task in another phase: its counters start anew.
    pub open spec fn entered(self, phase: Phase) -> NewGameTask {
        NewGameTask { phase, attempts: 0, quiet_frames: 0, confirming_name: false, ..self }
    }

    /// Enters another phase and reports it.
    fn enter(&mut self, phase: Phase, events: &mut Vec<GameEvent>)
        requires
            old(self).phase != phase,
        ensures
            *final(self) == old(self).entered(phase),
            events_of(final(events)@) == events_of(old(events)@).push(progress(phase)),
    {
        self.phase = phase;
        self.attempts = 0;
        self.quiet_frames = 0;
        self.confirming_name = false;
        report(
            events,
            GameEvent::GoalProgress {
                goal: "NewGame".to_owned(),
                phase: phase.name().to_owned(),
                detail: phase.describe().to_owned(),
            },
        );
    }

    fn rival_preset_row(&self) -> (r: Option<u8>)
        ensures
            r == preset_row(self.config.rival_name@),
    {
        if same(&self.config.rival_name, "GREEN") {
            Some(1)
        } else if same(&self.config.rival_name, "GARY") {
            Some(2)
        } else if same(&self.config.rival_name, "KAZ") {
            Some(3)
        } else if same(&self.config.rival_name, "TORU") {
            Some(4)
        } else {
            None
        }
    }

    /// The name that this phase types.
    pub open spec fn name_in_phase(self) -> Seq<char> {
        if self.phase == Phase::PlayerName {
            self.config.player_name@
        } else {
            self.config.rival_name@
        }
    }

    fn name_for_phase(&self) -> (s: &str)
        ensures
            s@ == self.name_in_phase(),
    {
        if self.phase == Phase::PlayerName {
            &self.config.player_name
        } else {
            &self.config.rival_name
        }
    }

    /// Nothing of the introduction is on screen.
    pub open spec fn quiet(o: Observation) -> bool {
        o.dialogue is None && o.menu is None && o.naming is None && o.screen
            == ScreenState::Unknown
    }

    /// The task after it has looked at a frame: during the outro it counts the
    /// quiet frames and remembers a transition.
    pub open spec fn watched(self, o: Observation) -> NewGameTask {
        if self.phase == Phase::Outro {
            NewGameTask {
                outro_transition: self.outro_transition || o.screen == ScreenState::Transition,
                quiet_frames: if !NewGameTask::quiet(o) {
                    0
                } else if self.quiet_frames < u32::MAX {
                    (self.quiet_frames + 1) as u32
                } else {
                    u32::MAX
                },
                ..self
            }
        } else {
            self
        }
    }

    fn watch(&mut self, o: &Observation)
        ensures
            *final(self) == old(self).watched(*o),
    {
        if self.phase == Phase::Outro {
            if o.screen == ScreenState::Transition {
                self.outro_transition = true;
            }
            let quiet = o.dialogue.is_none() && o.menu.is_none() && o.naming.is_none() && o.screen
                == ScreenState::Unknown;
            self.quiet_frames = if !quiet {
                0
            } else if self.quiet_frames < u32::MAX {
                self.quiet_frames + 1
            } else {
                u32::MAX
            };
        }
    }

    /// The next phase, where the frame shows that this one is over.
    pub open spec fn onward(self, o: Observation) -> Option<Phase> {
        match self.phase {
            Phase::AwaitTitle => match o.screen {
                ScreenState::TitleScreen => Some(Phase::Title),
                // Title already passed (e.g. a skip press landed on it).
                ScreenState::InfoPage
                | ScreenState::Dialogue
                | ScreenState::Menu
                | ScreenState::MainMenu => Some(Phase::AfterTitle),
                _ => None,
            },
            Phase::Title => if o.screen != ScreenState::TitleScreen {
                Some(Phase::AfterTitle)
            } else {
                None
            },
            Phase::AfterTitle => if o.screen == ScreenState::InfoPage || o.screen
                == ScreenState::Dialogue {
                Some(Phase::Intro)
            } else {
                None
            },
            Phase::Intro => if o.dialogue is Some && o.menu is Some && o.menu->0.rows == 2 {
                Some(Phase::Gender)
            } else {
                None
            },
            Phase::PlayerIntro => if o.naming is Some {
                Some(Phase::PlayerName)
            } else {
                None
            },
            // Answered NO somewhere: back to the keyboard.
            Phase::ConfirmPlayer => if o.naming is Some {
                Some(Phase::PlayerName)
            } else {
                None
            },
            Phase::ConfirmRival => if o.naming is Some {
                Some(Phase::RivalName)
            } else {
                None
            },
            Phase::RivalIntro => if o.menu is Some && o.menu->0.rows >= 5 {
                Some(Phase::RivalChoice)
            } else {
                None
            },
            Phase::Outro => if self.outro_transition && self.quiet_frames >= SETTLE_FRAMES {
                Some(Phase::OpenStartMenu)
            } else {
                None
            },
            _ => None,
        }
    }

    fn next_phase(&self, o: &Observation) -> (r: Option<Phase>)
        ensures
            r == self.onward(*o),
    {
        match self.phase {
            Phase::AwaitTitle => match o.screen {
                ScreenState::TitleScreen => Some(Phase::Title),
                ScreenState::InfoPage
                | ScreenState::Dialogue
                | ScreenState::Menu
                | ScreenState::MainMenu => Some(Phase::AfterTitle),
                _ => None,
            },
            Phase::Title => if o.screen != ScreenState::TitleScreen {
                Some(Phase::AfterTitle)
            } else {
                None
            },
            Phase::AfterTitle => match o.screen {
                ScreenState::InfoPage | ScreenState::Dialogue => Some(Phase::Intro),
                _ => None,
            },
            Phase::Intro => match &o.menu {
                Some(menu) => if o.dialogue.is_some() && menu.rows == 2 {
                    Some(Phase::Gender)
                } else {
                    None
                },
                None => None,
            },
            Phase::PlayerIntro => if o.naming.is_some() {
                Some(Phase::PlayerName)
            } else {
                None
            },
            Phase::ConfirmPlayer => if o.naming.is_some() {
                Some(Phase::PlayerName)
            } else {
                None
            },
            Phase::ConfirmRival => if o.naming.is_some() {
                Some(Phase::RivalName)
            } else {
                None
            },
            Phase::RivalIntro => match &o.menu {
                Some(menu) => if menu.rows >= 5 {
                    Some(Phase::RivalChoice)
                } else {
                    None
                },
                None => None,
            },
            Phase::Outro => if self.outro_transition && self.quiet_frames >= SETTLE_FRAMES {
                Some(Phase::OpenStartMenu)
            } else {
                None
            },
            _ => None,
        }
    }

    /// The task once it has moved on as far as the frame shows, and the phases
    /// that it reports on the way.
    pub open spec fn caught_up(self, o: Observation) -> (NewGameTask, Seq<GameEventV>)
        decreases self.phase.rank(),
    {
        let seen = self.watched(o);
        match seen.onward(o) {
            Some(phase) => {
                let rest = seen.entered(phase).caught_up(o);
                (rest.0, seq![progress(phase)] + rest.1)
            },
            None => (seen, Seq::empty()),
        }
    }

    fn catch_up(&mut self, o: &Observation, events: &mut Vec<GameEvent>)
        ensures
            *final(self) == old(self).caught_up(*o).0,
            events_of(final(events)@) == events_of(old(events)@) + old(self).caught_up(*o).1,
        decreases old(self).phase.rank(),
    {
        let ghost start = *self;
        let ghost before = events_of(events@);
        self.watch(o);
        match self.next_phase(o) {
            Some(phase) => {
                self.enter(phase, events);
                let ghost middle = *self;
                self.catch_up(o, events);
                assert(events_of(events@) =~= before + start.caught_up(*o).1);
            },
            None => {
                assert(events_of(events@) =~= before + start.caught_up(*o).1);
            },
        }
    }

    /// One closed-loop typing step: delete extras, move to the next letter,
    /// press it, and finally confirm with Start then A on OK.
    pub open spec fn typing(self, naming: NamingObservation) -> DecisionV {
        let name = self.name_in_phase();
        if naming.typed > name.len() {
            pressing(
                "delete a character"@,
                Button::B,
                ExpectationV::TypedCount((naming.typed - 1) as u8),
                60,
            )
        } else if naming.typed == name.len() {
            if !self.confirming_name {
                pressing(
                    "press Start (cursor to OK)"@,
                    Button::Start,
                    ExpectationV::KeyboardFocus(KeyboardFocus::Buttons),
                    45,
                )
            } else {
                pressing("confirm name "@ + name, Button::A, ExpectationV::NamingClosed, 120)
            }
        } else {
            let letter = name[naming.typed as int];
            let key = choose|key: (u8, u8)| key_at(key.0 as int, key.1 as int, letter);
            let target = KeyboardFocus::Key { column: key.0, row: key.1 };
            match naming.focus {
                KeyboardFocus::Buttons => pressing(
                    "move from the button column back to the letters"@,
                    Button::Right,
                    ExpectationV::FocusOnAnyKey,
                    45,
                ),
                KeyboardFocus::Key { column, row } => if naming.focus == target {
                    pressing(
                        "type "@ + seq![letter],
                        Button::A,
                        ExpectationV::TypedCount((naming.typed + 1) as u8),
                        60,
                    )
                } else {
                    let way = path((column, row), key);
                    sending(
                        "move cursor to "@ + seq![letter] + " ("@ + decimal_of(way.len())
                            + " taps)"@,
                        CommandV::Sequence(tap_inputs(way)),
                        ExpectationV::KeyboardFocus(target),
                        (30 + 10 * way.len()) as u64,
                    )
                },
            }
        }
    }

    /// One closed-loop typing step: delete extras, move to the next letter,
    /// press it, and finally confirm with Start then A on OK.
    fn type_letter(&mut self, naming: &NamingObservation) -> (d: Decision)
        requires
            old(self).wf(),
        ensures
            d@ == old(self).typing(*naming),
            *final(self) == (NewGameTask {
                confirming_name: old(self).confirming_name && naming.typed
                    >= old(self).name_in_phase().len(),
                ..*old(self)
            }),
    {
        let ghost start = *self;
        let letters = chars(self.name_for_phase());
        let typed = naming.typed as usize;
        if typed > letters.len() {
            return press(
                "delete a character".to_owned(),
                Button::B,
                Expectation::TypedCount(naming.typed - 1),
                60,
            );
        }
        if typed == letters.len() {
            if !self.confirming_name {
                return press(
                    "press Start (cursor to OK)".to_owned(),
                    Button::Start,
                    Expectation::KeyboardFocus(KeyboardFocus::Buttons),
                    45,
                );
            }
            return press(
                cat("confirm name ", self.name_for_phase()),
                Button::A,
                Expectation::NamingClosed,
                120,
            );
        }
        self.confirming_name = false;
        let letter = letters[typed];
        proof {
            valid_names_have_keys(start.name_in_phase(), typed as int);
        }
        let shown = self.name_for_phase().substring_char(typed, typed + 1);
        assert(shown@ =~= seq![letter]);
        let (column, row) = match key_position(letter) {
            Some(key) => key,
            None => (0, 0),
        };
        let ghost chosen = choose|key: (u8, u8)| key_at(key.0 as int, key.1 as int, letter);
        proof {
            assert(key_at((column, row).0 as int, (column, row).1 as int, letter));
            crate::keyboard::each_key_is_printed_once(
                letter,
                (column as int, row as int),
                (chosen.0 as int, chosen.1 as int),
            );
            assert(chosen == (column, row));
        }
        let target = KeyboardFocus::Key { column, row };
        match naming.focus {
            KeyboardFocus::Buttons => press(
                "move from the button column back to the letters".to_owned(),
                Button::Right,
                Expectation::FocusOnAnyKey,
                45,
            ),
            KeyboardFocus::Key { column: c, row: r } => if naming.focus == target {
                press(
                    cat("type ", shown),
                    Button::A,
                    Expectation::TypedCount(naming.typed + 1),
                    60,
                )
            } else {
                let way = moves((c, r), (column, row));
                proof {
                    crate::keyboard::taps_reach_the_key((c, r), (column, row));
                }
                let mut label = cat3("move cursor to ", shown, " (");
                label.append(decimal(way.len() as u64).as_str());
                label.append(" taps)");
                send(
                    label,
                    taps(&way),
                    Expectation::KeyboardFocus(target),
                    30 + 10 * way.len() as u64,
                )
            },
        }
    }

    /// What the task does in its phase, on a frame that does not end it.
    pub open spec fn deciding(self, o: Observation) -> DecisionV {
        match self.phase {
            Phase::SoftReset => resetting(),
            Phase::AwaitTitle => pressing(
                "press Start to skip the intro"@,
                Button::Start,
                ExpectationV::ScreenIs(ScreenState::TitleScreen),
                150,
            ),
            Phase::Title => pressing(
                "press Start on the title screen"@,
                Button::Start,
                ExpectationV::ScreenIsNot(ScreenState::TitleScreen),
                120,
            ),
            // With a save file, the menu shows CONTINUE / NEW GAME.
            Phase::AfterTitle => if o.screen == ScreenState::MainMenu && o.menu is Some
                && o.menu->0.rows >= 2 {
                selecting(o.menu->0, 1, "select NEW GAME"@)
            } else {
                DecisionV::Wait("waiting for the new game to start"@)
            },
            Phase::Intro => advancing(o.dialogue, "tutorial/introduction running"@),
            Phase::Gender => match o.menu {
                Some(menu) => selecting(
                    menu,
                    match self.config.gender {
                        Gender::Boy => 0,
                        Gender::Girl => 1,
                    },
                    "choose "@ + self.config.gender.called(),
                ),
                None => DecisionV::Wait("waiting for the gender menu"@),
            },
            Phase::PlayerIntro => advancing(o.dialogue, "waiting for the name prompt"@),
            Phase::PlayerName | Phase::RivalName => match o.naming {
                Some(naming) => self.typing(naming),
                None => DecisionV::Wait("waiting for the keyboard"@),
            },
            Phase::ConfirmPlayer | Phase::ConfirmRival => if o.menu is Some && o.menu->0.rows == 2 {
                selecting(o.menu->0, 0, "answer YES"@)
            } else {
                advancing(o.dialogue, "waiting for the YES/NO question"@)
            },
            Phase::RivalIntro => advancing(o.dialogue, "Oak introducing the rival"@),
            Phase::RivalChoice => match o.menu {
                Some(menu) => match preset_row(self.config.rival_name@) {
                    Some(row) => selecting(menu, row, "choose "@ + self.config.rival_name@),
                    None => selecting(menu, 0, "choose NEW NAME"@),
                },
                None => DecisionV::Wait("waiting for the rival name list"@),
            },
            Phase::Outro => advancing(o.dialogue, "introduction ending"@),
            Phase::OpenStartMenu => pressing(
                "open the Start menu to confirm control"@,
                Button::Start,
                ExpectationV::MenuOpen,
                60,
            ),
            Phase::CloseStartMenu => pressing(
                "close the Start menu"@,
                Button::B,
                ExpectationV::MenuClosed,
                60,
            ),
            Phase::Done => DecisionV::Done(
                self.config.player_name@ + " ("@ + self.config.gender.called()
                    + ") is in control; rival is "@ + self.config.rival_name@,
            ),
        }
    }

    /// A frame: given up after too many failures, and else decided where the screen
    /// has brought the introduction.
    pub open spec fn stepped(self, o: Observation) -> (NewGameTask, DecisionV, Seq<GameEventV>) {
        if self.attempts >= MAX_ATTEMPTS {
            (
                self,
                DecisionV::Fail(
                    self.phase.described() + " failed "@ + decimal_of(self.attempts as nat)
                        + " times"@,
                ),
                Seq::empty(),
            )
        } else {
            let reached = self.caught_up(o);
            (reached.0.decided(o), reached.0.deciding(o), reached.1)
        }
    }

    /// The task after it has decided: typing a letter takes back a Start press.
    pub open spec fn decided(self, o: Observation) -> NewGameTask {
        if (self.phase == Phase::PlayerName || self.phase == Phase::RivalName) && o.naming is Some
            && o.naming->0.typed < self.name_in_phase().len() {
            NewGameTask { confirming_name: false, ..self }
        } else {
            self
        }
    }

    fn decide(&mut self, o: &Observation) -> (d: Decision)
        requires
            old(self).wf(),
            old(self).phase != Phase::ConfirmPlayer && old(self).phase != Phase::ConfirmRival
                || o.naming is None,
        ensures
            d@ == old(self).deciding(*o),
            *final(self) == old(self).decided(*o),
    {
        match self.phase {
            Phase::SoftReset => soft_reset(),
            Phase::AwaitTitle => press(
                "press Start to skip the intro".to_owned(),
                Button::Start,
                Expectation::ScreenIs(ScreenState::TitleScreen),
                150,
            ),
            Phase::Title => press(
                "press Start on the title screen".to_owned(),
                Button::Start,
                Expectation::ScreenIsNot(ScreenState::TitleScreen),
                120,
            ),
            Phase::AfterTitle => {
                if o.screen == ScreenState::MainMenu {
                    if let Some(menu) = &o.menu {
                        if menu.rows >= 2 {
                            return select(menu, 1, "select NEW GAME");
                        }
                    }
                }
                wait_for("waiting for the new game to start")
            },
            Phase::Intro => advance_or_wait(&o.dialogue, "tutorial/introduction running"),
            Phase::Gender => match &o.menu {
                Some(menu) => {
                    let row: u8 = match self.config.gender {
                        Gender::Boy => 0,
                        Gender::Girl => 1,
                    };
                    select(menu, row, cat("choose ", self.config.gender.name()).as_str())
                },
                None => wait_for("waiting for the gender menu"),
            },
            Phase::PlayerIntro => advance_or_wait(&o.dialogue, "waiting for the name prompt"),
            Phase::PlayerName | Phase::RivalName => match &o.naming {
                Some(naming) => self.type_letter(naming),
                None => wait_for("waiting for the keyboard"),
            },
            Phase::ConfirmPlayer | Phase::ConfirmRival => {
                if let Some(menu) = &o.menu {
                    if menu.rows == 2 {
                        return select(menu, 0, "answer YES");
                    }
                }
                advance_or_wait(&o.dialogue, "waiting for the YES/NO question")
            },
            Phase::RivalIntro => advance_or_wait(&o.dialogue, "Oak introducing the rival"),
            Phase::RivalChoice => match &o.menu {
                Some(menu) => match self.rival_preset_row() {
                    Some(row) => select(
                        menu,
                        row,
                        cat("choose ", self.config.rival_name.as_str()).as_str(),
                    ),
                    None => select(menu, 0, "choose NEW NAME"),
                },
                None => wait_for("waiting for the rival name list"),
            },
            Phase::Outro => advance_or_wait(&o.dialogue, "introduction ending"),
            Phase::OpenStartMenu => press(
                "open the Start menu to confirm control".to_owned(),
                Button::Start,
                Expectation::MenuOpen,
                60,
            ),
            Phase::CloseStartMenu => press(
                "close the Start menu".to_owned(),
                Button::B,
                Expectation::MenuClosed,
                60,
            ),
            Phase::Done => {
                let mut r = cat3(self.config.player_name.as_str(), " (", self.config.gender.name());
                r.append(") is in control; rival is ");
                r.append(self.config.rival_name.as_str());
                Decision::Done(r)
            },
        }
    }

    pub fn name(&self) -> (s: &'static str)
        ensures
            s@ == "NewGame"@,
    {
        "NewGame"
    }

    /// The next decision: moves on as far as the frame shows, then acts in the
    /// phase that it reached. A phase that timed out too often gives up.
    pub fn next(&mut self, o: &Observation, events: &mut Vec<GameEvent>) -> (d: Decision)
        requires
            old(self).wf(),
        ensures
            final(self).wf(),
            ({
                let (next, decision, told) = old(self).stepped(*o);
                &&& d@ == decision
                &&& *final(self) == next
                &&& events_of(final(events)@) == events_of(old(events)@) + told
            }),
            old(self).attempts >= MAX_ATTEMPTS ==> final(events)@ == old(events)@,
    {
        if self.attempts >= MAX_ATTEMPTS {
            let mut r = cat(self.phase.describe(), " failed ");
            r.append(decimal(self.attempts as u64).as_str());
            r.append(" times");
            assert(events_of(events@) + Seq::empty() =~= events_of(events@));
            return Decision::Fail(r);
        }
        proof {
            self.catching_up_settles(*o);
        }
        self.catch_up(o, events);
        self.decide(o)
    }

    /// Once caught up, a frame moves the task no further, and the names that
    /// it types are still the ones it was given.
    pub proof fn catching_up_settles(self, o: Observation)
        ensures
            self.caught_up(o).0.onward(o) is None,
            self.caught_up(o).0.config == self.config,
        decreases self.phase.rank(),
    {
        let seen = self.watched(o);
        match seen.onward(o) {
            Some(phase) => {
                seen.entered(phase).catching_up_settles(o);
            },
            None => {},
        }
    }

    /// Nothing that a frame shows ends the task: that takes the Start menu
    /// opened and closed.
    pub proof fn a_frame_never_ends_the_task(self, o: Observation)
        requires
            self.phase != Phase::Done,
        ensures
            self.caught_up(o).0.phase != Phase::Done,
        decreases self.phase.rank(),
    {
        let seen = self.watched(o);
        match seen.onward(o) {
            Some(phase) => {
                seen.entered(phase).a_frame_never_ends_the_task(o);
            },
            None => {},
        }
    }

    /// What an outcome makes of the task, and what it reports.
    pub open spec fn after(
        self,
        expect: ExpectationV,
        outcome: Outcome,
        o: Observation,
    ) -> (NewGameTask, Seq<GameEventV>) {
        let to = |phase: Phase| (self.entered(phase), seq![progress(phase)]);
        if outcome == Outcome::TimedOut {
            let tried = NewGameTask {
                attempts: if self.attempts < u32::MAX {
                    (self.attempts + 1) as u32
                } else {
                    u32::MAX
                },
                ..self
            };
            // Not in control yet: keep watching the outro.
            if self.phase == Phase::OpenStartMenu {
                (tried.entered(Phase::Outro), seq![progress(Phase::Outro)])
            } else {
                (tried, Seq::empty())
            }
        } else {
            match self.phase {
                Phase::SoftReset => to(Phase::AwaitTitle),
                Phase::AwaitTitle => to(Phase::Title),
                Phase::Title => to(Phase::AfterTitle),
                Phase::Gender => if expect is MenuClosed {
                    (
                        self.entered(Phase::PlayerIntro),
                        seq![
                            GameEventV::GenderChosen { gender: self.config.gender },
                            progress(Phase::PlayerIntro),
                        ],
                    )
                } else {
                    (self, Seq::empty())
                },
                Phase::PlayerName | Phase::RivalName => if expect == ExpectationV::KeyboardFocus(
                    KeyboardFocus::Buttons,
                ) {
                    (NewGameTask { confirming_name: true, ..self }, Seq::empty())
                } else if expect is NamingClosed {
                    if self.phase == Phase::PlayerName {
                        to(Phase::ConfirmPlayer)
                    } else {
                        to(Phase::ConfirmRival)
                    }
                } else {
                    (self, Seq::empty())
                },
                Phase::ConfirmPlayer => if expect is MenuClosed && o.naming is None {
                    (
                        self.entered(Phase::RivalIntro),
                        seq![
                            GameEventV::PlayerNamed { name: self.config.player_name@ },
                            progress(Phase::RivalIntro),
                        ],
                    )
                } else {
                    (self, Seq::empty())
                },
                Phase::RivalChoice => if expect is MenuClosed {
                    if preset_row(self.config.rival_name@) is Some {
                        (
                            NewGameTask { rival_from_list: true, ..self }.entered(
                                Phase::ConfirmRival,
                            ),
                            seq![progress(Phase::ConfirmRival)],
                        )
                    } else {
                        to(Phase::RivalName)
                    }
                } else {
                    (self, Seq::empty())
                },
                Phase::ConfirmRival => if expect is MenuClosed && o.naming is None {
                    (
                        NewGameTask { outro_transition: false, ..self }.entered(Phase::Outro),
                        seq![
                            GameEventV::RivalNamed { name: self.config.rival_name@ },
                            progress(Phase::Outro),
                        ],
                    )
                } else {
                    (self, Seq::empty())
                },
                Phase::OpenStartMenu => to(Phase::CloseStartMenu),
                Phase::CloseStartMenu => (
                    self.entered(Phase::Done),
                    seq![GameEventV::ControlConfirmed, progress(Phase::Done)],
                ),
                _ => (self, Seq::empty()),
            }
        }
    }

    /// Takes in what came of an action.
    pub fn on_outcome(
        &mut self,
        action: &Action,
        outcome: Outcome,
        o: &Observation,
        events: &mut Vec<GameEvent>,
    )
        ensures
            *final(self) == old(self).after(action.expect@, outcome, *o).0,
            events_of(final(events)@) == events_of(old(events)@) + old(self).after(
                action.expect@,
                outcome,
                *o,
            ).1,
    {
        let ghost before = events_of(events@);
        let ghost start = *self;
        if outcome == Outcome::TimedOut {
            if self.attempts < u32::MAX {
                self.attempts = self.attempts + 1;
            }
            if self.phase == Phase::OpenStartMenu {
                self.enter(Phase::Outro, events);
            }
            assert(events_of(events@) =~= before + start.after(action.expect@, outcome, *o).1);
            return;
        }
        let menu_closed = matches!(action.expect, Expectation::MenuClosed);
        match self.phase {
            Phase::SoftReset => self.enter(Phase::AwaitTitle, events),
            Phase::AwaitTitle => self.enter(Phase::Title, events),
            Phase::Title => self.enter(Phase::AfterTitle, events),
            Phase::Gender => {
                if menu_closed {
                    report(events, GameEvent::GenderChosen { gender: self.config.gender });
                    self.enter(Phase::PlayerIntro, events);
                }
            },
            Phase::PlayerName | Phase::RivalName => match &action.expect {
                Expectation::KeyboardFocus(KeyboardFocus::Buttons) => {
                    self.confirming_name = true;
                },
                Expectation::NamingClosed => {
                    if self.phase == Phase::PlayerName {
                        self.enter(Phase::ConfirmPlayer, events);
                    } else {
                        self.enter(Phase::ConfirmRival, events);
                    }
                },
                _ => {},
            },
            Phase::ConfirmPlayer => {
                if menu_closed && o.naming.is_none() {
                    report(
                        events,
                        GameEvent::PlayerNamed { name: self.config.player_name.clone() },
                    );
                    self.enter(Phase::RivalIntro, events);
                }
            },
            Phase::RivalChoice => {
                if menu_closed {
                    if self.rival_preset_row().is_some() {
                        self.rival_from_list = true;
                        self.enter(Phase::ConfirmRival, events);
                    } else {
                        self.enter(Phase::RivalName, events);
                    }
                }
            },
            Phase::ConfirmRival => {
                if menu_closed && o.naming.is_none() {
                    report(events, GameEvent::RivalNamed { name: self.config.rival_name.clone() });
                    self.outro_transition = false;
                    self.enter(Phase::Outro, events);
                }
            },
            Phase::OpenStartMenu => self.enter(Phase::CloseStartMenu, events),
            Phase::CloseStartMenu => {
                report(events, GameEvent::ControlConfirmed);
                self.enter(Phase::Done, events);
            },
            _ => {},
        }
        assert(events_of(events@) =~= before + start.after(action.expect@, outcome, *o).1);
    }

    /// The task ends only in control: on the outcome that closed the Start menu,
    /// which it then reports.
    pub proof fn done_means_in_control(
        self,
        expect: ExpectationV,
        outcome: Outcome,
        o: Observation,
    )
        requires
            self.phase != Phase::Done,
            self.after(expect, outcome, o).0.phase == Phase::Done,
        ensures
            self.phase == Phase::CloseStartMenu,
            outcome != Outcome::TimedOut,
            self.after(expect, outcome, o).1[0] == GameEventV::ControlConfirmed,
    {
    }

    /// No outcome changes the names and the gender that were asked for.
    pub proof fn the_configuration_is_kept(
        self,
        expect: ExpectationV,
        outcome: Outcome,
        o: Observation,
    )
        ensures
            self.after(expect, outcome, o).0.config == self.config,
    {
    }
}

} // verus!
