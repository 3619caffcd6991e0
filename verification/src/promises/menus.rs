//! Menus and the keyboard: what is pressed is what was asked for.

use vstd::prelude::*;

use crate::action::ExpectationV;
use crate::event::GameEventV;
use crate::executor::{DecisionV, Outcome};
use crate::input::{Button, CommandV};
use crate::keyboard::{key_at, path, tap_inputs, taps_reach_the_key, typeable, walked};
use crate::new_game::{NewGameConfig, NewGameTask, Phase};
use crate::observe::{
    Gender, KeyboardFocus, MenuObservation, NamingObservation, Observation, ScreenState,
};
use crate::promises::walk::is_down;
use crate::promises::{button_pressed, gap};
use crate::save::{ContinuePhase, ContinueTask, SaveGameTask, SavePhase};

verus! {

/// A decision that picks a row of a menu: A exactly where the cursor is on it,
/// and elsewhere a press that takes the cursor one row nearer, with the cursor
/// expected there.
pub open spec fn picks_row(d: DecisionV, menu: MenuObservation, row: int) -> bool {
    let at = menu.cursor_row as int;
    &&& button_pressed(d) is Some
    &&& button_pressed(d)->0 == Button::A <==> at == row
    &&& at != row ==> {
        let next = if button_pressed(d)->0 == Button::Down {
            at + 1
        } else {
            at - 1
        };
        &&& button_pressed(d)->0 == Button::Down || button_pressed(d)->0 == Button::Up
        &&& gap(next, row) == gap(at, row) - 1
        &&& d->Act_0.expect is MenuCursorAt
        &&& d->Act_0.expect->MenuCursorAt_0 == next
    }
    &&& at == row ==> d->Act_0.expect is MenuClosed
}

/// The names that the rival's list offers, below NEW NAME.
pub open spec fn offered(row: int) -> Seq<char> {
    if row == 1 {
        "GREEN"@
    } else if row == 2 {
        "GARY"@
    } else if row == 3 {
        "KAZ"@
    } else {
        "TORU"@
    }
}

/// In each menu of the introduction the row that was asked for is picked: NEW
/// GAME below CONTINUE, the gender (boy above girl), YES to a name, and for the
/// rival the row with its name, or NEW NAME where none has it.
pub proof fn the_introduction_is_answered_as_asked(t: NewGameTask, o: Observation)
    requires
        o.menu is Some,
    ensures
        t.phase == Phase::AfterTitle && o.screen == ScreenState::MainMenu && o.menu->0.rows >= 2
            ==> picks_row(t.deciding(o), o.menu->0, 1),
        t.phase == Phase::Gender && o.menu->0.rows >= 2 ==> picks_row(
            t.deciding(o),
            o.menu->0,
            if t.config.gender == Gender::Boy {
                0
            } else {
                1int
            },
        ),
        (t.phase == Phase::ConfirmPlayer || t.phase == Phase::ConfirmRival) && o.menu->0.rows == 2
            ==> picks_row(t.deciding(o), o.menu->0, 0),
        t.phase == Phase::RivalChoice && o.menu->0.rows >= 5 ==> {
            &&& (forall|row: int| 1 <= row <= 4 ==> t.config.rival_name@ != #[trigger] offered(row))
                ==> picks_row(t.deciding(o), o.menu->0, 0)
            &&& forall|row: int|
                1 <= row <= 4 && t.config.rival_name@ == #[trigger] offered(row) ==> picks_row(
                    t.deciding(o),
                    o.menu->0,
                    row,
                )
        },
{
    reveal_strlit("GREEN");
    reveal_strlit("GARY");
    reveal_strlit("KAZ");
    reveal_strlit("TORU");
    assert("GREEN"@[1] != "GARY"@[1]);
    assert("KAZ"@[0] != "GARY"@[0] && "KAZ"@[0] != "GREEN"@[0] && "KAZ"@[0] != "TORU"@[0]);
    assert("TORU"@[0] != "GARY"@[0] && "TORU"@[0] != "GREEN"@[0]);
    assert(offered(1) == "GREEN"@ && offered(2) == "GARY"@ && offered(3) == "KAZ"@ && offered(4)
        == "TORU"@);
}

/// The buttons that a sequence of timed inputs taps, one after the other, each
/// let go before the next.
pub open spec fn taps_of(command: CommandV, buttons: Seq<Button>) -> bool {
    &&& command is Sequence
    &&& command->Sequence_0.len() == 2 * buttons.len()
    &&& forall|i: int, b: Button|
        0 <= i < buttons.len() ==> (#[trigger] is_down(
            command->Sequence_0[2 * i].buttons,
            b,
        ) <==> b == #[trigger] buttons[i])
    &&& forall|i: int, b: Button|
        #![trigger is_down(command->Sequence_0[2 * i + 1].buttons, b)]
        0 <= i < buttons.len() ==> !is_down(command->Sequence_0[2 * i + 1].buttons, b)
}

/// The name that is typed in a phase.
pub open spec fn wanted_name(t: NewGameTask) -> Seq<char> {
    if t.phase == Phase::PlayerName {
        t.config.player_name@
    } else {
        t.config.rival_name@
    }
}

/// A decision that taps a cursor from one key to another.
pub open spec fn taps_lead(d: DecisionV, from: (int, int), c: int, r: int) -> bool {
    &&& d is Act
    &&& d->Act_0.commands.len() == 1
    &&& exists|way: Seq<Button>| #[trigger]
        taps_of(d->Act_0.commands[0], way) && walked(from, way) == (c, r)
}

/// Typing a name: a letter too many is deleted; on a key, A is pressed exactly
/// where the next letter of the name is printed, and else the cursor is tapped
/// to the key on which it is; once the name stands, Start, and then A.
pub proof fn a_name_is_typed_letter_by_letter(t: NewGameTask, naming: NamingObservation, o: Observation)
    requires
        t.wf(),
        t.phase == Phase::PlayerName || t.phase == Phase::RivalName,
        o.naming == Some(naming),
    ensures
        ({
            let name = wanted_name(t);
            let d = t.deciding(o);
            &&& naming.typed > name.len() ==> button_pressed(d) == Some(Button::B)
            &&& naming.typed == name.len() ==> button_pressed(d) == Some(
                if t.confirming_name {
                    Button::A
                } else {
                    Button::Start
                },
            )
            &&& naming.typed < name.len() && naming.focus is Buttons ==> button_pressed(d) == Some(
                Button::Right,
            )
            &&& forall|column: u8, row: u8|
                naming.typed < name.len() && naming.focus == (KeyboardFocus::Key { column, row })
                    && #[trigger] key_at(column as int, row as int, name[naming.typed as int])
                    ==> button_pressed(d) == Some(Button::A)
            &&& forall|column: u8, row: u8|
                naming.typed < name.len() && naming.focus == (KeyboardFocus::Key { column, row })
                    && !#[trigger] key_at(column as int, row as int, name[naming.typed as int])
                    ==> exists|c: int, r: int| #[trigger]
                    key_at(c, r, name[naming.typed as int]) && taps_lead(
                        d,
                        (column as int, row as int),
                        c,
                        r,
                    )
        }),
{
    let name = wanted_name(t);
    let d = t.deciding(o);
    if naming.typed < name.len() {
        if let KeyboardFocus::Key { column, row } = naming.focus {
            let letter = name[naming.typed as int];
            crate::keyboard::valid_names_have_keys(name, naming.typed as int);
            let (c, r) = choose|c: int, r: int| key_at(c, r, letter);
            assert(key_at((c as u8) as int, (r as u8) as int, letter));
            let pair = (c as u8, r as u8);
            assert(key_at(pair.0 as int, pair.1 as int, letter));
            let key = choose|key: (u8, u8)| key_at(key.0 as int, key.1 as int, letter);
            assert(key_at(key.0 as int, key.1 as int, letter));
            if key_at(column as int, row as int, letter) {
                crate::keyboard::each_key_is_printed_once(
                    letter,
                    (column as int, row as int),
                    (key.0 as int, key.1 as int),
                );
            } else {
                let way = path((column, row), key);
                taps_reach_the_key((column, row), key);
                let inputs = tap_inputs(way);
                assert forall|i: int, b: Button| 0 <= i < way.len() implies (#[trigger] is_down(
                    inputs[2 * i].buttons,
                    b,
                ) <==> b == #[trigger] way[i]) by {
                    assert((2 * i) % 2 == 0 && (2 * i) / 2 == i);
                }
                assert forall|i: int, b: Button|
                    #![trigger is_down(inputs[2 * i + 1].buttons, b)]
                    0 <= i < way.len() implies !is_down(inputs[2 * i + 1].buttons, b) by {
                    assert((2 * i + 1) % 2 == 1);
                }
                assert(taps_of(d->Act_0.commands[0], way));
                assert(taps_lead(d, (column as int, row as int), key.0 as int, key.1 as int));
            }
        }
    }
}

/// Where a phase stands in the introduction.
pub open spec fn place(phase: Phase) -> int {
    match phase {
        Phase::SoftReset => 0,
        Phase::AwaitTitle => 1,
        Phase::Title => 2,
        Phase::AfterTitle => 3,
        Phase::Intro => 4,
        Phase::Gender => 5,
        Phase::PlayerIntro => 6,
        Phase::PlayerName => 7,
        Phase::ConfirmPlayer => 8,
        Phase::RivalIntro => 9,
        Phase::RivalChoice => 10,
        Phase::RivalName => 11,
        Phase::ConfirmRival => 12,
        Phase::Outro => 13,
        Phase::OpenStartMenu => 14,
        Phase::CloseStartMenu => 15,
        Phase::Done => 16,
    }
}

/// What comes of an action moves the introduction on by one phase, or by two
/// where the rival's name is on the list; a timeout leaves it where it is and is
/// counted, but for a Start menu that did not open, which goes back to waiting.
/// What was chosen is reported when its question is done with, and as it was
/// asked for.
pub proof fn the_introduction_goes_on_in_order(
    t: NewGameTask,
    expect: ExpectationV,
    outcome: Outcome,
    o: Observation,
)
    ensures
        ({
            let (next, events) = t.after(expect, outcome, o);
            let from = place(t.phase);
            let to = place(next.phase);
            &&& outcome == Outcome::TimedOut ==> {
                if t.phase == Phase::OpenStartMenu {
                    next.phase == Phase::Outro
                } else {
                    to == from && next.attempts == if t.attempts < u32::MAX {
                        t.attempts + 1
                    } else {
                        t.attempts as int
                    }
                }
            }
            &&& outcome != Outcome::TimedOut ==> to == from || to == from + 1 || (t.phase
                == Phase::RivalChoice && next.phase == Phase::ConfirmRival)
            &&& outcome != Outcome::TimedOut && to != from ==> next.attempts == 0
            &&& (exists|i: int| 0 <= i < events.len() && #[trigger] events[i] is GenderChosen) <==> (
            t.phase == Phase::Gender && next.phase == Phase::PlayerIntro)
            &&& (exists|i: int| 0 <= i < events.len() && #[trigger] events[i] is PlayerNamed) <==> (
            t.phase == Phase::ConfirmPlayer && next.phase == Phase::RivalIntro)
            &&& (exists|i: int| 0 <= i < events.len() && #[trigger] events[i] is RivalNamed) <==> (
            t.phase == Phase::ConfirmRival && next.phase == Phase::Outro)
            &&& (exists|i: int| 0 <= i < events.len() && #[trigger] events[i] is ControlConfirmed)
                <==> (t.phase == Phase::CloseStartMenu && next.phase == Phase::Done)
            &&& forall|i: int|
                #![trigger events[i]]
                0 <= i < events.len() ==> {
                    &&& events[i] matches GameEventV::GenderChosen { gender } ==> gender
                        == t.config.gender
                    &&& events[i] matches GameEventV::PlayerNamed { name } ==> name
                        == t.config.player_name@
                    &&& events[i] matches GameEventV::RivalNamed { name } ==> name
                        == t.config.rival_name@
                }
        }),
{
    let (next, events) = t.after(expect, outcome, o);
    if events.len() > 0 {
        assert(events[0] == events[0]);
    }
    if events.len() > 1 {
        assert(events[1] == events[1]);
    }
}

/// A question that was answered is done with: YES to a name, or a row of a menu
/// picked, moves the introduction on as soon as it is confirmed.
pub proof fn an_answer_moves_the_introduction_on(
    t: NewGameTask,
    expect: ExpectationV,
    o: Observation,
)
    requires
        expect is MenuClosed,
        o.naming is None,
    ensures
        t.phase == Phase::Gender || t.phase == Phase::ConfirmPlayer || t.phase
            == Phase::RivalChoice || t.phase == Phase::ConfirmRival || t.phase
            == Phase::CloseStartMenu ==> place(t.after(expect, Outcome::Confirmed, o).0.phase)
            > place(t.phase),
        t.phase == Phase::RivalChoice ==> (t.after(expect, Outcome::Confirmed, o).0.phase
            == Phase::RivalName <==> forall|row: int|
            1 <= row <= 4 ==> t.config.rival_name@ != #[trigger] offered(row)),
{
    assert(offered(1) == "GREEN"@ && offered(2) == "GARY"@ && offered(3) == "KAZ"@ && offered(4)
        == "TORU"@);
}

/// A soft reset holds A, B, Start and Select, and nothing else.
pub proof fn a_soft_reset_holds_four_buttons(t: NewGameTask, c: ContinueTask, o: Observation, b: Button)
    requires
        t.phase == Phase::SoftReset,
        c.phase == ContinuePhase::SoftReset,
        c.attempts == 0,
    ensures
        ({
            let d = t.deciding(o);
            &&& d is Act && d->Act_0.commands.len() == 1 && d->Act_0.commands[0] is Hold
            &&& is_down(d->Act_0.commands[0]->Hold_buttons, b) <==> (b == Button::A || b
                == Button::B || b == Button::Start || b == Button::Select)
            &&& c.deciding(o) == d
        }),
{
}

/// Text is advanced by A exactly where it waits for it, and then expected to
/// change.
pub proof fn text_is_advanced_when_it_waits(t: NewGameTask, o: Observation)
    requires
        t.phase == Phase::Intro || t.phase == Phase::PlayerIntro || t.phase == Phase::RivalIntro
            || t.phase == Phase::Outro,
    ensures
        o.dialogue matches Some(x) && x.ready_for_a ==> button_pressed(t.deciding(o)) == Some(
            Button::A,
        ) && t.deciding(o)->Act_0.expect is TextAdvanced,
        o.dialogue is None || !o.dialogue->0.ready_for_a ==> t.deciding(o) is Wait,
{
}

// ---- Saving and continuing ----

/// Saving: both questions are answered YES; the game counts as saved exactly on
/// the sixtieth quiet frame on the map after an answer; and a Start menu that is
/// still open is closed by B.
pub proof fn a_save_is_answered_and_waited_for(t: SaveGameTask, o: Observation)
    requires
        t.phase == SavePhase::Saving,
        t.attempts == 0,
        t.quiet < u32::MAX,
    ensures
        o.dialogue is Some && o.menu is Some && o.menu->0.rows > 0 ==> picks_row(
            t.deciding(o),
            o.menu->0,
            0,
        ),
        t.deciding(o) is Done <==> o.dialogue is None && o.menu is None && o.player is Some
            && t.answered > 0 && t.quiet + 1 >= 60,
        o.dialogue is None && o.menu is Some && t.answered > 0 ==> button_pressed(t.deciding(o))
            == Some(Button::B),
        o.dialogue is Some ==> t.decided(o).quiet == 0,
        o.dialogue is None && o.menu is None && o.player is Some && t.answered > 0 ==> t.decided(
            o,
        ).quiet == t.quiet + 1,
        t.decided(o).answered == t.answered && t.decided(o).phase == t.phase,
{
}

/// The way to SAVE: up to the first entry, over the top to EXIT at the bottom,
/// two more up past OPTION, and A there. Start opens the menu on the map.
pub proof fn save_is_third_from_the_bottom(t: SaveGameTask, o: Observation)
    requires
        t.phase == SavePhase::OpenMenu,
        t.attempts == 0,
        o.dialogue is None,
    ensures
        o.menu is Some ==> button_pressed(t.deciding(o)) == Some(
            if t.ups_from_bottom >= 3 {
                Button::A
            } else {
                Button::Up
            },
        ),
        o.menu is Some && t.ups_from_bottom == 0 ==> (t.deciding(o)->Act_0.expect
            == ExpectationV::MenuCursorMoved {
            from_y: o.menu->0.cursor_y,
            up: o.menu->0.cursor_y > o.menu->0.window.y + 8,
        }),
        o.menu is Some && 1 <= t.ups_from_bottom <= 2 ==> t.deciding(o)->Act_0.expect
            == (ExpectationV::MenuCursorMoved { from_y: o.menu->0.cursor_y, up: true }),
        o.menu is None && o.player is Some ==> button_pressed(t.deciding(o)) == Some(Button::Start),
        o.menu is None && o.player is None ==> t.deciding(o) is Wait,
{
}

/// Continuing: CONTINUE is the first row; after it B skips what plays until the
/// player stands on the map, and the sixtieth frame there in a row ends it.
pub proof fn a_game_is_continued(c: ContinueTask, o: Observation)
    requires
        c.attempts == 0,
        c.located < u32::MAX,
    ensures
        (c.phase == ContinuePhase::MainMenu || c.phase == ContinuePhase::AwaitTitle) && o.screen
            == ScreenState::MainMenu && o.menu is Some && o.menu->0.rows > 0 ==> picks_row(
            c.deciding(o),
            o.menu->0,
            0,
        ),
        c.phase == ContinuePhase::Resume ==> {
            let there = o.player is Some && o.dialogue is None && o.menu is None;
            &&& !there ==> button_pressed(c.deciding(o)) == Some(Button::B) && c.decided(
                o,
            ).located == 0
            &&& there ==> c.decided(o).located == c.located + 1
            &&& c.deciding(o) is Done <==> there && c.located + 1 >= 60
        },
        c.deciding(o) is Done ==> c.phase == ContinuePhase::Resume,
        c.phase == ContinuePhase::AwaitTitle && o.screen != ScreenState::MainMenu
            ==> button_pressed(c.deciding(o)) == Some(Button::Start),
{
}

// ---- The screen leads ----

/// The introduction follows the screen: the title, what comes after it, the first
/// text, the question with two answers, the keyboard (also where a name was
/// answered with NO), the list of names, and, once the screen changed at its end
/// and stayed quiet for ninety frames, the map.
pub proof fn the_introduction_follows_the_screen(t: NewGameTask, o: Observation)
    ensures
        t.phase == Phase::AwaitTitle && o.screen == ScreenState::TitleScreen ==> t.onward(o)
            == Some(Phase::Title),
        t.phase == Phase::AwaitTitle && (o.screen == ScreenState::InfoPage || o.screen
            == ScreenState::Dialogue || o.screen == ScreenState::Menu || o.screen
            == ScreenState::MainMenu) ==> t.onward(o) == Some(Phase::AfterTitle),
        t.phase == Phase::Title ==> (t.onward(o) == Some(Phase::AfterTitle) <==> o.screen
            != ScreenState::TitleScreen),
        t.phase == Phase::AfterTitle ==> (t.onward(o) == Some(Phase::Intro) <==> o.screen
            == ScreenState::InfoPage || o.screen == ScreenState::Dialogue),
        t.phase == Phase::Intro ==> (t.onward(o) == Some(Phase::Gender) <==> o.dialogue is Some
            && o.menu is Some && o.menu->0.rows == 2),
        t.phase == Phase::PlayerIntro || t.phase == Phase::ConfirmPlayer ==> (t.onward(o) == Some(
            Phase::PlayerName,
        ) <==> o.naming is Some),
        t.phase == Phase::ConfirmRival ==> (t.onward(o) == Some(Phase::RivalName) <==> o.naming
            is Some),
        t.phase == Phase::RivalIntro ==> (t.onward(o) == Some(Phase::RivalChoice) <==> o.menu
            is Some && o.menu->0.rows >= 5),
        t.phase == Phase::Outro ==> (t.onward(o) == Some(Phase::OpenStartMenu)
            <==> t.outro_transition && t.quiet_frames >= 90),
        t.phase == Phase::SoftReset || t.phase == Phase::Gender || t.phase == Phase::PlayerName
            || t.phase == Phase::RivalName || t.phase == Phase::RivalChoice || t.phase
            == Phase::OpenStartMenu || t.phase == Phase::CloseStartMenu || t.phase == Phase::Done
            ==> t.onward(o) is None,
{
}

/// The end of the introduction is quiet where no text, menu or keyboard shows and
/// the screen is none that is known; anything else starts the count afresh. A
/// change of screen is remembered.
pub proof fn the_end_is_watched_for(t: NewGameTask, o: Observation)
    requires
        t.phase == Phase::Outro,
        t.quiet_frames < u32::MAX,
    ensures
        ({
            let next = t.watched(o);
            let quiet = o.dialogue is None && o.menu is None && o.naming is None && o.screen
                == ScreenState::Unknown;
            &&& next.quiet_frames == if quiet {
                t.quiet_frames + 1
            } else {
                0
            }
            &&& next.outro_transition <==> t.outro_transition || o.screen == ScreenState::Transition
            &&& next.phase == t.phase && next.config == t.config
        }),
{
}

/// Start skips the intro and leaves the title; on the map it opens the menu, and
/// B closes it again; and at the end all is done.
pub proof fn the_title_is_left_with_start(t: NewGameTask, o: Observation)
    ensures
        t.phase == Phase::AwaitTitle || t.phase == Phase::Title || t.phase == Phase::OpenStartMenu
            ==> button_pressed(t.deciding(o)) == Some(Button::Start),
        t.phase == Phase::CloseStartMenu ==> button_pressed(t.deciding(o)) == Some(Button::B),
        t.phase == Phase::Done <==> t.deciding(o) is Done,
{
}

// ---- What comes of a step ----

/// What comes of a step toward SAVE: a timeout is counted, and after more than
/// eight of them saving fails; over the top to EXIT, to OPTION and to SAVE the way goes on
/// one by one; and an answer is counted.
pub proof fn what_comes_of_a_save_step(t: SaveGameTask, label: Seq<char>, o: Observation)
    requires
        t.attempts < u32::MAX,
        t.answered < u32::MAX,
    ensures
        t.after(label, Outcome::TimedOut).attempts == t.attempts + 1,
        t.after(label, Outcome::TimedOut).phase == t.phase,
        t.attempts > 8 ==> t.deciding(o) is Fail,
        t.after("wrap to EXIT"@, Outcome::Confirmed).ups_from_bottom == 1,
        t.after("cursor to OPTION"@, Outcome::Confirmed).ups_from_bottom == 2,
        t.after("cursor to SAVE"@, Outcome::Confirmed).ups_from_bottom == 3,
        t.after("choose SAVE"@, Outcome::Confirmed).phase == SavePhase::Saving,
        t.after("answer YES"@, Outcome::Confirmed).answered == t.answered + 1,
        t.after(label, Outcome::Interrupted) == t,
{
    reveal_strlit("answer YES");
    reveal_strlit("wrap to EXIT");
    reveal_strlit("cursor to OPTION");
    reveal_strlit("cursor to SAVE");
    reveal_strlit("choose SAVE");
    assert("wrap to EXIT"@[0] == 'w');
    assert("answer YES"@[0] == 'a');
    assert("cursor to OPTION"@[0] == 'c');
    assert("cursor to SAVE"@[0] == 'c');
    assert("cursor to OPTION"@[1] == 'u');
    assert("cursor to SAVE"@[1] == 'u');
    assert("choose SAVE"@[0] == 'c');
    assert("choose SAVE"@[1] == 'h');
    assert("cursor to OPTION"@.len() != "cursor to SAVE"@.len());
}

/// What comes of a step toward the saved game: a timeout is counted, and after more
/// than twenty of them continuing fails; the reset leads to the title, Start there to the
/// main menu, and CONTINUE to the recap.
pub proof fn what_comes_of_a_continue_step(c: ContinueTask, label: Seq<char>, o: Observation)
    requires
        c.attempts < u32::MAX,
    ensures
        c.after(label, Outcome::TimedOut).attempts == c.attempts + 1,
        c.after(label, Outcome::TimedOut).phase == c.phase,
        c.attempts > 20 ==> c.deciding(o) is Fail,
        c.phase == ContinuePhase::SoftReset ==> c.after(label, Outcome::Confirmed).phase
            == ContinuePhase::AwaitTitle,
        c.phase == ContinuePhase::AwaitTitle ==> c.after(
            "press Start on the title screen"@,
            Outcome::Confirmed,
        ).phase == ContinuePhase::MainMenu,
        c.phase == ContinuePhase::MainMenu ==> c.after(
            "choose CONTINUE"@,
            Outcome::Confirmed,
        ).phase == ContinuePhase::Resume,
        c.phase == ContinuePhase::Resume ==> c.after(label, Outcome::Confirmed) == c,
{
}

/// A name can be typed exactly where it has one to seven letters, all of them
/// capitals from A to Z.
pub proof fn what_can_be_typed(name: Seq<char>, i: int)
    ensures
        typeable(name) ==> 1 <= name.len() <= 7,
        typeable(name) && 0 <= i < name.len() ==> 'A' <= name[i] && name[i] <= 'Z',
        1 <= name.len() <= 7 && (forall|k: int|
            0 <= k < name.len() ==> 'A' <= #[trigger] name[k] && name[k] <= 'Z') ==> typeable(name),
{
}

/// A name is taken once its question is closed and no keyboard shows again; one
/// that was answered with NO goes back to the keyboard, and nobody is named.
pub proof fn a_name_is_taken_once_confirmed(t: NewGameTask, o: Observation)
    requires
        t.phase == Phase::ConfirmPlayer || t.phase == Phase::ConfirmRival,
    ensures
        ({
            let (next, events) = t.after(ExpectationV::MenuClosed, Outcome::Confirmed, o);
            &&& o.naming is Some ==> next == t && events.len() == 0
            &&& o.naming is None && t.phase == Phase::ConfirmPlayer ==> next.phase
                == Phase::RivalIntro && events[0] == (GameEventV::PlayerNamed {
                name: t.config.player_name@,
            })
            &&& o.naming is None && t.phase == Phase::ConfirmRival ==> next.phase == Phase::Outro
                && events[0] == (GameEventV::RivalNamed { name: t.config.rival_name@ })
        }),
{
}

/// A new game is given up with the twelfth failure in one phase, and nothing is
/// told then; before that a frame is decided where the screen has brought the
/// introduction, and every phase that it reached is told.
pub proof fn a_new_game_has_its_patience(t: NewGameTask, o: Observation)
    ensures
        t.attempts >= 12 ==> t.stepped(o).1 is Fail && t.stepped(o).2.len() == 0 && t.stepped(o).0
            == t,
        t.attempts < 12 ==> t.stepped(o).1 == t.caught_up(o).0.deciding(o),
        t.attempts < 12 ==> t.stepped(o).2 == t.caught_up(o).1,
        t.attempts < 12 && t.watched(o).onward(o) is None ==> t.stepped(o).1 == t.watched(
            o,
        ).deciding(o) && t.stepped(o).2.len() == 0,
{
}

/// That the game was saved is told exactly when saving is done.
pub proof fn a_save_is_told_when_done(t: SaveGameTask, o: Observation)
    ensures
        t.deciding(o) is Done <==> t.telling(o) == seq![GameEventV::GameSaved],
        !(t.deciding(o) is Done) ==> t.telling(o).len() == 0,
{
    if !(t.deciding(o) is Done) {
        assert(t.telling(o).len() == 0);
        assert(seq![GameEventV::GameSaved].len() == 1);
    }
}

/// A new game begins with a reset where one is wanted, and else at the title, with
/// nothing behind it.
pub proof fn a_new_game_begins(config: NewGameConfig)
    ensures
        ({
            let t = NewGameTask::fresh(config);
            &&& config.soft_reset ==> t.phase == Phase::SoftReset
            &&& !config.soft_reset ==> t.phase == Phase::AwaitTitle
            &&& t.config == config && t.attempts == 0 && !t.outro_transition
                && !t.confirming_name
        }),
{
}

} // verus!
