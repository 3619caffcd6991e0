use pokebot_agent::action::{Action, Expectation};
use pokebot_agent::event::GameEvent;
use pokebot_agent::executor::{Decision, Outcome};
use pokebot_agent::input::{Button, ControllerCommand};
use pokebot_agent::new_game::{NewGameConfig, NewGameTask, Phase, RIVAL_PRESETS};
use pokebot_agent::observe::{
    DialogueKind, DialogueObservation, Gender, KeyboardFocus, MenuObservation, NamingObservation,
    Observation, Region, ScreenState,
};

fn task(rival: &str) -> NewGameTask {
    NewGameTask::new(NewGameConfig { rival_name: rival.into(), ..NewGameConfig::default() })
        .unwrap()
}

fn act(d: Decision) -> Action {
    match d {
        Decision::Act(a) => a,
        other => panic!("{other:?}"),
    }
}

fn pressed(a: &Action) -> Button {
    match a.commands.as_slice() {
        [ControllerCommand::Press(b)] => *b,
        other => panic!("{other:?}"),
    }
}

fn screen(s: ScreenState) -> Observation {
    Observation::bare(1, s)
}

fn menu(rows: u8, cursor_row: u8) -> Observation {
    let mut o = screen(ScreenState::Menu);
    o.menu = Some(MenuObservation {
        window: Region { x: 0, y: 0, width: 10, height: 10 },
        rows,
        cursor_row,
        cursor_y: 0,
    });
    o.dialogue = Some(DialogueObservation {
        kind: DialogueKind::MessageBox,
        waiting_for_input: false,
        ready_for_a: false,
        text_cells: vec![],
        lines: vec![],
    });
    o
}

fn naming(focus: KeyboardFocus, typed: u8) -> Observation {
    let mut o = screen(ScreenState::Naming);
    o.naming = Some(NamingObservation { focus, typed });
    o
}

fn phases(events: &[GameEvent]) -> Vec<&str> {
    events
        .iter()
        .filter_map(|e| match e {
            GameEvent::GoalProgress { phase, .. } => Some(phase.as_str()),
            _ => None,
        })
        .collect()
}

#[test]
fn a_new_game_is_played_through_the_menus() {
    let mut t = task("GARY");
    let mut events = Vec::new();
    let a = act(t.next(&screen(ScreenState::Unknown), &mut events));
    assert_eq!(a.label, "soft reset (A+B+Start+Select)");
    t.on_outcome(&a, Outcome::Confirmed, &screen(ScreenState::Unknown), &mut events);
    assert_eq!(t.phase, Phase::AwaitTitle);
    // The title, past which one frame may lead several phases on.
    let a = act(t.next(&screen(ScreenState::TitleScreen), &mut events));
    assert_eq!(pressed(&a), Button::Start);
    t.on_outcome(&a, Outcome::Confirmed, &screen(ScreenState::InfoPage), &mut events);
    t.next(&menu(2, 0), &mut events);
    t.next(&screen(ScreenState::InfoPage), &mut events);
    let a = act(t.next(&menu(2, 0), &mut events));
    assert_eq!(t.phase, Phase::Gender);
    assert_eq!(a.expect, Expectation::MenuClosed);
    t.on_outcome(&a, Outcome::Confirmed, &screen(ScreenState::Unknown), &mut events);
    assert!(events.contains(&GameEvent::GenderChosen { gender: Gender::Boy }));
    // The keyboard: R is at (5, 2), typed letter by letter.
    let a = act(t.next(&naming(KeyboardFocus::Key { column: 0, row: 0 }, 0), &mut events));
    assert_eq!(a.label, "move cursor to R (7 taps)");
    let a = act(t.next(&naming(KeyboardFocus::Key { column: 5, row: 2 }, 0), &mut events));
    assert_eq!((a.label.as_str(), a.expect), ("type R", Expectation::TypedCount(1)));
    let a = act(t.next(&naming(KeyboardFocus::Buttons, 1), &mut events));
    assert_eq!(pressed(&a), Button::Right);
    let a = act(t.next(&naming(KeyboardFocus::Key { column: 0, row: 0 }, 4), &mut events));
    assert_eq!((a.label.as_str(), pressed(&a)), ("delete a character", Button::B));
    let a = act(t.next(&naming(KeyboardFocus::Key { column: 0, row: 0 }, 3), &mut events));
    assert_eq!(pressed(&a), Button::Start);
    t.on_outcome(&a, Outcome::Confirmed, &naming(KeyboardFocus::Buttons, 3), &mut events);
    let a = act(t.next(&naming(KeyboardFocus::Buttons, 3), &mut events));
    assert_eq!(a.label, "confirm name RED");
    t.on_outcome(&a, Outcome::Confirmed, &screen(ScreenState::Unknown), &mut events);
    assert_eq!(t.phase, Phase::ConfirmPlayer);
    let a = act(t.next(&menu(2, 0), &mut events));
    t.on_outcome(&a, Outcome::Confirmed, &screen(ScreenState::Unknown), &mut events);
    assert!(events.contains(&GameEvent::PlayerNamed { name: "RED".into() }));
    // GARY is on the list of names.
    let a = act(t.next(&menu(5, 0), &mut events));
    assert_eq!(t.phase, Phase::RivalChoice);
    assert_eq!(a.expect, Expectation::MenuCursorAt(1));
    let a = act(t.next(&menu(5, 2), &mut events));
    t.on_outcome(&a, Outcome::Confirmed, &screen(ScreenState::Unknown), &mut events);
    assert_eq!(t.phase, Phase::ConfirmRival);
    let a = act(t.next(&menu(2, 0), &mut events));
    t.on_outcome(&a, Outcome::Confirmed, &screen(ScreenState::Unknown), &mut events);
    assert!(events.contains(&GameEvent::RivalNamed { name: "GARY".into() }));
    assert_eq!(t.phase, Phase::Outro);
    // The fade, then a quiet spell; control is proved with the Start menu.
    t.next(&screen(ScreenState::Transition), &mut events);
    for _ in 0..89 {
        assert!(!matches!(t.next(&screen(ScreenState::Unknown), &mut events), Decision::Done(_)));
    }
    let a = act(t.next(&screen(ScreenState::Unknown), &mut events));
    assert_eq!(t.phase, Phase::OpenStartMenu);
    assert_eq!((pressed(&a), &a.expect), (Button::Start, &Expectation::MenuOpen));
    t.on_outcome(&a, Outcome::Confirmed, &menu(5, 0), &mut events);
    let a = act(t.next(&menu(5, 0), &mut events));
    t.on_outcome(&a, Outcome::Confirmed, &screen(ScreenState::Unknown), &mut events);
    assert!(events.contains(&GameEvent::ControlConfirmed));
    match t.next(&screen(ScreenState::Unknown), &mut events) {
        Decision::Done(r) => assert_eq!(r, "RED (Boy) is in control; rival is GARY"),
        other => panic!("{other:?}"),
    }
    assert_eq!(phases(&events).last(), Some(&"Done"));
}

#[test]
fn a_phase_that_keeps_timing_out_fails() {
    let mut t = task("GREEN");
    let mut events = Vec::new();
    t.phase = Phase::Gender;
    for _ in 0..12 {
        let a = act(t.next(&menu(2, 0), &mut events));
        t.on_outcome(&a, Outcome::TimedOut, &menu(2, 0), &mut events);
    }
    match t.next(&menu(2, 0), &mut events) {
        Decision::Fail(r) => assert_eq!(r, "choosing gender failed 12 times"),
        other => panic!("{other:?}"),
    }
}

#[test]
fn names_that_cannot_be_typed_are_refused() {
    let config = |player: &str, rival: &str| NewGameConfig {
        player_name: player.into(),
        rival_name: rival.into(),
        ..NewGameConfig::default()
    };
    assert!(NewGameTask::new(config("RED", "GREEN")).is_ok());
    assert!(NewGameTask::new(config("Red", "GREEN")).is_err());
    assert!(NewGameTask::new(config("RED", "")).is_err());
    assert_eq!(RIVAL_PRESETS, ["GREEN", "GARY", "KAZ", "TORU"]);
}

#[test]
fn an_unlisted_rival_is_typed() {
    let mut t = task("BLUE");
    let mut events = Vec::new();
    t.phase = Phase::RivalChoice;
    let a = act(t.next(&menu(5, 0), &mut events));
    t.on_outcome(&a, Outcome::Confirmed, &screen(ScreenState::Unknown), &mut events);
    assert_eq!(t.phase, Phase::RivalName);
}
