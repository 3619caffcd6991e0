use pokebot_agent::action::{Action, Expectation};
use pokebot_agent::event::GameEvent;
use pokebot_agent::executor::{Decision, Outcome};
use pokebot_agent::input::{Button, ControllerCommand};
use pokebot_agent::observe::{
    DialogueKind, DialogueObservation, MenuObservation, Observation, PlayerPose, Region,
    ScreenState,
};
use pokebot_agent::save::{ContinueTask, SaveGameTask};

fn act(d: Decision) -> Action {
    match d {
        Decision::Act(a) => a,
        other => panic!("{other:?}"),
    }
}

fn pressed(a: &Action) -> Button {
    match a.commands.as_slice() {
        [ControllerCommand::Press(b)] => *b,
        other => panic!("{other:?}"),
    }
}

fn overworld() -> Observation {
    let mut o = Observation::bare(1, ScreenState::Unknown);
    o.player = Some(PlayerPose { map: "Route1".into(), x: 1, y: 1 });
    o
}

fn start_menu(cursor_y: u32) -> Observation {
    let mut o = Observation::bare(1, ScreenState::Menu);
    o.menu = Some(MenuObservation {
        window: Region { x: 174, y: 6, width: 60, height: 108 },
        rows: 6,
        cursor_row: 0,
        cursor_y,
    });
    o
}

fn question() -> Observation {
    let mut o = start_menu(0);
    o.screen = ScreenState::Dialogue;
    o.menu.as_mut().unwrap().rows = 2;
    o.dialogue = Some(text());
    o
}

fn text() -> DialogueObservation {
    DialogueObservation {
        kind: DialogueKind::MessageBox,
        waiting_for_input: true,
        ready_for_a: true,
        text_cells: vec![3],
        lines: vec![],
    }
}

/// SAVE is third from the bottom: from the top entry Up wraps to EXIT.
#[test]
fn a_save_goes_round_to_save_and_settles() {
    let mut t = SaveGameTask::default();
    let mut events = Vec::new();
    assert_eq!(t.name(), "SaveGame");
    let a = act(t.next(&overworld(), &mut events));
    assert_eq!((pressed(&a), &a.expect), (Button::Start, &Expectation::MenuOpen));
    let a = act(t.next(&start_menu(40), &mut events));
    assert_eq!(a.label, "cursor up to the first entry");
    for label in ["wrap to EXIT", "cursor to OPTION", "cursor to SAVE", "choose SAVE"] {
        let a = act(t.next(&start_menu(10), &mut events));
        assert_eq!(a.label, label);
        t.on_outcome(&a, Outcome::Confirmed);
    }
    // "Would you like to save the game?", then "…overwrite it?".
    for _ in 0..2 {
        let a = act(t.next(&question(), &mut events));
        assert_eq!((a.label.as_str(), pressed(&a)), ("answer YES", Button::A));
        t.on_outcome(&a, Outcome::Confirmed);
    }
    let mut saving = Observation::bare(1, ScreenState::Dialogue);
    saving.dialogue = Some(text());
    assert_eq!(act(t.next(&saving, &mut events)).label, "advance text");
    assert_eq!(act(t.next(&start_menu(10), &mut events)).label, "close the Start menu");
    for _ in 0..59 {
        assert!(matches!(t.next(&overworld(), &mut events), Decision::Wait(_)));
        assert!(events.is_empty());
    }
    assert!(matches!(t.next(&overworld(), &mut events), Decision::Done(_)));
    assert_eq!(events, vec![GameEvent::GameSaved]);
}

#[test]
fn a_save_gives_up_after_its_attempts() {
    let mut t = SaveGameTask::default();
    let mut events = Vec::new();
    for _ in 0..9 {
        let a = act(t.next(&overworld(), &mut events));
        t.on_outcome(&a, Outcome::TimedOut);
    }
    assert!(matches!(t.next(&overworld(), &mut events), Decision::Fail(r) if r == "could not save"));
}

#[test]
fn a_saved_game_is_continued() {
    let mut t = ContinueTask::default();
    assert_eq!(t.name(), "ContinueGame");
    let bare = |s| Observation::bare(1, s);
    let a = act(t.next(&bare(ScreenState::Unknown)));
    assert_eq!(a.label, "soft reset (A+B+Start+Select)");
    t.on_outcome(&a, Outcome::Confirmed);
    let a = act(t.next(&bare(ScreenState::Unknown)));
    assert_eq!(a.label, "press Start to skip the intro");
    t.on_outcome(&a, Outcome::Confirmed);
    let a = act(t.next(&bare(ScreenState::TitleScreen)));
    assert_eq!(a.label, "press Start on the title screen");
    t.on_outcome(&a, Outcome::Confirmed);
    let mut main = start_menu(0);
    main.screen = ScreenState::MainMenu;
    let a = act(t.next(&main));
    assert_eq!(a.label, "choose CONTINUE");
    t.on_outcome(&a, Outcome::Confirmed);
    let a = act(t.next(&bare(ScreenState::Dialogue)));
    assert_eq!((a.label.as_str(), pressed(&a)), ("press B to skip the recap", Button::B));
    for _ in 0..59 {
        assert!(matches!(t.next(&overworld()), Decision::Wait(_)));
    }
    assert!(matches!(t.next(&overworld()), Decision::Done(_)));
}

#[test]
fn a_continue_that_is_stuck_fails() {
    let mut t = ContinueTask::default();
    for _ in 0..21 {
        let a = act(t.next(&Observation::bare(1, ScreenState::Unknown)));
        t.on_outcome(&a, Outcome::TimedOut);
    }
    match t.next(&Observation::bare(1, ScreenState::Unknown)) {
        Decision::Fail(r) => assert_eq!(r, "stuck in SoftReset"),
        other => panic!("{other:?}"),
    }
}
