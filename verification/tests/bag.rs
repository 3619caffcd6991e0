use pokebot_agent::action::{Action, Expectation};
use pokebot_agent::bag::{fits, pocket_from_title, pocket_index, read_rows, PocketAudit};
use pokebot_agent::event::{GameEvent, Pocket};
use pokebot_agent::executor::Decision;
use pokebot_agent::gamedata::{GameData, ItemData};
use pokebot_agent::input::{Button, ControllerCommand};
use pokebot_agent::observe::{
    BagObservation, MenuObservation, Observation, PlayerPose, Region, ScreenState,
};

fn item(key: &str, name: &str, pocket: &str) -> ItemData {
    ItemData {
        key: key.into(),
        name: name.into(),
        pocket: Some(pocket.into()),
        price: 100,
    }
}

fn data() -> GameData {
    GameData {
        items: vec![
            item("ITEM_POKE_BALL", "POKé BALL", "POCKET_POKE_BALLS"),
            item("ITEM_GREAT_BALL", "GREAT BALL", "POCKET_POKE_BALLS"),
            item("ITEM_DIVE_BALL", "DIVE BALL", "POCKET_POKE_BALLS"),
            item("ITEM_NEST_BALL", "NEST BALL", "POCKET_POKE_BALLS"),
            item("ITEM_POTION", "POTION", "POCKET_ITEMS"),
            item("ITEM_ANTIDOTE", "ANTIDOTE", "POCKET_ITEMS"),
            item("ITEM_PARALYZE_HEAL", "PARLYZ HEAL", "POCKET_ITEMS"),
            item("ITEM_AWAKENING", "AWAKENING", "POCKET_ITEMS"),
            item("ITEM_BURN_HEAL", "BURN HEAL", "POCKET_ITEMS"),
            item("ITEM_ICE_HEAL", "ICE HEAL", "POCKET_ITEMS"),
            item("ITEM_TEACHY_TV", "TEACHY TV", "POCKET_KEY_ITEMS"),
            item("ITEM_TM_CASE", "TM CASE", "POCKET_KEY_ITEMS"),
        ],
        moves: vec![],
        species: vec![],
        marts: vec![],
        balls: vec![],
    }
}

fn rows(list: &[(&str, Option<u16>)]) -> Vec<(String, Option<u16>)> {
    list.iter().map(|(n, c)| ((*n).to_owned(), *c)).collect()
}

#[test]
fn pocket_titles() {
    assert_eq!(pocket_from_title("POKé BALLS"), Some(Pocket::PokeBalls));
    assert_eq!(pocket_from_title("?TEMS"), Some(Pocket::Items));
    assert_eq!(pocket_from_title("KEY ITEMS"), Some(Pocket::KeyItems));
    assert_eq!(pocket_from_title("KEY IT?MS"), Some(Pocket::KeyItems));
    assert_eq!(pocket_from_title("?????"), Some(Pocket::Items));
    assert_eq!(pocket_from_title("BERRIES"), None);
    assert_eq!(pocket_from_title(""), None);
}

#[test]
fn rows_resolve_to_item_constants() {
    let data = data();
    assert_eq!(
        read_rows(&data, &rows(&[("POKé BALL", Some(3)), ("CANCEL", None)])),
        Some(vec![("ITEM_POKE_BALL".to_owned(), 3)])
    );
    assert_eq!(read_rows(&data, &rows(&[("CANCEL", None)])), Some(vec![]));
    assert_eq!(
        read_rows(&data, &rows(&[("TEACHY TV", None), ("CANCEL", None)])),
        Some(vec![("ITEM_TEACHY_TV".to_owned(), 1)])
    );
    // An unknown or ambiguous name, or an item without a count, is not
    // a reading.
    for name in ["QQQ", "???? BALL"] {
        assert_eq!(
            read_rows(&data, &rows(&[(name, Some(3)), ("CANCEL", None)])),
            None,
            "{name}"
        );
    }
    assert_eq!(read_rows(&data, &rows(&[("POKé BALL", None), ("CANCEL", None)])), None);
}

fn overworld(frame: u64) -> Observation {
    let mut o = Observation::bare(frame, ScreenState::Unknown);
    o.player = Some(PlayerPose { map: "PewterCity".into(), x: 17, y: 26 });
    o
}

/// The Start menu as measured on the emulator: window (174,6) 60×108,
/// rows 15 px apart, the ▶ 4 px below its row's top.
fn start_menu(frame: u64, cursor: u32) -> Observation {
    let mut o = Observation::bare(frame, ScreenState::Menu);
    o.menu = Some(MenuObservation {
        window: Region { x: 174, y: 6, width: 60, height: 108 },
        rows: 6,
        cursor_row: cursor.min(5) as u8,
        cursor_y: 10 + 15 * cursor,
    });
    o.menu_lines = ["POKéDEX", "POKéMON", "BAG", "RED", "SAVE", "OPTION", "EXIT"]
        .map(String::from)
        .to_vec();
    o
}

fn bag(frame: u64, pocket: &str, list: &[(&str, Option<u16>)], cursor: u8) -> Observation {
    let mut o = Observation::bare(frame, ScreenState::Bag);
    o.bag = Some(BagObservation {
        pocket: pocket.into(),
        rows: rows(list),
        cursor: Some(cursor),
        prompt: None,
    });
    o
}

fn act(decision: Decision) -> Action {
    match decision {
        Decision::Act(action) => action,
        Decision::Wait(r) => panic!("waited: {r}"),
        Decision::Done(r) => panic!("done: {r}"),
        Decision::Fail(r) => panic!("failed: {r}"),
    }
}

fn pressed(action: &Action) -> Button {
    match action.commands.as_slice() {
        [ControllerCommand::Press(b)] => *b,
        other => panic!("not one press: {other:?}"),
    }
}

#[test]
fn bag_expectations() {
    let balls = bag(1, "POKé BALLS", &[("CANCEL", None)], 0);
    assert!(Expectation::BagPocket(String::new()).met(&balls));
    assert!(Expectation::BagPocket("POKé BALLS".into()).met(&balls));
    // A title read with an unknown glyph is still the same pocket.
    assert!(Expectation::BagPocket("POK? BALLS".into()).met(&balls));
    assert!(!Expectation::BagPocket("KEY ITEMS".into()).met(&balls));
    assert!(Expectation::BagCursorAt(0).met(&balls));
    assert!(!Expectation::BagCursorAt(1).met(&balls));
    assert!(!Expectation::BagClosed.met(&balls));
    assert!(!Expectation::BagClosed.met(&start_menu(2, 2)));
    assert!(Expectation::BagClosed.met(&overworld(3)));
    assert!(!Expectation::BagPocket(String::new()).met(&overworld(3)));
}

#[test]
fn audits_the_poke_balls_pocket() {
    let data = data();
    let mut audit = PocketAudit::new(Pocket::PokeBalls);
    let mut events = Vec::new();
    let balls = [("POKé BALL", Some(5)), ("CANCEL", None)];

    let a = act(audit.next(&overworld(1), &data, &mut events));
    assert_eq!((a.label.as_str(), pressed(&a)), ("open the Start menu", Button::Start));
    assert_eq!(a.expect, Expectation::MenuOpen);

    // ▶ on POKéDEX, BAG is the third row: Down, Down, A.
    let a = act(audit.next(&start_menu(2, 0), &data, &mut events));
    assert_eq!(pressed(&a), Button::Down);
    assert_eq!(a.expect, Expectation::MenuCursorMoved { from_y: 10, up: false });
    let a = act(audit.next(&start_menu(3, 1), &data, &mut events));
    assert_eq!(pressed(&a), Button::Down);
    let a = act(audit.next(&start_menu(4, 2), &data, &mut events));
    assert_eq!((a.label.as_str(), pressed(&a)), ("open the BAG", Button::A));
    assert_eq!(a.expect, Expectation::BagPocket(String::new()));

    // The bag opens on ITEMS: Right toward POKé BALLS, one pocket at a time.
    let a = act(audit.next(&bag(5, "ITEMS", &[("CANCEL", None)], 0), &data, &mut events));
    assert_eq!(pressed(&a), Button::Right);
    assert_eq!(a.expect, Expectation::BagPocket("KEY ITEMS".into()));
    let key = [("TEACHY TV", None), ("TM CASE", None), ("CANCEL", None)];
    let a = act(audit.next(&bag(6, "KEY ITEMS", &key, 0), &data, &mut events));
    assert_eq!(pressed(&a), Button::Right);
    assert_eq!(a.expect, Expectation::BagPocket("POKé BALLS".into()));
    assert!(events.is_empty());

    // CANCEL is visible: the pocket is read, then B closes the bag.
    let a = act(audit.next(&bag(7, "POKé BALLS", &balls, 0), &data, &mut events));
    assert_eq!((a.label.as_str(), pressed(&a)), ("close the bag", Button::B));
    assert_eq!(
        events,
        vec![GameEvent::PocketObserved {
            pocket: Pocket::PokeBalls,
            items: vec![("ITEM_POKE_BALL".into(), 5)],
        }]
    );
    // Back on the Start menu (▶ still on BAG): B closes it.
    let a = act(audit.next(&start_menu(8, 2), &data, &mut events));
    assert_eq!((a.label.as_str(), pressed(&a)), ("close the Start menu", Button::B));
    assert_eq!(a.expect, Expectation::BagClosed);
    assert!(matches!(audit.next(&overworld(9), &data, &mut events), Decision::Done(_)));
    assert_eq!(events.len(), 1, "one PocketObserved");
}

#[test]
fn remembered_pocket_and_row_are_read_from_the_top() {
    let data = data();
    let mut audit = PocketAudit::new(Pocket::Items);
    let mut events = Vec::new();
    // The bag reopens on POKé BALLS with the ▶ on CANCEL (row 1).
    let a = act(audit.next(
        &bag(1, "POKé BALLS", &[("POKé BALL", Some(5)), ("CANCEL", None)], 1),
        &data,
        &mut events,
    ));
    assert_eq!(pressed(&a), Button::Left);
    assert_eq!(a.expect, Expectation::BagPocket("KEY ITEMS".into()));
    let items = [("POTION", Some(1)), ("ANTIDOTE", Some(2)), ("CANCEL", None)];
    let a = act(audit.next(&bag(2, "ITEMS", &items, 2), &data, &mut events));
    assert_eq!(pressed(&a), Button::Up);
    assert_eq!(a.expect, Expectation::BagCursorAt(1));
    let a = act(audit.next(&bag(3, "ITEMS", &items, 1), &data, &mut events));
    assert_eq!(pressed(&a), Button::Up);
    let a = act(audit.next(&bag(4, "ITEMS", &items, 0), &data, &mut events));
    assert_eq!(pressed(&a), Button::B);
    assert_eq!(
        events,
        vec![GameEvent::PocketObserved {
            pocket: Pocket::Items,
            items: vec![("ITEM_POTION".into(), 1), ("ITEM_ANTIDOTE".into(), 2)],
        }]
    );
}

#[test]
fn long_pockets_are_scrolled_and_merged() {
    let data = data();
    let mut audit = PocketAudit::new(Pocket::Items);
    let mut events = Vec::new();
    let top = [
        ("POTION", Some(1)),
        ("ANTIDOTE", Some(2)),
        ("PARLYZ HEAL", Some(3)),
        ("AWAKENING", Some(4)),
        ("BURN HEAL", Some(5)),
        ("ICE HEAL", Some(6)),
    ];
    let a = act(audit.next(&bag(1, "ITEMS", &top, 0), &data, &mut events));
    assert_eq!(pressed(&a), Button::Down);
    assert_eq!(a.expect, Expectation::BagCursorAt(1));
    // The list scrolls under a ▶ that stays put: new rows count as progress.
    let scrolled = [
        ("ANTIDOTE", Some(2)),
        ("PARLYZ HEAL", Some(3)),
        ("AWAKENING", Some(4)),
        ("BURN HEAL", Some(5)),
        ("ICE HEAL", Some(6)),
        ("CANCEL", None),
    ];
    let a = act(audit.next(&bag(2, "ITEMS", &scrolled, 3), &data, &mut events));
    assert_eq!(pressed(&a), Button::B);
    let GameEvent::PocketObserved { items, .. } = &events[0] else {
        panic!("{events:?}")
    };
    let names: Vec<&str> = items.iter().map(|(i, _)| i.as_str()).collect();
    assert_eq!(
        names,
        [
            "ITEM_POTION",
            "ITEM_ANTIDOTE",
            "ITEM_PARALYZE_HEAL",
            "ITEM_AWAKENING",
            "ITEM_BURN_HEAL",
            "ITEM_ICE_HEAL"
        ]
    );
}

#[test]
fn no_progress_fails_after_twelve_retries() {
    let data = data();
    let mut audit = PocketAudit::new(Pocket::PokeBalls);
    let mut events = Vec::new();
    // Start never opens the menu.
    for frame in 0..=12 {
        let a = act(audit.next(&overworld(frame), &data, &mut events));
        assert_eq!(pressed(&a), Button::Start);
    }
    assert!(matches!(audit.next(&overworld(13), &data, &mut events), Decision::Fail(_)));
}

#[test]
fn unreadable_start_menu_is_not_guessed() {
    let data = data();
    let mut audit = PocketAudit::new(Pocket::PokeBalls);
    let mut events = Vec::new();
    // A row missing from the reading shifts the rows: wait, never press.
    let mut o = start_menu(1, 0);
    o.menu_lines.remove(1);
    assert!(matches!(audit.next(&o, &data, &mut events), Decision::Wait(_)));
    let mut o = start_menu(2, 0);
    o.menu_lines[2] = "B?Z".into();
    assert!(matches!(audit.next(&o, &data, &mut events), Decision::Wait(_)));
}

#[test]
fn a_reading_fits_where_its_known_letters_do() {
    assert!(fits("POTION", "P?TION"));
    assert!(!fits("POTION", "POTIONS"));
    assert!(!fits("POTION", "PATION"));
}

#[test]
fn the_cases_are_not_pockets_of_the_bag() {
    assert_eq!(pocket_index(Pocket::Items), Some(0));
    assert_eq!(pocket_index(Pocket::TmCase), None);
    let mut audit = PocketAudit::new(Pocket::TmCase);
    match audit.next(&overworld(1), &data(), &mut Vec::new()) {
        Decision::Fail(r) => assert_eq!(r, "TmCase is not a bag pocket"),
        other => panic!("{other:?}"),
    }
}
