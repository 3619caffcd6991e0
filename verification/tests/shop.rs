use pokebot_agent::action::{Action, Expectation};
use pokebot_agent::event::{GameEvent, Pocket};
use pokebot_agent::executor::Decision;
use pokebot_agent::gamedata::{BallData, GameData, ItemData};
use pokebot_agent::input::{Button, ControllerCommand};
use pokebot_agent::observe::{
    DialogueKind, DialogueObservation, MenuObservation, Observation, PlayerPose, Region,
    ScreenState, ShopObservation,
};
use pokebot_agent::shop::{is_mart_menu, number_after, Purchase};

fn ball(key: &str, multiplier: u32) -> BallData {
    BallData { key: key.into(), multiplier }
}

fn item(key: &str, name: &str, pocket: &str, price: u32) -> ItemData {
    ItemData { key: key.into(), name: name.into(), pocket: Some(pocket.into()), price }
}

fn data() -> GameData {
    GameData {
        items: vec![
            item("ITEM_POKE_BALL", "POKé BALL", "POCKET_POKE_BALLS", 200),
            item("ITEM_POTION", "POTION", "POCKET_ITEMS", 300),
            item("ITEM_ANTIDOTE", "ANTIDOTE", "POCKET_ITEMS", 100),
            item("ITEM_PARALYZE_HEAL", "PARLYZ HEAL", "POCKET_ITEMS", 200),
            item("ITEM_AWAKENING", "AWAKENING", "POCKET_ITEMS", 250),
            item("ITEM_BURN_HEAL", "BURN HEAL", "POCKET_ITEMS", 250),
        ],
        moves: vec![],
        species: vec![],
        marts: vec![],
        balls: vec![ball("ITEM_POKE_BALL", 10)],
    }
}

fn dialogue(lines: &[&str], waiting: bool) -> DialogueObservation {
    DialogueObservation {
        kind: DialogueKind::MessageBox,
        waiting_for_input: waiting,
        ready_for_a: true,
        text_cells: lines.iter().map(|l| l.len() as u8).collect(),
        lines: lines.iter().map(|l| (*l).to_owned()).collect(),
    }
}

/// "Hi, there! / May I help you?" (or "Is there anything else…") with
/// the BUY / SELL / SEE YA! menu, ▶ on `cursor`.
fn mart_menu(frame: u64, cursor: u8) -> Observation {
    let mut o = Observation::bare(frame, ScreenState::Dialogue);
    o.dialogue = Some(dialogue(&["Hi, there!", "May I help you?"], false));
    o.menu = Some(MenuObservation {
        window: Region { x: 14, y: 6, width: 100, height: 52 },
        rows: 3,
        cursor_row: cursor,
        cursor_y: 12 + 16 * u32::from(cursor),
    });
    o.menu_lines = ["BUY", "SELL", "SEE YA!"].map(String::from).to_vec();
    o
}

const PEWTER: [(&str, Option<u32>); 6] = [
    ("POKé BALL", Some(200)),
    ("POTION", Some(300)),
    ("ANTIDOTE", Some(100)),
    ("PARLYZ HEAL", Some(200)),
    ("AWAKENING", Some(250)),
    ("BURN HEAL", Some(250)),
];

fn shop(frame: u64, shop: ShopObservation) -> Observation {
    let mut o = Observation::bare(frame, ScreenState::Shop);
    o.shop = Some(shop);
    o
}

fn list(frame: u64, money: u32, cursor: u8) -> Observation {
    shop(
        frame,
        ShopObservation {
            money: Some(money),
            items: PEWTER.iter().map(|(n, p)| ((*n).to_owned(), *p)).collect(),
            cursor: Some(cursor),
            quantity: None,
        },
    )
}

fn quantity(frame: u64, money: u32, count: u16) -> Observation {
    shop(
        frame,
        ShopObservation {
            money: Some(money),
            items: PEWTER.iter().map(|(n, p)| ((*n).to_owned(), *p)).collect(),
            cursor: None,
            quantity: Some((count, 200 * u32::from(count))),
        },
    )
}

/// "POKé BALL, and you want N. / That will be ¥T. Okay?" with YES/NO.
fn confirm(frame: u64, count: u16, total: u32) -> Observation {
    let mut o = Observation::bare(frame, ScreenState::Dialogue);
    let want = format!("POKé BALL, and you want {count}.");
    let price = format!("That will be ¥{total}. Okay?");
    o.dialogue = Some(dialogue(&[&want, &price], false));
    o.menu = Some(MenuObservation {
        window: Region { x: 166, y: 70, width: 52, height: 36 },
        rows: 2,
        cursor_row: 0,
        cursor_y: 76,
    });
    o.menu_lines = ["YES", "NO"].map(String::from).to_vec();
    o
}

fn text(frame: u64, lines: &[&str]) -> Observation {
    let mut o = Observation::bare(frame, ScreenState::Dialogue);
    o.dialogue = Some(dialogue(lines, true));
    o
}

fn overworld(frame: u64) -> Observation {
    let mut o = Observation::bare(frame, ScreenState::Unknown);
    o.player = Some(PlayerPose { map: "PewterCity_Mart".into(), x: 4, y: 3 });
    o
}

fn act(decision: Decision) -> Action {
    match decision {
        Decision::Act(action) => action,
        Decision::Wait(r) => panic!("waited: {r}"),
        Decision::Done(r) => panic!("done: {r}"),
        Decision::Fail(r) => panic!("failed: {r}"),
    }
}

fn pressed(action: &Action) -> Button {
    match action.commands.as_slice() {
        [ControllerCommand::Press(b)] => *b,
        other => panic!("not one press: {other:?}"),
    }
}

/// Numbers count only once a later frame reads the same: the first
/// frame waits, the second (`frame + 1`) decides.
fn twice(
    p: &mut Purchase,
    o: Observation,
    data: &GameData,
    events: &mut Vec<GameEvent>,
) -> Decision {
    let first = p.next(&o, data, events);
    assert!(matches!(first, Decision::Wait(_)), "first frame acted");
    let mut again = o;
    again.frame_id += 1;
    p.next(&again, data, events)
}

fn leave(p: &mut Purchase, data: &GameData, events: &mut Vec<GameEvent>, frame: u64) {
    // "Is there anything else I can do?": B is SEE YA!.
    let a = act(p.next(&mart_menu(frame, 0), data, events));
    assert_eq!(pressed(&a), Button::B);
    let a = act(p.next(&text(frame + 1, &["Please come again!"]), data, events));
    assert_eq!(pressed(&a), Button::A);
    assert_eq!(a.expect, Expectation::ShopClosed);
    assert!(matches!(
        p.next(&overworld(frame + 2), data, events),
        Decision::Done(_)
    ));
}

#[test]
fn shop_expectations() {
    assert!(Expectation::ShopCursorAt(0).met(&list(1, 3000, 0)));
    assert!(!Expectation::ShopCursorAt(1).met(&list(1, 3000, 0)));
    assert!(Expectation::ShopQuantity(3).met(&quantity(1, 3000, 3)));
    assert!(!Expectation::ShopQuantity(2).met(&quantity(1, 3000, 3)));
    assert!(!Expectation::ShopQuantity(1).met(&list(1, 3000, 0)));
    assert!(Expectation::ShopClosed.met(&overworld(1)));
    assert!(!Expectation::ShopClosed.met(&list(1, 3000, 0)));
    assert!(!Expectation::ShopClosed.met(&text(1, &["Please come again!"])));
    assert!(!Expectation::ShopClosed.met(&mart_menu(1, 0)));
}

#[test]
fn buys_three_poke_balls() {
    let data = data();
    let mut p = Purchase::new("ITEM_POKE_BALL", 3);
    let mut events = Vec::new();

    let a = act(p.next(&mart_menu(1, 0), &data, &mut events));
    assert_eq!(pressed(&a), Button::A);
    assert_eq!(a.expect, Expectation::MenuClosed);

    // The list: money read on two frames, then A on POKé BALL.
    let a = act(twice(&mut p, list(2, 3000, 0), &data, &mut events));
    assert_eq!(pressed(&a), Button::A);
    assert_eq!(a.expect, Expectation::ShopQuantity(1));
    assert_eq!(events, vec![GameEvent::MoneyObserved { amount: 3000 }]);

    // ×01 → Up → ×02 → Up → ×03 → A.
    let a = act(twice(&mut p, quantity(4, 3000, 1), &data, &mut events));
    assert_eq!(pressed(&a), Button::Up);
    assert_eq!(a.expect, Expectation::ShopQuantity(2));
    let a = act(twice(&mut p, quantity(6, 3000, 2), &data, &mut events));
    assert_eq!(pressed(&a), Button::Up);
    assert_eq!(a.expect, Expectation::ShopQuantity(3));
    let a = act(twice(&mut p, quantity(8, 3000, 3), &data, &mut events));
    assert_eq!(pressed(&a), Button::A);
    assert_eq!(a.expect, Expectation::Question);

    // "…you want 3. That will be ¥600. Okay?" → YES.
    let a = act(twice(&mut p, confirm(10, 3, 600), &data, &mut events));
    assert_eq!((a.label.as_str(), pressed(&a)), ("mart: YES", Button::A));
    let a = act(p.next(
        &text(12, &["Here you are!", "Thank you!"]),
        &data,
        &mut events,
    ));
    assert_eq!(pressed(&a), Button::A);

    // Back on the list: ¥2400 = ¥3000 − ¥600 confirms the purchase.
    let a = act(twice(&mut p, list(13, 2400, 0), &data, &mut events));
    assert_eq!(pressed(&a), Button::B);
    assert_eq!(a.expect, Expectation::ScreenIsNot(ScreenState::Shop));
    assert_eq!(
        events,
        vec![
            GameEvent::MoneyObserved { amount: 3000 },
            GameEvent::ItemsChanged {
                pocket: Pocket::PokeBalls,
                item: "ITEM_POKE_BALL".into(),
                delta: 3,
                reason: "bought".into(),
            },
            GameEvent::MoneyChanged {
                delta: -600,
                reason: "bought".into(),
            },
        ]
    );
    leave(&mut p, &data, &mut events, 20);
    assert_eq!(events.len(), 3);
}

/// A settled farewell whose text isn't read is advanced without a ▼ arrow.
#[test]
fn an_unread_settled_farewell_is_advanced() {
    let data = data();
    let mut p = Purchase::new("ITEM_POKE_BALL", 0).with_stock(Some(3));
    let mut events = Vec::new();
    act(p.next(&mart_menu(1, 0), &data, &mut events));
    act(twice(&mut p, list(2, 700, 0), &data, &mut events));
    let a = act(p.next(&mart_menu(10, 0), &data, &mut events));
    assert_eq!(pressed(&a), Button::B);
    let mut farewell = text(11, &[]);
    farewell.dialogue.as_mut().unwrap().waiting_for_input = false;
    let a = act(p.next(&farewell, &data, &mut events));
    assert_eq!(pressed(&a), Button::A);
    assert_eq!(a.expect, Expectation::ShopClosed);
}

#[test]
fn zero_count_decides_on_the_list_and_may_buy_nothing() {
    let data = data();
    let mut p = Purchase::new("ITEM_POKE_BALL", 0).with_stock(Some(3));
    let mut events = Vec::new();
    act(p.next(&mart_menu(1, 0), &data, &mut events));
    // ¥700 − 2 Potions (¥600) leaves ¥100 < ¥200: nothing to buy.
    let a = act(twice(&mut p, list(2, 700, 0), &data, &mut events));
    assert_eq!(pressed(&a), Button::B);
    assert_eq!(events[0], GameEvent::MoneyObserved { amount: 700 });
    assert!(
        matches!(&events[1], GameEvent::GoalProgress { detail, .. } if detail.contains("0"))
    );
    leave(&mut p, &data, &mut events, 10);
    assert!(!events.iter().any(|e| matches!(
        e,
        GameEvent::ItemsChanged { .. } | GameEvent::MoneyChanged { .. }
    )));
}

#[test]
fn zero_count_buys_up_to_the_target() {
    let data = data();
    // 3 held, ¥3000: (3000 − 600) / 200 = 12 = 15 − 3.
    let mut p = Purchase::new("ITEM_POKE_BALL", 0).with_stock(Some(3));
    let mut events = Vec::new();
    act(p.next(&mart_menu(1, 0), &data, &mut events));
    act(twice(&mut p, list(2, 3000, 0), &data, &mut events));
    let a = act(twice(&mut p, quantity(4, 3000, 11), &data, &mut events));
    assert_eq!(a.expect, Expectation::ShopQuantity(12));
    let a = act(twice(&mut p, quantity(6, 3000, 12), &data, &mut events));
    assert_eq!(a.expect, Expectation::Question);
}

/// An explicit count never spends the 2-Potion reserve.
#[test]
fn an_explicit_count_keeps_the_potion_money() {
    let data = data();
    // ¥1000 − 2 Potions (¥600) = ¥400: 2 of the 3 asked for.
    let mut p = Purchase::new("ITEM_POKE_BALL", 3);
    let mut events = Vec::new();
    act(p.next(&mart_menu(1, 0), &data, &mut events));
    let a = act(twice(&mut p, list(2, 1000, 0), &data, &mut events));
    assert_eq!(a.expect, Expectation::ShopQuantity(1));
    assert!(events.iter().any(|e| matches!(
        e,
        GameEvent::GoalProgress { detail, .. } if detail.contains("buys only 2 of 3")
    )));
    let a = act(twice(&mut p, quantity(4, 1000, 1), &data, &mut events));
    assert_eq!(a.expect, Expectation::ShopQuantity(2));
    let a = act(twice(&mut p, quantity(6, 1000, 2), &data, &mut events));
    assert_eq!(a.expect, Expectation::Question);
}

#[test]
fn a_misread_quantity_is_never_confirmed() {
    let data = data();
    let mut p = Purchase::new("ITEM_POKE_BALL", 3);
    let mut events = Vec::new();
    act(p.next(&mart_menu(1, 0), &data, &mut events));
    act(twice(&mut p, list(2, 3000, 0), &data, &mut events));
    // ×03 on one frame, ×08 on the next: no A until two frames agree.
    assert!(matches!(
        p.next(&quantity(4, 3000, 3), &data, &mut events),
        Decision::Wait(_)
    ));
    assert!(matches!(
        p.next(&quantity(5, 3000, 8), &data, &mut events),
        Decision::Wait(_)
    ));
    let a = act(p.next(&quantity(6, 3000, 8), &data, &mut events));
    // An overshoot (or a wrap past the maximum) goes back down.
    assert_eq!(pressed(&a), Button::Down);
    assert_eq!(a.expect, Expectation::ShopQuantity(7));
}

#[test]
fn a_wrapped_quantity_is_corrected_with_down() {
    let data = data();
    let mut p = Purchase::new("ITEM_POKE_BALL", 3);
    let mut events = Vec::new();
    act(p.next(&mart_menu(1, 0), &data, &mut events));
    act(twice(&mut p, list(2, 3000, 0), &data, &mut events));
    act(twice(&mut p, quantity(4, 3000, 1), &data, &mut events));
    act(twice(&mut p, quantity(6, 3000, 2), &data, &mut events));
    // Up from ×02 wrapped to ×01: ×02 is the most the box allows.
    let a = act(twice(&mut p, quantity(8, 3000, 1), &data, &mut events));
    assert_eq!(pressed(&a), Button::Down);
    assert_eq!(a.expect, Expectation::ShopQuantity(2));
    let a = act(twice(&mut p, quantity(10, 3000, 2), &data, &mut events));
    assert_eq!(a.expect, Expectation::Question);
}

#[test]
fn a_price_that_disagrees_is_answered_no() {
    let data = data();
    let mut p = Purchase::new("ITEM_POKE_BALL", 3);
    let mut events = Vec::new();
    act(p.next(&mart_menu(1, 0), &data, &mut events));
    act(twice(&mut p, list(2, 3000, 0), &data, &mut events));
    act(twice(&mut p, quantity(4, 3000, 1), &data, &mut events));
    act(twice(&mut p, quantity(6, 3000, 2), &data, &mut events));
    act(twice(&mut p, quantity(8, 3000, 3), &data, &mut events));
    let a = act(twice(&mut p, confirm(10, 8, 1600), &data, &mut events));
    assert_eq!((a.label.as_str(), pressed(&a)), ("mart: NO", Button::B));
}

#[test]
fn a_money_mismatch_is_observed_not_tracked() {
    let data = data();
    let mut p = Purchase::new("ITEM_POKE_BALL", 1);
    let mut events = Vec::new();
    act(p.next(&mart_menu(1, 0), &data, &mut events));
    act(twice(&mut p, list(2, 3000, 0), &data, &mut events));
    act(twice(&mut p, quantity(4, 3000, 1), &data, &mut events));
    act(twice(&mut p, confirm(6, 1, 200), &data, &mut events));
    act(p.next(
        &text(8, &["Here you are!", "Thank you!"]),
        &data,
        &mut events,
    ));
    act(twice(&mut p, list(9, 2700, 0), &data, &mut events));
    // Money went down (the purchase went through), but not by ¥200.
    assert!(matches!(
        &events[1],
        GameEvent::ItemsChanged { delta: 1, .. }
    ));
    assert_eq!(events[2], GameEvent::MoneyObserved { amount: 2700 });
    assert!(matches!(&events[3], GameEvent::GoalProgress { .. }));
    assert!(!events
        .iter()
        .any(|e| matches!(e, GameEvent::MoneyChanged { .. })));
}

#[test]
fn an_overworld_frame_before_see_ya_does_not_finish() {
    let data = data();
    let mut p = Purchase::new("ITEM_POKE_BALL", 0).with_stock(Some(3));
    let mut events = Vec::new();
    act(p.next(&mart_menu(1, 0), &data, &mut events));
    let a = act(twice(&mut p, list(2, 700, 0), &data, &mut events));
    assert_eq!(pressed(&a), Button::B);
    // A dropped frame between the list and "Is there anything else…".
    assert!(matches!(
        p.next(&overworld(4), &data, &mut events),
        Decision::Wait(_)
    ));
    leave(&mut p, &data, &mut events, 5);
}

#[test]
fn here_you_are_proves_the_purchase_when_the_money_lags() {
    let data = data();
    let mut p = Purchase::new("ITEM_POKE_BALL", 3);
    let mut events = Vec::new();
    act(p.next(&mart_menu(1, 0), &data, &mut events));
    act(twice(&mut p, list(2, 3000, 0), &data, &mut events));
    act(twice(&mut p, quantity(4, 3000, 1), &data, &mut events));
    act(twice(&mut p, quantity(6, 3000, 2), &data, &mut events));
    act(twice(&mut p, quantity(8, 3000, 3), &data, &mut events));
    act(twice(&mut p, confirm(10, 3, 600), &data, &mut events));
    act(p.next(
        &text(12, &["Here you are!", "Thank you!"]),
        &data,
        &mut events,
    ));
    // The MONEY window still reads the old amount on two frames.
    act(twice(&mut p, list(13, 3000, 0), &data, &mut events));
    assert_eq!(
        events[1],
        GameEvent::ItemsChanged {
            pocket: Pocket::PokeBalls,
            item: "ITEM_POKE_BALL".into(),
            delta: 3,
            reason: "bought".into(),
        }
    );
    assert_eq!(events[2], GameEvent::MoneyObserved { amount: 3000 });
    assert!(matches!(&events[3], GameEvent::GoalProgress { .. }));
    assert_eq!(events.len(), 4);
}

#[test]
fn no_here_you_are_and_unchanged_money_is_no_purchase() {
    let data = data();
    let mut p = Purchase::new("ITEM_POKE_BALL", 1);
    let mut events = Vec::new();
    act(p.next(&mart_menu(1, 0), &data, &mut events));
    act(twice(&mut p, list(2, 3000, 0), &data, &mut events));
    act(twice(&mut p, quantity(4, 3000, 1), &data, &mut events));
    act(twice(&mut p, confirm(6, 1, 200), &data, &mut events));
    act(twice(&mut p, list(8, 3000, 0), &data, &mut events));
    assert!(!events
        .iter()
        .any(|e| matches!(e, GameEvent::ItemsChanged { .. })));
}

#[test]
fn flicker_on_other_rows_is_not_a_misread() {
    let data = data();
    let mut p = Purchase::new("ITEM_POKE_BALL", 1);
    let mut events = Vec::new();
    act(p.next(&mart_menu(1, 0), &data, &mut events));
    assert!(matches!(
        p.next(&list(2, 3000, 0), &data, &mut events),
        Decision::Wait(_)
    ));
    // BURN HEAL reads differently on the next frame: the money, ▶ and
    // POKé BALL's row still agree, so A goes out.
    let mut flicker = list(3, 3000, 0);
    flicker.shop.as_mut().unwrap().items[5] = ("BURN H??L".into(), Some(25));
    let a = act(p.next(&flicker, &data, &mut events));
    assert_eq!(a.expect, Expectation::ShopQuantity(1));
    assert_eq!(p.total_retries, 0);
}

#[test]
fn question_pages_are_never_pressed_through() {
    let data = data();
    let mut p = Purchase::new("ITEM_POKE_BALL", 3);
    let mut events = Vec::new();
    // A on these would confirm ×01 or YES before they were checked.
    for (frame, lines) in [
        (1, ["POKé BALL? Certainly.", "How many would you like?"]),
        (
            2,
            ["POKé BALL, and you want 3.", "That will be ¥600. Okay?"],
        ),
    ] {
        assert!(matches!(
            p.next(&text(frame, &lines), &data, &mut events),
            Decision::Wait(_)
        ));
    }
}

#[test]
fn the_item_is_found_by_its_name() {
    let data = data();
    let mut p = Purchase::new("ITEM_POTION", 1);
    let mut events = Vec::new();
    act(p.next(&mart_menu(1, 0), &data, &mut events));
    let a = act(twice(&mut p, list(2, 3000, 0), &data, &mut events));
    assert_eq!(pressed(&a), Button::Down);
    assert_eq!(a.expect, Expectation::ShopCursorAt(1));
    let a = act(twice(&mut p, list(4, 3000, 1), &data, &mut events));
    assert_eq!(pressed(&a), Button::A);
}

#[test]
fn the_mart_menu_is_known_by_its_rows() {
    assert!(is_mart_menu(&mart_menu(1, 0)));
    assert!(!is_mart_menu(&overworld(1)));
}

#[test]
fn numbers_are_read_behind_their_marker() {
    assert_eq!(number_after("That will be ¥1,600. Okay?", "¥"), Some(1600));
    assert_eq!(number_after("and you want 12.", "you want "), Some(12));
    assert_eq!(number_after("and you want some.", "you want "), None);
}
