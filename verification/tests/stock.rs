use pokebot_agent::event::Pocket;
use pokebot_agent::gamedata::{BallData, GameData, ItemData};
use pokebot_agent::state::{GameState, Knowledge};
use pokebot_agent::stock::{
    affordable, ball_count, buy_count, must_buy, should_buy, SHINY_RESERVE, TARGET_STOCK,
};

fn ball(key: &str, multiplier: u32) -> BallData {
    BallData { key: key.into(), multiplier }
}

fn item(key: &str, name: &str, pocket: &str, price: u32) -> ItemData {
    ItemData { key: key.into(), name: name.into(), pocket: Some(pocket.into()), price }
}

fn data() -> GameData {
    GameData {
        items: vec![
            item("ITEM_POKE_BALL", "POKé BALL", "POCKET_POKE_BALLS", 200),
            item("ITEM_GREAT_BALL", "GREAT BALL", "POCKET_POKE_BALLS", 600),
            item("ITEM_MASTER_BALL", "MASTER BALL", "POCKET_POKE_BALLS", 0),
            item("ITEM_POTION", "POTION", "POCKET_ITEMS", 300),
        ],
        moves: vec![],
        species: vec![],
        marts: vec![],
        balls: vec![ball("ITEM_POKE_BALL", 10), ball("ITEM_GREAT_BALL", 15)],
    }
}

#[test]
fn buy_count_is_capped_by_money_minus_two_potions() {
    let data = data();
    // (1000 − 2 × 300) / 200 = 2.
    assert_eq!(buy_count(&data, 3, 1000), 2);
}

#[test]
fn buy_count_reaches_the_target() {
    let data = data();
    assert_eq!(buy_count(&data, 3, 99_999), 12);
    assert_eq!(buy_count(&data, TARGET_STOCK, 99_999), 0);
    assert_eq!(buy_count(&data, 20, 99_999), 0);
}

#[test]
fn no_money_buys_nothing() {
    let data = data();
    assert_eq!(buy_count(&data, 3, 500), 0);
    assert_eq!(buy_count(&data, 3, 0), 0);
    // Unknown prices: buy nothing rather than drop the Potion reserve.
    let mut no_potion = data;
    no_potion.items.retain(|i| i.key != "ITEM_POTION");
    assert_eq!(buy_count(&no_potion, 3, 99_999), 0);
    let mut no_ball = self::data();
    no_ball.items.retain(|i| i.key != "ITEM_POKE_BALL");
    assert_eq!(buy_count(&no_ball, 3, 99_999), 0);
}

#[test]
fn ball_count_skips_the_master_ball_and_needs_an_observed_pocket() {
    let data = data();
    assert_eq!(ball_count(&data, &GameState::default()), None);
    let mut state = GameState::default();
    state.saved.pockets.push((
        Pocket::PokeBalls,
        Knowledge::observed(
            vec![
                ("ITEM_POKE_BALL".into(), 4),
                ("ITEM_MASTER_BALL".into(), 1),
                ("ITEM_GREAT_BALL".into(), 2),
            ],
            1,
        ),
    ));
    assert_eq!(ball_count(&data, &state), Some(6));
    // A followed (stale) count is still a known count.
    state.saved.pockets[0].1 = Knowledge::followed(
        vec![
            ("ITEM_POKE_BALL".into(), 3),
            ("ITEM_MASTER_BALL".into(), 1),
            ("ITEM_GREAT_BALL".into(), 2),
        ],
        Some(2),
    );
    assert_eq!(ball_count(&data, &state), Some(5));
}

#[test]
fn buying_rules() {
    assert!(must_buy(Some(4)));
    assert!(!must_buy(Some(SHINY_RESERVE)));
    assert!(!must_buy(None));
    assert!(should_buy(None));
    assert!(should_buy(Some(14)));
    assert!(!should_buy(Some(15)));
}

#[test]
fn money_for_two_potions_is_kept() {
    let data = data();
    assert_eq!(affordable(&data, "ITEM_GREAT_BALL", 600 + 1199), 1);
    assert_eq!(affordable(&data, "ITEM_GREAT_BALL", 600 + 1200), 2);
    assert_eq!(affordable(&data, "ITEM_UNKNOWN", 99_999), 0);
}
