//! How many Poké Balls to keep and buy.
//!
//! A reserve of [`SHINY_RESERVE`] balls is kept that only a shiny may use, the
//! stock is brought toward [`TARGET_STOCK`] whenever it can be, and the money
//! needed for [`POTIONS_KEPT`] Potions is never spent. An unknown pocket gives
//! a `None` count: the caller audits before relying on it.

use vstd::prelude::*;

use crate::event::{items_of, Pocket};
use crate::gamedata::{find_key, row_of, GameData};
use crate::state::GameState;

verus! {

/// Balls only a shiny may use.
pub const SHINY_RESERVE: u16 = 5;

/// Stock a mart visit restocks to.
pub const TARGET_STOCK: u16 = 15;

/// Potions whose price is never spent on balls.
pub const POTIONS_KEPT: u32 = 2;

/// Ten times the catch multiplier of a ball; `None` for what is not thrown
/// (the Master Ball, or no ball at all).
pub open spec fn multiplier(data: GameData, item: Seq<char>) -> Option<u32> {
    match row_of(data.balls@, item) {
        Some(i) => Some(data.balls@[i].multiplier),
        None => None,
    }
}

pub(crate) fn ball_multiplier(data: &GameData, item: &str) -> (r: Option<u32>)
    ensures
        r == multiplier(*data, item@),
{
    match find_key(&data.balls, item) {
        Some(i) => Some(data.balls[i].multiplier),
        None => None,
    }
}

/// How many balls that may be thrown a list holds.
pub open spec fn balls_in(data: GameData, items: Seq<(Seq<char>, u16)>) -> nat
    decreases items.len(),
{
    if items.len() == 0 {
        0
    } else {
        balls_in(data, items.drop_last()) + if multiplier(data, items.last().0) is Some {
            items.last().1 as nat
        } else {
            0
        }
    }
}

/// A number, or the most that a count can say.
pub open spec fn capped(n: nat) -> u16 {
    if n <= u16::MAX {
        n as u16
    } else {
        u16::MAX
    }
}

pub(crate) fn count_balls(data: &GameData, items: &Vec<(String, u16)>) -> (r: u16)
    ensures
        r == capped(balls_in(*data, items_of(items@))),
{
    let mut sum: u16 = 0;
    let ghost all = items_of(items@);
    let mut i: usize = 0;
    assert(all.take(0) =~= Seq::empty());
    while i < items.len()
        invariant
            i <= items@.len(),
            all == items_of(items@),
            sum == capped(balls_in(*data, all.take(i as int))),
        decreases items@.len() - i,
    {
        assert(all.take(i + 1).drop_last() =~= all.take(i as int));
        assert(all.take(i + 1).last() == (items@[i as int].0@, items@[i as int].1));
        if ball_multiplier(data, &items[i].0).is_some() {
            let n = items[i].1;
            sum = if sum <= u16::MAX - n {
                sum + n
            } else {
                u16::MAX
            };
        }
        i += 1;
    }
    assert(all.take(items@.len() as int) =~= all);
    sum
}

/// All balls in the Poké Balls pocket (the Master Ball excluded); `None`
/// when the pocket is unknown. A followed (stale) list counts as known.
pub fn ball_count(data: &GameData, state: &GameState) -> (r: Option<u16>)
    ensures
        r == match state.saved.holds(Pocket::PokeBalls) {
            Some(items) => Some(capped(balls_in(*data, items))),
            None => None,
        },
{
    match state.saved.pocket(Pocket::PokeBalls) {
        Some(items) => Some(count_balls(data, items)),
        None => None,
    }
}

/// The price of an item that is sold.
pub open spec fn price_of(data: GameData, item: Seq<char>) -> Option<u32> {
    match data.item_of(item) {
        Some(i) => if i.price > 0 {
            Some(i.price)
        } else {
            None
        },
        None => None,
    }
}

pub(crate) fn price(data: &GameData, item: &str) -> (r: Option<u32>)
    ensures
        r == price_of(*data, item@),
{
    match data.item(item) {
        Some(i) => if i.price > 0 {
            Some(i.price)
        } else {
            None
        },
        None => None,
    }
}

/// Money that may be spent: all but the price of the Potions kept.
pub open spec fn spendable(money: u32, potion: u32) -> nat {
    if money >= POTIONS_KEPT * potion {
        (money - POTIONS_KEPT * potion) as nat
    } else {
        0
    }
}

/// How many of an item the money pays for.
pub open spec fn affords(data: GameData, item: Seq<char>, money: u32) -> u16 {
    match (price_of(data, "ITEM_POTION"@), price_of(data, item)) {
        (Some(potion), Some(each)) => capped(spendable(money, potion) / each as nat),
        _ => 0,
    }
}

/// How many of `item` the money pays for, keeping the price of
/// [`POTIONS_KEPT`] Potions. 0 when either price is missing from the data.
pub fn affordable(data: &GameData, item: &str, money: u32) -> (n: u16)
    ensures
        n == affords(*data, item@, money),
{
    match (price(data, "ITEM_POTION"), price(data, item)) {
        (Some(potion), Some(each)) => {
            let kept: u64 = 2 * potion as u64;
            let budget: u64 = if money as u64 >= kept {
                money as u64 - kept
            } else {
                0
            };
            let n: u64 = budget / each as u64;
            if n <= 65535 {
                n as u16
            } else {
                u16::MAX
            }
        },
        _ => 0,
    }
}

/// Balls to buy: up to the target, as far as the money goes.
pub open spec fn to_buy(data: GameData, stock: u16, money: u32) -> u16 {
    let need = if stock < TARGET_STOCK {
        (TARGET_STOCK - stock) as u16
    } else {
        0
    };
    let afford = affords(data, "ITEM_POKE_BALL"@, money);
    if need < afford {
        need
    } else {
        afford
    }
}

/// Poké Balls to buy to reach [`TARGET_STOCK`], keeping the price of
/// [`POTIONS_KEPT`] Potions. 0 when either price is missing from the data.
pub fn buy_count(data: &GameData, stock: u16, money: u32) -> (n: u16)
    ensures
        n == to_buy(*data, stock, money),
{
    let need: u16 = if stock < TARGET_STOCK {
        TARGET_STOCK - stock
    } else {
        0
    };
    let afford = affordable(data, "ITEM_POKE_BALL", money);
    if need < afford {
        need
    } else {
        afford
    }
}

pub open spec fn short(stock: Option<u16>) -> bool {
    stock is Some && stock->0 < SHINY_RESERVE
}

/// The stock is known to be below the shiny reserve: buy before going on.
pub fn must_buy(stock: Option<u16>) -> (r: bool)
    ensures
        r == short(stock),
{
    match stock {
        Some(n) => n < SHINY_RESERVE,
        None => false,
    }
}

pub open spec fn worth_buying(stock: Option<u16>) -> bool {
    stock is None || stock->0 < TARGET_STOCK
}

/// Worth buying at a mart: stock unknown or below the target.
pub fn should_buy(stock: Option<u16>) -> (r: bool)
    ensures
        r == worth_buying(stock),
{
    match stock {
        Some(n) => n < TARGET_STOCK,
        None => true,
    }
}

/// Buying stops at the target, and a stock that must be bought is one that
/// should be.
pub proof fn buying_stops_at_the_target(data: GameData, stock: u16, money: u32)
    ensures
        stock <= TARGET_STOCK ==> stock + to_buy(data, stock, money) <= TARGET_STOCK,
        stock >= TARGET_STOCK ==> to_buy(data, stock, money) == 0,
        stock < SHINY_RESERVE ==> stock < TARGET_STOCK,
{
}

/// What is bought never costs the money kept for Potions.
pub proof fn potion_money_is_kept(data: GameData, item: Seq<char>, money: u32, n: u16)
    requires
        0 < n <= affords(data, item, money),
    ensures
        price_of(data, "ITEM_POTION"@) is Some,
        price_of(data, item) is Some,
        n * price_of(data, item)->0 + POTIONS_KEPT * price_of(data, "ITEM_POTION"@)->0 <= money,
{
    let each = price_of(data, item)->0 as nat;
    let budget = spendable(money, price_of(data, "ITEM_POTION"@)->0);
    assert(n * each <= budget) by (nonlinear_arith)
        requires
            n <= budget / each,
            each > 0,
    ;
    assert(n * each >= each) by (nonlinear_arith)
        requires
            n >= 1,
    ;
}

/// One more than the money pays for would cost Potion money, as far as a
/// count goes.
pub proof fn as_many_as_the_money_pays_for(data: GameData, item: Seq<char>, money: u32)
    requires
        price_of(data, "ITEM_POTION"@) is Some,
        price_of(data, item) is Some,
        affords(data, item, money) < u16::MAX,
    ensures
        (affords(data, item, money) + 1) * price_of(data, item)->0 > spendable(
            money,
            price_of(data, "ITEM_POTION"@)->0,
        ),
{
    let each = price_of(data, item)->0 as nat;
    let budget = spendable(money, price_of(data, "ITEM_POTION"@)->0);
    assert((budget / each + 1) * each > budget) by (nonlinear_arith)
        requires
            each > 0,
    ;
}

} // verus!
