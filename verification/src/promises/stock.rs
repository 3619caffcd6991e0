//! Buying balls: as many as are wanted, as far as the money goes.

use vstd::prelude::*;

use crate::gamedata::GameData;
use crate::stock::{
    affords, as_many_as_the_money_pays_for, balls_in, potion_money_is_kept, price_of, short,
    spendable, to_buy, worth_buying,
};

verus! {

/// The item is sold for this.
pub open spec fn sold_for(data: GameData, item: Seq<char>, price: int) -> bool {
    price > 0 && data.item_of(item) is Some && data.item_of(item)->0.price == price
}

/// What the money pays for, with the price of two Potions kept: all of it can be
/// paid, and one more could not.
pub proof fn the_money_goes_as_far_as_it_can(
    data: GameData,
    item: Seq<char>,
    money: u32,
    potion: int,
    each: int,
)
    requires
        sold_for(data, "ITEM_POTION"@, potion),
        sold_for(data, item, each),
    ensures
        affords(data, item, money) > 0 ==> affords(data, item, money) * each + 2 * potion <= money,
        affords(data, item, money) < 65535 ==> (affords(data, item, money) + 1) * each + 2 * potion
            > money,
{
    let n = affords(data, item, money);
    if n > 0 {
        potion_money_is_kept(data, item, money, n);
    }
    if n < 65535 {
        as_many_as_the_money_pays_for(data, item, money);
        assert((n + 1) * each >= each) by (nonlinear_arith)
            requires
                n >= 0,
                each > 0,
        ;
    }
}

/// Poké Balls are bought up to a stock of 15 for every stock below it, unless
/// one more would cost the money for two Potions; never beyond it, and never
/// with that money.
pub proof fn buying_goes_as_far_as_it_can(
    data: GameData,
    stock: u16,
    money: u32,
    potion: int,
    ball: int,
)
    requires
        sold_for(data, "ITEM_POTION"@, potion),
        sold_for(data, "ITEM_POKE_BALL"@, ball),
    ensures
        ({
            let n = to_buy(data, stock, money);
            &&& n > 0 ==> stock + n <= 15
            &&& n > 0 ==> n * ball + 2 * potion <= money
            &&& stock + n < 15 ==> (n + 1) * ball + 2 * potion > money
        }),
{
    let n = to_buy(data, stock, money);
    the_money_goes_as_far_as_it_can(data, "ITEM_POKE_BALL"@, money, potion, ball);
    let most = affords(data, "ITEM_POKE_BALL"@, money);
    if n > 0 {
        assert(n * ball <= most * ball) by (nonlinear_arith)
            requires
                n <= most,
                ball > 0,
        ;
    }
}

/// Nothing is bought where a price is missing.
pub proof fn nothing_is_bought_without_prices(
    data: GameData,
    item: Seq<char>,
    stock: u16,
    money: u32,
)
    ensures
        data.item_of("ITEM_POTION"@) is None || data.item_of("ITEM_POTION"@)->0.price == 0
            ==> affords(data, item, money) == 0 && to_buy(data, stock, money) == 0,
        data.item_of(item) is None || data.item_of(item)->0.price == 0 ==> affords(
            data,
            item,
            money,
        ) == 0,
        data.item_of("ITEM_POKE_BALL"@) is None || data.item_of("ITEM_POKE_BALL"@)->0.price == 0
            ==> to_buy(data, stock, money) == 0,
{
}

/// More money never buys less, and a larger stock never more.
pub proof fn more_money_buys_no_less(data: GameData, stock: u16, money: u32, more: u32, larger: u16)
    requires
        money <= more,
        stock <= larger,
    ensures
        to_buy(data, stock, money) <= to_buy(data, stock, more),
        to_buy(data, larger, money) <= to_buy(data, stock, money),
{
    if price_of(data, "ITEM_POTION"@) is Some && price_of(data, "ITEM_POKE_BALL"@) is Some {
        let each = price_of(data, "ITEM_POKE_BALL"@)->0 as int;
        let a = spendable(money, price_of(data, "ITEM_POTION"@)->0) as int;
        let b = spendable(more, price_of(data, "ITEM_POTION"@)->0) as int;
        assert(a / each <= b / each) by (nonlinear_arith)
            requires
                0 <= a <= b,
                each > 0,
        ;
    }
}

/// A list of items counts as many balls as its entries of balls that may be
/// thrown: one more entry adds its own number, where it is such a ball, and
/// nothing where it is not; the order of the entries does not matter.
pub proof fn balls_add_up(
    data: GameData,
    items: Seq<(Seq<char>, u16)>,
    more: Seq<(Seq<char>, u16)>,
    item: Seq<char>,
    n: u16,
)
    ensures
        balls_in(data, Seq::empty()) == 0,
        (exists|i: int| 0 <= i < data.balls@.len() && (#[trigger] data.balls@[i]).key@ == item)
            ==> balls_in(data, items.push((item, n))) == balls_in(data, items) + n,
        (forall|i: int| 0 <= i < data.balls@.len() ==> (#[trigger] data.balls@[i]).key@ != item)
            ==> balls_in(data, items.push((item, n))) == balls_in(data, items),
        balls_in(data, items + more) == balls_in(data, items) + balls_in(data, more),
    decreases more.len(),
{
    let all = items.push((item, n));
    assert(all.drop_last() =~= items);
    assert(all.last() == (item, n));
    if exists|i: int| 0 <= i < data.balls@.len() && (#[trigger] data.balls@[i]).key@ == item {
        let i = choose|i: int| 0 <= i < data.balls@.len() && (#[trigger] data.balls@[i]).key@ == item;
        a_row_has_a_first(data, item, i);
    }
    if more.len() == 0 {
        assert(items + more =~= items);
    } else {
        balls_add_up(data, items, more.drop_last(), item, n);
        assert((items + more).drop_last() =~= items + more.drop_last());
        assert((items + more).last() == more.last());
    }
}

proof fn a_row_has_a_first(data: GameData, item: Seq<char>, i: int)
    requires
        0 <= i < data.balls@.len(),
        data.balls@[i].key@ == item,
    ensures
        crate::gamedata::row_of(data.balls@, item) is Some,
    decreases i,
{
    if !crate::gamedata::first_key(data.balls@, item, i) {
        let j = choose|j: int| 0 <= j < i && (#[trigger] data.balls@[j]).key@ == item;
        a_row_has_a_first(data, item, j);
    }
}

/// Balls must be bought where fewer than five are known to be left, and are worth
/// buying up to fifteen, or where nobody counted them.
pub proof fn when_balls_are_bought(n: u16, fewer: u16)
    requires
        fewer <= n,
    ensures
        short(Some(n)) <==> n < 5,
        worth_buying(Some(n)) <==> n < 15,
        !short(None),
        worth_buying(None),
        short(Some(n)) ==> short(Some(fewer)) && worth_buying(Some(n)),
        worth_buying(Some(n)) ==> worth_buying(Some(fewer)),
{
}

/// Balls are worth buying exactly where some would be bought with money enough
/// for one.
pub proof fn what_is_worth_buying_is_bought(data: GameData, n: u16, money: u32)
    requires
        affords(data, "ITEM_POKE_BALL"@, money) > 0,
    ensures
        worth_buying(Some(n)) <==> to_buy(data, n, money) > 0,
{
}

} // verus!
