//! Shopping: what is bought is what was decided, at the price that was shown,
//! and never with the money for two Potions.

use vstd::prelude::*;

use crate::action::ExpectationV;
use crate::bag::{key_at, reads_as, row_with};
use crate::event::{GameEventV, Pocket};
use crate::gamedata::GameData;
use crate::input::Button;
use crate::observe::{lines_of, DialogueObservation, Observation};
use crate::promises::stock::{
    buying_goes_as_far_as_it_can, sold_for, the_money_goes_as_far_as_it_can,
};
use crate::promises::button_pressed;
use crate::shop::{
    digits_of, is_digit, line_at, number_in, phase_on, value_of, Phase, PurchaseV, Reading,
};
use crate::text::{decimal_of, joined, within};

verus! {

/// A purchase that is not in the middle of anything, on a screen that it knows.
pub open spec fn settled_on(p: PurchaseV, o: Observation, phase: Phase) -> bool {
    &&& p.phase == phase
    &&& phase_on(o) == phase
    &&& p.pending is None
    &&& p.retries == 0
    &&& p.total_retries == 0
}

/// Which screen a frame shows: the list where a cursor and no quantity shows, the
/// quantity box on any other shop screen, then the menu with BUY and SELL, a
/// YES/NO with text, text alone, and the map.
pub proof fn screens_are_told_apart(o: Observation)
    ensures
        phase_on(o) == Phase::List <==> o.shop is Some && o.shop->0.cursor is Some
            && o.shop->0.quantity is None,
        phase_on(o) == Phase::Quantity <==> o.shop is Some && !(o.shop->0.cursor is Some
            && o.shop->0.quantity is None),
        phase_on(o) == Phase::Text <==> o.shop is None && o.menu is None && o.dialogue is Some,
        phase_on(o) == Phase::Outside <==> o.shop is None && o.menu is None && o.dialogue is None
            && o.player is Some,
        phase_on(o) == Phase::Menu <==> o.shop is None && o.menu is Some && (exists|i: int|
            0 <= i < o.menu_lines@.len() && reads_as("BUY"@, (#[trigger] o.menu_lines@[i])@)) && (
        exists|i: int|
            0 <= i < o.menu_lines@.len() && reads_as("SELL"@, (#[trigger] o.menu_lines@[i])@)),
        phase_on(o) == Phase::Confirm ==> o.dialogue is Some && o.menu is Some
            && o.menu_lines@.len() == 2 && reads_as("YES"@, o.menu_lines@[0]@) && reads_as(
            "NO"@,
            o.menu_lines@[1]@,
        ),
{
}

/// On the menu of the mart, once all its rows are read: BUY is picked while there
/// is something to buy, A on its own row alone, and nothing but B after that.
pub proof fn buy_is_picked(p: PurchaseV, o: Observation, data: GameData, buy: int)
    requires
        settled_on(p, o, Phase::Menu),
        o.menu_lines@.len() == o.menu->0.rows,
        line_at(o.menu_lines@, "BUY"@, buy),
        p.leaves < 8,
    ensures
        ({
            let d = p.stepped(o, data).decision;
            let at = o.menu->0.cursor_row as int;
            &&& p.finished ==> button_pressed(d) == Some(Button::B)
            &&& !p.finished ==> {
                &&& button_pressed(d) == Some(Button::A) <==> at == buy
                &&& at < buy ==> button_pressed(d) == Some(Button::Down)
                &&& at > buy ==> button_pressed(d) == Some(Button::Up)
            }
        }),
{
    let c = choose|i: int| line_at(o.menu_lines@, "BUY"@, i);
    assert(c == buy) by {
        assert(line_at(o.menu_lines@, "BUY"@, c));
        assert(reads_as("BUY"@, o.menu_lines@[c]@));
        assert(reads_as("BUY"@, o.menu_lines@[buy]@));
    }
}

/// How many are bought: never more than were wanted, than the box can say, or
/// than the money pays for with the price of two Potions kept; and one less than
/// all of these only where one more would break one of them. Without a number,
/// Poké Balls are wanted up to the stock.
pub proof fn as_many_as_wanted_and_paid_for(
    p: PurchaseV,
    money: u32,
    data: GameData,
    potion: int,
    each: int,
)
    requires
        sold_for(data, "ITEM_POTION"@, potion),
        sold_for(data, p.item, each),
        p.count > 0,
    ensures
        ({
            let n = p.count_for(money, data);
            &&& n <= p.count
            &&& n <= 99
            &&& n > 0 ==> n * each + 2 * potion <= money
            &&& n < p.count && n < 99 ==> (n + 1) * each + 2 * potion > money
        }),
{
    the_money_goes_as_far_as_it_can(data, p.item, money, potion, each);
    let n = p.count_for(money, data);
    let most = crate::stock::affords(data, p.item, money);
    if n > 0 {
        assert(n * each <= most * each) by (nonlinear_arith)
            requires
                n <= most,
                each > 0,
        ;
    }
}

/// Poké Balls bought for the stock go up to 15 in all, as far as the money goes.
pub proof fn the_stock_is_filled(
    p: PurchaseV,
    money: u32,
    data: GameData,
    stock: u16,
    potion: int,
    ball: int,
)
    requires
        sold_for(data, "ITEM_POTION"@, potion),
        sold_for(data, "ITEM_POKE_BALL"@, ball),
        p.item == "ITEM_POKE_BALL"@,
        p.count == 0,
        p.stock == Some(stock),
    ensures
        ({
            let n = p.count_for(money, data);
            &&& n > 0 ==> stock + n <= 15 && n * ball + 2 * potion <= money
            &&& stock + n < 15 ==> (n + 1) * ball + 2 * potion > money
        }),
{
    buying_goes_as_far_as_it_can(data, stock, money, potion, ball);
    the_money_goes_as_far_as_it_can(data, "ITEM_POKE_BALL"@, money, potion, ball);
}

/// The list, read the same on two frames: A is pressed on the row of the item
/// that is bought and on no other; while that row shows, the cursor comes
/// nearer to it; the count is decided before anything is chosen.
pub proof fn the_item_is_picked(
    p: PurchaseV,
    o: Observation,
    data: GameData,
    earlier: u64,
    money: u32,
    cursor: u8,
)
    requires
        settled_on(p, o, Phase::List),
        o.shop->0.money == Some(money),
        o.shop->0.cursor == Some(cursor),
        !p.finished,
        p.paid is None,
        p.list_moves < 40,
        earlier < o.frame_id,
        p.last_rows is None,
        p.candidate == Some(
            (
                earlier,
                Reading::List {
                    money,
                    cursor,
                    row: row_with(crate::bag::keyed(data, o.shop->0.items@), p.item),
                },
            ),
        ),
    ensures
        ({
            let s = p.stepped(o, data);
            let row = row_with(crate::bag::keyed(data, o.shop->0.items@), p.item);
            let wants = p.target is Some || (crate::stock::price_of(data, p.item) is Some
                && p.count_for(money, data) > 0);
            &&& button_pressed(s.decision) == Some(Button::A) ==> row == Some(cursor as usize)
                && s.now.target is Some
            &&& wants && row == Some(cursor as usize) ==> button_pressed(s.decision) == Some(
                Button::A,
            )
            &&& wants && row is Some && row->0 < cursor ==> button_pressed(s.decision) == Some(
                Button::Up,
            )
            &&& wants && row is Some && row->0 > cursor ==> button_pressed(s.decision) == Some(
                Button::Down,
            )
            &&& p.target is Some ==> s.now.target == p.target
            &&& p.target is None && s.now.target is Some ==> s.now.target == Some(
                p.count_for(money, data),
            )
            &&& p.target is None && crate::stock::price_of(data, p.item) is Some && p.count_for(
                money,
                data,
            ) == 0 ==> s.now.finished && button_pressed(s.decision) == Some(Button::B)
            &&& s.now.money_before == Some(money)
        }),
{
    let row = row_with(crate::bag::keyed(data, o.shop->0.items@), p.item);
    if row is Some {
        let i = choose|i: int| key_at(crate::bag::keyed(data, o.shop->0.items@), p.item, i);
        assert(key_at(crate::bag::keyed(data, o.shop->0.items@), p.item, i));
    }
}

/// The quantity box, read the same on two frames and short of any limit: A
/// exactly on the count that was decided, which is then what was quoted; Up
/// below it and Down above it, each by one.
pub proof fn the_quantity_is_set(
    p: PurchaseV,
    o: Observation,
    data: GameData,
    earlier: u64,
    count: u16,
    total: u32,
    target: u16,
)
    requires
        settled_on(p, o, Phase::Quantity),
        o.shop->0.quantity == Some((count, total)),
        p.target == Some(target),
        p.max_quantity is None,
        p.up_from matches Some(from) ==> from <= count,
        earlier < o.frame_id,
        p.last_rows is None,
        p.candidate == Some((earlier, Reading::Quantity { count, total })),
    ensures
        ({
            let s = p.stepped(o, data);
            &&& button_pressed(s.decision) == Some(
                if count == target {
                    Button::A
                } else if count < target {
                    Button::Up
                } else {
                    Button::Down
                },
            )
            &&& count == target ==> s.now.quoted == Some((count, total))
            &&& count < target ==> s.decision->Act_0.expect == ExpectationV::ShopQuantity(
                (count + 1) as u16,
            )
            &&& count > target ==> s.decision->Act_0.expect == ExpectationV::ShopQuantity(
                (count - 1) as u16,
            )
            &&& s.now.target == Some(target)
        }),
{
}

/// A box that wrapped at a number stops there: a target beyond it becomes it,
/// and that many are bought.
pub proof fn the_box_may_stop_earlier(
    p: PurchaseV,
    o: Observation,
    data: GameData,
    earlier: u64,
    total: u32,
    target: u16,
    most: u16,
)
    requires
        settled_on(p, o, Phase::Quantity),
        o.shop->0.quantity == Some((1u16, total)),
        p.target == Some(target),
        p.up_from == Some(most),
        1 < most < target,
        earlier < o.frame_id,
        p.last_rows is None,
        p.candidate == Some((earlier, Reading::Quantity { count: 1, total })),
    ensures
        p.stepped(o, data).now.target == Some(most),
        button_pressed(p.stepped(o, data).decision) == Some(Button::Down),
        p.stepped(o, data).decision->Act_0.expect == ExpectationV::ShopQuantity(most),
{
}

/// The clerk's question, read the same on two frames: YES is chosen exactly where
/// it asks for the count and the price that the box showed, and that count was
/// decided; anything else is answered NO, and nothing more is bought.
pub proof fn only_what_was_quoted_is_paid(
    p: PurchaseV,
    o: Observation,
    data: GameData,
    earlier: u64,
    want: u32,
    total: u32,
    page: Seq<char>,
)
    requires
        settled_on(p, o, Phase::Confirm),
        page == crate::text::joined(crate::observe::lines_of(o.dialogue->0.lines@), " "@),
        number_in(page, "want "@) == Some(want),
        number_in(page, "¥"@) == Some(total),
        earlier < o.frame_id,
        p.last_rows is None,
        p.candidate == Some((earlier, Reading::Price { want, total })),
    ensures
        ({
            let s = p.stepped(o, data);
            let agreed = p.quoted is Some && (p.quoted->0).0 == want && (p.quoted->0).1 == total
                && p.target == Some((p.quoted->0).0);
            &&& agreed ==> button_pressed(s.decision) == Some(
                if o.menu->0.cursor_row == 0 {
                    Button::A
                } else {
                    Button::Up
                },
            )
            &&& agreed && o.menu->0.cursor_row == 0 ==> s.now.paid == p.quoted
            &&& !agreed ==> button_pressed(s.decision) == Some(Button::B) && s.now.finished
                && s.now.paid == p.paid
        }),
{
}

/// A purchase is booked when the money is read again: so many more of the item,
/// and the money that it cost less, where the money reads so; where it reads
/// otherwise, what it reads.
pub proof fn a_purchase_is_booked(
    p: PurchaseV,
    money: u32,
    data: GameData,
    before: u32,
    paid: (u16, u32),
    pocket: Pocket,
)
    requires
        p.paid == Some(paid),
        p.money_before == Some(before),
        p.money_seen,
        data.item_of(p.item) is Some,
        data.item_of(p.item)->0.pocket is Some,
        Pocket::of_constant(data.item_of(p.item)->0.pocket->0@) == Some(pocket),
    ensures
        ({
            let (next, events) = p.money_read(money, data);
            &&& next.finished && next.paid is None && next.money_before == Some(money)
            &&& money < before || p.handed_over ==> events.len() > 0 && events[0]
                == (GameEventV::ItemsChanged {
                pocket,
                item: p.item,
                delta: paid.0 as i32,
                reason: "bought"@,
            })
            &&& !(money < before || p.handed_over) ==> forall|i: int|
                0 <= i < events.len() ==> !(#[trigger] events[i] is ItemsChanged)
            &&& before == money + paid.1 ==> events.last() == (GameEventV::MoneyChanged {
                delta: -(paid.1 as int) as i64,
                reason: "bought"@,
            })
            &&& before != money + paid.1 ==> exists|i: int|
                0 <= i < events.len() && #[trigger] events[i] == (GameEventV::MoneyObserved {
                    amount: money,
                })
        }),
{
    let (next, events) = p.money_read(money, data);
    if before != money + paid.1 {
        assert(events[events.len() - 2] == (GameEventV::MoneyObserved { amount: money }));
    }
}

// ---- Numbers on a page ----

proof fn digits_read_back(n: nat)
    ensures
        value_of(decimal_of(n)) == n,
        digits_of(decimal_of(n)) == decimal_of(n),
        forall|i: int| 0 <= i < decimal_of(n).len() ==> is_digit(#[trigger] decimal_of(n)[i]),
        decimal_of(n).len() > 0,
    decreases n,
{
    let s = decimal_of(n);
    if n < 10 {
        assert(s.drop_last() =~= Seq::empty());
        reveal_with_fuel(value_of, 2);
        reveal_with_fuel(digits_of, 2);
        assert(s.last() == crate::text::digit_char(n));
        assert(digits_of(s) =~= s);
    } else {
        digits_read_back(n / 10);
        assert(s.drop_last() =~= decimal_of(n / 10));
        assert(s.last() == crate::text::digit_char(n % 10));
        assert(digits_of(s) =~= s);
        assert forall|i: int| 0 <= i < s.len() implies is_digit(#[trigger] s[i]) by {
            if i < s.len() - 1 {
                assert(s[i] == decimal_of(n / 10)[i]);
            }
        }
    }
}

/// A number as it is printed reads as itself.
pub proof fn a_printed_number_reads_back(n: nat)
    ensures
        value_of(digits_of(decimal_of(n))) == n,
{
    digits_read_back(n);
}

// ---- On the way ----

/// Text in the mart: a question waits for its box, text that is printing for its
/// end, and what waits for a press gets A. What was paid for counts as handed
/// over once the clerk says so, and not before.
pub proof fn mart_text_is_advanced(p: PurchaseV, d: DialogueObservation, o: Observation)
    requires
        p.retries == 0,
        p.total_retries == 0,
        p.waiting_since is None,
    ensures
        ({
            let (next, decision) = p.on_text(d, o);
            let page = joined(lines_of(d.lines@), " "@);
            let asked = within(page, "How many"@) || within(page, "Okay?"@) || within(page, "OK?"@)
                || within(page, "help you"@) || within(page, "anything else"@);
            let settled = d.waiting_for_input || (d.ready_for_a && (d.lines@.len() > 0 || (
            p.finished && p.leaves > 0)));
            &&& asked || !settled ==> decision is Wait
            &&& !asked && settled ==> button_pressed(decision) == Some(Button::A)
            &&& next.handed_over <==> p.handed_over || (p.paid is Some && within(
                page,
                "Here you are"@,
            ))
            &&& next.paid == p.paid && next.target == p.target && next.finished == p.finished
        }),
{
}

/// A purchase is over on the map, once the clerk was left on purpose; seen there
/// before that, it waits.
pub proof fn a_purchase_is_over_outside(p: PurchaseV, o: Observation, data: GameData)
    requires
        phase_on(o) == Phase::Outside,
        p.pending is None,
        p.retries == 0,
        p.total_retries == 0,
        p.waiting_since is None,
    ensures
        p.finished && p.leaves > 0 ==> p.stepped(o, data).decision is Done,
        !(p.finished && p.leaves > 0) ==> p.stepped(o, data).decision is Wait,
        p.stepped(o, data).events.len() == 0,
{
}

/// A number is believed on the second frame that reads it: the first is kept and
/// waited on, the same frame again proves nothing, and one that reads otherwise
/// takes its place and counts against the patience.
pub proof fn a_number_is_believed_twice_read(
    p: PurchaseV,
    first: Observation,
    second: Observation,
    a: Reading,
    b: Reading,
)
    requires
        p.candidate is None,
        p.waiting_since is None,
        p.retries == 0,
        p.total_retries == 0,
        second.frame_id < first.frame_id + 60,
    ensures
        ({
            let (seen, wait) = p.confirming(first, a);
            let (then, again) = seen.confirming(second, b);
            &&& wait is Some && wait->0 is Wait && seen.candidate == Some((first.frame_id, a))
            &&& again is None <==> second.frame_id > first.frame_id && a == b
            &&& second.frame_id > first.frame_id && a != b ==> then.candidate == Some(
                (second.frame_id, b),
            ) && then.retries == 1 && then.total_retries == 1
            &&& second.frame_id <= first.frame_id ==> then.candidate == seen.candidate
        }),
{
}

/// A purchase fails with the thirteenth retry on a screen, or the forty-first in
/// all; a press that did not do what it was for is one, on the screen it was made
/// on, and a new screen starts afresh.
pub proof fn a_purchase_has_its_patience(p: PurchaseV, o: Observation, data: GameData, why: Seq<char>)
    requires
        p.retries < u32::MAX,
        p.total_retries < u32::MAX,
        p.last_rows is None,
    ensures
        p.exhausted(why) is Some <==> p.retries > 12 || p.total_retries > 40,
        p.exhausted(why) is Some ==> p.exhausted(why)->0 is Fail,
        ({
            let n = p.noted(o, data);
            &&& phase_on(o) != p.phase ==> n.retries == 0 && n.total_retries == p.total_retries
                && n.candidate is None
            &&& phase_on(o) == p.phase && p.pending is Some && !p.pending->0.met(o) ==> n.retries
                == p.retries + 1 && n.total_retries == p.total_retries + 1
            &&& phase_on(o) == p.phase && (p.pending is None || p.pending->0.met(o)) ==> n.retries
                == p.retries && n.total_retries == p.total_retries
            &&& n.phase == phase_on(o) && n.pending is None
        }),
{
}

/// An item that does not show is scrolled to: down while the list goes on, up
/// from its end; it is not sold where the whole list shows without it, and given
/// up after forty moves.
pub proof fn an_item_out_of_sight_is_scrolled_to(
    p: PurchaseV,
    cursor: u8,
    rows: Seq<(Seq<char>, Option<u32>)>,
    target: u16,
)
    requires
        row_with(rows, p.item) is None,
        p.list_moves < u32::MAX,
    ensures
        ({
            let (next, d) = p.to_row(cursor, rows, target);
            let end = row_with(rows, "CANCEL"@) is Some;
            &&& p.list_moves >= 40 ==> d is Fail
            &&& p.list_moves < 40 && end && cursor == 0 ==> d is Fail
            &&& p.list_moves < 40 && end && cursor > 0 ==> button_pressed(d) == Some(Button::Up)
            &&& p.list_moves < 40 && !end ==> button_pressed(d) == Some(Button::Down)
            &&& next.list_moves == p.list_moves + 1
        }),
{
}

/// A new purchase is for what was asked, with nothing decided, quoted or paid.
pub proof fn a_new_purchase_has_done_nothing(item: Seq<char>, count: u16)
    ensures
        ({
            let p = PurchaseV::fresh(item, count);
            &&& p.item == item && p.count == count
            &&& p.target is None && p.quoted is None && p.paid is None && !p.finished
            &&& p.retries == 0 && p.total_retries == 0 && p.candidate is None && p.pending is None
        }),
{
}

} // verus!
