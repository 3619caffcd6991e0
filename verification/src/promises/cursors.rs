//! Cursors: after a press the cursor is expected where the press takes it.

use vstd::prelude::*;

use crate::action::ExpectationV;
use crate::bag::AuditV;
use crate::battle::stepping;
use crate::catch::thrower::ThrowerV;
use crate::executor::DecisionV;
use crate::gamedata::GameData;
use crate::input::Button;
use crate::learn::toward_row;
use crate::observe::{BattleMenu, MenuObservation, MoveListObservation, Observation};
use crate::promises::{button_pressed, cursor_after};
use crate::shop::PurchaseV;

verus! {

/// What a decision waits to see.
pub open spec fn awaited(d: DecisionV) -> Option<ExpectationV> {
    match d {
        DecisionV::Act(a) => Some(a.expect),
        _ => None,
    }
}

/// In a battle's menus the cursor is expected in the cell that the press takes it
/// to, and what was chosen is awaited on the cell itself.
pub proof fn a_battle_cursor_is_expected_where_it_goes(
    at: (u8, u8),
    target: (u8, u8),
    moves: bool,
    name: Seq<char>,
    confirmed: ExpectationV,
)
    requires
        at.0 <= 1,
        at.1 <= 1,
        target.0 <= 1,
        target.1 <= 1,
    ensures
        ({
            let d = stepping(at, target, moves, name, confirmed);
            let b = button_pressed(d);
            let next = cursor_after((at.0 as int, at.1 as int), b->0);
            &&& b is Some && awaited(d) is Some
            &&& at == target ==> awaited(d) == Some(confirmed)
            &&& at != target ==> 0 <= next.0 <= 1 && 0 <= next.1 <= 1 && awaited(d) == Some(
                ExpectationV::BattleMenuAt(
                    if moves {
                        BattleMenu::Moves { column: next.0 as u8, row: next.1 as u8 }
                    } else {
                        BattleMenu::Command { column: next.0 as u8, row: next.1 as u8 }
                    },
                ),
            )
        }),
{
}

/// On the list of moves the cursor is expected on the row that the press takes it
/// to, and the list is expected to close on the row that is wanted.
pub proof fn a_list_cursor_is_expected_where_it_goes(list: MoveListObservation, target: u8)
    requires
        list.selected is Some,
        target < 255,
    ensures
        ({
            let d = toward_row(list, target);
            let at = list.selected->0 as int;
            let next = cursor_after((0, at), button_pressed(d)->0).1;
            &&& at == target ==> awaited(d) == Some(ExpectationV::MoveListClosed)
            &&& at != target ==> awaited(d) == Some(ExpectationV::MoveListAt(next as u8))
        }),
{
}

/// In the mart's list the cursor is expected on the row that the press takes it to,
/// and the quantity box, at one, where the item is chosen.
pub proof fn a_mart_cursor_is_expected_where_it_goes(
    p: PurchaseV,
    cursor: u8,
    rows: Seq<(Seq<char>, Option<u32>)>,
    target: u16,
)
    requires
        cursor < 255,
        p.to_row(cursor, rows, target).1 is Act,
    ensures
        ({
            let d = p.to_row(cursor, rows, target).1;
            let b = button_pressed(d)->0;
            &&& b == Button::A ==> awaited(d) == Some(ExpectationV::ShopQuantity(1))
            &&& b == Button::Down ==> awaited(d) == Some(
                ExpectationV::ShopCursorAt((cursor + 1) as u8),
            )
            &&& b == Button::Up && cursor > 0 ==> awaited(d) == Some(
                ExpectationV::ShopCursorAt((cursor - 1) as u8),
            )
            &&& p.to_row(cursor, rows, target).0.pending == awaited(d)
        }),
{
}

/// On the mart's menu, too; what BUY and leaving lead to closes the menu.
pub proof fn a_mart_menu_cursor_is_expected_where_it_goes(p: PurchaseV, o: Observation)
    requires
        o.menu is Some,
        0 < o.menu->0.cursor_row < 255,
        p.on_menu(o).1 is Act,
    ensures
        ({
            let d = p.on_menu(o).1;
            let b = button_pressed(d)->0;
            let row = o.menu->0.cursor_row;
            &&& b == Button::A || b == Button::B ==> awaited(d) == Some(ExpectationV::MenuClosed)
            &&& b == Button::Up ==> awaited(d) == Some(
                ExpectationV::MenuCursorAt((row - 1) as u8),
            )
            &&& b == Button::Down ==> awaited(d) == Some(
                ExpectationV::MenuCursorAt((row + 1) as u8),
            )
            &&& p.on_menu(o).0.pending == awaited(d)
        }),
{
}

/// In the quantity box the count is expected that the press leads to: one more, one
/// less, or from one around to the most.
pub proof fn a_quantity_is_expected_where_it_goes(p: PurchaseV, o: Observation, count: u16, total: u32)
    requires
        o.shop is Some,
        o.shop->0.quantity == Some((count, total)),
        0 < count < u16::MAX,
        p.on_quantity(o).decision is Act,
    ensures
        ({
            let d = p.on_quantity(o).decision;
            let b = button_pressed(d)->0;
            let most = p.box_limit(count);
            &&& b == Button::A ==> awaited(d) == Some(ExpectationV::Question)
            &&& b == Button::Up ==> awaited(d) == Some(
                ExpectationV::ShopQuantity((count + 1) as u16),
            )
            &&& b == Button::Down && count > 1 ==> awaited(d) == Some(
                ExpectationV::ShopQuantity((count - 1) as u16),
            )
            &&& b == Button::Down && count == 1 && p.target is Some && p.target->0 > 0 && (most
                matches Some(m) ==> m > 0) ==> most is Some && awaited(d) == Some(
                ExpectationV::ShopQuantity(most->0),
            )
            &&& b == Button::A || b == Button::Up || b == Button::Down
        }),
{
}

/// In the Start menu the cursor is expected to move the way it was pressed, and in
/// a pocket's list to be on the row beside.
pub proof fn a_bag_cursor_is_expected_where_it_goes(
    a: AuditV,
    o: Observation,
    menu: MenuObservation,
    data: GameData,
)
    ensures
        ({
            let d = a.on_start_menu(o, menu).1;
            let b = button_pressed(d);
            &&& b == Some(Button::Up) ==> awaited(d) == Some(
                (ExpectationV::MenuCursorMoved { from_y: menu.cursor_y, up: true }),
            )
            &&& b == Some(Button::Down) ==> awaited(d) == Some(
                (ExpectationV::MenuCursorMoved { from_y: menu.cursor_y, up: false }),
            )
            &&& b == Some(Button::A) ==> awaited(d) == Some(
                ExpectationV::BagPocket(Seq::empty()),
            )
        }),
        o.bag is Some && o.bag->0.cursor is Some && 0 < o.bag->0.cursor->0 < 255 ==> ({
            let d = a.reading(o, data).1;
            let b = button_pressed(d);
            let at = o.bag->0.cursor->0;
            &&& b == Some(Button::Up) ==> awaited(d) == Some(
                ExpectationV::BagCursorAt((at - 1) as u8),
            )
            &&& b == Some(Button::Down) ==> awaited(d) == Some(
                ExpectationV::BagCursorAt((at + 1) as u8),
            )
            &&& b == Some(Button::B) ==> awaited(d) == Some(ExpectationV::MenuOpen)
        }),
{
}

/// In the bag of a battle the cursor is expected beside where it was, the prompt
/// where a ball is selected, and the bag to close where it is used.
pub proof fn a_throws_cursor_is_expected_where_it_goes(
    t: ThrowerV,
    rows: Seq<(Seq<char>, Option<u16>)>,
    cursor: u8,
    best: Seq<char>,
    ball: Seq<char>,
    o: Observation,
)
    requires
        0 < cursor < 255,
    ensures
        ({
            let d = t.to_ball(rows, cursor, best, ball).1;
            let b = button_pressed(d);
            &&& b is Some
            &&& b == Some(Button::A) ==> awaited(d) == Some(ExpectationV::BagPrompt)
            &&& b == Some(Button::Up) ==> awaited(d) == Some(
                ExpectationV::BagCursorAt((cursor - 1) as u8),
            )
            &&& b == Some(Button::Down) ==> awaited(d) == Some(
                ExpectationV::BagCursorAt((cursor + 1) as u8),
            )
        }),
        o.bag is Some && o.bag->0.prompt is Some && 0 < (o.bag->0.prompt->0).1 < 255 ==> ({
            let d = t.on_prompt(o).1;
            let b = button_pressed(d);
            let at = (o.bag->0.prompt->0).1;
            &&& b == Some(Button::A) ==> awaited(d) == Some(ExpectationV::BagClosed)
            &&& b == Some(Button::Up) ==> awaited(d) == Some(
                ExpectationV::BagPromptAt((at - 1) as u8),
            )
            &&& b == Some(Button::Down) ==> awaited(d) == Some(
                ExpectationV::BagPromptAt((at + 1) as u8),
            )
        }),
{
}

} // verus!
