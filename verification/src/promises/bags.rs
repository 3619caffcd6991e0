//! The bag: every row is read, and the ball that is thrown is the one that was
//! picked.

use vstd::prelude::*;

use crate::bag::{
    bag_row, cancel_shows, key_at, keyed, listed, merged, reads_as, row_item, row_key, rows_read,
    start_menu_row, start_menu_rows, titled, AuditV, RowV,
};
use crate::catch::plan::is_best;
use crate::catch::thrower::{throw_phase, ThrowerV};
use crate::event::{GameEventV, Pocket};
use crate::gamedata::GameData;
use crate::input::Button;
use crate::observe::{rows_of, MenuObservation, Observation};
use crate::promises::button_pressed;
use crate::shop::line_at;
use crate::stock::balls_in;

verus! {

/// The pocket's place in the bag, from the left.
pub open spec fn from_the_left(pocket: Pocket) -> int {
    match pocket {
        Pocket::Items => 0,
        Pocket::KeyItems => 1,
        _ => 2,
    }
}

pub open spec fn in_the_bag(pocket: Pocket) -> bool {
    pocket == Pocket::Items || pocket == Pocket::KeyItems || pocket == Pocket::PokeBalls
}

/// An audit that waits for nothing and has not read its pocket.
pub open spec fn auditing(a: AuditV) -> bool {
    &&& in_the_bag(a.pocket)
    &&& a.pending is None
    &&& a.retries == 0
    &&& a.observed is None
}

/// In the Start menu, with all its rows (15 pixels each) read: A opens the bag
/// exactly where the cursor is on the row of BAG; above it the cursor goes down,
/// below it up.
pub proof fn the_bag_is_opened(a: AuditV, o: Observation, data: GameData, bag: int, at: int)
    requires
        auditing(a),
        o.bag is None,
        o.menu is Some,
        15 * o.menu_lines@.len() <= o.menu->0.window.height + 7 < 15 * (o.menu_lines@.len() + 1),
        bag_row(o.menu_lines@, bag),
        o.menu->0.cursor_y >= o.menu->0.window.y,
        15 * at <= o.menu->0.cursor_y - o.menu->0.window.y < 15 * (at + 1),
    ensures
        button_pressed(a.stepped(o, data).1) == Some(
            if at == bag {
                Button::A
            } else if at < bag {
                Button::Down
            } else {
                Button::Up
            },
        ),
{
    let c = choose|i: int| bag_row(o.menu_lines@, i);
    assert(c == bag) by {
        assert(reads_as("BAG"@, o.menu_lines@[c]@));
        assert(reads_as("BAG"@, o.menu_lines@[bag]@));
    }
}

/// In another pocket of the bag, the one that is wanted is gone to: to the right
/// where it lies to the right, and to the left where it lies to the left.
pub proof fn the_pocket_is_gone_to(a: AuditV, o: Observation, data: GameData, shown: Pocket)
    requires
        auditing(a),
        o.bag is Some,
        titled(o.bag->0.pocket@) == Some(shown),
        in_the_bag(shown),
        shown != a.pocket,
    ensures
        button_pressed(a.stepped(o, data).1) == Some(
            if from_the_left(shown) < from_the_left(a.pocket) {
                Button::Right
            } else {
                Button::Left
            },
        ),
{
}

proof fn rows_are_items(data: GameData, rows: Seq<RowV>)
    requires
        rows_read(data, rows) is Some,
    ensures
        forall|i: int|
            0 <= i < rows.len() && !reads_as("CANCEL"@, (#[trigger] rows[i]).0) ==> row_item(
                data,
                rows[i],
            ) is Some && rows_read(data, rows)->0.contains(row_item(data, rows[i])->0),
        forall|k: int|
            0 <= k < rows_read(data, rows)->0.len() ==> exists|i: int|
                0 <= i < rows.len() && !reads_as("CANCEL"@, (#[trigger] rows[i]).0) && row_item(
                    data,
                    rows[i],
                ) == Some(#[trigger] rows_read(data, rows)->0[k]),
    decreases rows.len(),
{
    if rows.len() > 0 {
        let rest = rows.drop_last();
        rows_are_items(data, rest);
        let before = rows_read(data, rest)->0;
        let items = rows_read(data, rows)->0;
        assert forall|i: int|
            0 <= i < rows.len() && !reads_as("CANCEL"@, (#[trigger] rows[i]).0) implies row_item(
            data,
            rows[i],
        ) is Some && items.contains(row_item(data, rows[i])->0) by {
            if i < rest.len() {
                assert(rest[i] == rows[i]);
                let k = before.index_of(row_item(data, rows[i])->0);
                assert(items[k] == before[k]);
            } else {
                assert(items[items.len() - 1] == row_item(data, rows[i])->0);
            }
        }
        assert forall|k: int| 0 <= k < items.len() implies exists|i: int|
            0 <= i < rows.len() && !reads_as("CANCEL"@, (#[trigger] rows[i]).0) && row_item(
                data,
                rows[i],
            ) == Some(#[trigger] items[k]) by {
            if k < before.len() {
                assert(items[k] == before[k]);
                let i = choose|i: int|
                    0 <= i < rest.len() && !reads_as("CANCEL"@, (#[trigger] rest[i]).0) && row_item(
                        data,
                        rest[i],
                    ) == Some(before[k]);
                assert(rows[i] == rest[i]);
            } else {
                assert(rows[rows.len() - 1] == rows.last());
            }
        }
    }
}

proof fn all_rows_are_kept(data: GameData, rows: Seq<RowV>, more: Seq<RowV>)
    ensures
        merged(data, rows, more).len() >= rows.len(),
        forall|i: int| 0 <= i < rows.len() ==> #[trigger] merged(data, rows, more)[i] == rows[i],
        forall|i: int|
            0 <= i < more.len() ==> listed(data, merged(data, rows, more), #[trigger] more[i]),
        forall|i: int|
            rows.len() <= i < merged(data, rows, more).len() ==> more.contains(
                #[trigger] merged(data, rows, more)[i],
            ),
    decreases more.len(),
{
    if more.len() > 0 {
        let rest = more.drop_last();
        all_rows_are_kept(data, rows, rest);
        let so_far = merged(data, rows, rest);
        let all = merged(data, rows, more);
        assert forall|i: int| 0 <= i < more.len() implies listed(data, all, #[trigger] more[i]) by {
            if i < rest.len() {
                assert(rest[i] == more[i]);
                let k = choose|k: int|
                    0 <= k < so_far.len() && row_key(data, (#[trigger] so_far[k]).0) == row_key(
                        data,
                        rest[i].0,
                    );
                assert(all[k] == so_far[k]);
            } else if !listed(data, so_far, more.last()) {
                assert(all[all.len() - 1] == more.last());
            }
        }
        assert forall|i: int| rows.len() <= i < all.len() implies more.contains(
            #[trigger] all[i],
        ) by {
            if i < so_far.len() {
                let k = rest.index_of(so_far[i]);
                assert(more[k] == rest[k]);
            } else {
                assert(more[more.len() - 1] == all[i]);
            }
        }
    }
}

/// A pocket is reported when its last row (CANCEL) shows, its top was seen and
/// all its rows were read, and then with an item for every row: each row that
/// shows is among what is reported (by its item), each item is one of a row that
/// was seen, and the bag is closed. Before that the list is gone through: up to
/// its top first, and then down.
pub proof fn a_pocket_is_read_from_top_to_bottom(
    a: AuditV,
    o: Observation,
    data: GameData,
    cursor: u8,
    r: int,
)
    requires
        auditing(a),
        o.bag is Some,
        titled(o.bag->0.pocket@) == Some(a.pocket),
        o.bag->0.cursor == Some(cursor),
        o.bag->0.rows@.len() > 0,
        rows_read(data, rows_of(o.bag->0.rows@)) is Some,
        a.last_view is None,
        0 <= r < o.bag->0.rows@.len(),
        no_item_is_cancel(data),
    ensures
        ({
            let (next, d, events) = a.stepped(o, data);
            let shown = rows_of(o.bag->0.rows@);
            let top = a.top_seen || cursor == 0;
            let bottom = exists|i: int|
                0 <= i < shown.len() && reads_as("CANCEL"@, (#[trigger] shown[i]).0);
            &&& !top ==> button_pressed(d) == Some(Button::Up) && events.len() == 0 && next.rows
                == a.rows
            &&& top && !bottom ==> button_pressed(d) == Some(Button::Down) && events.len() == 0
            &&& top ==> listed(data, next.rows, shown[r])
            &&& events.len() > 0 ==> {
                &&& top && bottom && button_pressed(d) == Some(Button::B)
                &&& events.len() == 1 && events[0] is PocketObserved
                &&& events[0]->PocketObserved_pocket == a.pocket
                &&& !reads_as("CANCEL"@, shown[r].0) ==> exists|k: int|
                    0 <= k < events[0]->PocketObserved_items.len() && (
                    #[trigger] events[0]->PocketObserved_items[k]).0 == (row_item(
                        data,
                        shown[r],
                    )->0).0
            }
        }),
{
    let shown = rows_of(o.bag->0.rows@);
    let (next, d, events) = a.stepped(o, data);
    all_rows_are_kept(data, a.rows, shown);
    rows_are_items(data, shown);
    assert(shown[r] == shown[r]);
    let all = merged(data, a.rows, shown);
    if events.len() > 0 {
        rows_are_items(data, all);
        if !reads_as("CANCEL"@, shown[r].0) {
            let k = choose|k: int|
                0 <= k < all.len() && row_key(data, (#[trigger] all[k]).0) == row_key(
                    data,
                    shown[r].0,
                );
            cancel_has_its_own_key(data, all[k], shown[r]);
            assert(row_item(data, all[k]) is Some);
            let items = rows_read(data, all)->0;
            let j = items.index_of(row_item(data, all[k])->0);
            assert(items[j] == row_item(data, all[k])->0);
            assert(events[0]->PocketObserved_items[j].0 == (row_item(data, shown[r])->0).0);
        }
    }
}

proof fn cancel_has_its_own_key(data: GameData, a: RowV, b: RowV)
    requires
        row_key(data, a.0) == row_key(data, b.0),
        !reads_as("CANCEL"@, b.0),
        row_item(data, b) is Some,
        no_item_is_cancel(data),
    ensures
        !reads_as("CANCEL"@, a.0),
        row_item(data, a) matches Some(x) ==> x.0 == (row_item(data, b)->0).0,
{
}

/// No item's constant is the word of the last row.
pub open spec fn no_item_is_cancel(data: GameData) -> bool {
    forall|name: Seq<char>|
        (#[trigger] data.item_read(name)) matches Some(i) ==> i.key@ != "CANCEL"@
}

/// A row is the item that its name can only be read as, as many of it as it
/// prints; without a number, one of a key item.
pub proof fn a_row_is_what_it_prints(data: GameData, row: RowV, i: int)
    requires
        0 <= i < data.items@.len(),
        reads_as(data.items@[i].name@, row.0),
        forall|j: int|
            0 <= j < data.items@.len() && j != i ==> !reads_as(
                (#[trigger] data.items@[j]).name@,
                row.0,
            ),
    ensures
        row.1 is Some ==> row_item(data, row) == Some((data.items@[i].key@, row.1->0)),
        row.1 is None ==> row_item(data, row) == if data.items@[i].pocket is Some
            && data.items@[i].pocket->0@ == "POCKET_KEY_ITEMS"@ {
            Some((data.items@[i].key@, 1u16))
        } else {
            None
        },
{
    assert(crate::gamedata::only_fit(data.items@, row.0, i));
    let c = choose|k: int| crate::gamedata::only_fit(data.items@, row.0, k);
    assert(c == i) by {
        assert(reads_as(data.items@[c].name@, row.0));
    }
}

/// The audit ends only with its pocket read, the bag and the menu closed, and the
/// player on the map; until then both are closed by B.
pub proof fn an_audit_ends_outside(a: AuditV, o: Observation, data: GameData)
    requires
        in_the_bag(a.pocket),
        a.observed is Some,
        a.pending is None,
        a.retries == 0,
    ensures
        a.stepped(o, data).1 is Done <==> o.bag is None && o.menu is None && o.player is Some,
        o.bag is Some || o.menu is Some ==> button_pressed(a.stepped(o, data).1) == Some(Button::B),
        a.stepped(o, data).2.len() == 0,
{
}

// ---- Throwing ----

/// A throw that waits for nothing.
pub open spec fn throwing(t: ThrowerV) -> bool {
    t.gave_up is None && t.pending is None && t.retries == 0 && t.total_retries == 0
}

/// The list of balls, read the same on two frames: A selects a ball exactly where
/// the cursor is on its row, and it is one that no other in the list is better
/// than; elsewhere the cursor comes nearer to it. With the reserve kept, nothing
/// is selected once five balls or fewer are counted: the bag is left.
pub proof fn the_best_ball_is_selected(
    t: ThrowerV,
    o: Observation,
    data: GameData,
    ball: Seq<char>,
    earlier: u64,
    cursor: u8,
    items: Seq<(Seq<char>, u16)>,
    best: Seq<char>,
    row: int,
)
    requires
        throwing(t),
        o.bag is Some,
        o.bag->0.prompt is None,
        titled(o.bag->0.pocket@) == Some(Pocket::PokeBalls),
        o.bag->0.cursor == Some(cursor),
        0 < o.bag->0.rows@.len() <= 256,
        rows_read(data, rows_of(o.bag->0.rows@)) == Some(items),
        earlier < o.frame_id,
        t.candidate == Some((earlier, cursor, keyed(data, o.bag->0.rows@))),
        is_best(data, items, best),
        key_at(keyed(data, o.bag->0.rows@), best, row),
    ensures
        ({
            let (next, d, events) = t.stepped(o, data, ball);
            let all = o.bag->0.rows@.len() < 6 && cancel_shows(rows_of(o.bag->0.rows@));
            let kept = all && t.keep_reserve && balls_in(data, items) <= 5;
            &&& kept ==> next.gave_up is Some && next.at_reserve && button_pressed(d)
                != Some(Button::A)
            &&& !kept ==> {
                &&& button_pressed(d) == Some(
                    if cursor == row {
                        Button::A
                    } else if cursor < row {
                        Button::Down
                    } else {
                        Button::Up
                    },
                )
                &&& cursor == row ==> next.selected == Some(best)
                &&& cursor != row ==> next.selected == t.selected
            }
            &&& all && balls_in(data, items) <= 65535 ==> next.counted is Some && next.counted->0
                == balls_in(data, items)
            &&& !next.use_pressed == !t.use_pressed
        }),
{
    let i = choose|i: int|
        #[trigger] crate::catch::plan::throwable(data, items, i) && items[i].0 == best;
    assert(crate::catch::plan::throwable(data, items, i));
    let b = choose|item: Seq<char>| is_best(data, items, item);
    crate::catch::plan::the_best_ball_is_one(data, items, b, best);
    let rows = keyed(data, o.bag->0.rows@);
    let c = choose|i: int| key_at(rows, best, i);
    assert(c == row) by {
        assert(rows[c].0 == best);
        assert(rows[row].0 == best);
    }
}

/// The prompt of a selected ball: A exactly on the row of USE, which is then
/// pressed; the cursor else goes there. A prompt of nothing selected is left.
pub proof fn use_is_pressed(
    t: ThrowerV,
    o: Observation,
    data: GameData,
    ball: Seq<char>,
    row: int,
)
    requires
        throwing(t),
        o.bag is Some,
        o.bag->0.prompt is Some,
        line_at((o.bag->0.prompt->0).0@, "USE"@, row),
        row < 256,
    ensures
        ({
            let (next, d, _) = t.stepped(o, data, ball);
            let at = (o.bag->0.prompt->0).1 as int;
            &&& t.selected is None ==> button_pressed(d) == Some(Button::B)
            &&& t.selected is Some ==> button_pressed(d) == Some(
                if at == row {
                    Button::A
                } else if at < row {
                    Button::Down
                } else {
                    Button::Up
                },
            )
            &&& next.use_pressed <==> t.use_pressed || (t.selected is Some && at == row)
        }),
{
    let c = choose|i: int| line_at((o.bag->0.prompt->0).0@, "USE"@, i);
    assert(c == row) by {
        assert(reads_as("USE"@, (o.bag->0.prompt->0).0@[c]@));
        assert(reads_as("USE"@, (o.bag->0.prompt->0).0@[row]@));
    }
}

/// In another pocket of the battle's bag the balls are to the right.
pub proof fn balls_are_to_the_right(t: ThrowerV, o: Observation, data: GameData, ball: Seq<char>)
    requires
        throwing(t),
        o.bag is Some,
        o.bag->0.prompt is None,
        titled(o.bag->0.pocket@) == Some(Pocket::Items) || titled(o.bag->0.pocket@) == Some(
            Pocket::KeyItems,
        ),
    ensures
        button_pressed(t.stepped(o, data, ball).1) == Some(Button::Right),
{
}

/// A throw that was given up leaves the bag by B, and is done once it is closed.
pub proof fn a_throw_given_up_leaves(t: ThrowerV, o: Observation, data: GameData, ball: Seq<char>)
    requires
        t.gave_up is Some,
        t.closes < 8,
    ensures
        o.bag is None ==> t.stepped(o, data, ball).1 is Done,
        o.bag is Some ==> button_pressed(t.stepped(o, data, ball).1) == Some(Button::B),
{
}

/// A throw is given up with the thirteenth retry on a screen, or the forty-first
/// in all; a press that did not do what it was for is one, and so is every sixty
/// frames of waiting; a new screen starts afresh.
pub proof fn a_throw_has_its_patience(
    t: ThrowerV,
    o: Observation,
    data: GameData,
    ball: Seq<char>,
    why: Seq<char>,
)
    requires
        t.gave_up is None,
        t.retries < u32::MAX,
        t.total_retries < u32::MAX,
    ensures
        ({
            let n = t.noted(o);
            let stuck = throw_phase(o) == t.phase && t.pending is Some && !t.pending->0.met(o);
            let waited = t.waiting(o, why).0;
            &&& stuck ==> n.retries == t.retries + 1 && n.total_retries == t.total_retries + 1
            &&& !stuck ==> n.total_retries == t.total_retries && n.retries == if throw_phase(o)
                == t.phase {
                t.retries
            } else {
                0
            }
            &&& n.retries > 12 || n.total_retries > 40 ==> t.stepped(o, data, ball).0.gave_up
                is Some
            &&& waited.total_retries == if t.waiting_since is Some && o.frame_id
                >= t.waiting_since->0 + 60 {
                t.total_retries + 1
            } else {
                t.total_retries as int
            }
            &&& t.waiting(o, why).1 is Wait
        }),
{
}

/// The whole pocket, read the same on two frames: what it holds is told once, and
/// its balls are counted.
pub proof fn the_balls_are_counted(
    t: ThrowerV,
    o: Observation,
    data: GameData,
    ball: Seq<char>,
    items: Seq<(Seq<char>, u16)>,
)
    requires
        o.bag is Some,
        o.bag->0.cursor is Some,
        rows_read(data, rows_of(o.bag->0.rows@)) == Some(items),
        balls_in(data, items) <= u16::MAX,
    ensures
        ({
            let (next, d, events) = t.list_read(o, data, ball);
            let all = o.bag->0.rows@.len() < 6 && cancel_shows(rows_of(o.bag->0.rows@));
            &&& all ==> next.counted is Some && next.counted->0 == balls_in(data, items)
            &&& !all ==> next.counted == t.counted
            &&& all && !t.observed ==> events == seq![
                GameEventV::PocketObserved { pocket: Pocket::PokeBalls, items },
            ] && next.observed
            &&& !all || t.observed ==> events.len() == 0
        }),
{
}

/// An audit fails with the thirteenth retry on a screen; a press that did not do
/// what it was for is one, unless the list moved under it, and a new screen starts
/// afresh.
pub proof fn an_audit_has_its_patience(a: AuditV, o: Observation, data: GameData)
    requires
        in_the_bag(a.pocket),
        a.retries < u32::MAX,
    ensures
        ({
            let n = a.noted(o);
            let same = a.phase_on(o) == a.phase;
            let moved = o.bag is Some && a.last_view is Some && rows_of(o.bag->0.rows@)
                != a.last_view->0;
            let missed = same && a.pending is Some && !a.pending->0.met(o) && !moved;
            &&& !same ==> n.retries == 0
            &&& missed ==> n.retries == a.retries + 1
            &&& same && !missed ==> n.retries == a.retries
            &&& n.retries > 12 ==> a.stepped(o, data).1 is Fail
            &&& n.phase == a.phase_on(o) && n.pending is None && n.rows == a.rows
        }),
{
}

/// The row that the cursor of the Start menu is on is the one whose fifteen
/// pixels it is in, counted from the top of the window.
pub proof fn a_start_menu_row_is_fifteen_pixels(menu: MenuObservation, row: int)
    requires
        row >= 0,
        menu.cursor_y >= menu.window.y,
    ensures
        start_menu_row(menu) == row <==> 15 * row <= menu.cursor_y - menu.window.y < 15 * (row
            + 1),
        start_menu_rows(menu) == row <==> 15 * row <= menu.window.height + 7 < 15 * (row + 1),
{
}

/// A title is that of a pocket where it reads as its title and as no other's.
pub proof fn a_title_names_its_pocket(title: Seq<char>)
    ensures
        titled(title) == Some(Pocket::Items) ==> reads_as("ITEMS"@, title),
        titled(title) == Some(Pocket::KeyItems) ==> reads_as("KEY ITEMS"@, title),
        titled(title) == Some(Pocket::PokeBalls) ==> reads_as("POKé BALLS"@, title),
        reads_as("ITEMS"@, title) ==> titled(title) == Some(Pocket::Items),
        reads_as("KEY ITEMS"@, title) ==> titled(title) == Some(Pocket::KeyItems),
        reads_as("POKé BALLS"@, title) ==> titled(title) == Some(Pocket::PokeBalls),
{
    reveal_strlit("ITEMS");
    reveal_strlit("KEY ITEMS");
    reveal_strlit("POKé BALLS");
    assert("ITEMS"@.len() == 5 && "KEY ITEMS"@.len() == 9 && "POKé BALLS"@.len() == 10);
}

/// A list of balls is acted on once an earlier frame read the same rows with the
/// cursor on the same row; before that nothing is pressed.
pub proof fn a_list_of_balls_is_read_twice(
    t: ThrowerV,
    o: Observation,
    data: GameData,
    ball: Seq<char>,
)
    requires
        throwing(t),
        o.bag is Some,
        o.bag->0.prompt is None,
        titled(o.bag->0.pocket@) == Some(Pocket::PokeBalls),
        ({
            let rows = keyed(data, o.bag->0.rows@);
            t.candidate is None || (t.candidate->0).0 >= o.frame_id || o.bag->0.cursor != Some(
                (t.candidate->0).1,
            ) || (t.candidate->0).2 != rows
        }),
    ensures
        t.stepped(o, data, ball).1 is Wait,
        t.stepped(o, data, ball).2.len() == 0,
{
}

} // verus!
