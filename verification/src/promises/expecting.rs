//! What an action waits to see.

use vstd::prelude::*;

use crate::action::{changed, differing, differs_at, ExpectationV};
use crate::bag::titled;
use crate::event::Pocket;
use crate::observe::{
    BattleMenu, DialogueKind, KeyboardFocus, Observation, PoseV, ScreenState, SummaryPage,
};

verus! {

proof fn nothing_differs_from_itself(a: Seq<u8>, n: nat)
    requires
        n <= a.len(),
    ensures
        differing(a, a, n) == 0,
    decreases n,
{
    if n > 0 {
        nothing_differs_from_itself(a, (n - 1) as nat);
    }
}

proof fn differences_are_mutual(a: Seq<u8>, b: Seq<u8>, n: nat)
    ensures
        differing(a, b, n) == differing(b, a, n),
        differing(a, b, n) <= n,
    decreases n,
{
    if n > 0 {
        differences_are_mutual(a, b, (n - 1) as nat);
    }
}

proof fn everything_may_differ(a: Seq<u8>, b: Seq<u8>, n: nat)
    requires
        forall|i: int| 0 <= i < n ==> #[trigger] differs_at(a, b, i),
    ensures
        differing(a, b, n) == n,
    decreases n,
{
    if n > 0 {
        assert(differs_at(a, b, n - 1));
        everything_may_differ(a, b, (n - 1) as nat);
    }
}

proof fn one_cell_differs(a: Seq<u8>, at: int, v: u8, n: nat)
    requires
        0 <= at < a.len(),
        n <= a.len(),
        v != a[at],
    ensures
        differing(a, a.update(at, v), n) == if at < n {
            1int
        } else {
            0
        },
    decreases n,
{
    if n > 0 {
        one_cell_differs(a, at, v, (n - 1) as nat);
    }
}

/// The cells in which two texts differ: none of a text and itself, one where one
/// was changed, all where all were, as many one way as the other.
pub proof fn cells_that_differ_are_counted(a: Seq<u8>, b: Seq<u8>, at: int, v: u8)
    ensures
        changed(a, a) == 0,
        changed(a, b) == changed(b, a),
        0 <= at < a.len() && v != a[at] ==> changed(a, a.update(at, v)) == 1,
        a.len() == b.len() && (forall|i: int| 0 <= i < a.len() ==> #[trigger] a[i] != b[i])
            ==> changed(a, b) == a.len(),
        b.len() == 0 ==> changed(a, b) == a.len(),
{
    nothing_differs_from_itself(a, a.len());
    differences_are_mutual(a, b, a.len());
    differences_are_mutual(a, b, b.len());
    if 0 <= at < a.len() && v != a[at] {
        one_cell_differs(a, at, v, a.len());
    }
    if a.len() == b.len() && (forall|i: int| 0 <= i < a.len() ==> #[trigger] a[i] != b[i]) {
        assert forall|i: int| 0 <= i < a.len() implies #[trigger] differs_at(a, b, i) by {
            assert(a[i] != b[i]);
        }
        everything_may_differ(a, b, a.len());
    }
    if b.len() == 0 {
        everything_may_differ(a, b, a.len());
    }
}

/// Text has been advanced once its box is gone or another, and within the same
/// box once three of its cells changed; the text as it stood has not been.
pub proof fn text_is_advanced_once_it_changes(kind: DialogueKind, baseline: Seq<u8>, o: Observation)
    ensures
        ({
            let e = ExpectationV::TextAdvanced { kind, baseline };
            &&& o.dialogue is None ==> e.met(o)
            &&& o.dialogue is Some && o.dialogue->0.kind != kind ==> e.met(o)
            &&& o.dialogue is Some && o.dialogue->0.kind == kind && o.dialogue->0.text_cells@
                == baseline ==> !e.met(o)
            &&& o.dialogue is Some && o.dialogue->0.kind == kind ==> (e.met(o) <==> changed(
                baseline,
                o.dialogue->0.text_cells@,
            ) >= 3)
        }),
{
    nothing_differs_from_itself(baseline, baseline.len());
}

/// What is open is not closed, where the player is they have not left, and one
/// screen is not another.
pub proof fn opposites_are_not_both_seen(
    o: Observation,
    s: ScreenState,
    other: ScreenState,
    at: PoseV,
)
    ensures
        ExpectationV::ScreenIs(s).met(o) <==> o.screen == s,
        ExpectationV::PlayerAt(at).met(o) <==> o.player is Some && o.player->0@ == at,
        ExpectationV::MenuOpen.met(o) <==> o.menu is Some,
        ExpectationV::DialogueOpen.met(o) <==> o.dialogue is Some,
        ExpectationV::BagClosed.met(o) <==> o.bag is None && o.menu is None,
        ExpectationV::ScreenIs(s).met(o) <==> !ExpectationV::ScreenIsNot(s).met(o),
        s != other ==> !(ExpectationV::ScreenIs(s).met(o) && ExpectationV::ScreenIs(other).met(o)),
        ExpectationV::MenuOpen.met(o) <==> !ExpectationV::MenuClosed.met(o),
        !(ExpectationV::PlayerAt(at).met(o) && ExpectationV::PlayerMovedFrom(at).met(o)),
        o.player is Some ==> ExpectationV::PlayerAt(at).met(o)
            || ExpectationV::PlayerMovedFrom(at).met(o),
        ExpectationV::PlayerAt(at).met(o) ==> !ExpectationV::LeftMap(at.map).met(o),
        ExpectationV::LeftMap(at.map).met(o) ==> ExpectationV::PlayerMovedFrom(at).met(o),
        !(ExpectationV::PartyList.met(o) && ExpectationV::PartyActions.met(o)),
        !(ExpectationV::BagClosed.met(o) && ExpectationV::BagPrompt.met(o)),
        ExpectationV::ShopClosed.met(o) ==> ExpectationV::MenuClosed.met(o)
            && !ExpectationV::DialogueOpen.met(o),
        ExpectationV::Question.met(o) <==> ExpectationV::MenuOpen.met(o)
            && ExpectationV::DialogueOpen.met(o),
        ExpectationV::InputsDone.met(o),
{
}

/// Where nothing of a kind is on the screen, nothing about it is seen.
pub proof fn nothing_is_seen_where_nothing_is(o: Observation, at: PoseV, n: u8)
    ensures
        o.player is None ==> !ExpectationV::PlayerAt(at).met(o) && !ExpectationV::PlayerMovedFrom(
            at,
        ).met(o) && !ExpectationV::LeftMap(at.map).met(o),
        o.bag is None ==> !ExpectationV::BagCursorAt(n).met(o) && !ExpectationV::BagPrompt.met(o)
            && !ExpectationV::BagPromptAt(n).met(o) && !ExpectationV::BagPocket(Seq::empty()).met(
            o,
        ),
        o.shop is None ==> !ExpectationV::ShopCursorAt(n).met(o),
        o.move_list is None ==> ExpectationV::MoveListClosed.met(o) && !ExpectationV::MoveListAt(
            n,
        ).met(o),
        o.party_menu is None ==> !ExpectationV::PartyList.met(o)
            && !ExpectationV::PartyActions.met(o) && !ExpectationV::PartySelected(n).met(o),
        o.naming is None ==> !ExpectationV::FocusOnAnyKey.met(o),
{
}

/// A cursor is seen at one row alone, and a selection in the list alone.
pub proof fn a_cursor_is_at_one_row(o: Observation, a: u8, b: u8)
    requires
        a != b,
    ensures
        !(ExpectationV::BagCursorAt(a).met(o) && ExpectationV::BagCursorAt(b).met(o)),
        !(ExpectationV::ShopCursorAt(a).met(o) && ExpectationV::ShopCursorAt(b).met(o)),
        !(ExpectationV::MoveListAt(a).met(o) && ExpectationV::MoveListAt(b).met(o)),
        !(ExpectationV::PartySelected(a).met(o) && ExpectationV::PartySelected(b).met(o)),
        !(ExpectationV::BagPromptAt(a).met(o) && ExpectationV::BagPromptAt(b).met(o)),
        ExpectationV::PartySelected(a).met(o) ==> ExpectationV::PartyList.met(o),
        ExpectationV::BagPromptAt(a).met(o) ==> ExpectationV::BagPrompt.met(o),
{
}

/// A cursor, a count or a focus is seen where it is, and a list, a page or a
/// keyboard is closed where none shows.
pub proof fn what_is_waited_for_is_what_shows(
    o: Observation,
    row: u8,
    count: u16,
    focus: KeyboardFocus,
    menu: BattleMenu,
    from_y: u32,
    page: SummaryPage,
)
    ensures
        ExpectationV::MenuCursorAt(row).met(o) <==> o.menu is Some && o.menu->0.cursor_row == row,
        (ExpectationV::MenuCursorMoved { from_y, up: true }).met(o) <==> o.menu is Some
            && o.menu->0.cursor_y < from_y,
        (ExpectationV::MenuCursorMoved { from_y, up: false }).met(o) <==> o.menu is Some
            && o.menu->0.cursor_y > from_y,
        ExpectationV::BattleMenuAt(menu).met(o) <==> o.battle is Some && o.battle->0.menu == Some(
            menu,
        ),
        ExpectationV::KeyboardFocus(focus).met(o) <==> o.naming is Some && o.naming->0.focus
            == focus,
        ExpectationV::TypedCount(row).met(o) <==> o.naming is Some && o.naming->0.typed == row,
        ExpectationV::NamingClosed.met(o) <==> o.naming is None && o.screen != ScreenState::Naming,
        ExpectationV::MoveListAt(row).met(o) <==> o.move_list is Some && o.move_list->0.selected
            == Some(row),
        ExpectationV::MoveListClosed.met(o) <==> o.move_list is None,
        ExpectationV::PokedexPageClosed.met(o) <==> !o.pokedex_page,
        ExpectationV::BagCursorAt(row).met(o) <==> o.bag is Some && o.bag->0.cursor == Some(row),
        ExpectationV::BagPromptAt(row).met(o) <==> o.bag is Some && o.bag->0.prompt is Some && (
        o.bag->0.prompt->0).1 == row,
        ExpectationV::ShopCursorAt(row).met(o) <==> o.shop is Some && o.shop->0.cursor == Some(row),
        ExpectationV::ShopQuantity(count).met(o) <==> o.shop is Some && o.shop->0.quantity is Some
            && (o.shop->0.quantity->0).0 == count,
        ExpectationV::PartySelected(row).met(o) <==> o.party_menu is Some
            && !o.party_menu->0.actions && o.party_menu->0.selected == Some(row),
        ExpectationV::SummaryPage(page).met(o) <==> o.summary == Some(page),
        ExpectationV::FocusOnAnyKey.met(o) <==> o.naming is Some && o.naming->0.focus is Key,
{
}

/// A pocket of the bag is seen by its title, however well that was read; without
/// a title any will do.
pub proof fn a_pocket_is_seen_by_its_title(o: Observation, pocket: Pocket, title: Seq<char>)
    requires
        o.bag is Some,
        titled(title) == Some(pocket),
    ensures
        titled(o.bag->0.pocket@) == Some(pocket) ==> ExpectationV::BagPocket(title).met(o),
        o.bag->0.pocket@ == title ==> ExpectationV::BagPocket(title).met(o),
        title.len() > 0 && titled(o.bag->0.pocket@) is Some && titled(o.bag->0.pocket@) != Some(
            pocket,
        ) ==> !ExpectationV::BagPocket(title).met(o),
        ExpectationV::BagPocket(Seq::empty()).met(o),
{
}

} // verus!
