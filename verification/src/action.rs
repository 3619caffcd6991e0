//! Actions and the effects that prove they worked.

use vstd::prelude::*;

use crate::bag::{pocket_from_title, titled};
use crate::input::{commands_of, CommandV, ControllerCommand};
use crate::motion::InputKind;
use crate::observe::{
    BattleMenu, DialogueKind, KeyboardFocus, Observation, PlayerPose, PoseV, ScreenState,
    SummaryPage,
};

verus! {

/// Text cells that must change for text to count as advanced.
pub const TEXT_CHANGE_CELLS: usize = 3;

/// One semantic step: the inputs to send and the observable effect that
/// proves they worked.
#[derive(Debug, Clone)]
pub struct Action {
    pub label: String,
    pub commands: Vec<ControllerCommand>,
    pub expect: Expectation,
    /// Frames to wait for the expectation after the inputs finish.
    pub timeout_frames: u64,
    /// Cancel the inputs early if something interrupts (dialogue, battle,
    /// menu): for long holds such as walking a straight run.
    pub interruptible: bool,
    /// What is timed once the action is confirmed: the kind of input and how
    /// many units of it (tiles, presses) it holds.
    pub timing: Option<(InputKind, usize)>,
}

/// What an action says.
pub struct ActionV {
    pub label: Seq<char>,
    pub commands: Seq<CommandV>,
    pub expect: ExpectationV,
    pub timeout_frames: u64,
    pub interruptible: bool,
    pub timing: Option<(InputKind, usize)>,
}

impl View for Action {
    type V = ActionV;

    open spec fn view(&self) -> ActionV {
        ActionV {
            label: self.label@,
            commands: commands_of(self.commands@),
            expect: self.expect@,
            timeout_frames: self.timeout_frames,
            interruptible: self.interruptible,
            timing: self.timing,
        }
    }
}

impl Action {
    pub fn new(
        label: String,
        commands: Vec<ControllerCommand>,
        expect: Expectation,
        timeout_frames: u64,
    ) -> (a: Action)
        ensures
            a.label == label,
            a.commands == commands,
            a.expect == expect,
            a.timeout_frames == timeout_frames,
            !a.interruptible,
            a.timing is None,
    {
        Action { label, commands, expect, timeout_frames, interruptible: false, timing: None }
    }

    pub fn interruptible(self) -> (a: Action)
        ensures
            a == (Action { interruptible: true, ..self }),
    {
        let mut a = self;
        a.interruptible = true;
        a
    }

    /// Timed when confirmed: `units` units of `kind`.
    pub fn timed(self, kind: InputKind, units: usize) -> (a: Action)
        ensures
            a == (Action { timing: Some((kind, units)), ..self }),
    {
        let mut a = self;
        a.timing = Some((kind, units));
        a
    }
}

/// What must be visible for an action to count as successful.
#[derive(Debug, Clone, PartialEq, Eq)]
pub enum Expectation {
    PartyList,
    PartySelected(u8),
    PartyActions,
    SummaryPage(SummaryPage),
    /// The dialogue's text changed (new page) or the dialogue closed.
    TextAdvanced { kind: DialogueKind, baseline: Vec<u8> },
    ScreenIs(ScreenState),
    ScreenIsNot(ScreenState),
    MenuCursorAt(u8),
    MenuOpen,
    MenuClosed,
    /// The menu ▶ moved above (`up`) or below its previous screen row.
    MenuCursorMoved { from_y: u32, up: bool },
    /// A question with a YES/NO menu is showing.
    Question,
    KeyboardFocus(KeyboardFocus),
    /// The naming cursor is on any letter key (not the button column).
    FocusOnAnyKey,
    TypedCount(u8),
    NamingClosed,
    /// The player was located somewhere other than this tile.
    PlayerMovedFrom(PlayerPose),
    /// The player stands on this tile.
    PlayerAt(PlayerPose),
    /// The player was located on a map other than this one.
    LeftMap(String),
    DialogueOpen,
    /// The battle ▶ is on this cell of this menu.
    BattleMenuAt(BattleMenu),
    /// The KNOWN MOVES list's selection frame is on this row.
    MoveListAt(u8),
    /// The KNOWN MOVES list is gone.
    MoveListClosed,
    /// The bag is open on a pocket whose title reads like this one (the same
    /// pocket through [`crate::bag::pocket_from_title`], or the same text); an
    /// empty title accepts any pocket.
    BagPocket(String),
    /// The bag list's ▶ is on this visible row.
    BagCursorAt(u8),
    /// Neither the bag nor a menu is showing.
    BagClosed,
    /// The battle bag's USE/CANCEL prompt is open.
    BagPrompt,
    /// The battle bag's USE/CANCEL prompt ▶ is on this row.
    BagPromptAt(u8),
    /// The Pokédex entry page (after a first catch) is gone.
    PokedexPageClosed,
    /// The mart list's ▶ is on this visible row.
    ShopCursorAt(u8),
    /// The mart's quantity box reads this count (not just any count: an Up that
    /// wrapped past the maximum, or overshot, is not met).
    ShopQuantity(u16),
    /// The mart is left: no mart window, menu or dialogue is showing.
    ShopClosed,
    /// Nothing to verify; only wait for the inputs to finish.
    InputsDone,
}

/// What an expectation says.
pub enum ExpectationV {
    PartyList,
    PartySelected(u8),
    PartyActions,
    SummaryPage(SummaryPage),
    TextAdvanced { kind: DialogueKind, baseline: Seq<u8> },
    ScreenIs(ScreenState),
    ScreenIsNot(ScreenState),
    MenuCursorAt(u8),
    MenuOpen,
    MenuClosed,
    MenuCursorMoved { from_y: u32, up: bool },
    Question,
    KeyboardFocus(KeyboardFocus),
    FocusOnAnyKey,
    TypedCount(u8),
    NamingClosed,
    PlayerMovedFrom(PoseV),
    PlayerAt(PoseV),
    LeftMap(Seq<char>),
    DialogueOpen,
    BattleMenuAt(BattleMenu),
    MoveListAt(u8),
    MoveListClosed,
    BagPocket(Seq<char>),
    BagCursorAt(u8),
    BagClosed,
    BagPrompt,
    BagPromptAt(u8),
    PokedexPageClosed,
    ShopCursorAt(u8),
    ShopQuantity(u16),
    ShopClosed,
    InputsDone,
}

impl View for Expectation {
    type V = ExpectationV;

    open spec fn view(&self) -> ExpectationV {
        match *self {
            Expectation::PartyList => ExpectationV::PartyList,
            Expectation::PartySelected(x) => ExpectationV::PartySelected(x),
            Expectation::PartyActions => ExpectationV::PartyActions,
            Expectation::SummaryPage(x) => ExpectationV::SummaryPage(x),
            Expectation::TextAdvanced { kind, baseline } => ExpectationV::TextAdvanced { kind, baseline: baseline@ },
            Expectation::ScreenIs(x) => ExpectationV::ScreenIs(x),
            Expectation::ScreenIsNot(x) => ExpectationV::ScreenIsNot(x),
            Expectation::MenuCursorAt(x) => ExpectationV::MenuCursorAt(x),
            Expectation::MenuOpen => ExpectationV::MenuOpen,
            Expectation::MenuClosed => ExpectationV::MenuClosed,
            Expectation::MenuCursorMoved { from_y, up } => ExpectationV::MenuCursorMoved { from_y, up },
            Expectation::Question => ExpectationV::Question,
            Expectation::KeyboardFocus(x) => ExpectationV::KeyboardFocus(x),
            Expectation::FocusOnAnyKey => ExpectationV::FocusOnAnyKey,
            Expectation::TypedCount(x) => ExpectationV::TypedCount(x),
            Expectation::NamingClosed => ExpectationV::NamingClosed,
            Expectation::PlayerMovedFrom(x) => ExpectationV::PlayerMovedFrom(x@),
            Expectation::PlayerAt(x) => ExpectationV::PlayerAt(x@),
            Expectation::LeftMap(x) => ExpectationV::LeftMap(x@),
            Expectation::DialogueOpen => ExpectationV::DialogueOpen,
            Expectation::BattleMenuAt(x) => ExpectationV::BattleMenuAt(x),
            Expectation::MoveListAt(x) => ExpectationV::MoveListAt(x),
            Expectation::MoveListClosed => ExpectationV::MoveListClosed,
            Expectation::BagPocket(x) => ExpectationV::BagPocket(x@),
            Expectation::BagCursorAt(x) => ExpectationV::BagCursorAt(x),
            Expectation::BagClosed => ExpectationV::BagClosed,
            Expectation::BagPrompt => ExpectationV::BagPrompt,
            Expectation::BagPromptAt(x) => ExpectationV::BagPromptAt(x),
            Expectation::PokedexPageClosed => ExpectationV::PokedexPageClosed,
            Expectation::ShopCursorAt(x) => ExpectationV::ShopCursorAt(x),
            Expectation::ShopQuantity(x) => ExpectationV::ShopQuantity(x),
            Expectation::ShopClosed => ExpectationV::ShopClosed,
            Expectation::InputsDone => ExpectationV::InputsDone,
        }
    }
}

/// Position `i` differs between two lists of cells; a position that only one
/// of them has differs.
pub open spec fn differs_at(a: Seq<u8>, b: Seq<u8>, i: int) -> bool {
    i >= a.len() || i >= b.len() || a[i] != b[i]
}

/// How many of the first `n` positions differ.
pub open spec fn differing(a: Seq<u8>, b: Seq<u8>, n: nat) -> nat
    decreases n,
{
    if n == 0 {
        0
    } else {
        differing(a, b, (n - 1) as nat) + if differs_at(a, b, n - 1) { 1nat } else { 0nat }
    }
}

/// How many positions differ between two lists of cells.
pub open spec fn changed(a: Seq<u8>, b: Seq<u8>) -> nat {
    differing(a, b, if a.len() > b.len() { a.len() } else { b.len() })
}

/// How many cells of a text window changed. Windows are read as lists of equal
/// length; of lists of unequal length, a cell that only one of them has counts
/// as changed, which is this library's own choice.
pub fn changed_cells(before: &Vec<u8>, now: &Vec<u8>) -> (n: usize)
    ensures
        n == changed(before@, now@),
{
    let longest: usize = if before.len() > now.len() { before.len() } else { now.len() };
    let mut n: usize = 0;
    let mut i: usize = 0;
    while i < longest
        invariant
            i <= longest,
            n <= i,
            n == differing(before@, now@, i as nat),
        decreases longest - i,
    {
        if i >= before.len() || i >= now.len() || before[i] != now[i] {
            n += 1;
        }
        i += 1;
    }
    n
}

pub(crate) fn copy_cells(cells: &Vec<u8>) -> (v: Vec<u8>)
    ensures
        v@ == cells@,
{
    let mut v: Vec<u8> = Vec::new();
    let mut i: usize = 0;
    while i < cells.len()
        invariant
            i <= cells@.len(),
            v@ == cells@.take(i as int),
        decreases cells@.len() - i,
    {
        v.push(cells[i]);
        i += 1;
    }
    v
}

impl ExpectationV {
    /// What a frame must show.
    pub open spec fn met(self, o: Observation) -> bool {
        match self {
            ExpectationV::PartyList => o.party_menu is Some && !o.party_menu->0.actions,
            ExpectationV::PartySelected(slot) => o.party_menu is Some && !o.party_menu->0.actions
                && o.party_menu->0.selected == Some(slot),
            ExpectationV::PartyActions => o.party_menu is Some && o.party_menu->0.actions,
            ExpectationV::SummaryPage(page) => o.summary == Some(page),
            ExpectationV::TextAdvanced { kind, baseline } => o.dialogue is None
                || o.dialogue->0.kind != kind || changed(baseline, o.dialogue->0.text_cells@)
                >= TEXT_CHANGE_CELLS,
            ExpectationV::ScreenIs(screen) => o.screen == screen,
            ExpectationV::ScreenIsNot(screen) => o.screen != screen,
            ExpectationV::MenuCursorAt(row) => o.menu is Some && o.menu->0.cursor_row == row,
            ExpectationV::MenuOpen => o.menu is Some,
            ExpectationV::MenuClosed => o.menu is None,
            ExpectationV::MenuCursorMoved { from_y, up } => o.menu is Some && if up {
                o.menu->0.cursor_y < from_y
            } else {
                o.menu->0.cursor_y > from_y
            },
            ExpectationV::Question => o.dialogue is Some && o.menu is Some,
            ExpectationV::KeyboardFocus(focus) => o.naming is Some && o.naming->0.focus == focus,
            ExpectationV::FocusOnAnyKey => o.naming is Some && o.naming->0.focus is Key,
            ExpectationV::TypedCount(count) => o.naming is Some && o.naming->0.typed == count,
            ExpectationV::NamingClosed => o.naming is None && o.screen != ScreenState::Naming,
            ExpectationV::PlayerMovedFrom(from) => o.player is Some && o.player->0@ != from,
            ExpectationV::PlayerAt(at) => o.player is Some && o.player->0@ == at,
            ExpectationV::LeftMap(map) => o.player is Some && o.player->0.map@ != map,
            ExpectationV::DialogueOpen => o.dialogue is Some,
            ExpectationV::BattleMenuAt(menu) => o.battle is Some && o.battle->0.menu == Some(menu),
            ExpectationV::MoveListAt(row) => o.move_list is Some && o.move_list->0.selected == Some(
                row,
            ),
            ExpectationV::MoveListClosed => o.move_list is None,
            ExpectationV::BagPocket(title) => o.bag is Some && (title.len() == 0
                || o.bag->0.pocket@ == title || (titled(o.bag->0.pocket@) is Some && titled(title)
                == titled(o.bag->0.pocket@))),
            ExpectationV::BagCursorAt(row) => o.bag is Some && o.bag->0.cursor == Some(row),
            ExpectationV::BagClosed => o.bag is None && o.menu is None,
            ExpectationV::BagPrompt => o.bag is Some && o.bag->0.prompt is Some,
            ExpectationV::BagPromptAt(row) => o.bag is Some && o.bag->0.prompt is Some
                && (o.bag->0.prompt->0).1 == row,
            ExpectationV::PokedexPageClosed => !o.pokedex_page,
            ExpectationV::ShopCursorAt(row) => o.shop is Some && o.shop->0.cursor == Some(row),
            ExpectationV::ShopQuantity(count) => o.shop is Some && o.shop->0.quantity is Some
                && (o.shop->0.quantity->0).0 == count,
            ExpectationV::ShopClosed => o.shop is None && o.menu is None && o.dialogue is None,
            ExpectationV::InputsDone => true,
        }
    }
}

impl Expectation {
    /// Whether a frame shows the effect.
    pub fn met(&self, o: &Observation) -> (r: bool)
        ensures
            r == self@.met(*o),
    {
        match self {
            Expectation::PartyList => match &o.party_menu {
                Some(m) => !m.actions,
                None => false,
            },
            Expectation::PartySelected(slot) => match &o.party_menu {
                Some(m) => !m.actions && m.selected == Some(*slot),
                None => false,
            },
            Expectation::PartyActions => match &o.party_menu {
                Some(m) => m.actions,
                None => false,
            },
            Expectation::SummaryPage(page) => match &o.summary {
                Some(p) => *p == *page,
                None => false,
            },
            Expectation::TextAdvanced { kind, baseline } => match &o.dialogue {
                Some(d) => d.kind != *kind || changed_cells(baseline, &d.text_cells)
                    >= TEXT_CHANGE_CELLS,
                None => true,
            },
            Expectation::ScreenIs(screen) => o.screen == *screen,
            Expectation::ScreenIsNot(screen) => o.screen != *screen,
            Expectation::MenuCursorAt(row) => match &o.menu {
                Some(m) => m.cursor_row == *row,
                None => false,
            },
            Expectation::MenuOpen => o.menu.is_some(),
            Expectation::MenuClosed => o.menu.is_none(),
            Expectation::MenuCursorMoved { from_y, up } => match &o.menu {
                Some(m) => if *up {
                    m.cursor_y < *from_y
                } else {
                    m.cursor_y > *from_y
                },
                None => false,
            },
            Expectation::Question => o.dialogue.is_some() && o.menu.is_some(),
            Expectation::KeyboardFocus(focus) => match &o.naming {
                Some(n) => n.focus == *focus,
                None => false,
            },
            Expectation::FocusOnAnyKey => match &o.naming {
                Some(n) => match n.focus {
                    KeyboardFocus::Key { .. } => true,
                    KeyboardFocus::Buttons => false,
                },
                None => false,
            },
            Expectation::TypedCount(count) => match &o.naming {
                Some(n) => n.typed == *count,
                None => false,
            },
            Expectation::NamingClosed => o.naming.is_none() && o.screen != ScreenState::Naming,
            Expectation::PlayerMovedFrom(from) => match &o.player {
                Some(p) => !p.same(from),
                None => false,
            },
            Expectation::PlayerAt(at) => match &o.player {
                Some(p) => p.same(at),
                None => false,
            },
            Expectation::LeftMap(map) => match &o.player {
                Some(p) => p.map != *map,
                None => false,
            },
            Expectation::DialogueOpen => o.dialogue.is_some(),
            Expectation::BattleMenuAt(menu) => match &o.battle {
                Some(b) => b.menu == Some(*menu),
                None => false,
            },
            Expectation::MoveListAt(row) => match &o.move_list {
                Some(l) => l.selected == Some(*row),
                None => false,
            },
            Expectation::MoveListClosed => o.move_list.is_none(),
            Expectation::BagPocket(title) => match &o.bag {
                Some(b) => {
                    if title.as_str().is_empty() || b.pocket == *title {
                        true
                    } else {
                        match pocket_from_title(&b.pocket) {
                            Some(p) => pocket_from_title(title) == Some(p),
                            None => false,
                        }
                    }
                },
                None => false,
            },
            Expectation::BagCursorAt(row) => match &o.bag {
                Some(b) => b.cursor == Some(*row),
                None => false,
            },
            Expectation::BagClosed => o.bag.is_none() && o.menu.is_none(),
            Expectation::BagPrompt => match &o.bag {
                Some(b) => b.prompt.is_some(),
                None => false,
            },
            Expectation::BagPromptAt(row) => match &o.bag {
                Some(b) => match &b.prompt {
                    Some(p) => p.1 == *row,
                    None => false,
                },
                None => false,
            },
            Expectation::PokedexPageClosed => !o.pokedex_page,
            Expectation::ShopCursorAt(row) => match &o.shop {
                Some(s) => s.cursor == Some(*row),
                None => false,
            },
            Expectation::ShopQuantity(count) => match &o.shop {
                Some(s) => match s.quantity {
                    Some(q) => q.0 == *count,
                    None => false,
                },
                None => false,
            },
            Expectation::ShopClosed => o.shop.is_none() && o.menu.is_none()
                && o.dialogue.is_none(),
            Expectation::InputsDone => true,
        }
    }

    pub fn copy(&self) -> (e: Expectation)
        ensures
            e@ == self@,
    {
        match self {
            Expectation::PartyList => Expectation::PartyList,
            Expectation::PartySelected(x) => Expectation::PartySelected(*x),
            Expectation::PartyActions => Expectation::PartyActions,
            Expectation::SummaryPage(x) => Expectation::SummaryPage(*x),
            Expectation::TextAdvanced { kind, baseline } => Expectation::TextAdvanced {
                kind: *kind,
                baseline: copy_cells(baseline),
            },
            Expectation::ScreenIs(x) => Expectation::ScreenIs(*x),
            Expectation::ScreenIsNot(x) => Expectation::ScreenIsNot(*x),
            Expectation::MenuCursorAt(x) => Expectation::MenuCursorAt(*x),
            Expectation::MenuOpen => Expectation::MenuOpen,
            Expectation::MenuClosed => Expectation::MenuClosed,
            Expectation::MenuCursorMoved { from_y, up } => Expectation::MenuCursorMoved { from_y: *from_y, up: *up },
            Expectation::Question => Expectation::Question,
            Expectation::KeyboardFocus(x) => Expectation::KeyboardFocus(*x),
            Expectation::FocusOnAnyKey => Expectation::FocusOnAnyKey,
            Expectation::TypedCount(x) => Expectation::TypedCount(*x),
            Expectation::NamingClosed => Expectation::NamingClosed,
            Expectation::PlayerMovedFrom(x) => Expectation::PlayerMovedFrom(x.copy()),
            Expectation::PlayerAt(x) => Expectation::PlayerAt(x.copy()),
            Expectation::LeftMap(x) => Expectation::LeftMap(x.clone()),
            Expectation::DialogueOpen => Expectation::DialogueOpen,
            Expectation::BattleMenuAt(x) => Expectation::BattleMenuAt(*x),
            Expectation::MoveListAt(x) => Expectation::MoveListAt(*x),
            Expectation::MoveListClosed => Expectation::MoveListClosed,
            Expectation::BagPocket(x) => Expectation::BagPocket(x.clone()),
            Expectation::BagCursorAt(x) => Expectation::BagCursorAt(*x),
            Expectation::BagClosed => Expectation::BagClosed,
            Expectation::BagPrompt => Expectation::BagPrompt,
            Expectation::BagPromptAt(x) => Expectation::BagPromptAt(*x),
            Expectation::PokedexPageClosed => Expectation::PokedexPageClosed,
            Expectation::ShopCursorAt(x) => Expectation::ShopCursorAt(*x),
            Expectation::ShopQuantity(x) => Expectation::ShopQuantity(*x),
            Expectation::ShopClosed => Expectation::ShopClosed,
            Expectation::InputsDone => Expectation::InputsDone,
        }
    }
}

} // verus!
