//! Buying at a Poké Mart.
//!
//! Every step is closed-loop on what the mart shows: the BUY / SELL / SEE
//! YA! menu's rows are read to find BUY, the item's row is found by its
//! name, the quantity is stepped one Up or Down at a time until the box
//! reads the count, and the "…you want N. That will be ¥T. Okay?" text must
//! agree before YES. Back on the list, the money read confirms what was
//! paid. Money, quantities and prices count only once two frames read them
//! the same (a single misread digit must never be acted on).

use vstd::prelude::*;
use vstd::string::{StrSliceExecFns, StringExecFns};

use crate::action::{copy_cells, Expectation, ExpectationV};
use crate::bag::{by_item, find_row, fits, keyed, line_reading, reads_as, row_below, row_with};
use crate::event::{events_of, report, GameEvent, GameEventV, Pocket};
use crate::executor::{press, pressing, Decision, DecisionV};
use crate::gamedata::GameData;
use crate::input::Button;
use crate::observe::{
    lines_of, DialogueObservation, MenuObservation, Observation, ScreenState, ShopObservation,
};
use crate::save::{count, counted};
use crate::stock::{affordable, affords, buy_count, price, price_of, to_buy};
use crate::text::{
    cat, cat3, chars, contains, decimal, decimal_of, find, first_at, join, joined, signed,
    signed_of, within,
};

verus! {

/// More retries than this in one phase fail the purchase.
pub const MAX_RETRIES: u32 = 12;

/// More retries than this in the whole purchase fail it.
pub const MAX_TOTAL_RETRIES: u32 = 40;

/// A wait (unreadable text or numbers) this long counts as one retry.
pub const WAIT_RETRY_FRAMES: u64 = 60;

/// Cursor steps and scrolls in the list before giving up on the item.
pub const MAX_LIST_MOVES: u32 = 40;

/// SEE YA! presses before giving up on leaving (an A that lands after the
/// last page closed talks to the clerk again).
pub const MAX_LEAVES: u32 = 8;

/// The quantity box never goes past this.
pub const MAX_QUANTITY: u16 = 99;

/// Frames to wait for each effect. Mart text prints slowly: about 240 frames
/// after each A.
pub const CURSOR_FRAMES: u64 = 45;

pub const LIST_FRAMES: u64 = 120;

pub const TEXT_FRAMES: u64 = 240;

#[derive(Debug, Clone, Copy, PartialEq, Eq, Structural)]
pub enum Phase {
    /// BUY / SELL / SEE YA! over the clerk's text.
    Menu,
    /// The item list has focus (MONEY, rows, ▶).
    List,
    /// The quantity box has focus.
    Quantity,
    /// "…you want N. That will be ¥T. Okay?" with YES/NO.
    Confirm,
    /// Clerk text without a menu.
    Text,
    /// Back in the overworld.
    Outside,
    /// Anything else (fades, a frame between screens).
    Other,
}

impl Phase {
    pub open spec fn called(self) -> Seq<char> {
        match self {
            Phase::Menu => "Menu"@,
            Phase::List => "List"@,
            Phase::Quantity => "Quantity"@,
            Phase::Confirm => "Confirm"@,
            Phase::Text => "Text"@,
            Phase::Outside => "Outside"@,
            Phase::Other => "Other"@,
        }
    }

    pub fn name(self) -> (s: &'static str)
        ensures
            s@ == self.called(),
    {
        match self {
            Phase::Menu => "Menu",
            Phase::List => "List",
            Phase::Quantity => "Quantity",
            Phase::Confirm => "Confirm",
            Phase::Text => "Text",
            Phase::Outside => "Outside",
            Phase::Other => "Other",
        }
    }
}

/// Some line could be `name`.
pub open spec fn shows_line(lines: Seq<String>, name: Seq<char>) -> bool {
    exists|i: int| 0 <= i < lines.len() && reads_as(name, (#[trigger] lines[i])@)
}

/// Row `i` is the first that could be `name`.
pub open spec fn line_at(lines: Seq<String>, name: Seq<char>, i: int) -> bool {
    &&& 0 <= i < lines.len()
    &&& reads_as(name, lines[i]@)
    &&& forall|j: int| 0 <= j < i ==> !reads_as(name, (#[trigger] lines[j])@)
}

/// The mart's BUY / SELL / SEE YA! menu is showing.
pub open spec fn mart_menu(o: Observation) -> bool {
    o.menu is Some && shows_line(o.menu_lines@, "BUY"@) && shows_line(o.menu_lines@, "SELL"@)
}

/// The mart's BUY / SELL / SEE YA! menu is showing.
pub fn is_mart_menu(o: &Observation) -> (r: bool)
    ensures
        r == mart_menu(*o),
{
    o.menu.is_some() && line_reading(&o.menu_lines, "BUY").is_some() && line_reading(
        &o.menu_lines,
        "SELL",
    ).is_some()
}

/// The menu is YES / NO.
pub open spec fn yes_no(o: Observation) -> bool {
    o.menu_lines@.len() == 2 && reads_as("YES"@, o.menu_lines@[0]@) && reads_as(
        "NO"@,
        o.menu_lines@[1]@,
    )
}

fn is_yes_no(o: &Observation) -> (r: bool)
    ensures
        r == yes_no(*o),
{
    o.menu_lines.len() == 2 && fits("YES", &o.menu_lines[0]) && fits("NO", &o.menu_lines[1])
}

pub open spec fn is_digit(c: char) -> bool {
    '0' <= c && c <= '9'
}

pub open spec fn digit_value(c: char) -> nat {
    (c as u32 - '0' as u32) as nat
}

/// How far digits and commas go.
pub open spec fn digits_end(s: Seq<char>, from: int) -> int
    decreases s.len() - from,
{
    if 0 <= from < s.len() && (is_digit(s[from]) || s[from] == ',') {
        digits_end(s, from + 1)
    } else {
        from
    }
}

/// The digits of a text.
pub open spec fn digits_of(s: Seq<char>) -> Seq<char>
    decreases s.len(),
{
    if s.len() == 0 {
        Seq::empty()
    } else if is_digit(s.last()) {
        digits_of(s.drop_last()).push(s.last())
    } else {
        digits_of(s.drop_last())
    }
}

/// The number that digits write.
pub open spec fn value_of(digits: Seq<char>) -> nat
    decreases digits.len(),
{
    if digits.len() == 0 {
        0
    } else {
        10 * value_of(digits.drop_last()) + digit_value(digits.last())
    }
}

/// The number right after the first `marker` in `text` (`,` separators
/// skipped), where digits follow it and it fits.
pub open spec fn number_behind(text: Seq<char>, marker: Seq<char>, at: int) -> Option<u32> {
    let start = at + marker.len();
    let digits = digits_of(text.subrange(start, digits_end(text, start)));
    if digits.len() > 0 && value_of(digits) <= u32::MAX {
        Some(value_of(digits) as u32)
    } else {
        None
    }
}

pub open spec fn number_in(text: Seq<char>, marker: Seq<char>) -> Option<u32> {
    if within(text, marker) {
        number_behind(text, marker, choose|at: int| first_at(text, marker, at))
    } else {
        None
    }
}

proof fn digits_end_reaches(s: Seq<char>, from: int, to: int)
    requires
        0 <= from <= to <= s.len(),
        forall|k: int| from <= k < to ==> is_digit(#[trigger] s[k]) || s[k] == ',',
        to == s.len() || !(is_digit(s[to]) || s[to] == ','),
    ensures
        digits_end(s, from) == to,
    decreases to - from,
{
    if from < to {
        assert(is_digit(s[from]) || s[from] == ',');
        digits_end_reaches(s, from + 1, to);
    }
}

/// The number right after `marker` in `text` (`,` separators skipped).
pub fn number_after(text: &str, marker: &str) -> (r: Option<u32>)
    ensures
        r == number_in(text@, marker@),
{
    let at = match find(text, marker) {
        Some(at) => at,
        None => {
            return None;
        },
    };
    proof {
        assert(first_at(text@, marker@, at as int));
        assert(crate::text::occurs_at(text@, marker@, at as int));
        let c = choose|k: int| first_at(text@, marker@, k);
        assert(c == at);
    }
    let letters = chars(text);
    let size: usize = letters.len();
    assert(at + marker@.len() <= size);
    let start: usize = at + marker.unicode_len();
    let mut i: usize = start;
    let mut value: u64 = 0;
    let mut some = false;
    let mut fits_u32 = true;
    let ghost read = text@.subrange(start as int, i as int);
    assert(text@.subrange(start as int, start as int) =~= Seq::empty());
    while i < letters.len() && (('0' <= letters[i] && letters[i] <= '9') || letters[i] == ',')
        invariant
            start <= i <= letters@.len(),
            letters@ == text@,
            forall|k: int|
                start <= k < i ==> is_digit(#[trigger] letters@[k]) || letters@[k] == ',',
            some == (digits_of(text@.subrange(start as int, i as int)).len() > 0),
            fits_u32 == (value_of(digits_of(text@.subrange(start as int, i as int))) <= u32::MAX),
            fits_u32 ==> value == value_of(digits_of(text@.subrange(start as int, i as int))),
        decreases letters@.len() - i,
    {
        let c = letters[i];
        let ghost longer = text@.subrange(start as int, i + 1);
        assert(longer.drop_last() =~= text@.subrange(start as int, i as int));
        assert(longer.last() == c);
        if '0' <= c && c <= '9' {
            some = true;
            let ghost before = digits_of(longer.drop_last());
            assert(digits_of(longer) =~= before.push(c));
            assert(before.push(c).drop_last() =~= before);
            let d: u64 = (c as u32 - '0' as u32) as u64;
            if fits_u32 {
                value = 10 * value + d;
                if value > 4294967295 {
                    fits_u32 = false;
                }
            }
        }
        i += 1;
    }
    proof {
        digits_end_reaches(text@, start as int, i as int);
    }
    if some && fits_u32 {
        Some(value as u32)
    } else {
        None
    }
}

fn rows_equal(a: &Vec<(String, Option<u32>)>, b: &Vec<(String, Option<u32>)>) -> (r: bool)
    ensures
        r == (crate::observe::rows_of(a@) == crate::observe::rows_of(b@)),
{
    let ghost x = crate::observe::rows_of(a@);
    let ghost y = crate::observe::rows_of(b@);
    if a.len() != b.len() {
        assert(x.len() != y.len());
        return false;
    }
    let mut i: usize = 0;
    while i < a.len()
        invariant
            i <= a@.len(),
            a@.len() == b@.len(),
            x == crate::observe::rows_of(a@),
            y == crate::observe::rows_of(b@),
            forall|k: int| 0 <= k < i ==> x[k] == y[k],
        decreases a@.len() - i,
    {
        if a[i].0 != b[i].0 || a[i].1 != b[i].1 {
            assert(x[i as int] != y[i as int]);
            return false;
        }
        i += 1;
    }
    assert(x =~= y);
    true
}

/// What one frame read, to be confirmed by a later one.
#[derive(Debug, Clone, Copy, PartialEq, Eq, Structural)]
pub enum Reading {
    /// The money, the ▶ and the item's row: only what the decision uses
    /// (flicker on other rows must not burn retries).
    List { money: u32, cursor: u8, row: Option<usize> },
    Quantity { count: u16, total: u32 },
    Price { want: u32, total: u32 },
}

/// Buys `count` of one item at the mart whose conversation is open: BUY →
/// item → quantity → YES → check the money → leave.
#[derive(Debug, Clone)]
pub struct Purchase {
    pub item: String,
    /// Requested count; 0 = decide on the list from the money and `stock`.
    pub count: u16,
    /// Balls held (for `count == 0`).
    pub stock: Option<u16>,
    pub phase: Phase,
    /// The count being bought, once decided on the list.
    pub target: Option<u16>,
    /// Money on the list before buying (confirmed on two frames).
    pub money_before: Option<u32>,
    /// `MoneyObserved` was emitted.
    pub money_seen: bool,
    /// (count, total) the quantity box showed when A was pressed on it.
    pub quoted: Option<(u16, u32)>,
    /// (count, total) answered YES to: the next list read settles it.
    pub paid: Option<(u16, u32)>,
    /// The clerk's "Here you are!" was read after YES: the purchase went
    /// through whatever the money window reads.
    pub handed_over: bool,
    /// The quantity box's maximum, learned from an Up that wrapped.
    pub max_quantity: Option<u16>,
    /// The count an Up was pressed from (to spot a wrap).
    pub up_from: Option<u16>,
    /// Nothing more to buy: close the list and leave.
    pub finished: bool,
    /// SEE YA! was pressed.
    pub leaves: u32,
    pub list_moves: u32,
    pub summary: Vec<String>,
    pub retries: u32,
    pub total_retries: u32,
    /// The last unconfirmed reading: (frame, what it read).
    pub candidate: Option<(u64, Reading)>,
    pub pending: Option<Expectation>,
    /// List rows when the last list input was sent (a scroll is progress).
    pub last_rows: Option<Vec<(String, Option<u32>)>>,
    pub waiting_since: Option<u64>,
}

/// What the purchase knows.
#[verifier::ext_equal]
pub struct PurchaseV {
    pub item: Seq<char>,
    pub count: u16,
    pub stock: Option<u16>,
    pub phase: Phase,
    pub target: Option<u16>,
    pub money_before: Option<u32>,
    pub money_seen: bool,
    pub quoted: Option<(u16, u32)>,
    pub paid: Option<(u16, u32)>,
    pub handed_over: bool,
    pub max_quantity: Option<u16>,
    pub up_from: Option<u16>,
    pub finished: bool,
    pub leaves: u32,
    pub list_moves: u32,
    pub summary: Seq<Seq<char>>,
    pub retries: u32,
    pub total_retries: u32,
    pub candidate: Option<(u64, Reading)>,
    pub pending: Option<ExpectationV>,
    pub last_rows: Option<Seq<(Seq<char>, Option<u32>)>>,
    pub waiting_since: Option<u64>,
}

impl View for Purchase {
    type V = PurchaseV;

    open spec fn view(&self) -> PurchaseV {
        PurchaseV {
            item: self.item@,
            count: self.count,
            stock: self.stock,
            phase: self.phase,
            target: self.target,
            money_before: self.money_before,
            money_seen: self.money_seen,
            quoted: self.quoted,
            paid: self.paid,
            handed_over: self.handed_over,
            max_quantity: self.max_quantity,
            up_from: self.up_from,
            finished: self.finished,
            leaves: self.leaves,
            list_moves: self.list_moves,
            summary: lines_of(self.summary@),
            retries: self.retries,
            total_retries: self.total_retries,
            candidate: self.candidate,
            pending: match self.pending {
                Some(e) => Some(e@),
                None => None,
            },
            last_rows: match self.last_rows {
                Some(r) => Some(crate::observe::rows_of(r@)),
                None => None,
            },
            waiting_since: self.waiting_since,
        }
    }
}

/// What a step makes of the purchase, what it decides and what it reports.
pub struct StepV {
    pub now: PurchaseV,
    pub decision: DecisionV,
    pub events: Seq<GameEventV>,
}

/// What shows, as far as the mart is concerned.
pub open spec fn phase_on(o: Observation) -> Phase {
    if o.shop is Some {
        if o.shop->0.cursor is Some && o.shop->0.quantity is None {
            Phase::List
        } else {
            Phase::Quantity
        }
    } else if o.menu is Some {
        if mart_menu(o) {
            Phase::Menu
        } else if o.dialogue is Some && yes_no(o) {
            Phase::Confirm
        } else {
            Phase::Other
        }
    } else if o.dialogue is Some {
        Phase::Text
    } else if o.player is Some {
        Phase::Outside
    } else {
        Phase::Other
    }
}

/// Pages that end in a question whose box (quantity, YES/NO, the mart
/// menu) appears once they're printed: A there would answer it unchecked.
pub open spec fn question_page(page: Seq<char>) -> bool {
    within(page, "How many"@) || within(page, "Okay?"@) || within(page, "OK?"@) || within(
        page,
        "help you"@,
    ) || within(page, "anything else"@)
}

fn is_question(page: &str) -> (r: bool)
    ensures
        r == question_page(page@),
{
    contains(page, "How many") || contains(page, "Okay?") || contains(page, "OK?") || contains(
        page,
        "help you",
    ) || contains(page, "anything else")
}

pub open spec fn mart_note(detail: Seq<char>) -> GameEventV {
    GameEventV::GoalProgress { goal: "Story"@, phase: "Mart"@, detail }
}

pub open spec fn pair_text(pair: Option<(u16, u32)>) -> Seq<char> {
    match pair {
        Some(p) => "Some(("@ + decimal_of(p.0 as nat) + ", "@ + decimal_of(p.1 as nat) + "))"@,
        None => "None"@,
    }
}

fn show_pair(pair: Option<(u16, u32)>) -> (s: String)
    ensures
        s@ == pair_text(pair),
{
    match pair {
        Some(p) => {
            let mut s = cat("Some((", decimal(p.0 as u64).as_str());
            s.append(", ");
            s.append(decimal(p.1 as u64).as_str());
            s.append("))");
            s
        },
        None => "None".to_owned(),
    }
}

impl PurchaseV {
    /// A purchase that has not begun.
    pub open spec fn fresh(item: Seq<char>, count: u16) -> PurchaseV {
        PurchaseV {
            item,
            count,
            stock: None,
            phase: Phase::Other,
            target: None,
            money_before: None,
            money_seen: false,
            quoted: None,
            paid: None,
            handed_over: false,
            max_quantity: None,
            up_from: None,
            finished: false,
            leaves: 0,
            list_moves: 0,
            summary: Seq::empty(),
            retries: 0,
            total_retries: 0,
            candidate: None,
            pending: None,
            last_rows: None,
            waiting_since: None,
        }
    }

    pub open spec fn retried(self) -> PurchaseV {
        PurchaseV {
            retries: counted(self.retries),
            total_retries: counted(self.total_retries),
            ..self
        }
    }

    pub open spec fn exhausted(self, reason: Seq<char>) -> Option<DecisionV> {
        if self.retries > MAX_RETRIES {
            Some(
                DecisionV::Fail(
                    "mart ("@ + self.item + "): "@ + reason + " after 12 retries in "@
                        + self.phase.called(),
                ),
            )
        } else if self.total_retries > MAX_TOTAL_RETRIES {
            Some(
                DecisionV::Fail(
                    "mart ("@ + self.item + "): "@ + reason + "; 40 retries used in all"@,
                ),
            )
        } else {
            None
        }
    }

    /// The purchase after it has looked at a frame: a new phase starts its
    /// counters anew; within a phase, an input that showed nothing is a retry.
    pub open spec fn noted(self, o: Observation, data: GameData) -> PurchaseV {
        let taken = PurchaseV { pending: None, ..self };
        let scrolled = o.shop is Some && self.last_rows is Some && keyed(data, o.shop->0.items@)
            != self.last_rows->0;
        if phase_on(o) != self.phase {
            PurchaseV {
                phase: phase_on(o),
                retries: 0,
                waiting_since: None,
                candidate: None,
                last_rows: None,
                ..taken
            }
        } else if self.pending is Some && !self.pending->0.met(o) && !scrolled {
            taken.retried()
        } else {
            taken
        }
    }

    /// Presses a button and remembers what that is to show.
    pub open spec fn acting(
        self,
        label: Seq<char>,
        button: Button,
        expect: ExpectationV,
        timeout: u64,
    ) -> (PurchaseV, DecisionV) {
        (
            PurchaseV { waiting_since: None, candidate: None, pending: Some(expect), ..self },
            pressing(label, button, expect, timeout),
        )
    }

    /// Waits; every [`WAIT_RETRY_FRAMES`] of waiting counts as a retry.
    pub open spec fn waiting(self, o: Observation, reason: Seq<char>) -> (PurchaseV, DecisionV) {
        let since = match self.waiting_since {
            Some(s) => s,
            None => o.frame_id,
        };
        let waited = if o.frame_id >= since + WAIT_RETRY_FRAMES {
            PurchaseV { waiting_since: Some(o.frame_id), ..self.retried() }
        } else {
            PurchaseV { waiting_since: Some(since), ..self }
        };
        match waited.exhausted(reason) {
            Some(fail) => (waited, fail),
            None => (waited, DecisionV::Wait(reason)),
        }
    }

    /// Whether a later frame read the same: `None` once it did, otherwise a
    /// wait.
    pub open spec fn confirming(self, o: Observation, reading: Reading) -> (
        PurchaseV,
        Option<DecisionV>,
    ) {
        let some = |r: (PurchaseV, DecisionV)| (r.0, Some(r.1));
        match self.candidate {
            Some(c) => if c.0 < o.frame_id {
                if c.1 == reading {
                    (self, None)
                } else {
                    some(
                        PurchaseV {
                            candidate: Some((o.frame_id, reading)),
                            ..self
                        }.retried().waiting(o, "re-reading a number that read differently"@),
                    )
                }
            } else {
                some(self.waiting(o, "confirming on a later frame"@))
            },
            None => some(
                PurchaseV { candidate: Some((o.frame_id, reading)), ..self }.waiting(
                    o,
                    "confirming on a later frame"@,
                ),
            ),
        }
    }

    pub open spec fn logged(self, detail: Seq<char>) -> PurchaseV {
        PurchaseV { summary: self.summary.push(detail), ..self }
    }

    pub open spec fn closing_list(self) -> (PurchaseV, DecisionV) {
        self.acting(
            "mart: close the list"@,
            Button::B,
            ExpectationV::ScreenIsNot(ScreenState::Shop),
            TEXT_FRAMES,
        )
    }

    /// BUY (or, when done, B = SEE YA!).
    pub open spec fn on_menu(self, o: Observation) -> (PurchaseV, DecisionV) {
        let menu = o.menu->0;
        if self.finished {
            let left = PurchaseV { leaves: counted(self.leaves), ..self };
            if left.leaves > MAX_LEAVES {
                (left, DecisionV::Fail("mart: could not leave the clerk"@))
            } else {
                left.acting("mart: SEE YA!"@, Button::B, ExpectationV::MenuClosed, TEXT_FRAMES)
            }
        } else if o.menu_lines@.len() != menu.rows {
            // Every row must be read: a missing one would shift BUY's row.
            self.waiting(o, "reading the mart menu"@)
        } else if forall|i: int| !line_at(o.menu_lines@, "BUY"@, i) {
            self.waiting(o, "looking for BUY"@)
        } else {
            let buy = choose|i: int| line_at(o.menu_lines@, "BUY"@, i);
            if menu.cursor_row == buy {
                self.acting("mart: BUY"@, Button::A, ExpectationV::MenuClosed, LIST_FRAMES)
            } else if menu.cursor_row > buy {
                self.acting(
                    "mart menu: "@ + "Up"@ + " toward BUY"@,
                    Button::Up,
                    ExpectationV::MenuCursorAt((menu.cursor_row - 1) as u8),
                    CURSOR_FRAMES,
                )
            } else {
                self.acting(
                    "mart menu: "@ + "Down"@ + " toward BUY"@,
                    Button::Down,
                    ExpectationV::MenuCursorAt((menu.cursor_row + 1) as u8),
                    CURSOR_FRAMES,
                )
            }
        }
    }

    /// How many are wanted: the requested count, or the stock policy's.
    pub open spec fn wanted(self, money: u32, data: GameData) -> Option<u16> {
        if self.count > 0 {
            Some(self.count)
        } else {
            match self.stock {
                Some(stock) => Some(to_buy(data, stock, money)),
                None => None,
            }
        }
    }

    /// How many to buy with `money`: what is wanted, capped by what the money
    /// pays for (the Potion money is kept) and by the quantity box.
    pub open spec fn count_for(self, money: u32, data: GameData) -> u16 {
        let afford = affords(data, self.item, money);
        let cap = if afford < MAX_QUANTITY {
            afford
        } else {
            MAX_QUANTITY
        };
        match self.wanted(money, data) {
            Some(want) => if want < cap {
                want
            } else {
                cap
            },
            None => 0,
        }
    }

    /// What deciding the count has to say.
    pub open spec fn count_note(self, money: u32, data: GameData) -> Option<Seq<char>> {
        let count = self.count_for(money, data);
        match self.wanted(money, data) {
            None => Some("buying 0 "@ + self.item + ": the stock is unknown"@),
            Some(want) => if count == 0 {
                Some(
                    "buying 0 "@ + self.item + " with ¥"@ + decimal_of(money as nat)
                        + " (wanted "@ + decimal_of(want as nat) + ", ¥"@ + decimal_of(
                        price_of(data, self.item)->0 as nat,
                    ) + " each, Potion money kept)"@,
                )
            } else if count < want {
                Some(
                    "¥"@ + decimal_of(money as nat) + " buys only "@ + decimal_of(count as nat)
                        + " of "@ + decimal_of(want as nat) + " "@ + self.item,
                )
            } else {
                None
            },
        }
    }

    /// The purchase went through: money went down, or the clerk handed the
    /// items over.
    pub open spec fn went_through(self, money: u32) -> bool {
        money < self.money_known(money) || self.handed_over
    }

    /// The money before buying; what reads now where that is unknown.
    pub open spec fn money_known(self, money: u32) -> u32 {
        match self.money_before {
            Some(m) => m,
            None => money,
        }
    }

    pub open spec fn bought_event(self, money: u32, count: u16, data: GameData) -> Seq<GameEventV> {
        match data.item_of(self.item) {
            Some(i) => match i.pocket {
                Some(key) => match Pocket::of_constant(key@) {
                    Some(pocket) => if self.went_through(money) {
                        seq![
                            GameEventV::ItemsChanged {
                                pocket,
                                item: self.item,
                                delta: count as i32,
                                reason: "bought"@,
                            },
                        ]
                    } else {
                        Seq::empty()
                    },
                    None => Seq::empty(),
                },
                None => Seq::empty(),
            },
            None => Seq::empty(),
        }
    }

    /// Back on the list after YES: the money read must be the old amount
    /// minus the total, or the purchase is only partly known.
    pub open spec fn settling(self, money: u32, paid: (u16, u32), data: GameData) -> (
        PurchaseV,
        Seq<GameEventV>,
    ) {
        let before = self.money_known(money);
        let bought = self.bought_event(money, paid.0, data);
        let settled = PurchaseV { handed_over: false, ..self };
        if before - paid.1 == money {
            (
                settled.logged(
                    "bought "@ + decimal_of(paid.0 as nat) + " "@ + self.item + " for ¥"@
                        + decimal_of(paid.1 as nat),
                ),
                bought.push(
                    GameEventV::MoneyChanged { delta: (-paid.1) as i64, reason: "bought"@ },
                ),
            )
        } else {
            let note = "money after buying "@ + decimal_of(paid.0 as nat) + " "@ + self.item
                + " reads ¥"@ + decimal_of(money as nat) + ", expected ¥"@ + signed_of(
                before - paid.1,
            ) + " (¥"@ + decimal_of(before as nat) + " − ¥"@ + decimal_of(paid.1 as nat) + ")"@;
            (
                settled.logged(note),
                bought.push(GameEventV::MoneyObserved { amount: money }).push(mart_note(note)),
            )
        }
    }

    /// Moves the ▶ to the item's row, or chooses it.
    pub open spec fn to_row(
        self,
        cursor: u8,
        rows: Seq<(Seq<char>, Option<u32>)>,
        target: u16,
    ) -> (PurchaseV, DecisionV) {
        let row = row_with(rows, self.item);
        let at_end = row_with(rows, "CANCEL"@) is Some;
        if row == Some(cursor as usize) {
            self.acting(
                "mart: choose "@ + self.item + " (buying "@ + decimal_of(target as nat) + ")"@,
                Button::A,
                ExpectationV::ShopQuantity(1),
                TEXT_FRAMES,
            )
        } else {
            let moved = PurchaseV { list_moves: counted(self.list_moves), ..self };
            if moved.list_moves > MAX_LIST_MOVES {
                (moved, DecisionV::Fail("mart: "@ + self.item + " not found in the list"@))
            } else if row is None && at_end && cursor == 0 {
                // The whole list is on screen and the item isn't in it.
                (moved, DecisionV::Fail("mart: this mart doesn't sell "@ + self.item))
            } else {
                let up = match row {
                    Some(r) => r < cursor,
                    // Not visible: scroll down, or back up from the end.
                    None => at_end,
                };
                let looking = PurchaseV { last_rows: Some(rows), ..moved };
                if up {
                    looking.acting(
                        "mart list: "@ + "Up"@ + " toward "@ + self.item,
                        Button::Up,
                        ExpectationV::ShopCursorAt(
                            if cursor > 0 {
                                (cursor - 1) as u8
                            } else {
                                0
                            },
                        ),
                        CURSOR_FRAMES,
                    )
                } else {
                    looking.acting(
                        "mart list: "@ + "Down"@ + " toward "@ + self.item,
                        Button::Down,
                        ExpectationV::ShopCursorAt(row_below(cursor)),
                        CURSOR_FRAMES,
                    )
                }
            }
        }
    }

    /// The purchase once the money is confirmed: it is reported the first
    /// time, and a purchase that was answered YES is settled.
    pub open spec fn money_read(self, money: u32, data: GameData) -> (PurchaseV, Seq<GameEventV>) {
        let first = if self.money_seen {
            Seq::empty()
        } else {
            seq![GameEventV::MoneyObserved { amount: money }]
        };
        let seen = PurchaseV { money_seen: true, paid: None, ..self };
        let settled = match self.paid {
            Some(paid) => {
                let s = seen.settling(money, paid, data);
                (PurchaseV { finished: true, ..s.0 }, first + s.1)
            },
            None => (seen, first),
        };
        (PurchaseV { money_before: Some(money), ..settled.0 }, settled.1)
    }

    /// Reads the money (settling a purchase), decides the count, and moves
    /// the ▶ to the item's row.
    pub open spec fn on_list(self, o: Observation, data: GameData) -> StepV {
        let shop = o.shop->0;
        let rows = keyed(data, shop.items@);
        if shop.money is None || shop.cursor is None {
            let w = self.waiting(o, "reading the money"@);
            StepV { now: w.0, decision: w.1, events: Seq::empty() }
        } else {
            let money = shop.money->0;
            let cursor = shop.cursor->0;
            let c = self.confirming(
                o,
                Reading::List { money, cursor, row: row_with(rows, self.item) },
            );
            if c.1 is Some {
                StepV { now: c.0, decision: c.1->0, events: Seq::empty() }
            } else {
                let read = c.0.money_read(money, data);
                if read.0.finished {
                    let done = read.0.closing_list();
                    StepV { now: done.0, decision: done.1, events: read.1 }
                } else {
                    match read.0.target {
                        Some(target) => {
                            let step = read.0.to_row(cursor, rows, target);
                            StepV { now: step.0, decision: step.1, events: read.1 }
                        },
                        None => if price_of(data, self.item) is None {
                            StepV {
                                now: read.0,
                                decision: DecisionV::Fail("mart: no price for "@ + self.item),
                                events: read.1,
                            }
                        } else {
                            let note = read.0.count_note(money, data);
                            let told = match note {
                                Some(n) => read.0.logged(n),
                                None => read.0,
                            };
                            let events = match note {
                                Some(n) => read.1.push(mart_note(n)),
                                None => read.1,
                            };
                            let count = read.0.count_for(money, data);
                            if count == 0 {
                                let done = PurchaseV { finished: true, ..told }.closing_list();
                                StepV { now: done.0, decision: done.1, events }
                            } else {
                                let step = PurchaseV { target: Some(count), ..told }.to_row(
                                    cursor,
                                    rows,
                                    count,
                                );
                                StepV { now: step.0, decision: step.1, events }
                            }
                        },
                    }
                }
            }
        }
    }

    /// The box's maximum as far as it is known: an Up that went down wrapped
    /// past it.
    pub open spec fn box_limit(self, count: u16) -> Option<u16> {
        match self.up_from {
            Some(from) => if count < from {
                Some(from)
            } else {
                self.max_quantity
            },
            None => self.max_quantity,
        }
    }

    /// Steps the quantity to the target, one Up or Down at a time, and
    /// presses A once two frames read exactly the target.
    pub open spec fn on_quantity(self, o: Observation) -> StepV {
        let quiet = |r: (PurchaseV, DecisionV)|
            StepV { now: r.0, decision: r.1, events: Seq::empty() };
        match o.shop->0.quantity {
            None => quiet(self.waiting(o, "reading the quantity"@)),
            Some(shown) => {
                let count = shown.0;
                let c = self.confirming(o, Reading::Quantity { count, total: shown.1 });
                if c.1 is Some {
                    StepV { now: c.0, decision: c.1->0, events: Seq::empty() }
                } else if self.target is None {
                    StepV {
                        now: c.0,
                        decision: DecisionV::Fail(
                            "mart: the quantity box opened before a count was decided"@,
                        ),
                        events: Seq::empty(),
                    }
                } else {
                    let limit = self.box_limit(count);
                    let known = PurchaseV { up_from: None, max_quantity: limit, ..c.0 };
                    let stops = limit is Some && limit->0 < self.target->0;
                    let target = if stops {
                        limit->0
                    } else {
                        self.target->0
                    };
                    let note = "the quantity box stops at "@ + decimal_of(target as nat)
                        + ": buying "@ + decimal_of(target as nat) + " "@ + self.item;
                    let aimed = if stops {
                        PurchaseV { target: Some(target), ..known.logged(note) }
                    } else {
                        known
                    };
                    let events = if stops {
                        seq![mart_note(note)]
                    } else {
                        Seq::empty()
                    };
                    // Down from 1 wraps to the maximum, when that is the target.
                    let wrap_down = count == 1 && limit == Some(target);
                    let step = if count == target {
                        PurchaseV { quoted: Some(shown), ..aimed }.acting(
                            "mart: buy "@ + decimal_of(count as nat) + " for ¥"@ + decimal_of(
                                shown.1 as nat,
                            ),
                            Button::A,
                            ExpectationV::Question,
                            TEXT_FRAMES,
                        )
                    } else if count < target && !wrap_down {
                        PurchaseV { up_from: Some(count), ..aimed }.acting(
                            "mart: quantity Up to "@ + decimal_of((count + 1) as nat),
                            Button::Up,
                            ExpectationV::ShopQuantity((count + 1) as u16),
                            CURSOR_FRAMES,
                        )
                    } else {
                        let next = if wrap_down {
                            target
                        } else {
                            (count - 1) as u16
                        };
                        aimed.acting(
                            "mart: quantity Down to "@ + decimal_of(next as nat),
                            Button::Down,
                            ExpectationV::ShopQuantity(next),
                            CURSOR_FRAMES,
                        )
                    };
                    StepV { now: step.0, decision: step.1, events }
                }
            },
        }
    }

    /// The text names the count and total that the box showed, and the count
    /// is the one to buy.
    pub open spec fn agrees(self, want: u32, total: u32) -> bool {
        self.quoted is Some && (self.quoted->0).0 == want && (self.quoted->0).1 == total
            && self.target == Some((self.quoted->0).0)
    }

    /// YES only when the text names the count and total the box showed.
    pub open spec fn on_confirm(self, o: Observation) -> StepV {
        let page = match o.dialogue {
            Some(d) => joined(lines_of(d.lines@), " "@),
            None => Seq::empty(),
        };
        let want = number_in(page, "want "@);
        let total = number_in(page, "¥"@);
        if want is None || total is None {
            let w = self.waiting(o, "reading the price"@);
            StepV { now: w.0, decision: w.1, events: Seq::empty() }
        } else {
            let c = self.confirming(o, Reading::Price { want: want->0, total: total->0 });
            if c.1 is Some {
                StepV { now: c.0, decision: c.1->0, events: Seq::empty() }
            } else if !self.agrees(want->0, total->0) {
                let note = "the clerk asks ¥"@ + decimal_of(total->0 as nat) + " for "@
                    + decimal_of(want->0 as nat) + ", but the box showed "@ + pair_text(
                    self.quoted,
                ) + ": answering NO"@;
                let no = PurchaseV { quoted: None, finished: true, ..c.0.logged(note) }.acting(
                    "mart: NO"@,
                    Button::B,
                    ExpectationV::MenuClosed,
                    TEXT_FRAMES,
                );
                StepV { now: no.0, decision: no.1, events: seq![mart_note(note)] }
            } else {
                let step = if o.menu->0.cursor_row != 0 {
                    c.0.acting(
                        "mart: Up to YES"@,
                        Button::Up,
                        ExpectationV::MenuCursorAt(0),
                        CURSOR_FRAMES,
                    )
                } else {
                    PurchaseV { paid: self.quoted, ..c.0 }.acting(
                        "mart: YES"@,
                        Button::A,
                        ExpectationV::MenuClosed,
                        TEXT_FRAMES,
                    )
                };
                StepV { now: step.0, decision: step.1, events: Seq::empty() }
            }
        }
    }

    /// SEE YA! was said: only the farewell is left.
    pub open spec fn leaving(self) -> bool {
        self.finished && self.leaves > 0
    }

    /// Advances the clerk's pages, but never a page whose question box is
    /// still to come.
    pub open spec fn on_text(self, d: DialogueObservation, o: Observation) -> (
        PurchaseV,
        DecisionV,
    ) {
        let page = joined(lines_of(d.lines@), " "@);
        let heard = if self.paid is Some && within(page, "Here you are"@) {
            PurchaseV { handed_over: true, ..self }
        } else {
            self
        };
        // A settled box is the farewell even when its text wasn't read (it
        // has no ▼ arrow).
        let read = d.lines@.len() > 0 || self.leaving();
        if question_page(page) {
            heard.waiting(o, "a question: waiting for its box"@)
        } else if !(d.waiting_for_input || (d.ready_for_a && read)) {
            heard.waiting(o, "mart text is printing"@)
        } else {
            heard.acting(
                "mart: advance text"@,
                Button::A,
                if self.leaving() {
                    ExpectationV::ShopClosed
                } else {
                    ExpectationV::TextAdvanced { kind: d.kind, baseline: d.text_cells@ }
                },
                TEXT_FRAMES,
            )
        }
    }

    /// One step of the purchase.
    pub open spec fn stepped(self, o: Observation, data: GameData) -> StepV {
        let n = self.noted(o, data);
        let quiet = |r: (PurchaseV, DecisionV)|
            StepV { now: r.0, decision: r.1, events: Seq::empty() };
        match n.exhausted("no progress in "@ + n.phase.called()) {
            Some(fail) => StepV { now: n, decision: fail, events: Seq::empty() },
            None => match n.phase {
                Phase::Menu => quiet(n.on_menu(o)),
                Phase::List => n.on_list(o, data),
                Phase::Quantity => n.on_quantity(o),
                Phase::Confirm => n.on_confirm(o),
                Phase::Text => quiet(n.on_text(o.dialogue->0, o)),
                // Only after SEE YA!: a dropped frame between the list closing
                // and the menu coming back can show the overworld.
                Phase::Outside => if n.leaving() {
                    StepV {
                        now: n,
                        decision: DecisionV::Done(
                            if n.summary.len() == 0 {
                                "left the mart"@
                            } else {
                                joined(n.summary, "; "@)
                            },
                        ),
                        events: Seq::empty(),
                    }
                } else {
                    quiet(n.waiting(o, "waiting for the mart menu"@))
                },
                Phase::Other => quiet(n.waiting(o, "waiting for a mart screen"@)),
            },
        }
    }
}

impl Purchase {
    /// `count == 0` means "decide on the list": the count comes from
    /// [`crate::stock::buy_count`] once the money is read, and nothing is
    /// bought when it is 0.
    pub fn new(item: &str, count: u16) -> (p: Purchase)
        ensures
            p@ == PurchaseV::fresh(item@, count),
    {
        let p = Purchase {
            item: item.to_owned(),
            count,
            stock: None,
            phase: Phase::Other,
            target: None,
            money_before: None,
            money_seen: false,
            quoted: None,
            paid: None,
            handed_over: false,
            max_quantity: None,
            up_from: None,
            finished: false,
            leaves: 0,
            list_moves: 0,
            summary: Vec::new(),
            retries: 0,
            total_retries: 0,
            candidate: None,
            pending: None,
            last_rows: None,
            waiting_since: None,
        };
        assert(p@.summary =~= Seq::empty());
        p
    }

    /// The balls held, for a `count == 0` purchase (unknown: buy nothing).
    pub fn with_stock(self, stock: Option<u16>) -> (p: Purchase)
        ensures
            p@ == (PurchaseV { stock, ..self@ }),
    {
        let mut p = self;
        p.stock = stock;
        p
    }

    /// Something was decided (bought, or found nothing to buy).
    pub fn finished(&self) -> (r: bool)
        ensures
            r == self@.finished,
    {
        self.finished
    }

    pub fn phase_of(o: &Observation) -> (p: Phase)
        ensures
            p == phase_on(*o),
    {
        match &o.shop {
            Some(shop) => {
                return if shop.cursor.is_some() && shop.quantity.is_none() {
                    Phase::List
                } else {
                    Phase::Quantity
                };
            },
            None => {},
        }
        if o.menu.is_some() {
            if is_mart_menu(o) {
                return Phase::Menu;
            }
            if o.dialogue.is_some() && is_yes_no(o) {
                return Phase::Confirm;
            }
            return Phase::Other;
        }
        if o.dialogue.is_some() {
            return Phase::Text;
        }
        if o.player.is_some() {
            return Phase::Outside;
        }
        Phase::Other
    }

    fn retry(&mut self)
        ensures
            final(self)@ == old(self)@.retried(),
    {
        self.retries = count(self.retries);
        self.total_retries = count(self.total_retries);
    }

    fn exhausted(&self, reason: &str) -> (r: Option<Decision>)
        ensures
            match r {
                Some(d) => self@.exhausted(reason@) == Some(d@),
                None => self@.exhausted(reason@) is None,
            },
    {
        if self.retries > MAX_RETRIES {
            let mut r = cat3("mart (", self.item.as_str(), "): ");
            r.append(reason);
            r.append(" after 12 retries in ");
            r.append(self.phase.name());
            return Some(Decision::Fail(r));
        }
        if self.total_retries > MAX_TOTAL_RETRIES {
            let mut r = cat3("mart (", self.item.as_str(), "): ");
            r.append(reason);
            r.append("; 40 retries used in all");
            return Some(Decision::Fail(r));
        }
        None
    }

    fn act(&mut self, label: String, button: Button, expect: Expectation, timeout: u64) -> (d:
        Decision)
        ensures
            final(self)@ == old(self)@.acting(label@, button, expect@, timeout).0,
            d@ == old(self)@.acting(label@, button, expect@, timeout).1,
    {
        self.waiting_since = None;
        self.candidate = None;
        self.pending = Some(expect.copy());
        press(label, button, expect, timeout)
    }

    /// Waits; every [`WAIT_RETRY_FRAMES`] of waiting counts as a retry.
    fn wait(&mut self, o: &Observation, reason: &str) -> (d: Decision)
        ensures
            final(self)@ == old(self)@.waiting(*o, reason@).0,
            d@ == old(self)@.waiting(*o, reason@).1,
    {
        let since: u64 = match self.waiting_since {
            Some(s) => s,
            None => o.frame_id,
        };
        if o.frame_id >= since && o.frame_id - since >= WAIT_RETRY_FRAMES {
            self.retry();
            self.waiting_since = Some(o.frame_id);
        } else {
            self.waiting_since = Some(since);
        }
        match self.exhausted(reason) {
            Some(fail) => fail,
            None => Decision::Wait(reason.to_owned()),
        }
    }

    /// `None` once a later frame read the same `reading`; otherwise a wait.
    fn confirmed(&mut self, o: &Observation, reading: Reading) -> (r: Option<Decision>)
        ensures
            final(self)@ == old(self)@.confirming(*o, reading).0,
            match r {
                Some(d) => old(self)@.confirming(*o, reading).1 == Some(d@),
                None => old(self)@.confirming(*o, reading).1 is None,
            },
    {
        match self.candidate {
            Some(c) => {
                if c.0 < o.frame_id {
                    if c.1 == reading {
                        None
                    } else {
                        self.candidate = Some((o.frame_id, reading));
                        self.retry();
                        Some(self.wait(o, "re-reading a number that read differently"))
                    }
                } else {
                    Some(self.wait(o, "confirming on a later frame"))
                }
            },
            None => {
                self.candidate = Some((o.frame_id, reading));
                Some(self.wait(o, "confirming on a later frame"))
            },
        }
    }

    fn add_summary(&mut self, detail: String)
        ensures
            final(self)@ == old(self)@.logged(detail@),
    {
        let ghost before = self.summary@;
        self.summary.push(detail);
        assert(lines_of(self.summary@) =~= lines_of(before).push(detail@));
    }

    fn log(&mut self, events: &mut Vec<GameEvent>, detail: String)
        ensures
            final(self)@ == old(self)@.logged(detail@),
            events_of(final(events)@) == events_of(old(events)@).push(mart_note(detail@)),
    {
        self.add_summary(detail.clone());
        report(
            events,
            GameEvent::GoalProgress { goal: "Story".to_owned(), phase: "Mart".to_owned(), detail },
        );
    }

    /// BUY (or, when done, B = SEE YA!).
    fn menu(&mut self, o: &Observation, menu: &MenuObservation) -> (d: Decision)
        requires
            o.menu == Some(*menu),
        ensures
            final(self)@ == old(self)@.on_menu(*o).0,
            d@ == old(self)@.on_menu(*o).1,
    {
        if self.finished {
            self.leaves = count(self.leaves);
            if self.leaves > MAX_LEAVES {
                return Decision::Fail("mart: could not leave the clerk".to_owned());
            }
            return self.act(
                "mart: SEE YA!".to_owned(),
                Button::B,
                Expectation::MenuClosed,
                TEXT_FRAMES,
            );
        }
        if o.menu_lines.len() != menu.rows as usize {
            return self.wait(o, "reading the mart menu");
        }
        let buy = match line_reading(&o.menu_lines, "BUY") {
            Some(i) => i,
            None => {
                return self.wait(o, "looking for BUY");
            },
        };
        proof {
            assert(line_at(o.menu_lines@, "BUY"@, buy as int));
            let c = choose|i: int| line_at(o.menu_lines@, "BUY"@, i);
            assert(c == buy) by {
                assert(reads_as("BUY"@, o.menu_lines@[c]@));
                assert(reads_as("BUY"@, o.menu_lines@[buy as int]@));
            }
        }
        let row = menu.cursor_row as usize;
        if row == buy {
            return self.act(
                "mart: BUY".to_owned(),
                Button::A,
                Expectation::MenuClosed,
                LIST_FRAMES,
            );
        }
        if row > buy {
            self.act(
                cat3("mart menu: ", "Up", " toward BUY"),
                Button::Up,
                Expectation::MenuCursorAt(menu.cursor_row - 1),
                CURSOR_FRAMES,
            )
        } else {
            self.act(
                cat3("mart menu: ", "Down", " toward BUY"),
                Button::Down,
                Expectation::MenuCursorAt(menu.cursor_row + 1),
                CURSOR_FRAMES,
            )
        }
    }

    /// How many to buy with `money`, and what there is to say about it.
    fn decide(
        &mut self,
        money: u32,
        each: u32,
        data: &GameData,
        events: &mut Vec<GameEvent>,
    ) -> (n: u16)
        requires
            price_of(*data, old(self)@.item) == Some(each),
        ensures
            n == old(self)@.count_for(money, *data),
            final(self)@ == match old(self)@.count_note(money, *data) {
                Some(note) => old(self)@.logged(note),
                None => old(self)@,
            },
            events_of(final(events)@) == match old(self)@.count_note(money, *data) {
                Some(note) => events_of(old(events)@).push(mart_note(note)),
                None => events_of(old(events)@),
            },
    {
        let want: u16 = if self.count > 0 {
            self.count
        } else {
            match self.stock {
                Some(stock) => buy_count(data, stock, money),
                None => {
                    let note = cat3("buying 0 ", self.item.as_str(), ": the stock is unknown");
                    self.log(events, note);
                    return 0;
                },
            }
        };
        let afford = affordable(data, &self.item, money);
        let cap: u16 = if afford < MAX_QUANTITY {
            afford
        } else {
            MAX_QUANTITY
        };
        let n: u16 = if want < cap {
            want
        } else {
            cap
        };
        if n == 0 {
            let mut note = cat3("buying 0 ", self.item.as_str(), " with ¥");
            note.append(decimal(money as u64).as_str());
            note.append(" (wanted ");
            note.append(decimal(want as u64).as_str());
            note.append(", ¥");
            note.append(decimal(each as u64).as_str());
            note.append(" each, Potion money kept)");
            self.log(events, note);
        } else if n < want {
            let mut note = cat3("¥", decimal(money as u64).as_str(), " buys only ");
            note.append(decimal(n as u64).as_str());
            note.append(" of ");
            note.append(decimal(want as u64).as_str());
            note.append(" ");
            note.append(self.item.as_str());
            self.log(events, note);
        }
        n
    }

    /// Back on the list after YES: the money read must be the old amount
    /// minus the total, or the purchase is only partly known.
    fn settle(
        &mut self,
        money: u32,
        paid: (u16, u32),
        data: &GameData,
        events: &mut Vec<GameEvent>,
    )
        ensures
            final(self)@ == old(self)@.settling(money, paid, *data).0,
            events_of(final(events)@) == events_of(old(events)@) + old(self)@.settling(
                money,
                paid,
                *data,
            ).1,
    {
        let ghost start = self@;
        let ghost first = events_of(events@);
        let before: u32 = match self.money_before {
            Some(m) => m,
            None => money,
        };
        let handed_over = self.handed_over;
        self.handed_over = false;
        let pocket: Option<Pocket> = match data.item(&self.item) {
            Some(i) => match &i.pocket {
                Some(key) => Pocket::from_constant(key),
                None => None,
            },
            None => None,
        };
        if money < before || handed_over {
            if let Some(pocket) = pocket {
                report(
                    events,
                    GameEvent::ItemsChanged {
                        pocket,
                        item: self.item.clone(),
                        delta: paid.0 as i32,
                        reason: "bought".to_owned(),
                    },
                );
            }
        }
        let ghost bought = start.bought_event(money, paid.0, *data);
        assert(events_of(events@) =~= first + bought);
        if before >= paid.1 && before - paid.1 == money {
            report(
                events,
                GameEvent::MoneyChanged {
                    delta: -(paid.1 as i64),
                    reason: "bought".to_owned(),
                },
            );
            let mut note = cat("bought ", decimal(paid.0 as u64).as_str());
            note.append(" ");
            note.append(self.item.as_str());
            note.append(" for ¥");
            note.append(decimal(paid.1 as u64).as_str());
            self.add_summary(note);
        } else {
            report(events, GameEvent::MoneyObserved { amount: money });
            let mut note = cat("money after buying ", decimal(paid.0 as u64).as_str());
            note.append(" ");
            note.append(self.item.as_str());
            note.append(" reads ¥");
            note.append(decimal(money as u64).as_str());
            note.append(", expected ¥");
            note.append(signed(before as i64 - paid.1 as i64).as_str());
            note.append(" (¥");
            note.append(decimal(before as u64).as_str());
            note.append(" − ¥");
            note.append(decimal(paid.1 as u64).as_str());
            note.append(")");
            self.log(events, note);
        }
        assert(events_of(events@) =~= first + start.settling(money, paid, *data).1);
    }

    /// Moves the ▶ to the item's row, or chooses it.
    fn go_to_row(&mut self, cursor: u8, rows: Vec<(String, Option<u32>)>, target: u16) -> (d:
        Decision)
        ensures
            final(self)@ == old(self)@.to_row(
                cursor,
                crate::observe::rows_of(rows@),
                target,
            ).0,
            d@ == old(self)@.to_row(cursor, crate::observe::rows_of(rows@), target).1,
    {
        let row = find_row(&rows, &self.item);
        if row == Some(cursor as usize) {
            let mut label = cat3("mart: choose ", self.item.as_str(), " (buying ");
            label.append(decimal(target as u64).as_str());
            label.append(")");
            return self.act(label, Button::A, Expectation::ShopQuantity(1), TEXT_FRAMES);
        }
        self.list_moves = count(self.list_moves);
        if self.list_moves > MAX_LIST_MOVES {
            return Decision::Fail(cat3("mart: ", self.item.as_str(), " not found in the list"));
        }
        let at_end = find_row(&rows, "CANCEL").is_some();
        let up: bool = match row {
            Some(r) => r < cursor as usize,
            None => {
                if at_end && cursor == 0 {
                    return Decision::Fail(
                        cat("mart: this mart doesn't sell ", self.item.as_str()),
                    );
                }
                at_end
            },
        };
        self.last_rows = Some(rows);
        if up {
            let next: u8 = if cursor > 0 {
                cursor - 1
            } else {
                0
            };
            let mut label = cat3("mart list: ", "Up", " toward ");
            label.append(self.item.as_str());
            self.act(label, Button::Up, Expectation::ShopCursorAt(next), CURSOR_FRAMES)
        } else {
            let next: u8 = if cursor < u8::MAX {
                cursor + 1
            } else {
                cursor
            };
            let mut label = cat3("mart list: ", "Down", " toward ");
            label.append(self.item.as_str());
            self.act(label, Button::Down, Expectation::ShopCursorAt(next), CURSOR_FRAMES)
        }
    }

    fn close_list(&mut self) -> (d: Decision)
        ensures
            final(self)@ == old(self)@.closing_list().0,
            d@ == old(self)@.closing_list().1,
    {
        self.act(
            "mart: close the list".to_owned(),
            Button::B,
            Expectation::ScreenIsNot(ScreenState::Shop),
            TEXT_FRAMES,
        )
    }

    /// Takes in the money that the list shows.
    fn read_money(&mut self, money: u32, data: &GameData, events: &mut Vec<GameEvent>)
        ensures
            final(self)@ == old(self)@.money_read(money, *data).0,
            events_of(final(events)@) == events_of(old(events)@) + old(self)@.money_read(
                money,
                *data,
            ).1,
    {
        let ghost start = self@;
        let ghost before = events_of(events@);
        if !self.money_seen {
            self.money_seen = true;
            report(events, GameEvent::MoneyObserved { amount: money });
        }
        let paid = self.paid;
        self.paid = None;
        match paid {
            Some(paid) => {
                self.settle(money, paid, data, events);
                self.finished = true;
            },
            None => {},
        }
        self.money_before = Some(money);
        assert(events_of(events@) =~= before + start.money_read(money, *data).1);
    }

    /// Reads the money (settling a purchase), decides the count, and moves
    /// the ▶ to the item's row.
    fn list(
        &mut self,
        o: &Observation,
        shop: &ShopObservation,
        data: &GameData,
        events: &mut Vec<GameEvent>,
    ) -> (d: Decision)
        requires
            o.shop == Some(*shop),
        ensures
            final(self)@ == old(self)@.on_list(*o, *data).now,
            d@ == old(self)@.on_list(*o, *data).decision,
            events_of(final(events)@) == events_of(old(events)@) + old(self)@.on_list(
                *o,
                *data,
            ).events,
    {
        let ghost start = self@;
        let ghost before = events_of(events@);
        assert(before + Seq::<GameEventV>::empty() =~= before);
        let (money, cursor) = match (shop.money, shop.cursor) {
            (Some(m), Some(c)) => (m, c),
            _ => {
                return self.wait(o, "reading the money");
            },
        };
        let rows = by_item(data, &shop.items);
        let row = find_row(&rows, &self.item);
        match self.confirmed(o, Reading::List { money, cursor, row }) {
            Some(wait) => {
                return wait;
            },
            None => {},
        }
        self.read_money(money, data, events);
        let ghost told = events_of(events@);
        if self.finished {
            return self.close_list();
        }
        match self.target {
            Some(target) => self.go_to_row(cursor, rows, target),
            None => {
                let each = match price(data, &self.item) {
                    Some(each) => each,
                    None => {
                        return Decision::Fail(cat("mart: no price for ", self.item.as_str()));
                    },
                };
                let n = self.decide(money, each, data, events);
                assert(events_of(events@) =~= before + start.on_list(*o, *data).events);
                if n == 0 {
                    self.finished = true;
                    self.close_list()
                } else {
                    self.target = Some(n);
                    self.go_to_row(cursor, rows, n)
                }
            },
        }
    }

    /// Steps the quantity to the target, one Up or Down at a time, and
    /// presses A once two frames read exactly the target.
    fn quantity(&mut self, o: &Observation, shop: &ShopObservation, events: &mut Vec<GameEvent>)
        -> (d: Decision)
        requires
            o.shop == Some(*shop),
        ensures
            final(self)@ == old(self)@.on_quantity(*o).now,
            d@ == old(self)@.on_quantity(*o).decision,
            events_of(final(events)@) == events_of(old(events)@) + old(self)@.on_quantity(
                *o,
            ).events,
    {
        let ghost start = self@;
        let ghost before = events_of(events@);
        assert(before + Seq::<GameEventV>::empty() =~= before);
        let shown = match shop.quantity {
            Some(q) => q,
            None => {
                return self.wait(o, "reading the quantity");
            },
        };
        let n: u16 = shown.0;
        match self.confirmed(o, Reading::Quantity { count: n, total: shown.1 }) {
            Some(wait) => {
                return wait;
            },
            None => {},
        }
        let mut target: u16 = match self.target {
            Some(t) => t,
            None => {
                return Decision::Fail(
                    "mart: the quantity box opened before a count was decided".to_owned(),
                );
            },
        };
        // An Up that went down wrapped past the box's maximum.
        let up_from = self.up_from;
        self.up_from = None;
        match up_from {
            Some(from) => {
                if n < from {
                    self.max_quantity = Some(from);
                }
            },
            None => {},
        }
        match self.max_quantity {
            Some(max) => {
                if max < target {
                    let mut note = cat("the quantity box stops at ", decimal(max as u64).as_str());
                    note.append(": buying ");
                    note.append(decimal(max as u64).as_str());
                    note.append(" ");
                    note.append(self.item.as_str());
                    self.log(events, note);
                    target = max;
                    self.target = Some(max);
                }
            },
            None => {},
        }
        assert(events_of(events@) =~= before + start.on_quantity(*o).events);
        if n == target {
            self.quoted = Some(shown);
            let mut label = cat("mart: buy ", decimal(n as u64).as_str());
            label.append(" for ¥");
            label.append(decimal(shown.1 as u64).as_str());
            return self.act(label, Button::A, Expectation::Question, TEXT_FRAMES);
        }
        let wrap_down = n == 1 && match self.max_quantity {
            Some(m) => m == target,
            None => false,
        };
        if n < target && !wrap_down {
            self.up_from = Some(n);
            return self.act(
                cat("mart: quantity Up to ", decimal(n as u64 + 1).as_str()),
                Button::Up,
                Expectation::ShopQuantity(n + 1),
                CURSOR_FRAMES,
            );
        }
        let next: u16 = if wrap_down {
            target
        } else {
            n - 1
        };
        self.act(
            cat("mart: quantity Down to ", decimal(next as u64).as_str()),
            Button::Down,
            Expectation::ShopQuantity(next),
            CURSOR_FRAMES,
        )
    }

    /// YES only when the text names the count and total the box showed.
    fn confirm(&mut self, o: &Observation, menu: &MenuObservation, events: &mut Vec<GameEvent>)
        -> (d: Decision)
        requires
            o.menu == Some(*menu),
        ensures
            final(self)@ == old(self)@.on_confirm(*o).now,
            d@ == old(self)@.on_confirm(*o).decision,
            events_of(final(events)@) == events_of(old(events)@) + old(self)@.on_confirm(
                *o,
            ).events,
    {
        let ghost start = self@;
        let ghost before = events_of(events@);
        assert(before + Seq::<GameEventV>::empty() =~= before);
        let page = match &o.dialogue {
            Some(d) => join(&d.lines, " "),
            None => String::new(),
        };
        let (want, total) = match (
            number_after(page.as_str(), "want "),
            number_after(page.as_str(), "¥"),
        ) {
            (Some(w), Some(t)) => (w, t),
            _ => {
                return self.wait(o, "reading the price");
            },
        };
        match self.confirmed(o, Reading::Price { want, total }) {
            Some(wait) => {
                return wait;
            },
            None => {},
        }
        let agrees = match self.quoted {
            Some(q) => q.0 as u32 == want && q.1 == total && match self.target {
                Some(t) => t == q.0,
                None => false,
            },
            None => false,
        };
        if !agrees {
            let mut note = cat("the clerk asks ¥", decimal(total as u64).as_str());
            note.append(" for ");
            note.append(decimal(want as u64).as_str());
            note.append(", but the box showed ");
            note.append(show_pair(self.quoted).as_str());
            note.append(": answering NO");
            self.log(events, note);
            self.quoted = None;
            self.finished = true;
            assert(events_of(events@) =~= before + start.on_confirm(*o).events);
            return self.act(
                "mart: NO".to_owned(),
                Button::B,
                Expectation::MenuClosed,
                TEXT_FRAMES,
            );
        }
        if menu.cursor_row != 0 {
            return self.act(
                "mart: Up to YES".to_owned(),
                Button::Up,
                Expectation::MenuCursorAt(0),
                CURSOR_FRAMES,
            );
        }
        self.paid = self.quoted;
        self.act("mart: YES".to_owned(), Button::A, Expectation::MenuClosed, TEXT_FRAMES)
    }

    /// Advances the clerk's pages, but never a page whose question box is
    /// still to come.
    fn text(&mut self, o: &Observation, d: &DialogueObservation) -> (r: Decision)
        ensures
            final(self)@ == old(self)@.on_text(*d, *o).0,
            r@ == old(self)@.on_text(*d, *o).1,
    {
        let page = join(&d.lines, " ");
        if self.paid.is_some() && contains(page.as_str(), "Here you are") {
            self.handed_over = true;
        }
        if is_question(page.as_str()) {
            return self.wait(o, "a question: waiting for its box");
        }
        let farewell = self.finished && self.leaves > 0;
        let read = d.lines.len() > 0 || farewell;
        if !(d.waiting_for_input || (d.ready_for_a && read)) {
            return self.wait(o, "mart text is printing");
        }
        let expect = if farewell {
            Expectation::ShopClosed
        } else {
            Expectation::TextAdvanced { kind: d.kind, baseline: copy_cells(&d.text_cells) }
        };
        self.act("mart: advance text".to_owned(), Button::A, expect, TEXT_FRAMES)
    }

    /// Takes in a frame: the phase it shows, and whether the last input did
    /// anything.
    fn note(&mut self, o: &Observation, data: &GameData)
        ensures
            final(self)@ == old(self)@.noted(*o, *data),
    {
        let phase = Purchase::phase_of(o);
        let pending = self.pending.take();
        if phase != self.phase {
            self.phase = phase;
            self.retries = 0;
            self.waiting_since = None;
            self.candidate = None;
            self.last_rows = None;
        } else {
            match pending {
                Some(expect) => {
                    let scrolled = match (&o.shop, &self.last_rows) {
                        (Some(s), Some(last)) => !rows_equal(&by_item(data, &s.items), last),
                        _ => false,
                    };
                    if !expect.met(o) && !scrolled {
                        self.retry();
                    }
                },
                None => {},
            }
        }
    }

    /// Next input, or Done once the mart is left.
    pub fn next(&mut self, o: &Observation, data: &GameData, events: &mut Vec<GameEvent>) -> (d:
        Decision)
        ensures
            final(self)@ == old(self)@.stepped(*o, *data).now,
            d@ == old(self)@.stepped(*o, *data).decision,
            events_of(final(events)@) == events_of(old(events)@) + old(self)@.stepped(
                *o,
                *data,
            ).events,
    {
        let ghost before = events_of(events@);
        assert(before + Seq::<GameEventV>::empty() =~= before);
        self.note(o, data);
        match self.exhausted(cat("no progress in ", self.phase.name()).as_str()) {
            Some(fail) => {
                return fail;
            },
            None => {},
        }
        match self.phase {
            Phase::Menu => match &o.menu {
                Some(menu) => self.menu(o, menu),
                None => self.wait(o, "waiting for a mart screen"),
            },
            Phase::List => match &o.shop {
                Some(shop) => self.list(o, shop, data, events),
                None => self.wait(o, "waiting for a mart screen"),
            },
            Phase::Quantity => match &o.shop {
                Some(shop) => self.quantity(o, shop, events),
                None => self.wait(o, "waiting for a mart screen"),
            },
            Phase::Confirm => match &o.menu {
                Some(menu) => self.confirm(o, menu, events),
                None => self.wait(o, "waiting for a mart screen"),
            },
            Phase::Text => match &o.dialogue {
                Some(d) => self.text(o, d),
                None => self.wait(o, "waiting for a mart screen"),
            },
            Phase::Outside => {
                if self.finished && self.leaves > 0 {
                    return Decision::Done(
                        if self.summary.len() == 0 {
                            "left the mart".to_owned()
                        } else {
                            join(&self.summary, "; ")
                        },
                    );
                }
                self.wait(o, "waiting for the mart menu")
            },
            Phase::Other => self.wait(o, "waiting for a mart screen"),
        }
    }
}

impl PurchaseV {
    proof fn waiting_keeps_the_numbers(self, o: Observation, reason: Seq<char>)
        ensures
            self.waiting(o, reason).0.paid == self.paid,
            self.waiting(o, reason).0.quoted == self.quoted,
            self.waiting(o, reason).0.target == self.target,
            self.waiting(o, reason).1 !is Done,
            self.waiting(o, reason).1 !is Act,
    {
    }

    proof fn confirming_keeps_the_numbers(self, o: Observation, reading: Reading)
        ensures
            self.confirming(o, reading).0.paid == self.paid,
            self.confirming(o, reading).0.quoted == self.quoted,
            self.confirming(o, reading).0.target == self.target,
            self.confirming(o, reading).1 is Some ==> self.confirming(o, reading).1->0 !is Done,
            self.confirming(o, reading).1 is None ==> self.candidate is Some && (
            self.candidate->0).0 < o.frame_id && (self.candidate->0).1 == reading,
    {
    }

    proof fn the_menu_keeps_the_numbers(self, o: Observation)
        ensures
            self.on_menu(o).0.paid == self.paid,
            self.on_menu(o).0.quoted == self.quoted,
            self.on_menu(o).1 !is Done,
    {
    }

    proof fn text_keeps_the_numbers(self, d: DialogueObservation, o: Observation)
        ensures
            self.on_text(d, o).0.paid == self.paid,
            self.on_text(d, o).0.quoted == self.quoted,
            self.on_text(d, o).1 !is Done,
            question_page(joined(lines_of(d.lines@), " "@)) ==> self.on_text(d, o).1 !is Act,
    {
    }

    proof fn the_row_keeps_the_numbers(
        self,
        cursor: u8,
        rows: Seq<(Seq<char>, Option<u32>)>,
        target: u16,
    )
        ensures
            self.to_row(cursor, rows, target).0.paid == self.paid,
            self.to_row(cursor, rows, target).0.quoted == self.quoted,
            self.to_row(cursor, rows, target).1 !is Done,
    {
    }

    proof fn the_list_takes_what_was_paid(self, o: Observation, data: GameData)
        ensures
            self.on_list(o, data).now.paid is None || self.on_list(o, data).now.paid == self.paid,
            self.on_list(o, data).now.quoted == self.quoted,
            self.on_list(o, data).decision !is Done,
    {
        let shop = o.shop->0;
        let rows = keyed(data, shop.items@);
        self.waiting_keeps_the_numbers(o, "reading the money"@);
        if shop.money is Some && shop.cursor is Some {
            let money = shop.money->0;
            let cursor = shop.cursor->0;
            let reading = Reading::List { money, cursor, row: row_with(rows, self.item) };
            self.confirming_keeps_the_numbers(o, reading);
            let c = self.confirming(o, reading);
            let read = c.0.money_read(money, data);
            assert(read.0.paid is None && read.0.quoted == self.quoted);
            if read.0.target is Some {
                read.0.the_row_keeps_the_numbers(cursor, rows, read.0.target->0);
            } else {
                let told = match read.0.count_note(money, data) {
                    Some(n) => read.0.logged(n),
                    None => read.0,
                };
                let count = read.0.count_for(money, data);
                PurchaseV { target: Some(count), ..told }.the_row_keeps_the_numbers(
                    cursor,
                    rows,
                    count,
                );
            }
        }
    }

    proof fn the_box_is_quoted_when_it_shows_the_target(self, o: Observation)
        ensures
            self.on_quantity(o).now.paid == self.paid,
            self.on_quantity(o).decision !is Done,
            self.on_quantity(o).now.quoted != self.quoted ==> {
                let now = self.on_quantity(o).now;
                &&& now.quoted is Some
                &&& o.shop->0.quantity == now.quoted
                &&& now.target == Some((now.quoted->0).0)
                &&& self.candidate is Some
                &&& (self.candidate->0).0 < o.frame_id
                &&& (self.candidate->0).1 == Reading::Quantity {
                    count: (now.quoted->0).0,
                    total: (now.quoted->0).1,
                }
            },
    {
        self.waiting_keeps_the_numbers(o, "reading the quantity"@);
        if let Some(shown) = o.shop->0.quantity {
            self.confirming_keeps_the_numbers(
                o,
                Reading::Quantity { count: shown.0, total: shown.1 },
            );
        }
    }

    proof fn yes_when_the_text_agrees(self, o: Observation)
        ensures
            self.on_confirm(o).decision !is Done,
            self.on_confirm(o).now.quoted is None || self.on_confirm(o).now.quoted == self.quoted,
            self.on_confirm(o).now.paid != self.paid ==> {
                let page = match o.dialogue {
                    Some(d) => joined(lines_of(d.lines@), " "@),
                    None => Seq::empty(),
                };
                let paid = self.on_confirm(o).now.paid;
                &&& paid is Some
                &&& paid == self.quoted
                &&& number_in(page, "want "@) == Some((paid->0).0 as u32)
                &&& number_in(page, "¥"@) == Some((paid->0).1)
                &&& self.target == Some((paid->0).0)
                &&& self.candidate is Some
                &&& (self.candidate->0).0 < o.frame_id
                &&& (self.candidate->0).1 == Reading::Price {
                    want: (paid->0).0 as u32,
                    total: (paid->0).1,
                }
            },
    {
        let page = match o.dialogue {
            Some(d) => joined(lines_of(d.lines@), " "@),
            None => Seq::empty(),
        };
        let want = number_in(page, "want "@);
        let total = number_in(page, "¥"@);
        self.waiting_keeps_the_numbers(o, "reading the price"@);
        if want is Some && total is Some {
            self.confirming_keeps_the_numbers(
                o,
                Reading::Price { want: want->0, total: total->0 },
            );
        }
    }
}

impl PurchaseV {
    /// YES goes out only where the clerk's text, read the same on two frames,
    /// names the count and the total that the quantity box showed, and the
    /// count is the one decided on.
    pub proof fn yes_means_the_numbers_agree(self, o: Observation, data: GameData)
        requires
            self.stepped(o, data).now.paid != self.paid,
            self.stepped(o, data).now.paid is Some,
        ensures
            ({
                let page = joined(lines_of(o.dialogue->0.lines@), " "@);
                let paid = self.stepped(o, data).now.paid->0;
                &&& number_in(page, "want "@) == Some(paid.0 as u32)
                &&& number_in(page, "¥"@) == Some(paid.1)
                &&& self.target == Some(paid.0)
                &&& self.quoted == Some(paid)
                &&& self.candidate is Some
                &&& (self.candidate->0).0 < o.frame_id
                &&& (self.candidate->0).1 == Reading::Price { want: paid.0 as u32, total: paid.1 }
            }),
    {
        let n = self.noted(o, data);
        if n.exhausted("no progress in "@ + n.phase.called()) is None {
            match n.phase {
                Phase::Menu => n.the_menu_keeps_the_numbers(o),
                Phase::List => n.the_list_takes_what_was_paid(o, data),
                Phase::Quantity => n.the_box_is_quoted_when_it_shows_the_target(o),
                Phase::Confirm => n.yes_when_the_text_agrees(o),
                Phase::Text => n.text_keeps_the_numbers(o.dialogue->0, o),
                _ => {},
            }
        }
    }

    /// A quantity is confirmed with A only when it is the target, or the most
    /// the box allows, and two frames read it the same.
    pub proof fn only_the_target_is_quoted(self, o: Observation, data: GameData)
        requires
            self.stepped(o, data).now.quoted != self.quoted,
            self.stepped(o, data).now.quoted is Some,
        ensures
            ({
                let now = self.stepped(o, data).now;
                let quoted = now.quoted->0;
                &&& now.target == Some(quoted.0)
                &&& o.shop is Some
                &&& o.shop->0.quantity == Some(quoted)
                &&& self.candidate is Some
                &&& (self.candidate->0).0 < o.frame_id
                &&& (self.candidate->0).1 == Reading::Quantity {
                    count: quoted.0,
                    total: quoted.1,
                }
            }),
    {
        let n = self.noted(o, data);
        if n.exhausted("no progress in "@ + n.phase.called()) is None {
            match n.phase {
                Phase::Menu => n.the_menu_keeps_the_numbers(o),
                Phase::List => n.the_list_takes_what_was_paid(o, data),
                Phase::Quantity => n.the_box_is_quoted_when_it_shows_the_target(o),
                Phase::Confirm => n.yes_when_the_text_agrees(o),
                Phase::Text => n.text_keeps_the_numbers(o.dialogue->0, o),
                _ => {},
            }
        }
    }

    /// The count decided on the list leaves the money for the Potions.
    pub proof fn a_decided_count_keeps_the_potion_money(self, money: u32, data: GameData)
        requires
            self.count_for(money, data) > 0,
        ensures
            price_of(data, "ITEM_POTION"@) is Some,
            price_of(data, self.item) is Some,
            self.count_for(money, data) * price_of(data, self.item)->0
                + crate::stock::POTIONS_KEPT * price_of(data, "ITEM_POTION"@)->0 <= money,
            self.count_for(money, data) <= MAX_QUANTITY,
    {
        crate::stock::potion_money_is_kept(data, self.item, money, self.count_for(money, data));
    }

    /// A page whose question box is still to come is never pressed through.
    pub proof fn questions_are_never_pressed_through(self, o: Observation, data: GameData)
        requires
            phase_on(o) == Phase::Text,
            question_page(joined(lines_of(o.dialogue->0.lines@), " "@)),
        ensures
            self.stepped(o, data).decision !is Act,
    {
    }

    /// The purchase is done only after SEE YA!, on the map, once nothing more
    /// is to be bought.
    pub proof fn done_means_left(self, o: Observation, data: GameData)
        requires
            self.stepped(o, data).decision is Done,
        ensures
            self.finished,
            self.leaves > 0,
            o.shop is None,
            o.menu is None,
            o.dialogue is None,
            o.player is Some,
    {
        let n = self.noted(o, data);
        if n.exhausted("no progress in "@ + n.phase.called()) is None {
            match n.phase {
                Phase::Menu => n.the_menu_keeps_the_numbers(o),
                Phase::List => n.the_list_takes_what_was_paid(o, data),
                Phase::Quantity => n.the_box_is_quoted_when_it_shows_the_target(o),
                Phase::Confirm => n.yes_when_the_text_agrees(o),
                Phase::Text => n.text_keeps_the_numbers(o.dialogue->0, o),
                _ => {},
            }
        }
    }

    /// Used-up retries fail the purchase, in one phase and in all.
    pub proof fn retries_are_bounded(self, o: Observation, data: GameData)
        requires
            self.total_retries > MAX_TOTAL_RETRIES || (self.retries > MAX_RETRIES && phase_on(o)
                == self.phase),
        ensures
            self.stepped(o, data).decision is Fail,
    {
    }
}

} // verus!
