//! One throw through the battle bag.

use vstd::prelude::*;
use vstd::string::StringExecFns;

use crate::action::{Expectation, ExpectationV};
use crate::bag::{
    by_item, cancel_shows, find_row, items_text, key_at, key_of, keyed, line_reading, place_of,
    pocket_from_title, pocket_index, pocket_title, read_rows, reads_as, row_with, rows_read,
    same_rows, show_items, shows_cancel, title_at, titled, RowV,
};
use crate::catch::plan::{best_ball, best_of, throwable};
use crate::event::{events_of, items_of, report, text_of, GameEvent, GameEventV, Pocket};
use crate::executor::{press, pressing, Decision, DecisionV};
use crate::gamedata::GameData;
use crate::input::Button;
use crate::observe::{rows_of, BagObservation, Observation, ScreenState};
use crate::save::{count, counted};
use crate::shop::line_at;
use crate::stock::{balls_in, capped, count_balls, SHINY_RESERVE};
use crate::text::{cat, cat3, cut_start, decimal, decimal_of, same, trim_start_matches};

verus! {

/// Retries (unmet expectations, or [`BAG_WAIT_FRAMES`] of waiting) in one
/// phase of the battle bag, and in the whole throw.
pub const BAG_RETRIES: u32 = 12;

pub const BAG_TOTAL_RETRIES: u32 = 40;

pub const BAG_WAIT_FRAMES: u64 = 60;

/// B presses to leave the bag after giving up a throw.
pub const MAX_CLOSES: u32 = 8;

/// Rows that the list has room for.
pub const LIST_ROWS: usize = 6;

#[derive(Debug, Clone, Copy, PartialEq, Eq, Structural)]
pub enum ThrowPhase {
    /// No bag on screen (opening, or the ball on its way after USE).
    Opening,
    /// Another pocket: step toward POKé BALLS.
    Pocket,
    /// The POKé BALLS list.
    List,
    /// The USE/CANCEL prompt.
    Prompt,
}

impl ThrowPhase {
    pub open spec fn called(self) -> Seq<char> {
        match self {
            ThrowPhase::Opening => "Opening"@,
            ThrowPhase::Pocket => "Pocket"@,
            ThrowPhase::List => "List"@,
            ThrowPhase::Prompt => "Prompt"@,
        }
    }

    pub fn name(self) -> (s: &'static str)
        ensures
            s@ == self.called(),
    {
        match self {
            ThrowPhase::Opening => "Opening",
            ThrowPhase::Pocket => "Pocket",
            ThrowPhase::List => "List",
            ThrowPhase::Prompt => "Prompt",
        }
    }
}

/// One throw through the battle bag: switch to POKé BALLS (reading the
/// title; the bag remembers pocket and row), read the rows on two agreeing
/// frames (`PocketObserved` when the whole pocket is on screen), re-pick the
/// best ball from them, move ▶ to it, A, then USE on the prompt. Retries are
/// capped; giving up closes the bag with B.
#[derive(Debug, Clone)]
pub struct Thrower {
    pub phase: ThrowPhase,
    /// A on USE was pressed.
    pub use_pressed: bool,
    pub observed: bool,
    /// The ball A was pressed on (the prompt is for it).
    pub selected: Option<String>,
    /// The last unconfirmed list reading: the frame and the ▶'s row.
    pub candidate: Option<(u64, u8)>,
    /// The rows of that reading, by item.
    pub candidate_rows: Vec<(String, Option<u16>)>,
    pub pending: Option<Expectation>,
    pub retries: u32,
    pub total_retries: u32,
    pub waiting_since: Option<u64>,
    pub gave_up: Option<String>,
    pub closes: u32,
    /// Give the throw up when the pocket holds [`SHINY_RESERVE`] balls or
    /// fewer (a non-shiny attempt).
    pub keep_reserve: bool,
    /// The balls the confirmed rows hold (Master Ball excluded).
    pub counted: Option<u16>,
    /// The throw was given up because only the reserve is left.
    pub at_reserve: bool,
}

/// What the throw knows.
#[verifier::ext_equal]
pub struct ThrowerV {
    pub phase: ThrowPhase,
    pub use_pressed: bool,
    pub observed: bool,
    pub selected: Option<Seq<char>>,
    /// The last unconfirmed list reading: (frame, ▶ row, rows by item).
    pub candidate: Option<(u64, u8, Seq<RowV>)>,
    pub pending: Option<ExpectationV>,
    pub retries: u32,
    pub total_retries: u32,
    pub waiting_since: Option<u64>,
    pub gave_up: Option<Seq<char>>,
    pub closes: u32,
    pub keep_reserve: bool,
    pub counted: Option<u16>,
    pub at_reserve: bool,
}

impl View for Thrower {
    type V = ThrowerV;

    open spec fn view(&self) -> ThrowerV {
        ThrowerV {
            phase: self.phase,
            use_pressed: self.use_pressed,
            observed: self.observed,
            selected: text_of(self.selected),
            candidate: match self.candidate {
                Some(c) => Some((c.0, c.1, rows_of(self.candidate_rows@))),
                None => None,
            },
            pending: match self.pending {
                Some(e) => Some(e@),
                None => None,
            },
            retries: self.retries,
            total_retries: self.total_retries,
            waiting_since: self.waiting_since,
            gave_up: text_of(self.gave_up),
            closes: self.closes,
            keep_reserve: self.keep_reserve,
            counted: self.counted,
            at_reserve: self.at_reserve,
        }
    }
}

/// What shows, as far as a throw is concerned.
pub open spec fn throw_phase(o: Observation) -> ThrowPhase {
    match o.bag {
        None => ThrowPhase::Opening,
        Some(b) => if b.prompt is Some {
            ThrowPhase::Prompt
        } else if titled(b.pocket@) == Some(Pocket::PokeBalls) {
            ThrowPhase::List
        } else {
            ThrowPhase::Pocket
        },
    }
}

/// With CANCEL on screen and a free row, the pocket can't scroll: this is all
/// of it.
pub open spec fn whole_pocket(bag: BagObservation) -> bool {
    bag.rows@.len() < LIST_ROWS && cancel_shows(rows_of(bag.rows@))
}

/// The label's note where another ball is thrown than planned.
pub open spec fn instead_of(best: Seq<char>, ball: Seq<char>) -> Seq<char> {
    if best != ball {
        " (instead of "@ + cut_start(ball, "ITEM_"@) + ")"@
    } else {
        Seq::empty()
    }
}

impl ThrowerV {
    pub open spec fn fresh() -> ThrowerV {
        ThrowerV {
            phase: ThrowPhase::Opening,
            use_pressed: false,
            observed: false,
            selected: None,
            candidate: None,
            pending: None,
            retries: 0,
            total_retries: 0,
            waiting_since: None,
            gave_up: None,
            closes: 0,
            keep_reserve: false,
            counted: None,
            at_reserve: false,
        }
    }

    pub open spec fn retried(self) -> ThrowerV {
        ThrowerV {
            retries: counted(self.retries),
            total_retries: counted(self.total_retries),
            ..self
        }
    }

    /// Presses a button and remembers what that is to show.
    pub open spec fn acting(
        self,
        label: Seq<char>,
        button: Button,
        expect: ExpectationV,
        timeout: u64,
    ) -> (ThrowerV, DecisionV) {
        (
            ThrowerV { waiting_since: None, candidate: None, pending: Some(expect), ..self },
            pressing(label, button, expect, timeout),
        )
    }

    /// Waits; every [`BAG_WAIT_FRAMES`] of waiting counts as a retry.
    pub open spec fn waiting(self, o: Observation, reason: Seq<char>) -> (ThrowerV, DecisionV) {
        let since = match self.waiting_since {
            Some(s) => s,
            None => o.frame_id,
        };
        (
            if o.frame_id >= since + BAG_WAIT_FRAMES {
                ThrowerV { waiting_since: Some(o.frame_id), ..self.retried() }
            } else {
                ThrowerV { waiting_since: Some(since), ..self }
            },
            DecisionV::Wait(reason),
        )
    }

    /// After giving up: B until the bag is gone, then `Done`.
    pub open spec fn closing(self, o: Observation, phase: ThrowPhase, reason: Seq<char>) -> (
        ThrowerV,
        DecisionV,
    ) {
        if o.bag is None {
            (self, DecisionV::Done(reason))
        } else {
            let tried = ThrowerV { closes: counted(self.closes), ..self };
            if tried.closes > MAX_CLOSES {
                (tried, DecisionV::Fail("battle bag won't close ("@ + reason + ")"@))
            } else {
                (
                    ThrowerV { pending: None, ..tried },
                    pressing(
                        "battle bag: B to give up the throw"@,
                        Button::B,
                        if phase == ThrowPhase::Prompt {
                            ExpectationV::ScreenIs(ScreenState::Bag)
                        } else {
                            ExpectationV::BagClosed
                        },
                        60,
                    ),
                )
            }
        }
    }

    pub open spec fn giving_up(self, o: Observation, phase: ThrowPhase, reason: Seq<char>) -> (
        ThrowerV,
        DecisionV,
    ) {
        ThrowerV { gave_up: Some(reason), ..self }.closing(o, phase, reason)
    }

    /// Moves the ▶ to the best ball's row, or selects it.
    pub open spec fn to_ball(
        self,
        rows: Seq<RowV>,
        cursor: u8,
        best: Seq<char>,
        ball: Seq<char>,
    ) -> (ThrowerV, DecisionV) {
        let target = row_with(rows, best)->0 as u8;
        let name = cut_start(best, "ITEM_"@);
        if cursor == target {
            ThrowerV { selected: Some(best), ..self }.acting(
                "throw "@ + name + instead_of(best, ball) + ": select it"@,
                Button::A,
                ExpectationV::BagPrompt,
                60,
            )
        } else if target > cursor {
            self.acting(
                "battle bag: "@ + "Down"@ + " toward "@ + name,
                Button::Down,
                ExpectationV::BagCursorAt((cursor + 1) as u8),
                45,
            )
        } else {
            self.acting(
                "battle bag: "@ + "Up"@ + " toward "@ + name,
                Button::Up,
                ExpectationV::BagCursorAt((cursor - 1) as u8),
                45,
            )
        }
    }

    /// The POKé BALLS list, once two frames have read it the same.
    pub open spec fn list_read(
        self,
        o: Observation,
        data: GameData,
        ball: Seq<char>,
    ) -> (ThrowerV, DecisionV, Seq<GameEventV>) {
        let bag = o.bag->0;
        let items = rows_read(data, rows_of(bag.rows@))->0;
        let whole = whole_pocket(bag);
        let events = if whole && !self.observed {
            seq![
                GameEventV::PocketObserved { pocket: Pocket::PokeBalls, items },
            ]
        } else {
            Seq::empty()
        };
        let count = capped(balls_in(data, items));
        let read = ThrowerV {
            candidate: None,
            observed: self.observed || whole,
            // The count is a fact only for the whole pocket (a scrolled list
            // shows part of it).
            counted: if whole {
                Some(count)
            } else {
                self.counted
            },
            ..self
        };
        let step = if whole && self.keep_reserve && count <= SHINY_RESERVE {
            ThrowerV { at_reserve: true, ..read }.giving_up(
                o,
                ThrowPhase::List,
                decimal_of(count as nat) + " balls: only the shiny reserve is left"@,
            )
        } else {
            match best_of(data, items) {
                None => read.giving_up(
                    o,
                    ThrowPhase::List,
                    "no usable ball in "@ + ("["@ + items_text(items) + "]"@),
                ),
                Some(best) => read.to_ball(keyed(data, bag.rows@), bag.cursor->0, best, ball),
            }
        };
        (step.0, step.1, events)
    }

    /// The POKé BALLS list.
    pub open spec fn on_list(
        self,
        o: Observation,
        data: GameData,
        ball: Seq<char>,
    ) -> (ThrowerV, DecisionV, Seq<GameEventV>) {
        let bag = o.bag->0;
        let rows = keyed(data, bag.rows@);
        let quiet = |r: (ThrowerV, DecisionV)| (r.0, r.1, Seq::<GameEventV>::empty());
        if bag.cursor is None {
            quiet(self.waiting(o, "looking for the bag's ▶"@))
        } else if bag.rows@.len() == 0 || rows_read(data, rows_of(bag.rows@)) is None {
            quiet(self.waiting(o, "reading the ball rows"@))
        } else {
            let cursor = bag.cursor->0;
            let fresh = ThrowerV { candidate: Some((o.frame_id, cursor, rows)), ..self };
            // A count or a row is a fact only once two frames read it the same.
            match self.candidate {
                None => quiet(fresh.waiting(o, "confirming the rows on a later frame"@)),
                Some(c) => if c.0 >= o.frame_id {
                    quiet(self.waiting(o, "confirming the rows on a later frame"@))
                } else if c.1 == cursor && c.2 == rows {
                    self.list_read(o, data, ball)
                } else {
                    quiet(fresh.retried().waiting(o, "re-reading rows that read differently"@))
                },
            }
        }
    }

    /// The USE/CANCEL prompt.
    pub open spec fn on_prompt(self, o: Observation) -> (ThrowerV, DecisionV) {
        let prompt = o.bag->0.prompt->0;
        match self.selected {
            // Not our prompt: back to the list.
            None => self.acting(
                "battle bag: leave a prompt we didn't open"@,
                Button::B,
                ExpectationV::ScreenIs(ScreenState::Bag),
                45,
            ),
            Some(item) => if forall|i: int| !line_at(prompt.0@, "USE"@, i) {
                self.waiting(o, "reading USE/CANCEL"@)
            } else {
                let use_row = (choose|i: int| line_at(prompt.0@, "USE"@, i)) as u8;
                let row = prompt.1;
                if row == use_row {
                    ThrowerV { use_pressed: true, ..self }.acting(
                        "throw "@ + cut_start(item, "ITEM_"@) + ": USE"@,
                        Button::A,
                        ExpectationV::BagClosed,
                        90,
                    )
                } else if use_row > row {
                    self.acting(
                        "battle bag: "@ + "Down"@ + " toward USE"@,
                        Button::Down,
                        ExpectationV::BagPromptAt((row + 1) as u8),
                        45,
                    )
                } else {
                    self.acting(
                        "battle bag: "@ + "Up"@ + " toward USE"@,
                        Button::Up,
                        ExpectationV::BagPromptAt((row - 1) as u8),
                        45,
                    )
                }
            },
        }
    }

    /// Another pocket: a step toward POKé BALLS, the last one.
    pub open spec fn toward_balls(self, o: Observation) -> (ThrowerV, DecisionV) {
        match titled(o.bag->0.pocket@) {
            None => self.waiting(o, "reading the pocket title"@),
            Some(shown) => {
                let next = place_of(shown)->0 + 1;
                self.acting(
                    "battle bag: "@ + "Right"@ + " to "@ + title_at(next),
                    Button::Right,
                    ExpectationV::BagPocket(title_at(next)),
                    60,
                )
            },
        }
    }

    /// The throw after it has looked at a frame.
    pub open spec fn noted(self, o: Observation) -> ThrowerV {
        let taken = ThrowerV { pending: None, ..self };
        if throw_phase(o) != self.phase {
            ThrowerV { phase: throw_phase(o), retries: 0, waiting_since: None, ..taken }
        } else if self.pending is Some && !self.pending->0.met(o) {
            taken.retried()
        } else {
            taken
        }
    }

    /// One step of the throw.
    pub open spec fn stepped(
        self,
        o: Observation,
        data: GameData,
        ball: Seq<char>,
    ) -> (ThrowerV, DecisionV, Seq<GameEventV>) {
        let quiet = |r: (ThrowerV, DecisionV)| (r.0, r.1, Seq::<GameEventV>::empty());
        let phase = throw_phase(o);
        match self.gave_up {
            Some(reason) => quiet(self.closing(o, phase, reason)),
            None => {
                let n = self.noted(o);
                if n.retries > BAG_RETRIES || n.total_retries > BAG_TOTAL_RETRIES {
                    quiet(
                        n.giving_up(
                            o,
                            phase,
                            "no progress in "@ + phase.called() + " of the battle bag"@,
                        ),
                    )
                } else {
                    match phase {
                        ThrowPhase::Opening => if n.use_pressed {
                            (n, DecisionV::Wait("the ball is thrown"@), Seq::empty())
                        } else {
                            quiet(n.waiting(o, "waiting for the battle bag"@))
                        },
                        ThrowPhase::Pocket => quiet(n.toward_balls(o)),
                        ThrowPhase::List => n.on_list(o, data, ball),
                        ThrowPhase::Prompt => quiet(n.on_prompt(o)),
                    }
                }
            },
        }
    }

    /// USE was pressed and the bag closed: the ball is on its way.
    pub open spec fn is_used(self) -> bool {
        self.use_pressed && self.phase == ThrowPhase::Opening
    }
}

/// The item of a resolved list stands in one of its rows.
proof fn items_stand_in_rows(
    data: GameData,
    rows: Seq<(String, Option<u16>)>,
    items: Seq<(Seq<char>, u16)>,
    k: int,
)
    requires
        rows_read(data, rows_of(rows)) == Some(items),
        0 <= k < items.len(),
    ensures
        exists|i: int| 0 <= i < rows.len() && #[trigger] key_of(data, rows[i].0@) == items[k].0,
    decreases rows.len(),
{
    let all = rows_of(rows);
    if rows.len() > 0 {
        let last = rows.len() - 1;
        assert(all.drop_last() =~= rows_of(rows.drop_last()));
        let rest = rows_read(data, all.drop_last())->0;
        if k < rest.len() {
            items_stand_in_rows(data, rows.drop_last(), rest, k);
            let i = choose|i: int|
                0 <= i < rows.drop_last().len() && #[trigger] key_of(
                    data,
                    rows.drop_last()[i].0@,
                ) == rest[k].0;
            assert(key_of(data, rows[i].0@) == items[k].0);
        } else {
            assert(key_of(data, rows[last].0@) == items[k].0);
        }
    }
}

impl Default for Thrower {
    fn default() -> (t: Thrower)
        ensures
            t@ == ThrowerV::fresh(),
    {
        Thrower {
            phase: ThrowPhase::Opening,
            use_pressed: false,
            observed: false,
            selected: None,
            candidate: None,
            candidate_rows: Vec::new(),
            pending: None,
            retries: 0,
            total_retries: 0,
            waiting_since: None,
            gave_up: None,
            closes: 0,
            keep_reserve: false,
            counted: None,
            at_reserve: false,
        }
    }
}

impl Thrower {
    pub fn new() -> (t: Thrower)
        ensures
            t@ == ThrowerV::fresh(),
    {
        Thrower::default()
    }

    /// Gives the throw up at [`SHINY_RESERVE`] balls or fewer (`keep`:
    /// the attempt is not for a shiny).
    pub fn keeping_reserve(self, keep: bool) -> (t: Thrower)
        ensures
            t@ == (ThrowerV { keep_reserve: keep, ..self@ }),
    {
        let mut t = self;
        t.keep_reserve = keep;
        t
    }

    /// The balls the list read on two agreeing frames holds, once read.
    pub fn counted(&self) -> (r: Option<u16>)
        ensures
            r == self@.counted,
    {
        self.counted
    }

    /// The throw was given up because only the shiny reserve is left.
    pub fn at_reserve(&self) -> (r: bool)
        ensures
            r == self@.at_reserve,
    {
        self.at_reserve
    }

    /// USE was pressed and the bag closed: the ball is on its way.
    pub fn used(&self) -> (r: bool)
        ensures
            r == self@.is_used(),
    {
        self.use_pressed && self.phase == ThrowPhase::Opening
    }

    /// Why the throw was given up, if it was.
    pub fn gave_up(&self) -> (r: Option<&str>)
        ensures
            match r {
                Some(s) => self@.gave_up == Some(s@),
                None => self@.gave_up is None,
            },
    {
        match &self.gave_up {
            Some(s) => Some(s.as_str()),
            None => None,
        }
    }

    fn retry(&mut self)
        ensures
            final(self)@ == old(self)@.retried(),
    {
        self.retries = count(self.retries);
        self.total_retries = count(self.total_retries);
    }

    fn act(&mut self, label: String, button: Button, expect: Expectation, timeout: u64) -> (d:
        Decision)
        ensures
            final(self)@ == old(self)@.acting(label@, button, expect@, timeout).0,
            d@ == old(self)@.acting(label@, button, expect@, timeout).1,
    {
        self.waiting_since = None;
        self.candidate = None;
        self.pending = Some(expect.copy());
        press(label, button, expect, timeout)
    }

    /// Waits; every [`BAG_WAIT_FRAMES`] of waiting counts as a retry.
    fn wait(&mut self, o: &Observation, reason: &str) -> (d: Decision)
        ensures
            final(self)@ == old(self)@.waiting(*o, reason@).0,
            d@ == old(self)@.waiting(*o, reason@).1,
    {
        let since: u64 = match self.waiting_since {
            Some(s) => s,
            None => o.frame_id,
        };
        if o.frame_id >= since && o.frame_id - since >= BAG_WAIT_FRAMES {
            self.retry();
            self.waiting_since = Some(o.frame_id);
        } else {
            self.waiting_since = Some(since);
        }
        Decision::Wait(reason.to_owned())
    }

    /// After giving up: B until the bag is gone, then `Done`.
    fn close(&mut self, o: &Observation, phase: ThrowPhase, reason: &str) -> (d: Decision)
        ensures
            final(self)@ == old(self)@.closing(*o, phase, reason@).0,
            d@ == old(self)@.closing(*o, phase, reason@).1,
    {
        if o.bag.is_none() {
            return Decision::Done(reason.to_owned());
        }
        self.closes = count(self.closes);
        if self.closes > MAX_CLOSES {
            return Decision::Fail(cat3("battle bag won't close (", reason, ")"));
        }
        let expect = if phase == ThrowPhase::Prompt {
            Expectation::ScreenIs(ScreenState::Bag)
        } else {
            Expectation::BagClosed
        };
        self.pending = None;
        press("battle bag: B to give up the throw".to_owned(), Button::B, expect, 60)
    }

    fn give_up(&mut self, o: &Observation, phase: ThrowPhase, reason: String) -> (d: Decision)
        ensures
            final(self)@ == old(self)@.giving_up(*o, phase, reason@).0,
            d@ == old(self)@.giving_up(*o, phase, reason@).1,
    {
        self.gave_up = Some(reason.clone());
        self.close(o, phase, reason.as_str())
    }

    /// Moves the ▶ to the best ball's row, or selects it.
    fn go_to_ball(&mut self, target: usize, cursor: u8, best: String, ball: &str, rows: Ghost<
        Seq<RowV>,
    >) -> (d: Decision)
        requires
            row_with(rows@, best@) == Some(target),
        ensures
            final(self)@ == old(self)@.to_ball(rows@, cursor, best@, ball@).0,
            d@ == old(self)@.to_ball(rows@, cursor, best@, ball@).1,
    {
        let target: u8 = target as u8;
        let name = trim_start_matches(best.as_str(), "ITEM_").to_owned();
        if cursor == target {
            let mut label = cat("throw ", name.as_str());
            let note = if !same(best.as_str(), ball) {
                cat3(" (instead of ", trim_start_matches(ball, "ITEM_"), ")")
            } else {
                String::new()
            };
            label.append(note.as_str());
            label.append(": select it");
            self.selected = Some(best);
            return self.act(label, Button::A, Expectation::BagPrompt, 60);
        }
        if target > cursor {
            let mut label = cat3("battle bag: ", "Down", " toward ");
            label.append(name.as_str());
            self.act(label, Button::Down, Expectation::BagCursorAt(cursor + 1), 45)
        } else {
            let mut label = cat3("battle bag: ", "Up", " toward ");
            label.append(name.as_str());
            self.act(label, Button::Up, Expectation::BagCursorAt(cursor - 1), 45)
        }
    }

    /// The POKé BALLS list, once two frames have read it the same.
    fn read_list(
        &mut self,
        o: &Observation,
        bag: &BagObservation,
        cursor: u8,
        data: &GameData,
        ball: &str,
        items: Vec<(String, u16)>,
        rows: &Vec<(String, Option<u16>)>,
        events: &mut Vec<GameEvent>,
    ) -> (d: Decision)
        requires
            o.bag == Some(*bag),
            bag.cursor == Some(cursor),
            rows_of(rows@) == keyed(*data, bag.rows@),
            rows_read(*data, rows_of(bag.rows@)) == Some(items_of(items@)),
        ensures
            final(self)@ == old(self)@.list_read(*o, *data, ball@).0,
            d@ == old(self)@.list_read(*o, *data, ball@).1,
            events_of(final(events)@) == events_of(old(events)@) + old(self)@.list_read(
                *o,
                *data,
                ball@,
            ).2,
    {
        let ghost start = self@;
        let ghost before = events_of(events@);
        self.candidate = None;
        let whole = bag.rows.len() < LIST_ROWS && shows_cancel(&bag.rows);
        if whole && !self.observed {
            self.observed = true;
            report(
                events,
                GameEvent::PocketObserved { pocket: Pocket::PokeBalls, items: copy_items(&items) },
            );
        }
        assert(events_of(events@) =~= before + start.list_read(*o, *data, ball@).2);
        let n = count_balls(data, &items);
        if whole {
            self.counted = Some(n);
            if self.keep_reserve && n <= SHINY_RESERVE {
                self.at_reserve = true;
                return self.give_up(
                    o,
                    ThrowPhase::List,
                    cat(decimal(n as u64).as_str(), " balls: only the shiny reserve is left"),
                );
            }
        }
        match best_ball(data, &items) {
            None => self.give_up(
                o,
                ThrowPhase::List,
                cat("no usable ball in ", show_items(&items).as_str()),
            ),
            Some(best) => {
                proof {
                    let k = choose|k: int|
                        #[trigger] throwable(*data, items_of(items@), k) && items_of(items@)[k].0
                            == best@;
                    items_stand_in_rows(*data, bag.rows@, items_of(items@), k);
                    let i = choose|i: int|
                        0 <= i < bag.rows@.len() && #[trigger] key_of(*data, bag.rows@[i].0@)
                            == best@;
                    assert(rows_of(rows@)[i].0 == best@);
                }
                match find_row(rows, best.as_str()) {
                    Some(target) => self.go_to_ball(
                        target,
                        cursor,
                        best,
                        ball,
                        Ghost(rows_of(rows@)),
                    ),
                    None => {
                        assert(false) by {
                            row_with_finds(rows_of(rows@), best@);
                        }
                        self.wait(o, "reading the ball rows")
                    },
                }
            },
        }
    }

    /// The POKé BALLS list.
    fn list(
        &mut self,
        o: &Observation,
        bag: &BagObservation,
        data: &GameData,
        ball: &str,
        events: &mut Vec<GameEvent>,
    ) -> (d: Decision)
        requires
            o.bag == Some(*bag),
        ensures
            final(self)@ == old(self)@.on_list(*o, *data, ball@).0,
            d@ == old(self)@.on_list(*o, *data, ball@).1,
            events_of(final(events)@) == events_of(old(events)@) + old(self)@.on_list(
                *o,
                *data,
                ball@,
            ).2,
    {
        let ghost start = self@;
        let ghost before = events_of(events@);
        assert(before + Seq::<GameEventV>::empty() =~= before);
        let cursor: u8 = match bag.cursor {
            Some(c) => c,
            None => {
                return self.wait(o, "looking for the bag's ▶");
            },
        };
        let items = match read_rows(data, &bag.rows) {
            Some(items) => items,
            None => {
                return self.wait(o, "reading the ball rows");
            },
        };
        if bag.rows.len() == 0 {
            return self.wait(o, "reading the ball rows");
        }
        let rows = by_item(data, &bag.rows);
        match self.candidate {
            None => {
                self.candidate = Some((o.frame_id, cursor));
                self.candidate_rows = rows;
                self.wait(o, "confirming the rows on a later frame")
            },
            Some(c) => {
                if c.0 >= o.frame_id {
                    return self.wait(o, "confirming the rows on a later frame");
                }
                if c.1 == cursor && same_rows(&self.candidate_rows, &rows) {
                    self.read_list(o, bag, cursor, data, ball, items, &rows, events)
                } else {
                    self.candidate = Some((o.frame_id, cursor));
                    self.candidate_rows = rows;
                    self.retry();
                    self.wait(o, "re-reading rows that read differently")
                }
            },
        }
    }

    /// The USE/CANCEL prompt.
    fn prompt(&mut self, o: &Observation, options: &Vec<String>, row: u8) -> (d: Decision)
        requires
            o.bag is Some,
            o.bag->0.prompt is Some,
            (o.bag->0.prompt->0).0 == *options,
            (o.bag->0.prompt->0).1 == row,
        ensures
            final(self)@ == old(self)@.on_prompt(*o).0,
            d@ == old(self)@.on_prompt(*o).1,
    {
        let label = match &self.selected {
            Some(item) => cat3("throw ", trim_start_matches(item.as_str(), "ITEM_"), ": USE"),
            None => {
                return self.act(
                    "battle bag: leave a prompt we didn't open".to_owned(),
                    Button::B,
                    Expectation::ScreenIs(ScreenState::Bag),
                    45,
                );
            },
        };
        let use_row = match line_reading(options, "USE") {
            Some(i) => i,
            None => {
                return self.wait(o, "reading USE/CANCEL");
            },
        };
        proof {
            assert(line_at(options@, "USE"@, use_row as int));
            let c = choose|i: int| line_at(options@, "USE"@, i);
            assert(c == use_row) by {
                assert(reads_as("USE"@, options@[c]@));
                assert(reads_as("USE"@, options@[use_row as int]@));
            }
        }
        let use_row: u8 = use_row as u8;
        if row == use_row {
            self.use_pressed = true;
            return self.act(label, Button::A, Expectation::BagClosed, 90);
        }
        if use_row > row {
            self.act(
                cat3("battle bag: ", "Down", " toward USE"),
                Button::Down,
                Expectation::BagPromptAt(row + 1),
                45,
            )
        } else {
            self.act(
                cat3("battle bag: ", "Up", " toward USE"),
                Button::Up,
                Expectation::BagPromptAt(row - 1),
                45,
            )
        }
    }

    /// Another pocket: a step toward POKé BALLS.
    fn to_balls(&mut self, o: &Observation, bag: &BagObservation) -> (d: Decision)
        requires
            o.bag == Some(*bag),
            titled(bag.pocket@) != Some(Pocket::PokeBalls),
        ensures
            final(self)@ == old(self)@.toward_balls(*o).0,
            d@ == old(self)@.toward_balls(*o).1,
    {
        let shown = match pocket_from_title(&bag.pocket) {
            Some(p) => p,
            None => {
                return self.wait(o, "reading the pocket title");
            },
        };
        let at: usize = match pocket_index(shown) {
            Some(at) => at,
            None => 0,
        };
        let title = pocket_title(at + 1);
        let mut label = cat3("battle bag: ", "Right", " to ");
        label.append(title);
        self.act(label, Button::Right, Expectation::BagPocket(title.to_owned()), 60)
    }

    /// Takes in a frame: the phase it shows, and whether the last input did
    /// anything.
    fn note(&mut self, o: &Observation, phase: ThrowPhase)
        requires
            phase == throw_phase(*o),
        ensures
            final(self)@ == old(self)@.noted(*o),
    {
        let pending = self.pending.take();
        if phase != self.phase {
            self.phase = phase;
            self.retries = 0;
            self.waiting_since = None;
        } else {
            match pending {
                Some(expect) => {
                    if !expect.met(o) {
                        self.retry();
                    }
                },
                None => {},
            }
        }
    }

    /// The next input. `Done` once a given-up throw has closed the bag.
    pub fn next(&mut self, o: &Observation, data: &GameData, ball: &str, events: &mut Vec<
        GameEvent,
    >) -> (d: Decision)
        ensures
            final(self)@ == old(self)@.stepped(*o, *data, ball@).0,
            d@ == old(self)@.stepped(*o, *data, ball@).1,
            events_of(final(events)@) == events_of(old(events)@) + old(self)@.stepped(
                *o,
                *data,
                ball@,
            ).2,
    {
        let ghost start = self@;
        let ghost before = events_of(events@);
        assert(before + Seq::<GameEventV>::empty() =~= before);
        let phase = match &o.bag {
            None => ThrowPhase::Opening,
            Some(b) => if b.prompt.is_some() {
                ThrowPhase::Prompt
            } else if pocket_from_title(&b.pocket) == Some(Pocket::PokeBalls) {
                ThrowPhase::List
            } else {
                ThrowPhase::Pocket
            },
        };
        match &self.gave_up {
            Some(reason) => {
                let reason = reason.clone();
                return self.close(o, phase, reason.as_str());
            },
            None => {},
        }
        self.note(o, phase);
        if self.retries > BAG_RETRIES || self.total_retries > BAG_TOTAL_RETRIES {
            let reason = cat3("no progress in ", phase.name(), " of the battle bag");
            return self.give_up(o, phase, reason);
        }
        match &o.bag {
            None => {
                if self.use_pressed {
                    return Decision::Wait("the ball is thrown".to_owned());
                }
                self.wait(o, "waiting for the battle bag")
            },
            Some(bag) => match &bag.prompt {
                Some(prompt) => self.prompt(o, &prompt.0, prompt.1),
                None => if phase == ThrowPhase::List {
                    self.list(o, bag, data, ball, events)
                } else {
                    self.to_balls(o, bag)
                },
            },
        }
    }
}

fn copy_items(items: &Vec<(String, u16)>) -> (v: Vec<(String, u16)>)
    ensures
        v@ == items@,
{
    let mut v: Vec<(String, u16)> = Vec::new();
    let mut i: usize = 0;
    while i < items.len()
        invariant
            i <= items@.len(),
            v@ == items@.take(i as int),
        decreases items@.len() - i,
    {
        v.push((items[i].0.clone(), items[i].1));
        i += 1;
    }
    v
}

proof fn row_with_finds(rows: Seq<RowV>, key: Seq<char>)
    requires
        exists|i: int| 0 <= i < rows.len() && (#[trigger] rows[i]).0 == key,
    ensures
        row_with(rows, key) is Some,
{
    let i = choose|i: int| 0 <= i < rows.len() && (#[trigger] rows[i]).0 == key;
    first_row_exists(rows, key, i);
}

proof fn first_row_exists(rows: Seq<RowV>, key: Seq<char>, i: int)
    requires
        0 <= i < rows.len(),
        rows[i].0 == key,
    ensures
        exists|k: int| key_at(rows, key, k),
    decreases i,
{
    if exists|j: int| 0 <= j < i && (#[trigger] rows[j]).0 == key {
        let j = choose|j: int| 0 <= j < i && (#[trigger] rows[j]).0 == key;
        first_row_exists(rows, key, j);
    } else {
        assert(key_at(rows, key, i));
    }
}

} // verus!
