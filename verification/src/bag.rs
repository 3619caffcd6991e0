//! The field bag: open it from the Start menu, go to a pocket, read every
//! row, and close it again.
//!
//! Every step is closed-loop on what the bag shows: the Start menu's rows are
//! read to find BAG, the pocket title is read to find the pocket (the bag
//! remembers the last pocket and row), and the rows are read until CANCEL.

use vstd::prelude::*;
use vstd::string::StringExecFns;

use crate::action::{Expectation, ExpectationV};
use crate::event::{events_of, items_of, report, GameEvent, GameEventV, Pocket};
use crate::executor::{press, pressing, Decision, DecisionV};
use crate::gamedata::GameData;
use crate::input::Button;
use crate::observe::{rows_of, BagObservation, MenuObservation, Observation};
use crate::save::{count, counted};
use crate::text::{cat, cat3, chars, decimal, decimal_of, quoted, quoted_text, same};

verus! {

/// `read` could be `name`: same length, `?` matches any character.
pub open spec fn reads_as(name: Seq<char>, read: Seq<char>) -> bool {
    name.len() == read.len() && forall|i: int|
        0 <= i < read.len() ==> read[i] == '?' || #[trigger] read[i] == name[i]
}

/// `read` could be `name`: same length, `?` matches any character.
pub fn fits(name: &str, read: &str) -> (r: bool)
    ensures
        r == reads_as(name@, read@),
{
    let a = chars(name);
    let b = chars(read);
    if a.len() != b.len() {
        return false;
    }
    let mut i: usize = 0;
    while i < b.len()
        invariant
            i <= b@.len(),
            a@.len() == b@.len(),
            a@ == name@,
            b@ == read@,
            forall|k: int| 0 <= k < i ==> b@[k] == '?' || #[trigger] b@[k] == a@[k],
        decreases b@.len() - i,
    {
        if b[i] != '?' && b[i] != a[i] {
            return false;
        }
        i += 1;
    }
    true
}

/// Bag order of the pockets that Left and Right step through.
pub open spec fn pocket_at(index: int) -> Pocket {
    if index == 0 {
        Pocket::Items
    } else if index == 1 {
        Pocket::KeyItems
    } else {
        Pocket::PokeBalls
    }
}

/// The title of a pocket of the bag, by its place in bag order.
pub open spec fn title_at(index: int) -> Seq<char> {
    if index == 0 {
        "ITEMS"@
    } else if index == 1 {
        "KEY ITEMS"@
    } else {
        "POKé BALLS"@
    }
}

/// The place of a pocket in bag order.
pub open spec fn place_of(pocket: Pocket) -> Option<usize> {
    match pocket {
        Pocket::Items => Some(0),
        Pocket::KeyItems => Some(1),
        Pocket::PokeBalls => Some(2),
        _ => None,
    }
}

pub fn pocket_index(pocket: Pocket) -> (r: Option<usize>)
    ensures
        r == place_of(pocket),
        match r {
            Some(i) => 0 <= i < 3 && pocket_at(i as int) == pocket,
            None => forall|i: int| 0 <= i < 3 ==> pocket_at(i) != pocket,
        },
{
    match pocket {
        Pocket::Items => Some(0),
        Pocket::KeyItems => Some(1),
        Pocket::PokeBalls => Some(2),
        _ => None,
    }
}

pub(crate) fn pocket_title(index: usize) -> (s: &'static str)
    requires
        index < 3,
    ensures
        s@ == title_at(index as int),
{
    if index == 0 {
        "ITEMS"
    } else if index == 1 {
        "KEY ITEMS"
    } else {
        "POKé BALLS"
    }
}

/// The one pocket of the bag whose title could read as `title`.
pub open spec fn titled(title: Seq<char>) -> Option<Pocket> {
    let items = reads_as(title_at(0), title);
    let keys = reads_as(title_at(1), title);
    let balls = reads_as(title_at(2), title);
    if items && !keys && !balls {
        Some(pocket_at(0))
    } else if keys && !items && !balls {
        Some(pocket_at(1))
    } else if balls && !items && !keys {
        Some(pocket_at(2))
    } else {
        None
    }
}

/// The pocket whose title reads like `title` (`?` wildcards; unique match).
pub fn pocket_from_title(title: &str) -> (r: Option<Pocket>)
    ensures
        r == titled(title@),
{
    let items = fits("ITEMS", title);
    let keys = fits("KEY ITEMS", title);
    let balls = fits("POKé BALLS", title);
    if items && !keys && !balls {
        Some(Pocket::Items)
    } else if keys && !items && !balls {
        Some(Pocket::KeyItems)
    } else if balls && !items && !keys {
        Some(Pocket::PokeBalls)
    } else {
        None
    }
}

/// The title of a pocket names that pocket.
pub proof fn titles_name_their_pockets(index: int)
    requires
        0 <= index < 3,
    ensures
        titled(title_at(index)) == Some(pocket_at(index)),
{
    reveal_strlit("ITEMS");
    reveal_strlit("KEY ITEMS");
    reveal_strlit("POKé BALLS");
    assert(reads_as(title_at(index), title_at(index)));
    assert forall|j: int| 0 <= j < 3 && j != index implies !reads_as(
        #[trigger] title_at(j),
        title_at(index),
    ) by {
        assert(title_at(j).len() != title_at(index).len());
    }
}

pub fn is_cancel(name: &str) -> (r: bool)
    ensures
        r == reads_as("CANCEL"@, name@),
{
    fits("CANCEL", name)
}

/// A row of a list as read: a printed name, and a count where one shows.
pub type RowV = (Seq<char>, Option<u16>);

/// The item that a row holds, and how many. Key items print no count: there is
/// only ever one.
pub open spec fn row_item(data: GameData, row: RowV) -> Option<(Seq<char>, u16)> {
    match data.item_read(row.0) {
        Some(item) => match row.1 {
            Some(count) => Some((item.key@, count)),
            None => if item.pocket is Some && item.pocket->0@ == "POCKET_KEY_ITEMS"@ {
                Some((item.key@, 1))
            } else {
                None
            },
        },
        None => None,
    }
}

/// The items that a list of rows holds, CANCEL left out; `None` where a row
/// does not resolve to one item, or has no count.
pub open spec fn rows_read(data: GameData, rows: Seq<RowV>) -> Option<Seq<(Seq<char>, u16)>>
    decreases rows.len(),
{
    if rows.len() == 0 {
        Some(Seq::empty())
    } else {
        match rows_read(data, rows.drop_last()) {
            Some(items) => if reads_as("CANCEL"@, rows.last().0) {
                Some(items)
            } else {
                match row_item(data, rows.last()) {
                    Some(item) => Some(items.push(item)),
                    None => None,
                }
            },
            None => None,
        }
    }
}

/// A list that does not read stays unread however many rows follow.
proof fn unread_stays_unread(data: GameData, rows: Seq<RowV>, n: int)
    requires
        0 <= n <= rows.len(),
        rows_read(data, rows.take(n)) is None,
    ensures
        rows_read(data, rows) is None,
    decreases rows.len() - n,
{
    if n == rows.len() {
        assert(rows.take(n) =~= rows);
    } else {
        assert(rows.take(n + 1).drop_last() =~= rows.take(n));
        unread_stays_unread(data, rows, n + 1);
    }
}

/// Rows read from a pocket as (item constant, count), CANCEL left out.
/// `None` when any other row doesn't resolve to exactly one item, or has no
/// count (key items, which print none, count 1).
pub fn read_rows(data: &GameData, rows: &Vec<(String, Option<u16>)>) -> (r: Option<
    Vec<(String, u16)>,
>)
    ensures
        match r {
            Some(items) => rows_read(*data, rows_of(rows@)) == Some(items_of(items@)),
            None => rows_read(*data, rows_of(rows@)) is None,
        },
{
    let mut items: Vec<(String, u16)> = Vec::new();
    let mut i: usize = 0;
    let ghost all = rows_of(rows@);
    assert(items_of(items@) =~= Seq::empty());
    assert(all.take(0) =~= Seq::empty());
    while i < rows.len()
        invariant
            i <= rows@.len(),
            all == rows_of(rows@),
            rows_read(*data, all.take(i as int)) == Some(items_of(items@)),
        decreases rows@.len() - i,
    {
        let row = &rows[i];
        assert(all.take(i + 1).drop_last() =~= all.take(i as int));
        assert(all.take(i + 1).last() == (row.0@, row.1));
        if !is_cancel(&row.0) {
            let item = match data.item_named(&row.0) {
                Some(item) => item,
                None => {
                    proof {
                        unread_stays_unread(*data, all, i + 1);
                    }
                    return None;
                },
            };
            let count: u16 = match row.1 {
                Some(count) => count,
                None => {
                    let key = match &item.pocket {
                        Some(p) => same(p, "POCKET_KEY_ITEMS"),
                        None => false,
                    };
                    if !key {
                        proof {
                            unread_stays_unread(*data, all, i + 1);
                        }
                        return None;
                    }
                    1
                },
            };
            let ghost before = items@;
            items.push((item.key.clone(), count));
            assert(items_of(items@) =~= items_of(before).push((item.key@, count)));
        }
        i += 1;
    }
    assert(all.take(rows@.len() as int) =~= all);
    Some(items)
}

pub(crate) fn copy_rows<N: Copy>(rows: &Vec<(String, Option<N>)>) -> (v: Vec<(String, Option<N>)>)
    ensures
        v@ == rows@,
{
    let mut v: Vec<(String, Option<N>)> = Vec::new();
    let mut i: usize = 0;
    while i < rows.len()
        invariant
            i <= rows@.len(),
            v@ == rows@.take(i as int),
        decreases rows@.len() - i,
    {
        v.push((rows[i].0.clone(), rows[i].1));
        i += 1;
    }
    v
}

pub(crate) fn same_rows(a: &Vec<(String, Option<u16>)>, b: &Vec<(String, Option<u16>)>) -> (r: bool)
    ensures
        r == (rows_of(a@) == rows_of(b@)),
{
    if a.len() != b.len() {
        assert(rows_of(a@).len() != rows_of(b@).len());
        return false;
    }
    let mut i: usize = 0;
    while i < a.len()
        invariant
            i <= a@.len(),
            a@.len() == b@.len(),
            forall|k: int| 0 <= k < i ==> rows_of(a@)[k] == rows_of(b@)[k],
        decreases a@.len() - i,
    {
        if a[i].0 != b[i].0 || a[i].1 != b[i].1 {
            assert(rows_of(a@)[i as int] != rows_of(b@)[i as int]);
            return false;
        }
        i += 1;
    }
    assert(rows_of(a@) =~= rows_of(b@));
    true
}

/// A list row's identity however its name read: the item constant, or the
/// text itself when it doesn't resolve (CANCEL, a misread).
pub open spec fn key_of(data: GameData, name: Seq<char>) -> Seq<char> {
    if reads_as("CANCEL"@, name) {
        "CANCEL"@
    } else {
        match data.item_read(name) {
            Some(item) => item.key@,
            None => name,
        }
    }
}

pub(crate) fn item_key(data: &GameData, name: &str) -> (s: String)
    ensures
        s@ == key_of(*data, name@),
{
    if fits("CANCEL", name) {
        "CANCEL".to_owned()
    } else {
        match data.item_named(name) {
            Some(item) => item.key.clone(),
            None => name.to_owned(),
        }
    }
}

/// Rows by their items.
pub open spec fn keyed<N>(data: GameData, rows: Seq<(String, Option<N>)>) -> Seq<
    (Seq<char>, Option<N>),
> {
    rows.map_values(|r: (String, Option<N>)| (key_of(data, r.0@), r.1))
}

/// Rows by their items.
pub(crate) fn by_item<N: Copy>(data: &GameData, rows: &Vec<(String, Option<N>)>) -> (v: Vec<
    (String, Option<N>),
>)
    ensures
        rows_of(v@) == keyed(*data, rows@),
{
    let mut v: Vec<(String, Option<N>)> = Vec::new();
    let mut i: usize = 0;
    while i < rows.len()
        invariant
            i <= rows@.len(),
            rows_of(v@) == keyed(*data, rows@).take(i as int),
        decreases rows@.len() - i,
    {
        let ghost before = v@;
        let key = item_key(data, &rows[i].0);
        let number = rows[i].1;
        v.push((key, number));
        assert(rows_of(v@) =~= rows_of(before).push((key@, number)));
        assert(keyed(*data, rows@).take(i + 1) =~= keyed(*data, rows@).take(i as int).push(
            keyed(*data, rows@)[i as int],
        ));
        i += 1;
    }
    assert(keyed(*data, rows@).take(rows@.len() as int) =~= keyed(*data, rows@));
    v
}

/// Row `i` is the first of this item.
pub open spec fn key_at<N>(rows: Seq<(Seq<char>, Option<N>)>, key: Seq<char>, i: int) -> bool {
    &&& 0 <= i < rows.len()
    &&& rows[i].0 == key
    &&& forall|j: int| 0 <= j < i ==> (#[trigger] rows[j]).0 != key
}

/// The first row of this item.
pub open spec fn row_with<N>(rows: Seq<(Seq<char>, Option<N>)>, key: Seq<char>) -> Option<usize> {
    if exists|i: int| key_at(rows, key, i) {
        Some((choose|i: int| key_at(rows, key, i)) as usize)
    } else {
        None
    }
}

pub(crate) fn find_row<N>(rows: &Vec<(String, Option<N>)>, key: &str) -> (r: Option<usize>)
    ensures
        r == row_with(rows_of(rows@), key@),
        r matches Some(i) ==> key_at(rows_of(rows@), key@, i as int),
{
    let ghost all = rows_of(rows@);
    let mut i: usize = 0;
    while i < rows.len()
        invariant
            i <= rows@.len(),
            all == rows_of(rows@),
            forall|j: int| 0 <= j < i ==> (#[trigger] all[j]).0 != key@,
        decreases rows@.len() - i,
    {
        if same(&rows[i].0, key) {
            proof {
                assert(key_at(all, key@, i as int));
                let c = choose|k: int| key_at(all, key@, k);
                assert(c == i) by {
                    assert(all[c].0 == key@);
                    assert(all[i as int].0 == key@);
                }
            }
            return Some(i);
        }
        i += 1;
    }
    None
}

/// A count in brackets behind its name: `("POTION", 3)`.
pub open spec fn item_text(item: (Seq<char>, u16)) -> Seq<char> {
    "("@ + quoted_text(item.0) + ", "@ + decimal_of(item.1 as nat) + ")"@
}

/// The entries of a list of items, between commas.
pub open spec fn items_text(items: Seq<(Seq<char>, u16)>) -> Seq<char>
    decreases items.len(),
{
    if items.len() == 0 {
        Seq::empty()
    } else if items.len() == 1 {
        item_text(items[0])
    } else {
        items_text(items.drop_last()) + ", "@ + item_text(items.last())
    }
}

pub(crate) fn show_items(items: &Vec<(String, u16)>) -> (s: String)
    ensures
        s@ == "["@ + items_text(items_of(items@)) + "]"@,
{
    let mut s = "[".to_owned();
    let ghost all = items_of(items@);
    let mut i: usize = 0;
    assert(all.take(0) =~= Seq::empty());
    assert(s@ =~= "["@ + items_text(all.take(0)));
    while i < items.len()
        invariant
            i <= items@.len(),
            all == items_of(items@),
            s@ == "["@ + items_text(all.take(i as int)),
        decreases items@.len() - i,
    {
        assert(all.take(i + 1).drop_last() =~= all.take(i as int));
        let ghost before = s@;
        if i > 0 {
            s.append(", ");
        }
        s.append("(");
        s.append(quoted(&items[i].0).as_str());
        s.append(", ");
        s.append(decimal(items[i].1 as u64).as_str());
        s.append(")");
        assert(s@ =~= "["@ + items_text(all.take(i + 1)));
        i += 1;
    }
    assert(all.take(items@.len() as int) =~= all);
    s.append("]");
    s
}

pub open spec fn row_text(row: RowV) -> Seq<char> {
    "("@ + quoted_text(row.0) + ", "@ + (match row.1 {
        Some(n) => "Some("@ + decimal_of(n as nat) + ")"@,
        None => "None"@,
    }) + ")"@
}

/// The entries of a list of rows, between commas.
pub open spec fn rows_text(rows: Seq<RowV>) -> Seq<char>
    decreases rows.len(),
{
    if rows.len() == 0 {
        Seq::empty()
    } else if rows.len() == 1 {
        row_text(rows[0])
    } else {
        rows_text(rows.drop_last()) + ", "@ + row_text(rows.last())
    }
}

fn show_rows(rows: &Vec<(String, Option<u16>)>) -> (s: String)
    ensures
        s@ == "["@ + rows_text(rows_of(rows@)) + "]"@,
{
    let mut s = "[".to_owned();
    let ghost all = rows_of(rows@);
    let mut i: usize = 0;
    assert(all.take(0) =~= Seq::empty());
    assert(s@ =~= "["@ + rows_text(all.take(0)));
    while i < rows.len()
        invariant
            i <= rows@.len(),
            all == rows_of(rows@),
            s@ == "["@ + rows_text(all.take(i as int)),
        decreases rows@.len() - i,
    {
        assert(all.take(i + 1).drop_last() =~= all.take(i as int));
        if i > 0 {
            s.append(", ");
        }
        let mut entry = "(".to_owned();
        entry.append(quoted(&rows[i].0).as_str());
        entry.append(", ");
        let number = match rows[i].1 {
            Some(n) => cat3("Some(", decimal(n as u64).as_str(), ")"),
            None => "None".to_owned(),
        };
        entry.append(number.as_str());
        entry.append(")");
        assert(entry@ =~= row_text(all[i as int]));
        s.append(entry.as_str());
        assert(s@ =~= "["@ + rows_text(all.take(i + 1)));
        i += 1;
    }
    assert(all.take(rows@.len() as int) =~= all);
    s.append("]");
    s
}

/// More retries than this in one phase fail the audit.
pub const MAX_RETRIES: u32 = 12;

/// Start menu rows are 15 px apart; the ▶ sits 4 px below its row's top.
pub const START_MENU_PITCH: u32 = 15;

/// A wait (unreadable text, no ▶) this long counts as one retry.
pub const WAIT_RETRY_FRAMES: u64 = 60;

/// Frames to wait for each effect: menus open and close with fades.
pub const MENU_FRAMES: u64 = 60;

pub const BAG_OPEN_FRAMES: u64 = 120;

pub const POCKET_FRAMES: u64 = 60;

pub const CURSOR_FRAMES: u64 = 45;

#[derive(Debug, Clone, Copy, PartialEq, Eq, Structural)]
pub enum Phase {
    /// In the overworld: open the Start menu.
    Open,
    /// On the Start menu: move to BAG and open it.
    StartMenu,
    /// In the bag, on another pocket: step toward the wanted one.
    Pocket,
    /// On the wanted pocket: read every row.
    Read,
    /// Read: close the bag and the Start menu.
    Close,
}

impl Phase {
    pub open spec fn called(self) -> Seq<char> {
        match self {
            Phase::Open => "Open"@,
            Phase::StartMenu => "StartMenu"@,
            Phase::Pocket => "Pocket"@,
            Phase::Read => "Read"@,
            Phase::Close => "Close"@,
        }
    }

    pub fn name(self) -> (s: &'static str)
        ensures
            s@ == self.called(),
    {
        match self {
            Phase::Open => "Open",
            Phase::StartMenu => "StartMenu",
            Phase::Pocket => "Pocket",
            Phase::Read => "Read",
            Phase::Close => "Close",
        }
    }
}

/// Audits one bag pocket: Start → BAG → pocket → read → close.
#[derive(Debug, Clone)]
pub struct PocketAudit {
    pub pocket: Pocket,
    pub phase: Phase,
    /// Rows read so far, top to bottom (each one resolves to an item).
    pub rows: Vec<(String, Option<u16>)>,
    /// The list's top was on screen (the ▶ on row 0: the list can't be
    /// scrolled then), so the rows collected start at the first item.
    pub top_seen: bool,
    /// The rows on screen when the last input was sent.
    pub last_view: Option<Vec<(String, Option<u16>)>>,
    /// The pocket was read and `PocketObserved` emitted (with this summary).
    pub observed: Option<String>,
    pub retries: u32,
    /// What the last input was meant to show.
    pub pending: Option<Expectation>,
    pub waiting_since: Option<u64>,
}

/// What the audit knows.
#[verifier::ext_equal]
pub struct AuditV {
    pub pocket: Pocket,
    pub phase: Phase,
    pub rows: Seq<RowV>,
    pub top_seen: bool,
    pub last_view: Option<Seq<RowV>>,
    pub observed: Option<Seq<char>>,
    pub retries: u32,
    pub pending: Option<ExpectationV>,
    pub waiting_since: Option<u64>,
}

impl View for PocketAudit {
    type V = AuditV;

    open spec fn view(&self) -> AuditV {
        AuditV {
            pocket: self.pocket,
            phase: self.phase,
            rows: rows_of(self.rows@),
            top_seen: self.top_seen,
            last_view: match self.last_view {
                Some(v) => Some(rows_of(v@)),
                None => None,
            },
            observed: match self.observed {
                Some(s) => Some(s@),
                None => None,
            },
            retries: self.retries,
            pending: match self.pending {
                Some(e) => Some(e@),
                None => None,
            },
            waiting_since: self.waiting_since,
        }
    }
}

/// What a row is told apart by, however its name was read.
pub open spec fn row_key(data: GameData, name: Seq<char>) -> Option<Seq<char>> {
    if reads_as("CANCEL"@, name) {
        Some("CANCEL"@)
    } else {
        match data.item_read(name) {
            Some(item) => Some(item.key@),
            None => None,
        }
    }
}

/// The list already holds this row.
pub open spec fn listed(data: GameData, rows: Seq<RowV>, row: RowV) -> bool {
    exists|i: int|
        0 <= i < rows.len() && row_key(data, (#[trigger] rows[i]).0) == row_key(data, row.0)
}

/// The list with the rows that are new to it added, in order.
pub open spec fn merged(data: GameData, rows: Seq<RowV>, more: Seq<RowV>) -> Seq<RowV>
    decreases more.len(),
{
    if more.len() == 0 {
        rows
    } else {
        let so_far = merged(data, rows, more.drop_last());
        if listed(data, so_far, more.last()) {
            so_far
        } else {
            so_far.push(more.last())
        }
    }
}

/// Some row is CANCEL.
pub open spec fn cancel_shows(rows: Seq<RowV>) -> bool {
    exists|i: int| 0 <= i < rows.len() && reads_as("CANCEL"@, (#[trigger] rows[i]).0)
}

fn same_key(data: &GameData, a: &str, b: &str) -> (r: bool)
    ensures
        r == (row_key(*data, a@) == row_key(*data, b@)),
{
    if is_cancel(a) {
        if is_cancel(b) {
            true
        } else {
            match data.item_named(b) {
                Some(item) => same("CANCEL", &item.key),
                None => false,
            }
        }
    } else {
        match data.item_named(a) {
            Some(x) => if is_cancel(b) {
                same(&x.key, "CANCEL")
            } else {
                match data.item_named(b) {
                    Some(y) => x.key == y.key,
                    None => false,
                }
            },
            None => !is_cancel(b) && data.item_named(b).is_none(),
        }
    }
}

/// Adds the rows that are new to a list.
fn merge_rows(
    data: &GameData,
    rows: &mut Vec<(String, Option<u16>)>,
    more: &Vec<(String, Option<u16>)>,
)
    ensures
        rows_of(final(rows)@) == merged(*data, rows_of(old(rows)@), rows_of(more@)),
{
    let ghost start = rows_of(rows@);
    let ghost all = rows_of(more@);
    let mut i: usize = 0;
    assert(all.take(0) =~= Seq::empty());
    while i < more.len()
        invariant
            i <= more@.len(),
            all == rows_of(more@),
            rows_of(rows@) == merged(*data, start, all.take(i as int)),
        decreases more@.len() - i,
    {
        assert(all.take(i + 1).drop_last() =~= all.take(i as int));
        let row = &more[i];
        assert(all.take(i + 1).last() == (row.0@, row.1));
        let mut found = false;
        let mut k: usize = 0;
        while k < rows.len() && !found
            invariant
                k <= rows@.len(),
                found ==> listed(*data, rows_of(rows@), (row.0@, row.1)),
                !found ==> forall|j: int|
                    0 <= j < k ==> row_key(*data, (#[trigger] rows_of(rows@)[j]).0) != row_key(
                        *data,
                        row.0@,
                    ),
            decreases rows@.len() - k,
        {
            if same_key(data, &rows[k].0, &row.0) {
                assert(row_key(*data, rows_of(rows@)[k as int].0) == row_key(*data, row.0@));
                found = true;
            }
            k += 1;
        }
        if !found {
            let ghost before = rows@;
            rows.push((row.0.clone(), row.1));
            assert(rows_of(rows@) =~= rows_of(before).push((row.0@, row.1)));
        }
        i += 1;
    }
    assert(all.take(more@.len() as int) =~= all);
}

pub(crate) fn shows_cancel(rows: &Vec<(String, Option<u16>)>) -> (r: bool)
    ensures
        r == cancel_shows(rows_of(rows@)),
{
    let mut i: usize = 0;
    while i < rows.len()
        invariant
            i <= rows@.len(),
            forall|j: int| 0 <= j < i ==> !reads_as("CANCEL"@, (#[trigger] rows_of(rows@)[j]).0),
        decreases rows@.len() - i,
    {
        if is_cancel(&rows[i].0) {
            assert(reads_as("CANCEL"@, rows_of(rows@)[i as int].0));
            return true;
        }
        i += 1;
    }
    false
}

/// The rows that a Start menu of this height has.
pub open spec fn start_menu_rows(menu: MenuObservation) -> int {
    (menu.window.height + START_MENU_PITCH / 2) / START_MENU_PITCH as int
}

/// The row that the ▶ of a Start menu is on.
pub open spec fn start_menu_row(menu: MenuObservation) -> int {
    if menu.cursor_y >= menu.window.y {
        (menu.cursor_y - menu.window.y) / START_MENU_PITCH as int
    } else {
        0
    }
}

/// Row `i` is the first that could be BAG.
pub open spec fn bag_row(lines: Seq<String>, i: int) -> bool {
    &&& 0 <= i < lines.len()
    &&& reads_as("BAG"@, lines[i]@)
    &&& forall|j: int| 0 <= j < i ==> !reads_as("BAG"@, (#[trigger] lines[j])@)
}

pub(crate) fn line_reading(lines: &Vec<String>, name: &str) -> (r: Option<usize>)
    ensures
        match r {
            Some(i) => {
                &&& 0 <= i < lines@.len()
                &&& reads_as(name@, lines@[i as int]@)
                &&& forall|j: int| 0 <= j < i ==> !reads_as(name@, (#[trigger] lines@[j])@)
            },
            None => forall|j: int|
                0 <= j < lines@.len() ==> !reads_as(name@, (#[trigger] lines@[j])@),
        },
{
    let mut i: usize = 0;
    while i < lines.len()
        invariant
            i <= lines@.len(),
            forall|j: int| 0 <= j < i ==> !reads_as(name@, (#[trigger] lines@[j])@),
        decreases lines@.len() - i,
    {
        if fits(name, &lines[i]) {
            return Some(i);
        }
        i += 1;
    }
    None
}

/// The row below, as far as rows can be counted.
pub open spec fn row_below(row: u8) -> u8 {
    if row < u8::MAX {
        (row + 1) as u8
    } else {
        row
    }
}

impl AuditV {
    /// What the frame asks for.
    pub open spec fn phase_on(self, o: Observation) -> Phase {
        if self.observed is Some {
            Phase::Close
        } else if o.bag is Some {
            if titled(o.bag->0.pocket@) == Some(self.pocket) {
                Phase::Read
            } else {
                Phase::Pocket
            }
        } else if o.menu is Some {
            Phase::StartMenu
        } else {
            Phase::Open
        }
    }

    /// New rows show (a list scrolling under a ▶ that stays put).
    pub open spec fn scrolled(self, o: Observation) -> bool {
        o.bag is Some && self.last_view is Some && rows_of(o.bag->0.rows@) != self.last_view->0
    }

    /// The audit after it has looked at a frame: a new phase starts its
    /// counters anew; within a phase, an input that showed nothing is a retry.
    pub open spec fn noted(self, o: Observation) -> AuditV {
        let phase = self.phase_on(o);
        let taken = AuditV { pending: None, ..self };
        if phase != self.phase {
            AuditV { phase, retries: 0, waiting_since: None, last_view: None, ..taken }
        } else if self.pending is Some && !self.pending->0.met(o) && !self.scrolled(o) {
            AuditV { retries: counted(self.retries), ..taken }
        } else {
            taken
        }
    }

    /// Presses a button and remembers what that is to show.
    pub open spec fn acting(
        self,
        label: Seq<char>,
        button: Button,
        expect: ExpectationV,
        timeout: u64,
    ) -> (AuditV, DecisionV) {
        (
            AuditV { waiting_since: None, pending: Some(expect), ..self },
            pressing(label, button, expect, timeout),
        )
    }

    /// Waits; every [`WAIT_RETRY_FRAMES`] of waiting counts as a retry.
    pub open spec fn waiting(self, o: Observation, reason: Seq<char>) -> (AuditV, DecisionV) {
        let since = match self.waiting_since {
            Some(s) => s,
            None => o.frame_id,
        };
        let waited = if o.frame_id >= since + WAIT_RETRY_FRAMES {
            AuditV {
                retries: counted(self.retries),
                waiting_since: Some(o.frame_id),
                ..self
            }
        } else {
            AuditV { waiting_since: Some(since), ..self }
        };
        if waited.retries > MAX_RETRIES {
            (
                waited,
                DecisionV::Fail("bag audit ("@ + self.pocket.called() + "): stuck "@ + reason),
            )
        } else {
            (waited, DecisionV::Wait(reason))
        }
    }

    /// Moves the Start menu's ▶ to BAG (found by reading the rows) and opens it.
    pub open spec fn on_start_menu(self, o: Observation, menu: MenuObservation) -> (
        AuditV,
        DecisionV,
    ) {
        // Every row must be read: a missing one would shift the ▶'s row.
        if o.menu_lines@.len() != start_menu_rows(menu) {
            self.waiting(o, "reading the Start menu"@)
        } else if forall|i: int| !bag_row(o.menu_lines@, i) {
            self.waiting(o, "looking for BAG in the Start menu"@)
        } else {
            let bag = choose|i: int| bag_row(o.menu_lines@, i);
            let cursor = start_menu_row(menu);
            if cursor == bag {
                self.acting(
                    "open the BAG"@,
                    Button::A,
                    ExpectationV::BagPocket(Seq::empty()),
                    BAG_OPEN_FRAMES,
                )
            } else if cursor > bag {
                self.acting(
                    "Start menu: "@ + "Up"@ + " toward BAG"@,
                    Button::Up,
                    ExpectationV::MenuCursorMoved { from_y: menu.cursor_y, up: true },
                    CURSOR_FRAMES,
                )
            } else {
                self.acting(
                    "Start menu: "@ + "Down"@ + " toward BAG"@,
                    Button::Down,
                    ExpectationV::MenuCursorMoved { from_y: menu.cursor_y, up: false },
                    CURSOR_FRAMES,
                )
            }
        }
    }

    /// Steps through the bag toward the wanted pocket.
    pub open spec fn toward_pocket(self, o: Observation, target: int) -> (AuditV, DecisionV) {
        match titled(o.bag->0.pocket@) {
            None => self.waiting(o, "reading the pocket title"@),
            Some(shown) => {
                let at = place_of(shown)->0 as int;
                if at < target {
                    self.acting(
                        "bag: "@ + "Right"@ + " to "@ + title_at(at + 1),
                        Button::Right,
                        ExpectationV::BagPocket(title_at(at + 1)),
                        POCKET_FRAMES,
                    )
                } else {
                    self.acting(
                        "bag: "@ + "Left"@ + " to "@ + title_at(at - 1),
                        Button::Left,
                        ExpectationV::BagPocket(title_at(at - 1)),
                        POCKET_FRAMES,
                    )
                }
            },
        }
    }

    /// Reads the pocket from its first row down to CANCEL, then reports
    /// `PocketObserved` and starts closing.
    pub open spec fn reading(self, o: Observation, data: GameData) -> (
        AuditV,
        DecisionV,
        Seq<GameEventV>,
    ) {
        let bag = o.bag->0;
        let shown = rows_of(bag.rows@);
        let quiet = |r: (AuditV, DecisionV)| (r.0, r.1, Seq::<GameEventV>::empty());
        if bag.cursor is None {
            quiet(self.waiting(o, "looking for the bag's ▶"@))
        } else if shown.len() == 0 || rows_read(data, shown) is None {
            quiet(self.waiting(o, "reading the pocket's rows"@))
        } else {
            let cursor = bag.cursor->0;
            let top = AuditV { top_seen: self.top_seen || cursor == 0, ..self };
            if !top.top_seen {
                quiet(
                    AuditV { last_view: Some(shown), ..top }.acting(
                        "bag: Up to the top of the list"@,
                        Button::Up,
                        ExpectationV::BagCursorAt((cursor - 1) as u8),
                        CURSOR_FRAMES,
                    ),
                )
            } else {
                let more = AuditV { rows: merged(data, top.rows, shown), ..top };
                if !cancel_shows(shown) {
                    // The last row of every pocket is CANCEL. Rows that repeat
                    // without it are a Down that didn't land yet (a retry),
                    // not the end.
                    quiet(
                        AuditV { last_view: Some(shown), ..more }.acting(
                            "bag: Down to see more rows"@,
                            Button::Down,
                            ExpectationV::BagCursorAt(row_below(cursor)),
                            CURSOR_FRAMES,
                        ),
                    )
                } else {
                    match rows_read(data, more.rows) {
                        None => (
                            more,
                            DecisionV::Fail(
                                "bag rows stopped resolving: "@ + ("["@ + rows_text(more.rows)
                                    + "]"@),
                            ),
                            Seq::<GameEventV>::empty(),
                        ),
                        Some(items) => {
                            let done = AuditV {
                                observed: Some(
                                    self.pocket.called() + " pocket read: "@ + ("["@
                                        + items_text(items) + "]"@),
                                ),
                                phase: Phase::Close,
                                retries: 0,
                                last_view: None,
                                ..more
                            }.acting(
                                "close the bag"@,
                                Button::B,
                                ExpectationV::MenuOpen,
                                BAG_OPEN_FRAMES,
                            );
                            (
                                done.0,
                                done.1,
                                seq![GameEventV::PocketObserved { pocket: self.pocket, items }],
                            )
                        },
                    }
                }
            }
        }
    }

    pub open spec fn closing(self, o: Observation) -> (AuditV, DecisionV) {
        if o.bag is Some {
            self.acting("close the bag"@, Button::B, ExpectationV::MenuOpen, BAG_OPEN_FRAMES)
        } else if o.menu is Some {
            self.acting("close the Start menu"@, Button::B, ExpectationV::BagClosed, MENU_FRAMES)
        } else if o.player is None {
            self.waiting(o, "locating after closing the bag"@)
        } else {
            (
                self,
                DecisionV::Done(
                    match self.observed {
                        Some(s) => s,
                        None => Seq::empty(),
                    },
                ),
            )
        }
    }

    /// One step: the audit afterwards, the decision, and what is reported.
    pub open spec fn stepped(self, o: Observation, data: GameData) -> (
        AuditV,
        DecisionV,
        Seq<GameEventV>,
    ) {
        let quiet = |r: (AuditV, DecisionV)| (r.0, r.1, Seq::<GameEventV>::empty());
        match place_of(self.pocket) {
            None => (
                self,
                DecisionV::Fail(self.pocket.called() + " is not a bag pocket"@),
                Seq::<GameEventV>::empty(),
            ),
            Some(target) => {
                let n = self.noted(o);
                if n.retries > MAX_RETRIES {
                    (
                        n,
                        DecisionV::Fail(
                            "bag audit ("@ + self.pocket.called()
                                + "): no progress after 12 retries in "@ + n.phase.called(),
                        ),
                        Seq::<GameEventV>::empty(),
                    )
                } else {
                    match n.phase {
                        Phase::Open => if o.player is None {
                            quiet(n.waiting(o, "locating before opening the Start menu"@))
                        } else {
                            quiet(
                                n.acting(
                                    "open the Start menu"@,
                                    Button::Start,
                                    ExpectationV::MenuOpen,
                                    MENU_FRAMES,
                                ),
                            )
                        },
                        Phase::StartMenu => quiet(n.on_start_menu(o, o.menu->0)),
                        Phase::Pocket => quiet(n.toward_pocket(o, target as int)),
                        Phase::Read => n.reading(o, data),
                        Phase::Close => quiet(n.closing(o)),
                    }
                }
            },
        }
    }
}

impl PocketAudit {
    pub fn new(pocket: Pocket) -> (a: PocketAudit)
        ensures
            a@ == (AuditV {
                pocket,
                phase: Phase::Open,
                rows: Seq::empty(),
                top_seen: false,
                last_view: None,
                observed: None,
                retries: 0,
                pending: None,
                waiting_since: None,
            }),
    {
        let a = PocketAudit {
            pocket,
            phase: Phase::Open,
            rows: Vec::new(),
            top_seen: false,
            last_view: None,
            observed: None,
            retries: 0,
            pending: None,
            waiting_since: None,
        };
        assert(a@.rows =~= Seq::empty());
        a
    }

    fn act(&mut self, label: String, button: Button, expect: Expectation, timeout: u64) -> (d:
        Decision)
        ensures
            final(self)@ == old(self)@.acting(label@, button, expect@, timeout).0,
            d@ == old(self)@.acting(label@, button, expect@, timeout).1,
    {
        self.waiting_since = None;
        self.pending = Some(expect.copy());
        press(label, button, expect, timeout)
    }

    /// Waits; every [`WAIT_RETRY_FRAMES`] of waiting counts as a retry.
    fn wait(&mut self, o: &Observation, reason: &str) -> (d: Decision)
        ensures
            final(self)@ == old(self)@.waiting(*o, reason@).0,
            d@ == old(self)@.waiting(*o, reason@).1,
    {
        let since: u64 = match self.waiting_since {
            Some(s) => s,
            None => o.frame_id,
        };
        if o.frame_id >= since && o.frame_id - since >= WAIT_RETRY_FRAMES {
            self.retries = count(self.retries);
            self.waiting_since = Some(o.frame_id);
        } else {
            self.waiting_since = Some(since);
        }
        if self.retries > MAX_RETRIES {
            let mut r = cat3("bag audit (", self.pocket.name(), "): stuck ");
            r.append(reason);
            return Decision::Fail(r);
        }
        Decision::Wait(reason.to_owned())
    }

    /// Moves the Start menu's ▶ to BAG (found by reading the rows) and opens it.
    fn start_menu(&mut self, o: &Observation, menu: &MenuObservation) -> (d: Decision)
        ensures
            final(self)@ == old(self)@.on_start_menu(*o, *menu).0,
            d@ == old(self)@.on_start_menu(*o, *menu).1,
    {
        let rows: u64 = (menu.window.height as u64 + 7) / 15;
        if o.menu_lines.len() as u64 != rows {
            return self.wait(o, "reading the Start menu");
        }
        let bag = match line_reading(&o.menu_lines, "BAG") {
            Some(i) => i,
            None => {
                return self.wait(o, "looking for BAG in the Start menu");
            },
        };
        proof {
            assert(bag_row(o.menu_lines@, bag as int));
            let c = choose|i: int| bag_row(o.menu_lines@, i);
            assert(c == bag) by {
                assert(reads_as("BAG"@, o.menu_lines@[c]@));
                assert(reads_as("BAG"@, o.menu_lines@[bag as int]@));
            }
        }
        let cursor: usize = if menu.cursor_y >= menu.window.y {
            ((menu.cursor_y - menu.window.y) / START_MENU_PITCH) as usize
        } else {
            0
        };
        if cursor == bag {
            return self.act(
                "open the BAG".to_owned(),
                Button::A,
                Expectation::BagPocket(String::new()),
                BAG_OPEN_FRAMES,
            );
        }
        if cursor > bag {
            self.act(
                cat3("Start menu: ", "Up", " toward BAG"),
                Button::Up,
                Expectation::MenuCursorMoved { from_y: menu.cursor_y, up: true },
                CURSOR_FRAMES,
            )
        } else {
            self.act(
                cat3("Start menu: ", "Down", " toward BAG"),
                Button::Down,
                Expectation::MenuCursorMoved { from_y: menu.cursor_y, up: false },
                CURSOR_FRAMES,
            )
        }
    }

    /// Steps through the bag toward the wanted pocket.
    fn to_pocket(&mut self, o: &Observation, bag: &BagObservation, target: usize) -> (d: Decision)
        requires
            o.bag == Some(*bag),
            place_of(old(self).pocket) == Some(target),
            titled(bag.pocket@) != Some(old(self).pocket),
        ensures
            final(self)@ == old(self)@.toward_pocket(*o, target as int).0,
            d@ == old(self)@.toward_pocket(*o, target as int).1,
    {
        let shown = match pocket_from_title(&bag.pocket) {
            Some(p) => p,
            None => {
                return self.wait(o, "reading the pocket title");
            },
        };
        let at: usize = match pocket_index(shown) {
            Some(at) => at,
            None => 0,
        };
        if at < target {
            let title = pocket_title(at + 1);
            let mut label = cat3("bag: ", "Right", " to ");
            label.append(title);
            self.act(
                label,
                Button::Right,
                Expectation::BagPocket(title.to_owned()),
                POCKET_FRAMES,
            )
        } else {
            let title = pocket_title(at - 1);
            let mut label = cat3("bag: ", "Left", " to ");
            label.append(title);
            self.act(label, Button::Left, Expectation::BagPocket(title.to_owned()), POCKET_FRAMES)
        }
    }

    /// Reads the pocket from its first row down to CANCEL, then emits
    /// `PocketObserved` and starts closing.
    fn read(
        &mut self,
        o: &Observation,
        bag: &BagObservation,
        data: &GameData,
        events: &mut Vec<GameEvent>,
    ) -> (d: Decision)
        requires
            o.bag == Some(*bag),
        ensures
            final(self)@ == old(self)@.reading(*o, *data).0,
            d@ == old(self)@.reading(*o, *data).1,
            events_of(final(events)@) == events_of(old(events)@) + old(self)@.reading(*o, *data).2,
    {
        let ghost start = self@;
        let ghost before = events_of(events@);
        assert(before + Seq::<GameEventV>::empty() =~= before);
        let cursor: u8 = match bag.cursor {
            Some(c) => c,
            None => {
                return self.wait(o, "looking for the bag's ▶");
            },
        };
        if bag.rows.len() == 0 || read_rows(data, &bag.rows).is_none() {
            return self.wait(o, "reading the pocket's rows");
        }
        self.top_seen = self.top_seen || cursor == 0;
        if !self.top_seen {
            self.last_view = Some(copy_rows(&bag.rows));
            return self.act(
                "bag: Up to the top of the list".to_owned(),
                Button::Up,
                Expectation::BagCursorAt(cursor - 1),
                CURSOR_FRAMES,
            );
        }
        merge_rows(data, &mut self.rows, &bag.rows);
        if !shows_cancel(&bag.rows) {
            self.last_view = Some(copy_rows(&bag.rows));
            let below: u8 = if cursor < u8::MAX {
                cursor + 1
            } else {
                cursor
            };
            return self.act(
                "bag: Down to see more rows".to_owned(),
                Button::Down,
                Expectation::BagCursorAt(below),
                CURSOR_FRAMES,
            );
        }
        let items = match read_rows(data, &self.rows) {
            Some(items) => items,
            None => {
                return Decision::Fail(
                    cat("bag rows stopped resolving: ", show_rows(&self.rows).as_str()),
                );
            },
        };
        self.observed = Some(
            cat3(self.pocket.name(), " pocket read: ", show_items(&items).as_str()),
        );
        report(events, GameEvent::PocketObserved { pocket: self.pocket, items });
        self.phase = Phase::Close;
        self.retries = 0;
        self.last_view = None;
        assert(events_of(events@) =~= before + start.reading(*o, *data).2);
        self.act(
            "close the bag".to_owned(),
            Button::B,
            Expectation::MenuOpen,
            BAG_OPEN_FRAMES,
        )
    }

    /// Takes in a frame: the phase it asks for, and whether the last input
    /// showed.
    fn note(&mut self, o: &Observation)
        ensures
            final(self)@ == old(self)@.noted(*o),
    {
        let phase = if self.observed.is_some() {
            Phase::Close
        } else {
            match &o.bag {
                Some(bag) => if pocket_from_title(&bag.pocket) == Some(self.pocket) {
                    Phase::Read
                } else {
                    Phase::Pocket
                },
                None => if o.menu.is_some() {
                    Phase::StartMenu
                } else {
                    Phase::Open
                },
            }
        };
        let pending = self.pending.take();
        if phase != self.phase {
            self.phase = phase;
            self.retries = 0;
            self.waiting_since = None;
            self.last_view = None;
        } else {
            match pending {
                Some(expect) => {
                    let scrolled = match (&o.bag, &self.last_view) {
                        (Some(bag), Some(last)) => !same_rows(&bag.rows, last),
                        _ => false,
                    };
                    if !expect.met(o) && !scrolled {
                        self.retries = count(self.retries);
                    }
                },
                None => {},
            }
        }
    }

    /// Next input, or Done once the pocket was read and every menu is closed.
    pub fn next(&mut self, o: &Observation, data: &GameData, events: &mut Vec<GameEvent>) -> (d:
        Decision)
        ensures
            final(self)@ == old(self)@.stepped(*o, *data).0,
            d@ == old(self)@.stepped(*o, *data).1,
            events_of(final(events)@) == events_of(old(events)@) + old(self)@.stepped(*o, *data).2,
    {
        let ghost before = events_of(events@);
        assert(before + Seq::<GameEventV>::empty() =~= before);
        let target = match pocket_index(self.pocket) {
            Some(i) => i,
            None => {
                return Decision::Fail(cat(self.pocket.name(), " is not a bag pocket"));
            },
        };
        self.note(o);
        if self.retries > MAX_RETRIES {
            let mut r = cat3(
                "bag audit (",
                self.pocket.name(),
                "): no progress after 12 retries in ",
            );
            r.append(self.phase.name());
            return Decision::Fail(r);
        }
        match self.phase {
            Phase::Open => {
                if o.player.is_none() {
                    return self.wait(o, "locating before opening the Start menu");
                }
                self.act(
                    "open the Start menu".to_owned(),
                    Button::Start,
                    Expectation::MenuOpen,
                    MENU_FRAMES,
                )
            },
            Phase::StartMenu => match &o.menu {
                Some(menu) => self.start_menu(o, menu),
                None => self.wait(o, "reading the Start menu"),
            },
            Phase::Pocket => match &o.bag {
                Some(bag) => self.to_pocket(o, bag, target),
                None => self.wait(o, "reading the pocket title"),
            },
            Phase::Read => match &o.bag {
                Some(bag) => self.read(o, bag, data, events),
                None => self.wait(o, "reading the pocket's rows"),
            },
            Phase::Close => {
                if o.bag.is_some() {
                    return self.act(
                        "close the bag".to_owned(),
                        Button::B,
                        Expectation::MenuOpen,
                        BAG_OPEN_FRAMES,
                    );
                }
                if o.menu.is_some() {
                    return self.act(
                        "close the Start menu".to_owned(),
                        Button::B,
                        Expectation::BagClosed,
                        MENU_FRAMES,
                    );
                }
                if o.player.is_none() {
                    return self.wait(o, "locating after closing the bag");
                }
                Decision::Done(
                    match &self.observed {
                        Some(s) => s.clone(),
                        None => String::new(),
                    },
                )
            },
        }
    }
}

impl AuditV {
    /// A pocket is reported only from rows that all resolved, on a frame that
    /// shows the pocket with its CANCEL row, after the top of the list was
    /// seen.
    pub proof fn reported_means_read_through(self, o: Observation, data: GameData)
        requires
            self.stepped(o, data).2.len() > 0,
        ensures
            ({
                let shown = rows_of(o.bag->0.rows@);
                let rows = merged(data, self.rows, shown);
                &&& o.bag is Some
                &&& titled(o.bag->0.pocket@) == Some(self.pocket)
                &&& cancel_shows(shown)
                &&& self.top_seen || o.bag->0.cursor == Some(0u8)
                &&& rows_read(data, rows) is Some
                &&& self.stepped(o, data).2 == seq![
                    GameEventV::PocketObserved {
                        pocket: self.pocket,
                        items: rows_read(data, rows)->0,
                    },
                ]
            }),
    {
    }

    /// The audit is done only once the pocket was reported and the bag and
    /// every menu are closed.
    pub proof fn done_means_closed(self, o: Observation, data: GameData)
        requires
            self.stepped(o, data).1 is Done,
        ensures
            self.observed is Some,
            o.bag is None,
            o.menu is None,
            o.player is Some,
            self.stepped(o, data).2.len() == 0,
    {
    }

    /// An audit that has used up its retries in a phase fails on the next
    /// frame of that phase.
    pub proof fn retries_are_bounded(self, o: Observation, data: GameData)
        requires
            place_of(self.pocket) is Some,
            self.phase_on(o) == self.phase,
            self.retries > MAX_RETRIES,
        ensures
            self.stepped(o, data).1 is Fail,
            self.stepped(o, data).2.len() == 0,
    {
    }
}

} // verus!
