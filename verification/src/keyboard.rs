//! The naming-screen keyboard (upper-case page) as static game knowledge.

use vstd::prelude::*;
use vstd::string::{StrSliceExecFns, StringExecFns};

use crate::input::{Button, ButtonSet, CommandV, ControllerCommand, TimedInput};
use crate::text::{chars, quoted, quoted_char, quoted_char_text, quoted_text};

verus! {

pub const MAX_NAME_LENGTH: usize = 7;

/// How long each tap is held, and then released, in milliseconds.
pub const TAP_MS: u64 = 67;

/// One row of the upper-case page: 8 columns, 4 rows.
pub open spec fn layout(row: int) -> Seq<char> {
    if row == 0 {
        "ABCDEF ."@
    } else if row == 1 {
        "GHIJKL ,"@
    } else if row == 2 {
        "MNOPQRS "@
    } else {
        "TUVWXYZ "@
    }
}

/// `c` is printed on the key at this column and row.
pub open spec fn key_at(column: int, row: int, c: char) -> bool {
    0 <= row < 4 && 0 <= column < 8 && c != ' ' && layout(row)[column] == c
}

/// Some key has `c` printed on it.
pub open spec fn has_key(c: char) -> bool {
    exists|column: int, row: int| key_at(column, row, c)
}

fn layout_row(row: usize) -> (s: &'static str)
    requires
        row < 4,
    ensures
        s@ == layout(row as int),
        s@.len() == 8,
{
    proof {
        reveal_strlit("ABCDEF .");
        reveal_strlit("GHIJKL ,");
        reveal_strlit("MNOPQRS ");
        reveal_strlit("TUVWXYZ ");
    }
    if row == 0 {
        "ABCDEF ."
    } else if row == 1 {
        "GHIJKL ,"
    } else if row == 2 {
        "MNOPQRS "
    } else {
        "TUVWXYZ "
    }
}

/// Column and row of `c` on the upper-case page.
pub fn key_position(c: char) -> (r: Option<(u8, u8)>)
    ensures
        match r {
            Some(p) => key_at(p.0 as int, p.1 as int, c),
            None => !has_key(c),
        },
{
    if c == ' ' {
        return None;
    }
    let mut row: usize = 0;
    while row < 4
        invariant
            row <= 4,
            c != ' ',
            forall|x: int, y: int| key_at(x, y, c) ==> y >= row,
        decreases 4 - row,
    {
        let line = layout_row(row);
        let mut column: usize = 0;
        while column < 8
            invariant
                column <= 8,
                row < 4,
                c != ' ',
                line@ == layout(row as int),
                line@.len() == 8,
                forall|x: int, y: int|
                    key_at(x, y, c) ==> y > row || (y == row && x >= column),
            decreases 8 - column,
        {
            if line.get_char(column) == c {
                return Some((column as u8, row as u8));
            }
            column += 1;
        }
        row += 1;
    }
    None
}

/// No two keys have the same character: a position is the only one.
pub proof fn each_key_is_printed_once(c: char, a: (int, int), b: (int, int))
    requires
        key_at(a.0, a.1, c),
        key_at(b.0, b.1, c),
    ensures
        a == b,
{
    reveal_strlit("ABCDEF .");
    reveal_strlit("GHIJKL ,");
    reveal_strlit("MNOPQRS ");
    reveal_strlit("TUVWXYZ ");
}

pub open spec fn is_upper(c: char) -> bool {
    'A' <= c && c <= 'Z'
}

/// Every letter A–Z has a key.
pub proof fn every_letter_has_a_key(c: char)
    requires
        is_upper(c),
    ensures
        has_key(c),
{
    reveal_strlit("ABCDEF .");
    reveal_strlit("GHIJKL ,");
    reveal_strlit("MNOPQRS ");
    reveal_strlit("TUVWXYZ ");
    let n = c as u32 - 'A' as u32;
    if n < 6 {
        assert(key_at(n, 0, c));
    } else if n < 12 {
        assert(key_at(n - 6, 1, c));
    } else if n < 19 {
        assert(key_at(n - 12, 2, c));
    } else {
        assert(key_at(n - 19, 3, c));
    }
}

/// A name that can be typed and verified: 1–7 upper-case letters.
pub open spec fn typeable(name: Seq<char>) -> bool {
    1 <= name.len() <= MAX_NAME_LENGTH && forall|i: int|
        0 <= i < name.len() ==> is_upper(#[trigger] name[i])
}

/// Why a name cannot be typed.
pub open spec fn name_problem(name: Seq<char>, problem: Seq<char>) -> bool {
    if name.len() == 0 || name.len() > MAX_NAME_LENGTH {
        problem == "name "@ + quoted_text(name) + " must be 1–7 characters"@
    } else {
        exists|i: int|
            {
                &&& 0 <= i < name.len()
                &&& !is_upper(#[trigger] name[i])
                &&& forall|j: int| 0 <= j < i ==> is_upper(#[trigger] name[j])
                &&& problem == "name "@ + quoted_text(name)
                    + ": only A–Z are supported (found "@ + quoted_char_text(name[i]) + ")"@
            }
    }
}

/// Names that can be typed and verified: 1–7 upper-case letters.
pub fn validate_name(name: &str) -> (r: Result<(), String>)
    ensures
        r is Ok <==> typeable(name@),
        r matches Err(e) ==> name_problem(name@, e@),
{
    let letters = chars(name);
    if letters.len() == 0 || letters.len() > MAX_NAME_LENGTH {
        let mut e = "name ".to_owned();
        e.append(quoted(name).as_str());
        e.append(" must be 1–7 characters");
        return Err(e);
    }
    let mut i: usize = 0;
    while i < letters.len()
        invariant
            i <= letters@.len(),
            letters@ == name@,
            1 <= letters@.len() <= MAX_NAME_LENGTH,
            forall|j: int| 0 <= j < i ==> is_upper(#[trigger] letters@[j]),
        decreases letters@.len() - i,
    {
        let c = letters[i];
        if !('A' <= c && c <= 'Z') {
            let mut e = "name ".to_owned();
            e.append(quoted(name).as_str());
            e.append(": only A–Z are supported (found ");
            e.append(quoted_char(c).as_str());
            e.append(")");
            assert(!is_upper(name@[i as int]));
            return Err(e);
        }
        i += 1;
    }
    Ok(())
}

/// Every character of a valid name has a key.
pub proof fn valid_names_have_keys(name: Seq<char>, i: int)
    requires
        typeable(name),
        0 <= i < name.len(),
    ensures
        has_key(name[i]),
{
    every_letter_has_a_key(name[i]);
}

pub open spec fn times(n: int, button: Button) -> Seq<Button> {
    Seq::new(n as nat, |i: int| button)
}

pub open spec fn distance(a: int, b: int) -> int {
    if a > b {
        a - b
    } else {
        b - a
    }
}

/// The taps from one key to another: first up or down, then left or right.
pub open spec fn path(from: (u8, u8), to: (u8, u8)) -> Seq<Button> {
    times(
        distance(from.1 as int, to.1 as int),
        if to.1 > from.1 {
            Button::Down
        } else {
            Button::Up
        },
    ) + times(
        distance(from.0 as int, to.0 as int),
        if to.0 > from.0 {
            Button::Right
        } else {
            Button::Left
        },
    )
}

fn repeat(taps: &mut Vec<Button>, button: Button, n: u8)
    ensures
        final(taps)@ == old(taps)@ + times(n as int, button),
{
    let ghost before = taps@;
    let mut i: u8 = 0;
    assert(taps@ =~= before + times(0, button));
    while i < n
        invariant
            i <= n,
            taps@ == before + times(i as int, button),
        decreases n - i,
    {
        taps.push(button);
        i += 1;
        assert(taps@ =~= before + times(i as int, button));
    }
}

/// D-pad taps that move the cursor from one key to another without leaving
/// the letter grid.
pub fn moves(from: (u8, u8), to: (u8, u8)) -> (v: Vec<Button>)
    ensures
        v@ == path(from, to),
{
    let mut v: Vec<Button> = Vec::new();
    if to.1 > from.1 {
        repeat(&mut v, Button::Down, to.1 - from.1);
    } else {
        repeat(&mut v, Button::Up, from.1 - to.1);
    }
    if to.0 > from.0 {
        repeat(&mut v, Button::Right, to.0 - from.0);
    } else {
        repeat(&mut v, Button::Left, from.0 - to.0);
    }
    assert(v@ =~= path(from, to));
    v
}

/// Where a tap moves the cursor.
pub open spec fn tapped(at: (int, int), button: Button) -> (int, int) {
    match button {
        Button::Up => (at.0, at.1 - 1),
        Button::Down => (at.0, at.1 + 1),
        Button::Left => (at.0 - 1, at.1),
        Button::Right => (at.0 + 1, at.1),
        _ => at,
    }
}

/// Where a list of taps moves the cursor.
pub open spec fn walked(at: (int, int), taps: Seq<Button>) -> (int, int)
    decreases taps.len(),
{
    if taps.len() == 0 {
        at
    } else {
        tapped(walked(at, taps.drop_last()), taps.last())
    }
}

proof fn walking_repeats(at: (int, int), taps: Seq<Button>, n: int, button: Button)
    requires
        n >= 0,
        button == Button::Up || button == Button::Down || button == Button::Left || button
            == Button::Right,
    ensures
        ({
            let start = walked(at, taps);
            walked(at, taps + times(n, button)) == match button {
                Button::Up => (start.0, start.1 - n),
                Button::Down => (start.0, start.1 + n),
                Button::Left => (start.0 - n, start.1),
                _ => (start.0 + n, start.1),
            }
        }),
    decreases n,
{
    if n == 0 {
        assert(taps + times(0, button) =~= taps);
    } else {
        walking_repeats(at, taps, n - 1, button);
        let all = taps + times(n, button);
        assert(all.drop_last() =~= taps + times(n - 1, button));
        assert(all.last() == button);
    }
}

/// The taps from one key to another end on the other key.
pub proof fn taps_reach_the_key(from: (u8, u8), to: (u8, u8))
    ensures
        walked((from.0 as int, from.1 as int), path(from, to)) == (to.0 as int, to.1 as int),
        path(from, to).len() == distance(from.0 as int, to.0 as int) + distance(
            from.1 as int,
            to.1 as int,
        ),
{
    let at = (from.0 as int, from.1 as int);
    let vertical = times(
        distance(from.1 as int, to.1 as int),
        if to.1 > from.1 {
            Button::Down
        } else {
            Button::Up
        },
    );
    walking_repeats(
        at,
        Seq::<Button>::empty(),
        distance(from.1 as int, to.1 as int),
        if to.1 > from.1 {
            Button::Down
        } else {
            Button::Up
        },
    );
    assert(Seq::<Button>::empty() + vertical =~= vertical);
    walking_repeats(
        at,
        vertical,
        distance(from.0 as int, to.0 as int),
        if to.0 > from.0 {
            Button::Right
        } else {
            Button::Left
        },
    );
}

/// On the way from one key to another the cursor stays between the two, so it
/// never leaves a grid that holds both.
pub proof fn taps_stay_in_the_grid(from: (u8, u8), to: (u8, u8), n: int)
    requires
        0 <= n <= path(from, to).len(),
    ensures
        ({
            let at = walked((from.0 as int, from.1 as int), path(from, to).take(n));
            &&& (from.0 <= at.0 <= to.0 || to.0 <= at.0 <= from.0)
            &&& (from.1 <= at.1 <= to.1 || to.1 <= at.1 <= from.1)
        }),
{
    let at = (from.0 as int, from.1 as int);
    let dy = distance(from.1 as int, to.1 as int);
    let vertical = if to.1 > from.1 {
        Button::Down
    } else {
        Button::Up
    };
    let horizontal = if to.0 > from.0 {
        Button::Right
    } else {
        Button::Left
    };
    if n <= dy {
        assert(path(from, to).take(n) =~= Seq::<Button>::empty() + times(n, vertical));
        walking_repeats(at, Seq::<Button>::empty(), n, vertical);
    } else {
        assert(path(from, to).take(n) =~= (Seq::<Button>::empty() + times(dy, vertical)) + times(
            n - dy,
            horizontal,
        ));
        walking_repeats(at, Seq::<Button>::empty(), dy, vertical);
        walking_repeats(at, Seq::<Button>::empty() + times(dy, vertical), n - dy, horizontal);
    }
}

/// Each tap held, then released.
pub open spec fn tap_inputs(buttons: Seq<Button>) -> Seq<TimedInput> {
    Seq::new(
        2 * buttons.len(),
        |i: int|
            TimedInput {
                buttons: if i % 2 == 0 {
                    ButtonSet::only_spec(buttons[i / 2])
                } else {
                    ButtonSet::nothing()
                },
                millis: TAP_MS,
            },
    )
}

/// Taps as one command: each tap is held then released so every one counts.
pub fn taps(buttons: &Vec<Button>) -> (c: ControllerCommand)
    ensures
        c@ == CommandV::Sequence(tap_inputs(buttons@)),
{
    let mut inputs: Vec<TimedInput> = Vec::new();
    let mut i: usize = 0;
    while i < buttons.len()
        invariant
            i <= buttons@.len(),
            inputs@ == tap_inputs(buttons@).take(2 * i),
        decreases buttons@.len() - i,
    {
        inputs.push(TimedInput { buttons: ButtonSet::only(buttons[i]), millis: TAP_MS });
        inputs.push(TimedInput { buttons: ButtonSet::none(), millis: TAP_MS });
        i += 1;
        assert(inputs@ =~= tap_inputs(buttons@).take(2 * i));
    }
    assert(inputs@ =~= tap_inputs(buttons@));
    ControllerCommand::Sequence(inputs)
}

} // verus!
