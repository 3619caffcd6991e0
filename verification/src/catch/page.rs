//! What battle text says about a catch.

use vstd::prelude::*;
use vstd::string::StrSliceExecFns;

use crate::bag::{fits, reads_as};
use crate::catch_odds::FoeStatus;
use crate::text::{
    begins, contains, find, first_at, occurs_at, spaceless_start, starts_with, trim_start, within,
};

verus! {

#[derive(Debug, Clone, Copy, PartialEq, Eq, Structural)]
pub enum ThrowOutcome {
    Caught,
    BrokeFree,
}

/// One of the game's four "broke free" pages (0–3 shakes).
pub open spec fn broke_free(page: Seq<char>) -> bool {
    ||| within(page, "Oh, no!"@) && within(page, "The POKéMON broke free!"@)
    ||| within(page, "Aww!"@) && within(page, "It appeared to be caught!"@)
    ||| within(page, "Aargh!"@) && within(page, "Almost had it!"@)
    ||| within(page, "Shoot!"@) && within(page, "It was so close, too!"@)
}

/// What a page says about a throw.
pub open spec fn throw_told(page: Seq<char>) -> Option<ThrowOutcome> {
    if within(page, "Gotcha!"@) && within(page, " was caught!"@) {
        Some(ThrowOutcome::Caught)
    } else if broke_free(page) {
        Some(ThrowOutcome::BrokeFree)
    } else {
        None
    }
}

/// Facts in battle text about the throw: "Gotcha! X was caught!" or one of
/// the broke-free pages. Anything else (half a page included) is `None`.
pub fn throw_text(page: &str) -> (r: Option<ThrowOutcome>)
    ensures
        r == throw_told(page@),
{
    if contains(page, "Gotcha!") && contains(page, " was caught!") {
        return Some(ThrowOutcome::Caught);
    }
    if (contains(page, "Oh, no!") && contains(page, "The POKéMON broke free!")) || (contains(
        page,
        "Aww!",
    ) && contains(page, "It appeared to be caught!")) || (contains(page, "Aargh!") && contains(
        page,
        "Almost had it!",
    )) || (contains(page, "Shoot!") && contains(page, "It was so close, too!")) {
        Some(ThrowOutcome::BrokeFree)
    } else {
        None
    }
}

/// The status that a phrase about the foe tells.
pub open spec fn status_phrase(rest: Seq<char>) -> Option<FoeStatus> {
    if begins(rest, "fell asleep!"@) || begins(rest, "is fast asleep"@) || begins(
        rest,
        "is already asleep"@,
    ) {
        Some(FoeStatus::Asleep)
    } else if begins(rest, "is paralyzed!"@) || begins(rest, "is already paralyzed"@) {
        Some(FoeStatus::Paralyzed)
    } else if begins(rest, "woke up!"@) {
        Some(FoeStatus::Healthy)
    } else {
        None
    }
}

/// The first `n` characters, or all there are.
pub open spec fn head(s: Seq<char>, n: int) -> Seq<char> {
    if n < s.len() {
        s.subrange(0, n)
    } else {
        s
    }
}

/// What stands behind the first `n` characters.
pub open spec fn behind(s: Seq<char>, n: int) -> Seq<char> {
    if n < s.len() {
        s.subrange(n, s.len() as int)
    } else {
        Seq::empty()
    }
}

/// What a page says about the wild foe's status.
pub open spec fn status_told(page: Seq<char>, foe_name: Seq<char>) -> Option<FoeStatus> {
    if !within(page, "Wild "@) {
        None
    } else {
        let at = choose|at: int| first_at(page, "Wild "@, at);
        let after = page.subrange(at + 5, page.len() as int);
        let name = head(after, foe_name.len() as int);
        if !reads_as(foe_name, name) {
            None
        } else {
            status_phrase(spaceless_start(behind(after, foe_name.len() as int)))
        }
    }
}

/// The wild foe's status as told by battle text: "Wild X fell asleep!" /
/// "is fast asleep." → asleep, "Wild X is paralyzed!…" → paralysed,
/// "Wild X woke up!" → [`FoeStatus::Healthy`]. `foe_name` is the printed name
/// (`?` in the reading matches any letter).
pub fn foe_status_text(page: &str, foe_name: &str) -> (r: Option<FoeStatus>)
    ensures
        r == status_told(page@, foe_name@),
{
    proof {
        reveal_strlit("Wild ");
    }
    let at = match find(page, "Wild ") {
        Some(at) => at,
        None => {
            return None;
        },
    };
    proof {
        assert(first_at(page@, "Wild "@, at as int));
        assert(occurs_at(page@, "Wild "@, at as int));
        let c = choose|k: int| first_at(page@, "Wild "@, k);
        assert(c == at);
    }
    let size: usize = page.unicode_len();
    let after = page.substring_char(at + 5, size);
    let rest_len: usize = after.unicode_len();
    let len: usize = foe_name.unicode_len();
    let cut: usize = if len < rest_len {
        len
    } else {
        rest_len
    };
    let name = after.substring_char(0, cut);
    assert(name@ =~= head(after@, foe_name@.len() as int));
    if !fits(foe_name, name) {
        return None;
    }
    let tail = after.substring_char(cut, rest_len);
    assert(tail@ =~= behind(after@, foe_name@.len() as int));
    let rest = trim_start(tail);
    if starts_with(rest, "fell asleep!") || starts_with(rest, "is fast asleep") || starts_with(
        rest,
        "is already asleep",
    ) {
        Some(FoeStatus::Asleep)
    } else if starts_with(rest, "is paralyzed!") || starts_with(rest, "is already paralyzed") {
        Some(FoeStatus::Paralyzed)
    } else if starts_with(rest, "woke up!") {
        Some(FoeStatus::Healthy)
    } else {
        None
    }
}

/// "Give a nickname to the captured X?"
pub fn is_nickname_question(page: &str) -> (r: bool)
    ensures
        r == within(page@, "Give a nickname to the"@),
{
    contains(page, "Give a nickname to the")
}

} // verus!
