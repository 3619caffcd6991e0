//! Text as sequences of characters: searching, trimming, joining and
//! rendering numbers.
//!
//! Every function states its result over the view of a string, the sequence
//! of its characters.

use vstd::prelude::*;
use vstd::string::{StrSliceExecFns, StringExecFns};

use crate::observe::lines_of;

verus! {

/// `needle` stands in `hay` at character `at`.
pub open spec fn occurs_at(hay: Seq<char>, needle: Seq<char>, at: int) -> bool {
    0 <= at && at + needle.len() <= hay.len() && hay.subrange(at, at + needle.len()) == needle
}

/// `needle` stands somewhere in `hay`.
pub open spec fn within(hay: Seq<char>, needle: Seq<char>) -> bool {
    exists|at: int| occurs_at(hay, needle, at)
}

/// `at` is the first place where `needle` stands in `hay`.
pub open spec fn first_at(hay: Seq<char>, needle: Seq<char>, at: int) -> bool {
    occurs_at(hay, needle, at) && forall|j: int| 0 <= j < at ==> !occurs_at(hay, needle, j)
}

pub open spec fn begins(hay: Seq<char>, prefix: Seq<char>) -> bool {
    occurs_at(hay, prefix, 0)
}

pub open spec fn ends(hay: Seq<char>, suffix: Seq<char>) -> bool {
    occurs_at(hay, suffix, hay.len() - suffix.len())
}

/// The characters of a string.
pub fn chars(s: &str) -> (v: Vec<char>)
    ensures
        v@ == s@,
{
    let mut v: Vec<char> = Vec::new();
    for c in it: s.chars()
        invariant
            v@ == it.seq().take(it.index() as int),
            it.seq() == s@,
    {
        v.push(c);
    }
    v
}

/// Whether two strings hold the same characters.
pub fn same(a: &str, b: &str) -> (r: bool)
    ensures
        r == (a@ == b@),
{
    a.to_owned() == b.to_owned()
}

fn matches_at(hay: &Vec<char>, needle: &Vec<char>, at: usize) -> (r: bool)
    requires
        at + needle@.len() <= hay@.len(),
    ensures
        r == occurs_at(hay@, needle@, at as int),
{
    let size: usize = hay.len();
    let mut i: usize = 0;
    while i < needle.len()
        invariant
            i <= needle@.len(),
            size == hay@.len(),
            at + needle@.len() <= size,
            forall|k: int| 0 <= k < i ==> hay@[at + k] == needle@[k],
        decreases needle@.len() - i,
    {
        if hay[at + i] != needle[i] {
            proof {
                let window = hay@.subrange(at as int, at + needle@.len());
                assert(window[i as int] == hay@[at + i]);
            }
            return false;
        }
        i += 1;
    }
    assert(hay@.subrange(at as int, at + needle@.len()) =~= needle@);
    true
}

/// The first place where `needle` stands in `hay`, in characters.
pub fn find(hay: &str, needle: &str) -> (r: Option<usize>)
    ensures
        match r {
            Some(at) => first_at(hay@, needle@, at as int),
            None => !within(hay@, needle@),
        },
{
    let h = chars(hay);
    let n = chars(needle);
    if n.len() > h.len() {
        return None;
    }
    let last: usize = h.len() - n.len();
    let mut at: usize = 0;
    loop
        invariant
            h@ == hay@,
            n@ == needle@,
            at <= last,
            last + n@.len() == h@.len(),
            forall|j: int| 0 <= j < at ==> !occurs_at(h@, n@, j),
        decreases last - at,
    {
        if matches_at(&h, &n, at) {
            return Some(at);
        }
        if at == last {
            return None;
        }
        at += 1;
    }
}

pub fn contains(hay: &str, needle: &str) -> (r: bool)
    ensures
        r == within(hay@, needle@),
{
    find(hay, needle).is_some()
}

pub fn starts_with(hay: &str, prefix: &str) -> (r: bool)
    ensures
        r == begins(hay@, prefix@),
{
    let h = chars(hay);
    let p = chars(prefix);
    p.len() <= h.len() && matches_at(&h, &p, 0)
}

pub fn ends_with(hay: &str, suffix: &str) -> (r: bool)
    ensures
        r == ends(hay@, suffix@),
{
    let h = chars(hay);
    let p = chars(suffix);
    p.len() <= h.len() && matches_at(&h, &p, h.len() - p.len())
}

/// The decimal digits of a number.
pub open spec fn decimal_of(n: nat) -> Seq<char>
    decreases n,
{
    if n < 10 {
        seq![digit_char(n)]
    } else {
        decimal_of(n / 10).push(digit_char(n % 10))
    }
}

pub open spec fn digit_char(d: nat) -> char {
    if d == 0 { '0' }
    else if d == 1 { '1' }
    else if d == 2 { '2' }
    else if d == 3 { '3' }
    else if d == 4 { '4' }
    else if d == 5 { '5' }
    else if d == 6 { '6' }
    else if d == 7 { '7' }
    else if d == 8 { '8' }
    else { '9' }
}

fn digit(d: u64) -> (s: &'static str)
    requires
        d < 10,
    ensures
        s@ == seq![digit_char(d as nat)],
{
    proof {
        reveal_strlit("0");
        reveal_strlit("1");
        reveal_strlit("2");
        reveal_strlit("3");
        reveal_strlit("4");
        reveal_strlit("5");
        reveal_strlit("6");
        reveal_strlit("7");
        reveal_strlit("8");
        reveal_strlit("9");
    }
    if d == 0 { "0" }
    else if d == 1 { "1" }
    else if d == 2 { "2" }
    else if d == 3 { "3" }
    else if d == 4 { "4" }
    else if d == 5 { "5" }
    else if d == 6 { "6" }
    else if d == 7 { "7" }
    else if d == 8 { "8" }
    else { "9" }
}

/// A number in decimal.
pub fn decimal(n: u64) -> (s: String)
    ensures
        s@ == decimal_of(n as nat),
    decreases n,
{
    if n < 10 {
        digit(n).to_owned()
    } else {
        let mut s = decimal(n / 10);
        s.append(digit(n % 10));
        s
    }
}

/// Two strings, one after the other.
pub fn cat(a: &str, b: &str) -> (s: String)
    ensures
        s@ == a@ + b@,
{
    let mut s = a.to_owned();
    s.append(b);
    s
}

pub fn cat3(a: &str, b: &str, c: &str) -> (s: String)
    ensures
        s@ == a@ + b@ + c@,
{
    let mut s = a.to_owned();
    s.append(b);
    s.append(c);
    s
}

/// A character of Unicode's White_Space.
pub open spec fn is_space(c: char) -> bool {
    let n = c as u32;
    (0x09 <= n <= 0x0d) || n == 0x20 || n == 0x85 || n == 0xa0 || n == 0x1680 || (0x2000 <= n
        <= 0x200a) || n == 0x2028 || n == 0x2029 || n == 0x202f || n == 0x205f || n == 0x3000
}

fn space(c: char) -> (r: bool)
    ensures
        r == is_space(c),
{
    let n: u32 = c as u32;
    (0x09 <= n && n <= 0x0d) || n == 0x20 || n == 0x85 || n == 0xa0 || n == 0x1680 || (0x2000 <= n
        && n <= 0x200a) || n == 0x2028 || n == 0x2029 || n == 0x202f || n == 0x205f || n == 0x3000
}

/// The text without the white space before it.
pub open spec fn spaceless_start(s: Seq<char>) -> Seq<char>
    decreases s.len(),
{
    if s.len() > 0 && is_space(s[0]) {
        spaceless_start(s.drop_first())
    } else {
        s
    }
}

/// The text without the white space behind it.
pub open spec fn spaceless_end(s: Seq<char>) -> Seq<char>
    decreases s.len(),
{
    if s.len() > 0 && is_space(s.last()) {
        spaceless_end(s.drop_last())
    } else {
        s
    }
}

/// The text without the white space before and behind it.
pub open spec fn trimmed(s: Seq<char>) -> Seq<char> {
    spaceless_end(spaceless_start(s))
}

/// The text without the white space before it.
pub fn trim_start(s: &str) -> (r: &str)
    ensures
        r@ == spaceless_start(s@),
{
    let letters = chars(s);
    let mut i: usize = 0;
    assert(s@.subrange(0, s@.len() as int) =~= s@);
    while i < letters.len() && space(letters[i])
        invariant
            i <= letters@.len(),
            letters@ == s@,
            spaceless_start(s@) == spaceless_start(s@.subrange(i as int, s@.len() as int)),
        decreases letters@.len() - i,
    {
        let ghost rest = s@.subrange(i as int, s@.len() as int);
        assert(rest.drop_first() =~= s@.subrange(i + 1, s@.len() as int));
        i += 1;
    }
    s.substring_char(i, letters.len())
}

/// The text without the white space behind it.
pub fn trim_end(s: &str) -> (r: &str)
    ensures
        r@ == spaceless_end(s@),
{
    let letters = chars(s);
    let mut n: usize = letters.len();
    assert(s@.subrange(0, s@.len() as int) =~= s@);
    while n > 0 && space(letters[n - 1])
        invariant
            n <= letters@.len(),
            letters@ == s@,
            spaceless_end(s@) == spaceless_end(s@.subrange(0, n as int)),
        decreases n,
    {
        assert(s@.subrange(0, n as int).drop_last() =~= s@.subrange(0, n - 1));
        n -= 1;
    }
    s.substring_char(0, n)
}

/// The text without the white space before and behind it.
pub fn trim(s: &str) -> (r: &str)
    ensures
        r@ == trimmed(s@),
{
    trim_end(trim_start(s))
}

/// What stands behind the last space.
pub open spec fn last_word(s: Seq<char>) -> Seq<char>
    decreases s.len(),
{
    if s.len() == 0 || s.last() == ' ' {
        Seq::empty()
    } else {
        last_word(s.drop_last()).push(s.last())
    }
}

proof fn last_word_ends_it(s: Seq<char>, from: int)
    requires
        0 <= from <= s.len(),
        from == 0 || s[from - 1] == ' ',
        forall|i: int| from <= i < s.len() ==> #[trigger] s[i] != ' ',
    ensures
        last_word(s) == s.subrange(from, s.len() as int),
    decreases s.len(),
{
    if s.len() > from {
        last_word_ends_it(s.drop_last(), from);
        assert(s.drop_last().subrange(from, s.len() - 1).push(s.last()) =~= s.subrange(
            from,
            s.len() as int,
        ));
    } else {
        assert(s.subrange(from, s.len() as int) =~= Seq::empty());
    }
}

/// What stands behind the last space.
pub fn after_last_space(s: &str) -> (r: &str)
    ensures
        r@ == last_word(s@),
{
    let letters = chars(s);
    let mut from: usize = letters.len();
    while from > 0 && letters[from - 1] != ' '
        invariant
            from <= letters@.len(),
            letters@ == s@,
            forall|i: int| from <= i < s@.len() ==> #[trigger] s@[i] != ' ',
        decreases from,
    {
        from -= 1;
    }
    proof {
        last_word_ends_it(s@, from as int);
    }
    s.substring_char(from, letters.len())
}

/// One text comes before another in the order of their characters.
pub open spec fn before(a: Seq<char>, b: Seq<char>) -> bool
    decreases a.len(),
{
    if b.len() == 0 {
        false
    } else if a.len() == 0 {
        true
    } else if a[0] != b[0] {
        a[0] < b[0]
    } else {
        before(a.drop_first(), b.drop_first())
    }
}

proof fn before_skips(a: Seq<char>, b: Seq<char>, n: int)
    requires
        0 <= n <= a.len(),
        n <= b.len(),
        forall|k: int| 0 <= k < n ==> a[k] == b[k],
    ensures
        before(a, b) == before(
            a.subrange(n, a.len() as int),
            b.subrange(n, b.len() as int),
        ),
    decreases n,
{
    if n == 0 {
        assert(a.subrange(0, a.len() as int) =~= a);
        assert(b.subrange(0, b.len() as int) =~= b);
    } else {
        assert(a[0] == b[0]);
        assert forall|k: int| 0 <= k < n - 1 implies a.drop_first()[k] == b.drop_first()[k] by {
            assert(a[k + 1] == b[k + 1]);
        }
        before_skips(a.drop_first(), b.drop_first(), n - 1);
        assert(a.drop_first().subrange(n - 1, a.len() - 1) =~= a.subrange(n, a.len() as int));
        assert(b.drop_first().subrange(n - 1, b.len() - 1) =~= b.subrange(n, b.len() as int));
    }
}

/// Whether one text comes before another.
pub fn comes_before(a: &str, b: &str) -> (r: bool)
    ensures
        r == before(a@, b@),
{
    let x = chars(a);
    let y = chars(b);
    let mut i: usize = 0;
    while i < x.len() && i < y.len() && x[i] == y[i]
        invariant
            i <= x@.len(),
            i <= y@.len(),
            x@ == a@,
            y@ == b@,
            forall|k: int| 0 <= k < i ==> x@[k] == y@[k],
        decreases x@.len() - i,
    {
        i += 1;
    }
    proof {
        before_skips(a@, b@, i as int);
    }
    if i >= y.len() {
        false
    } else if i >= x.len() {
        true
    } else {
        x[i] < y[i]
    }
}

/// No text comes before itself.
pub proof fn nothing_comes_before_itself(a: Seq<char>)
    ensures
        !before(a, a),
    decreases a.len(),
{
    if a.len() > 0 {
        nothing_comes_before_itself(a.drop_first());
    }
}

/// Of two different texts, one comes before the other.
pub proof fn different_texts_are_ordered(a: Seq<char>, b: Seq<char>)
    requires
        a != b,
    ensures
        before(a, b) != before(b, a),
    decreases a.len(),
{
    if a.len() == 0 || b.len() == 0 {
        if a.len() == 0 && b.len() == 0 {
            assert(a =~= b);
        }
    } else if a[0] == b[0] {
        if a.drop_first() == b.drop_first() {
            assert(a =~= seq![a[0]] + a.drop_first());
            assert(b =~= seq![b[0]] + b.drop_first());
        }
        different_texts_are_ordered(a.drop_first(), b.drop_first());
    }
}

/// The order is transitive.
pub proof fn order_is_transitive(a: Seq<char>, b: Seq<char>, c: Seq<char>)
    requires
        before(a, b),
        before(b, c),
    ensures
        before(a, c),
    decreases a.len(),
{
    if a.len() > 0 && b.len() > 0 && c.len() > 0 && a[0] == b[0] && b[0] == c[0] {
        order_is_transitive(a.drop_first(), b.drop_first(), c.drop_first());
    }
}

/// Lines with a separator between them.
pub open spec fn joined(lines: Seq<Seq<char>>, separator: Seq<char>) -> Seq<char>
    decreases lines.len(),
{
    if lines.len() == 0 {
        Seq::empty()
    } else if lines.len() == 1 {
        lines[0]
    } else {
        joined(lines.drop_last(), separator) + separator + lines.last()
    }
}

/// Lines with a separator between them.
pub fn join(lines: &Vec<String>, separator: &str) -> (s: String)
    ensures
        s@ == joined(lines_of(lines@), separator@),
{
    let mut s = String::new();
    let ghost all = lines_of(lines@);
    let mut i: usize = 0;
    assert(all.take(0) =~= Seq::empty());
    while i < lines.len()
        invariant
            i <= lines@.len(),
            all == lines_of(lines@),
            s@ == joined(all.take(i as int), separator@),
        decreases lines@.len() - i,
    {
        assert(all.take(i + 1).drop_last() =~= all.take(i as int));
        if i > 0 {
            s.append(separator);
        }
        s.append(&lines[i]);
        assert(s@ =~= joined(all.take(i + 1), separator@));
        i += 1;
    }
    assert(all.take(lines@.len() as int) =~= all);
    s
}

/// A number in decimal, with a sign where it is negative.
pub open spec fn signed_of(n: int) -> Seq<char> {
    if n < 0 {
        "-"@ + decimal_of((-n) as nat)
    } else {
        decimal_of(n as nat)
    }
}

/// A number in decimal, with a sign where it is negative.
pub fn signed(n: i64) -> (s: String)
    requires
        n > i64::MIN,
    ensures
        s@ == signed_of(n as int),
{
    if n < 0 {
        cat("-", decimal((-n) as u64).as_str())
    } else {
        decimal(n as u64)
    }
}

/// The text with every leading `prefix` cut off.
pub open spec fn cut_start(s: Seq<char>, prefix: Seq<char>) -> Seq<char>
    decreases s.len(),
{
    if prefix.len() > 0 && begins(s, prefix) {
        cut_start(s.subrange(prefix.len() as int, s.len() as int), prefix)
    } else {
        s
    }
}

/// The text with every leading `prefix` cut off.
pub fn trim_start_matches<'a>(s: &'a str, prefix: &str) -> (r: &'a str)
    ensures
        r@ == cut_start(s@, prefix@),
    decreases s@.len(),
{
    let n: usize = prefix.unicode_len();
    if n > 0 && starts_with(s, prefix) {
        let rest = s.substring_char(n, s.unicode_len());
        trim_start_matches(rest, prefix)
    } else {
        s
    }
}

/// The text with every trailing `suffix` cut off.
pub open spec fn cut_end(s: Seq<char>, suffix: Seq<char>) -> Seq<char>
    decreases s.len(),
{
    if suffix.len() > 0 && ends(s, suffix) {
        cut_end(s.subrange(0, s.len() - suffix.len()), suffix)
    } else {
        s
    }
}

/// The text with every trailing `suffix` cut off.
pub fn trim_end_matches<'a>(s: &'a str, suffix: &str) -> (r: &'a str)
    ensures
        r@ == cut_end(s@, suffix@),
    decreases s@.len(),
{
    let n: usize = suffix.unicode_len();
    if n > 0 && ends_with(s, suffix) {
        let rest = s.substring_char(0, s.unicode_len() - n);
        trim_end_matches(rest, suffix)
    } else {
        s
    }
}

/// The text with one character in place of another.
pub open spec fn swapped(s: Seq<char>, from: char, to: char) -> Seq<char> {
    s.map_values(|c: char| if c == from { to } else { c })
}

/// The text with one character in place of another; `to` is that character.
pub fn swap(s: &str, from: char, to: &str) -> (r: String)
    requires
        to@.len() == 1,
    ensures
        r@ == swapped(s@, from, to@[0]),
{
    let letters = chars(s);
    let mut r = String::new();
    let mut i: usize = 0;
    while i < letters.len()
        invariant
            i <= letters@.len(),
            letters@ == s@,
            to@.len() == 1,
            r@ == swapped(s@, from, to@[0]).take(i as int),
        decreases letters@.len() - i,
    {
        let ghost before = r@;
        if letters[i] == from {
            r.append(to);
        } else {
            r.append(s.substring_char(i, i + 1));
        }
        assert(r@ =~= swapped(s@, from, to@[0]).take(i + 1));
        i += 1;
    }
    assert(r@ =~= swapped(s@, from, to@[0]));
    r
}

/// A string as std's `Debug` prints it, in quotes and with escapes.
pub uninterp spec fn quoted_text(s: Seq<char>) -> Seq<char>;

/// Calls std's `Debug` for `str` (through `format!`). The contract names what
/// it prints, which depends on the string alone, and says nothing more of it.
#[verifier::external_body]
pub(crate) fn quoted(s: &str) -> (r: String)
    ensures
        r@ == quoted_text(s@),
{
    format!("{:?}", s)
}

/// A character as std's `Debug` prints it, in quotes and with escapes.
pub uninterp spec fn quoted_char_text(c: char) -> Seq<char>;

/// Calls std's `Debug` for `char` (through `format!`). The contract names what
/// it prints, which depends on the character alone, and says nothing more of it.
#[verifier::external_body]
pub(crate) fn quoted_char(c: char) -> (r: String)
    ensures
        r@ == quoted_char_text(c),
{
    format!("{:?}", c)
}

} // verus!
