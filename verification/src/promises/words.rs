//! Names and texts: files beside files, words without the space around them, and
//! lines put together.

use vstd::prelude::*;

use crate::event::Pocket;
use crate::paths::{cut, extended_by, last_part, names_file, stem_end};
use crate::text::{
    before, decimal_of, is_space, joined, signed_of, spaceless_end, spaceless_start, swapped,
    trimmed,
};

verus! {

// ---- Files ----

/// Letters that a file's name can end with: none of the two that mean something
/// in a path.
pub open spec fn plain(s: Seq<char>) -> bool {
    s.len() > 0 && forall|i: int| 0 <= i < s.len() ==> #[trigger] s[i] != '/' && s[i] != '.'
}

proof fn the_last_part_follows_the_last_slash(dir: Seq<char>, name: Seq<char>)
    requires
        dir.len() == 0 || dir.last() == '/',
        forall|i: int| 0 <= i < name.len() ==> #[trigger] name[i] != '/',
    ensures
        last_part(dir + name) == dir.len(),
    decreases name.len(),
{
    if name.len() == 0 {
        assert(dir + name =~= dir);
    } else {
        let all = dir + name;
        assert(all.last() == name[name.len() - 1]);
        assert(all.drop_last() =~= dir + name.drop_last());
        assert(forall|i: int|
            0 <= i < name.len() - 1 ==> #[trigger] name.drop_last()[i] == name[i]);
        the_last_part_follows_the_last_slash(dir, name.drop_last());
    }
}

proof fn a_stem_ends_at_the_last_dot(name: Seq<char>, at: int, n: int)
    requires
        0 < at < n <= name.len(),
        name[at] == '.',
        forall|i: int| at < i < name.len() ==> #[trigger] name[i] != '.',
    ensures
        stem_end(name, n) == at,
    decreases n,
{
    if n - 1 != at {
        assert(name[n - 1] != '.');
        a_stem_ends_at_the_last_dot(name, at, n - 1);
    }
}

proof fn a_name_without_a_dot_is_all_stem(name: Seq<char>, n: int)
    requires
        0 <= n <= name.len(),
        forall|i: int| 0 < i < name.len() ==> #[trigger] name[i] != '.',
    ensures
        stem_end(name, n) == name.len(),
    decreases n,
{
    if n > 1 {
        assert(name[n - 1] != '.');
        a_name_without_a_dot_is_all_stem(name, n - 1);
    }
}

/// A file's extension is what follows the last dot of its name; in its place, or
/// behind a name without one, stands the new one, and all before it stays.
pub proof fn an_extension_takes_the_place_of_another(
    dir: Seq<char>,
    stem: Seq<char>,
    old: Seq<char>,
    new: Seq<char>,
)
    requires
        dir.len() == 0 || dir.last() == '/',
        plain(stem),
        plain(old),
    ensures
        extended_by(dir + stem + seq!['.'] + old, new) == dir + stem + seq!['.'] + new,
        extended_by(dir + stem, new) == dir + stem + seq!['.'] + new,
{
    let name = stem + seq!['.'] + old;
    let path = dir + stem + seq!['.'] + old;
    assert(path =~= dir + name);
    assert(path.last() == old[old.len() - 1]);
    assert(cut(path) == path);
    assert forall|i: int| 0 <= i < name.len() implies #[trigger] name[i] != '/' by {
        if i < stem.len() {
            assert(name[i] == stem[i]);
        } else if i > stem.len() {
            assert(name[i] == old[i - stem.len() - 1]);
        }
    }
    the_last_part_follows_the_last_slash(dir, name);
    assert(path.skip(dir.len() as int) =~= name);
    assert(path.take(dir.len() as int) =~= dir);
    assert(name.last() != '.');
    assert(names_file(name));
    assert forall|i: int| stem.len() < i < name.len() implies #[trigger] name[i] != '.' by {
        assert(name[i] == old[i - stem.len() - 1]);
    }
    a_stem_ends_at_the_last_dot(name, stem.len() as int, name.len() as int);
    assert(name.take(stem.len() as int) =~= stem);

    let bare = dir + stem;
    assert(bare.last() == stem[stem.len() - 1]);
    assert(cut(bare) == bare);
    the_last_part_follows_the_last_slash(dir, stem);
    assert(bare.skip(dir.len() as int) =~= stem);
    assert(bare.take(dir.len() as int) =~= dir);
    assert(stem.last() != '.');
    assert(names_file(stem));
    a_name_without_a_dot_is_all_stem(stem, stem.len() as int);
    assert(stem.take(stem.len() as int) =~= stem);
}

// ---- Texts ----

/// The space around a text is trimmed, and nothing of the text.
pub proof fn space_is_trimmed(s: Seq<char>)
    requires
        s.len() > 0,
        !is_space(s[0]),
        !is_space(s.last()),
    ensures
        trimmed(s) == s,
        trimmed(seq![' '] + s) == s,
        trimmed(s + seq![' ']) == s,
        trimmed(seq![' '] + s + seq![' ']) == s,
{
    let left = seq![' '] + s;
    let right = s + seq![' '];
    let both = seq![' '] + s + seq![' '];
    reveal_with_fuel(spaceless_start, 2);
    reveal_with_fuel(spaceless_end, 2);
    assert(left[0] == ' ' && left.drop_first() =~= s);
    assert(right.last() == ' ' && right.drop_last() =~= s);
    assert(both[0] == ' ' && both.drop_first() =~= right);
    assert(right[0] == s[0]);
    assert(spaceless_start(both) == right);
    assert(spaceless_end(right) == s);
}

/// Lines are joined in order, with the separator between two and none around
/// them.
pub proof fn lines_are_joined_in_order(lines: Seq<Seq<char>>, line: Seq<char>, between: Seq<char>)
    ensures
        joined(Seq::empty(), between) == Seq::<char>::empty(),
        joined(seq![line], between) == line,
        lines.len() > 0 ==> joined(lines.push(line), between) == joined(lines, between) + between
            + line,
{
    assert(lines.push(line).drop_last() =~= lines);
    assert(seq![line].drop_last() =~= Seq::<Seq<char>>::empty());
}

/// A number below nothing is written as the number above it, behind a minus.
pub proof fn a_minus_stands_before(n: nat)
    requires
        n > 0,
    ensures
        signed_of(n as int) == decimal_of(n),
        signed_of(-(n as int)) == seq!['-'] + decimal_of(n),
        signed_of(0) == decimal_of(0),
{
    reveal_strlit("-");
    assert("-"@ =~= seq!['-']);
}

/// One letter takes the place of another wherever it stands, and nothing else
/// changes.
pub proof fn a_letter_takes_the_place_of_another(s: Seq<char>, from: char, to: char, i: int)
    requires
        0 <= i < s.len(),
    ensures
        swapped(s, from, to).len() == s.len(),
        s[i] == from ==> swapped(s, from, to)[i] == to,
        s[i] != from ==> swapped(s, from, to)[i] == s[i],
{
}

// ---- Pockets ----

/// Each pocket has its constant, and no two have the same.
pub proof fn each_pocket_has_its_constant(key: Seq<char>)
    ensures
        Pocket::of_constant("POCKET_ITEMS"@) == Some(Pocket::Items),
        Pocket::of_constant("POCKET_KEY_ITEMS"@) == Some(Pocket::KeyItems),
        Pocket::of_constant("POCKET_POKE_BALLS"@) == Some(Pocket::PokeBalls),
        Pocket::of_constant("POCKET_TM_CASE"@) == Some(Pocket::TmCase),
        Pocket::of_constant("POCKET_BERRY_POUCH"@) == Some(Pocket::BerryPouch),
        key != "POCKET_ITEMS"@ && key != "POCKET_KEY_ITEMS"@ && key != "POCKET_POKE_BALLS"@ && key
            != "POCKET_TM_CASE"@ && key != "POCKET_BERRY_POUCH"@ ==> Pocket::of_constant(
            key,
        ) is None,
{
    reveal_strlit("POCKET_ITEMS");
    reveal_strlit("POCKET_KEY_ITEMS");
    reveal_strlit("POCKET_POKE_BALLS");
    reveal_strlit("POCKET_TM_CASE");
    reveal_strlit("POCKET_BERRY_POUCH");
    assert("POCKET_ITEMS"@[7] == 'I');
    assert("POCKET_KEY_ITEMS"@[7] == 'K');
    assert("POCKET_POKE_BALLS"@[7] == 'P');
    assert("POCKET_TM_CASE"@[7] == 'T');
    assert("POCKET_BERRY_POUCH"@[7] == 'B');
}

// ---- Order ----

/// Texts are ordered by the first letter in which they differ, and a text comes
/// before all that go on from it.
pub proof fn texts_are_ordered_by_their_letters(
    start: Seq<char>,
    x: char,
    y: char,
    a: Seq<char>,
    b: Seq<char>,
)
    requires
        (x as u32) < (y as u32),
    ensures
        before(start + seq![x] + a, start + seq![y] + b),
        !before(start + seq![y] + b, start + seq![x] + a),
        before(start, start + seq![x] + a),
        !before(start + seq![x] + a, start),
    decreases start.len(),
{
    let p = start + seq![x] + a;
    let q = start + seq![y] + b;
    if start.len() == 0 {
        assert(p[0] == x);
        assert(q[0] == y);
    } else {
        let rest = start.drop_first();
        assert(p[0] == start[0] && q[0] == start[0]);
        assert(p.drop_first() =~= rest + seq![x] + a);
        assert(q.drop_first() =~= rest + seq![y] + b);
        texts_are_ordered_by_their_letters(rest, x, y, a, b);
    }
}

} // verus!
