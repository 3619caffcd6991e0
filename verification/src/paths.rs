//! Paths as texts, with `/` between their parts.

use vstd::prelude::*;
use vstd::string::StrSliceExecFns;

use crate::text::{cat, cat3, chars};

verus! {

/// A path without the separators, and the parts that stand for the same place,
/// at its end.
pub open spec fn cut(path: Seq<char>) -> Seq<char>
    decreases path.len(),
{
    if path.len() > 1 && (path.last() == '/' || (path.last() == '.' && path[path.len() - 2]
        == '/')) {
        cut(path.drop_last())
    } else {
        path
    }
}

/// Where the last part of a path begins.
pub open spec fn last_part(path: Seq<char>) -> int
    decreases path.len(),
{
    if path.len() == 0 || path.last() == '/' {
        path.len() as int
    } else {
        last_part(path.drop_last())
    }
}

/// The last part names a file: it is neither missing nor a step in place or up.
pub open spec fn names_file(part: Seq<char>) -> bool {
    part.len() > 0 && part != seq!['.'] && part != seq!['.', '.']
}

/// A name below a path.
pub open spec fn below(path: Seq<char>, name: Seq<char>) -> Seq<char> {
    if path.len() == 0 || path.last() == '/' {
        path + name
    } else {
        path + seq!['/'] + name
    }
}

/// The path with another file name; below the path where it names no file.
pub open spec fn renamed(path: Seq<char>, name: Seq<char>) -> Seq<char> {
    let whole = cut(path);
    let at = last_part(whole);
    if names_file(whole.skip(at)) {
        below(cut(whole.take(at)), name)
    } else {
        below(path, name)
    }
}

/// Where the last `.` of a name is, from 1 on; the name's length where there is
/// none.
pub open spec fn stem_end(name: Seq<char>, n: int) -> int
    decreases n,
{
    if n <= 1 {
        name.len() as int
    } else if name[n - 1] == '.' {
        n - 1
    } else {
        stem_end(name, n - 1)
    }
}

/// The path with another extension; unchanged where it names no file.
pub open spec fn extended_by(path: Seq<char>, extension: Seq<char>) -> Seq<char> {
    let whole = cut(path);
    let at = last_part(whole);
    let name = whole.skip(at);
    if names_file(name) {
        whole.take(at) + name.take(stem_end(name, name.len() as int)) + seq!['.'] + extension
    } else {
        path
    }
}

/// The length of the path once cut, of its first `n` characters.
fn cut_length(path: &Vec<char>, n: usize) -> (k: usize)
    requires
        n <= path@.len(),
    ensures
        k <= n,
        cut(path@.take(n as int)) == path@.take(k as int),
{
    let mut k: usize = n;
    while k > 1 && (path[k - 1] == '/' || (path[k - 1] == '.' && path[k - 2] == '/'))
        invariant
            k <= n <= path@.len(),
            cut(path@.take(n as int)) == cut(path@.take(k as int)),
        decreases k,
    {
        assert(path@.take(k as int).drop_last() =~= path@.take(k - 1));
        k -= 1;
    }
    k
}

fn find_last_part(path: &Vec<char>, n: usize) -> (k: usize)
    requires
        n <= path@.len(),
    ensures
        k == last_part(path@.take(n as int)),
        k <= n,
{
    let mut k: usize = n;
    while k > 0 && path[k - 1] != '/'
        invariant
            k <= n <= path@.len(),
            last_part(path@.take(n as int)) == last_part(path@.take(k as int)),
        decreases k,
    {
        assert(path@.take(k as int).drop_last() =~= path@.take(k - 1));
        k -= 1;
    }
    k
}

/// Whether the part from `at` to `n` names a file.
fn is_file(path: &Vec<char>, at: usize, n: usize) -> (r: bool)
    requires
        at <= n <= path@.len(),
    ensures
        r == names_file(path@.take(n as int).skip(at as int)),
{
    let len: usize = n - at;
    let ghost part = path@.take(n as int).skip(at as int);
    proof {
        if len == 1 {
            assert(part =~= seq![part[0]]);
            assert(part[0] == path@[at as int]);
        }
        if len == 2 {
            assert(part =~= seq![part[0], part[1]]);
            assert(part[0] == path@[at as int]);
            assert(part[1] == path@[at + 1]);
        }
    }
    if len == 0 {
        return false;
    }
    if len == 1 {
        return path[at] != '.';
    }
    if len == 2 && path[at] == '.' && path[at + 1] == '.' {
        assert(part =~= seq!['.', '.']);
        return false;
    }
    true
}

fn put_below(path: &str, name: &str) -> (s: String)
    ensures
        s@ == below(path@, name@),
{
    let n: usize = path.unicode_len();
    if n == 0 || path.get_char(n - 1) == '/' {
        return cat(path, name);
    }
    proof {
        reveal_strlit("/");
        assert("/"@ =~= seq!['/']);
    }
    cat3(path, "/", name)
}

/// The path with another file name: `roms/progress.json` and `state.json` give
/// `roms/state.json`. A path that names no file gets the name below it.
pub fn with_file_name(path: &str, name: &str) -> (s: String)
    ensures
        s@ == renamed(path@, name@),
{
    let letters = chars(path);
    let all: usize = letters.len();
    proof {
        assert(letters@.take(all as int) =~= path@);
    }
    let n = cut_length(&letters, all);
    let at = find_last_part(&letters, n);
    if !is_file(&letters, at, n) {
        return put_below(path, name);
    }
    let k = cut_length(&letters, at);
    proof {
        let whole = letters@.take(n as int);
        assert(whole.take(at as int) =~= letters@.take(at as int));
        assert(path@.subrange(0, k as int) =~= letters@.take(k as int));
    }
    put_below(path.substring_char(0, k), name)
}

fn find_stem_end(path: &Vec<char>, at: usize, n: usize) -> (k: usize)
    requires
        at <= n <= path@.len(),
    ensures
        ({
            let name = path@.take(n as int).skip(at as int);
            k == at + stem_end(name, name.len() as int)
        }),
        at <= k <= n,
{
    let ghost name = path@.take(n as int).skip(at as int);
    let mut k: usize = n;
    while k > at && k - at > 1
        invariant
            at <= k <= n <= path@.len(),
            name == path@.take(n as int).skip(at as int),
            stem_end(name, name.len() as int) == stem_end(name, k - at),
        decreases k,
    {
        assert(name[k - at - 1] == path@[k - 1]);
        if path[k - 1] == '.' {
            return k - 1;
        }
        k -= 1;
    }
    n
}

/// The path with another extension: `roms/Game.sav` and `pokebot.json` give
/// `roms/Game.pokebot.json`. A path that names no file stays as it is.
pub fn with_extension(path: &str, extension: &str) -> (s: String)
    ensures
        s@ == extended_by(path@, extension@),
{
    let letters = chars(path);
    let all: usize = letters.len();
    proof {
        assert(letters@.take(all as int) =~= path@);
    }
    let n = cut_length(&letters, all);
    let at = find_last_part(&letters, n);
    if !is_file(&letters, at, n) {
        return path.to_owned();
    }
    let k = find_stem_end(&letters, at, n);
    proof {
        reveal_strlit(".");
        assert("."@ =~= seq!['.']);
        let whole = letters@.take(n as int);
        let name = whole.skip(at as int);
        assert(path@.subrange(0, k as int) =~= whole.take(at as int) + name.take(k - at));
    }
    cat3(path.substring_char(0, k), ".", extension)
}

/// Another file name keeps the directory: the file's name alone is replaced.
pub proof fn another_name_stays_beside(dir: Seq<char>, file: Seq<char>, name: Seq<char>)
    requires
        dir.len() > 0,
        cut(dir) == dir,
        dir.last() != '/',
        names_file(file),
        forall|i: int| 0 <= i < file.len() ==> file[i] != '/',
    ensures
        renamed(dir + seq!['/'] + file, name) == dir + seq!['/'] + name,
{
    let front = dir + seq!['/'];
    let path = front + file;
    assert(path.last() == file.last());
    if path.last() == '.' && path[path.len() - 2] == '/' {
        assert(file.len() == 1) by {
            if file.len() > 1 {
                assert(path[path.len() - 2] == file[file.len() - 2]);
            }
        }
        assert(file =~= seq!['.']);
    }
    assert(cut(path) == path);
    last_part_after(front, file);
    assert(path.skip(front.len() as int) =~= file);
    assert(path.take(front.len() as int) =~= front);
    assert(front.drop_last() =~= dir);
}

proof fn last_part_after(front: Seq<char>, file: Seq<char>)
    requires
        front.len() > 0,
        front.last() == '/',
        forall|i: int| 0 <= i < file.len() ==> file[i] != '/',
    ensures
        last_part(front + file) == front.len(),
    decreases file.len(),
{
    if file.len() == 0 {
        assert(front + file =~= front);
    } else {
        assert((front + file).drop_last() =~= front + file.drop_last());
        assert((front + file).last() == file.last());
        assert(file.last() == file[file.len() - 1]);
        last_part_after(front, file.drop_last());
    }
}

} // verus!
