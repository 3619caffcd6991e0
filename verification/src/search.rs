//! Breadth-first search: the order in which it finds things, and why what it
//! finds first is nearest.

use vstd::prelude::*;

use crate::input::Direction;

verus! {

/// How to leave a map toward another.
#[derive(Debug, Clone, Copy, PartialEq, Eq, Structural)]
pub enum Hop {
    Warp(usize),
    Edge(Direction),
}

/// Something found: the first hop on the way there, and how many moves away
/// it is.
pub struct Found<N> {
    pub node: N,
    pub hop: Option<Hop>,
    pub moves: nat,
}

pub open spec fn knows<N>(found: Seq<Found<N>>, node: N) -> bool {
    exists|i: int| 0 <= i < found.len() && (#[trigger] found[i]).node == node
}

/// The first hop is fixed once there is one.
pub open spec fn hop_or(first: Option<Hop>, then_by: Option<Hop>) -> Option<Hop> {
    if first is Some {
        first
    } else {
        then_by
    }
}

/// What is found with the neighbours of `from` looked at in order.
pub open spec fn extended<N>(
    found: Seq<Found<N>>,
    from: Found<N>,
    next: Seq<(N, Option<Hop>)>,
) -> Seq<Found<N>>
    decreases next.len(),
{
    if next.len() == 0 {
        found
    } else {
        let rest = extended(found, from, next.drop_last());
        let last = next.last();
        if knows(rest, last.0) {
            rest
        } else {
            rest.push(
                Found { node: last.0, hop: hop_or(from.hop, last.1), moves: from.moves + 1 },
            )
        }
    }
}

/// What is found, in order, after the first `k` finds were looked around from.
pub open spec fn grown<N>(
    start: N,
    next: spec_fn(N) -> Seq<(N, Option<Hop>)>,
    k: nat,
) -> Seq<Found<N>>
    decreases k,
{
    if k == 0 {
        seq![Found { node: start, hop: None, moves: 0 }]
    } else {
        let before = grown(start, next, (k - 1) as nat);
        if k - 1 < before.len() {
            extended(before, before[k - 1], next(before[k - 1].node))
        } else {
            before
        }
    }
}

/// Find `k` is the first that is a goal.
pub open spec fn stops_at<N>(
    start: N,
    next: spec_fn(N) -> Seq<(N, Option<Hop>)>,
    goal: spec_fn(N) -> bool,
    k: nat,
) -> bool {
    let found = grown(start, next, k);
    &&& k < found.len()
    &&& goal(found[k as int].node)
    &&& forall|j: int| 0 <= j < k ==> !goal((#[trigger] found[j]).node)
}

/// The first hop toward the first goal found (none within the start's map),
/// where there is one.
pub open spec fn searched<N>(
    start: N,
    next: spec_fn(N) -> Seq<(N, Option<Hop>)>,
    goal: spec_fn(N) -> bool,
) -> Option<Option<Hop>> {
    if exists|k: nat| stops_at(start, next, goal, k) {
        let k = choose|k: nat| stops_at(start, next, goal, k);
        Some(grown(start, next, k)[k as int].hop)
    } else {
        None
    }
}

pub open spec fn leads<N>(next: spec_fn(N) -> Seq<(N, Option<Hop>)>, from: N, to: N) -> bool {
    exists|i: int| 0 <= i < next(from).len() && (#[trigger] next(from)[i]).0 == to
}

/// A way: every place on it leads to the one after it.
pub open spec fn way<N>(
    start: N,
    next: spec_fn(N) -> Seq<(N, Option<Hop>)>,
    path: Seq<N>,
    node: N,
) -> bool {
    &&& path.len() > 0
    &&& path[0] == start
    &&& path.last() == node
    &&& forall|i: int| 0 < i < path.len() ==> leads(next, path[i - 1], #[trigger] path[i])
}

/// `node` can be reached in exactly `n` moves.
pub open spec fn reaches<N>(
    start: N,
    next: spec_fn(N) -> Seq<(N, Option<Hop>)>,
    n: nat,
    node: N,
) -> bool {
    exists|path: Seq<N>| path.len() == n + 1 && #[trigger] way(start, next, path, node)
}

/// Looking around keeps what was found, and adds neighbours a move farther.
pub proof fn extending_keeps<N>(
    found: Seq<Found<N>>,
    from: Found<N>,
    next: Seq<(N, Option<Hop>)>,
)
    ensures
        extended(found, from, next).len() >= found.len(),
        forall|i: int|
            0 <= i < found.len() ==> #[trigger] extended(found, from, next)[i] == found[i],
        forall|i: int|
            found.len() <= i < extended(found, from, next).len() ==> {
                &&& (#[trigger] extended(found, from, next)[i]).moves == from.moves + 1
                &&& exists|j: int|
                    0 <= j < next.len() && (#[trigger] next[j]).0 == extended(
                        found,
                        from,
                        next,
                    )[i].node
            },
        forall|j: int|
            0 <= j < next.len() ==> knows(extended(found, from, next), (#[trigger] next[j]).0),
    decreases next.len(),
{
    if next.len() > 0 {
        let rest = extended(found, from, next.drop_last());
        let all = extended(found, from, next);
        extending_keeps(found, from, next.drop_last());
        assert forall|i: int| found.len() <= i < all.len() implies (#[trigger] all[i]).moves
            == from.moves + 1 && exists|j: int|
            0 <= j < next.len() && (#[trigger] next[j]).0 == all[i].node by {
            if i < rest.len() {
                assert(all[i] == rest[i]);
                let j = choose|j: int|
                    0 <= j < next.drop_last().len() && (#[trigger] next.drop_last()[j]).0
                        == rest[i].node;
                assert(next[j].0 == all[i].node);
            } else {
                assert(next[next.len() - 1].0 == all[i].node);
            }
        }
        assert forall|j: int| 0 <= j < next.len() implies knows(all, (#[trigger] next[j]).0) by {
            if j < next.len() - 1 {
                assert(next.drop_last()[j] == next[j]);
                let i = choose|i: int|
                    0 <= i < rest.len() && (#[trigger] rest[i]).node == next[j].0;
                assert(all[i].node == next[j].0);
            } else if knows(rest, next.last().0) {
                let i = choose|i: int|
                    0 <= i < rest.len() && (#[trigger] rest[i]).node == next[j].0;
                assert(all[i].node == next[j].0);
            } else {
                assert(all[all.len() - 1].node == next[j].0);
            }
        }
    }
}

/// What was found stays found, in its place.
pub proof fn finds_stay<N>(
    start: N,
    next: spec_fn(N) -> Seq<(N, Option<Hop>)>,
    a: nat,
    b: nat,
)
    requires
        a <= b,
    ensures
        grown(start, next, a).len() <= grown(start, next, b).len(),
        forall|i: int|
            0 <= i < grown(start, next, a).len() ==> #[trigger] grown(start, next, b)[i] == grown(
                start,
                next,
                a,
            )[i],
    decreases b,
{
    if a < b {
        finds_stay(start, next, a, (b - 1) as nat);
        let before = grown(start, next, (b - 1) as nat);
        if b - 1 < before.len() {
            extending_keeps(before, before[b - 1], next(before[b - 1].node));
        }
    }
}

/// Nothing is found twice.
pub proof fn finds_are_different<N>(
    start: N,
    next: spec_fn(N) -> Seq<(N, Option<Hop>)>,
    k: nat,
)
    ensures
        forall|i: int, j: int|
            0 <= i < j < grown(start, next, k).len() ==> (#[trigger] grown(start, next, k)[i]).node
                != (#[trigger] grown(start, next, k)[j]).node,
    decreases k,
{
    if k > 0 {
        let before = grown(start, next, (k - 1) as nat);
        finds_are_different(start, next, (k - 1) as nat);
        if k - 1 < before.len() {
            extending_never_repeats(before, before[k - 1], next(before[k - 1].node));
        }
    }
}

proof fn extending_never_repeats<N>(
    found: Seq<Found<N>>,
    from: Found<N>,
    next: Seq<(N, Option<Hop>)>,
)
    requires
        forall|i: int, j: int|
            0 <= i < j < found.len() ==> (#[trigger] found[i]).node != (#[trigger] found[j]).node,
    ensures
        forall|i: int, j: int|
            0 <= i < j < extended(found, from, next).len() ==> (#[trigger] extended(
                found,
                from,
                next,
            )[i]).node != (#[trigger] extended(found, from, next)[j]).node,
    decreases next.len(),
{
    if next.len() > 0 {
        extending_never_repeats(found, from, next.drop_last());
        let rest = extended(found, from, next.drop_last());
        let all = extended(found, from, next);
        assert forall|i: int, j: int| 0 <= i < j < all.len() implies (#[trigger] all[i]).node != (
        #[trigger] all[j]).node by {
            assert(all[i] == rest[i]);
            if j < rest.len() {
                assert(all[j] == rest[j]);
            }
        }
    }
}

/// Finds are in the order of how many moves away they are, and when one is
/// looked around from, nothing found is more than a move farther. None is more
/// moves away than finds came before it.
pub proof fn finds_are_in_order<N>(
    start: N,
    next: spec_fn(N) -> Seq<(N, Option<Hop>)>,
    k: nat,
)
    ensures
        ({
            let found = grown(start, next, k);
            &&& found.len() >= 1
            &&& forall|i: int, j: int|
                0 <= i <= j < found.len() ==> (#[trigger] found[i]).moves <= (
                #[trigger] found[j]).moves
            &&& k < found.len() ==> forall|j: int|
                0 <= j < found.len() ==> (#[trigger] found[j]).moves <= found[k as int].moves + 1
            &&& forall|i: int| 0 <= i < found.len() ==> (#[trigger] found[i]).moves <= i
        }),
    decreases k,
{
    if k > 0 {
        finds_are_in_order(start, next, (k - 1) as nat);
        let before = grown(start, next, (k - 1) as nat);
        if k - 1 < before.len() {
            extending_keeps(before, before[k - 1], next(before[k - 1].node));
            let found = grown(start, next, k);
            assert forall|i: int, j: int| 0 <= i <= j < found.len() implies (
            #[trigger] found[i]).moves <= (#[trigger] found[j]).moves by {
                if j < before.len() {
                    assert(found[i] == before[i]);
                    assert(found[j] == before[j]);
                } else if i < before.len() {
                    assert(found[i] == before[i]);
                }
            }
            if k < found.len() {
                assert forall|j: int| 0 <= j < found.len() implies (#[trigger] found[j]).moves
                    <= found[k as int].moves + 1 by {
                    assert(found[k - 1] == before[k - 1]);
                    assert(found[k - 1].moves <= found[k as int].moves);
                    if j < before.len() {
                        assert(found[j] == before[j]);
                    }
                }
            }
            assert forall|i: int| 0 <= i < found.len() implies (#[trigger] found[i]).moves <= i by {
                if i < before.len() {
                    assert(found[i] == before[i]);
                }
            }
        }
    }
}

/// Every find can be reached in as many moves as it says.
pub proof fn finds_can_be_reached<N>(
    start: N,
    next: spec_fn(N) -> Seq<(N, Option<Hop>)>,
    k: nat,
    i: int,
)
    requires
        0 <= i < grown(start, next, k).len(),
    ensures
        reaches(start, next, grown(start, next, k)[i].moves, grown(start, next, k)[i].node),
    decreases k,
{
    if k > 0 {
        let before = grown(start, next, (k - 1) as nat);
        let found = grown(start, next, k);
        if k - 1 < before.len() {
            let from = before[k - 1];
            extending_keeps(before, from, next(from.node));
            if i < before.len() {
                finds_can_be_reached(start, next, (k - 1) as nat, i);
            } else {
                finds_can_be_reached(start, next, (k - 1) as nat, k - 1);
                let j = choose|j: int|
                    0 <= j < next(from.node).len() && (#[trigger] next(from.node)[j]).0
                        == found[i].node;
                assert(leads(next, from.node, found[i].node));
                let path = choose|path: Seq<N>|
                    path.len() == from.moves + 1 && #[trigger] way(start, next, path, from.node);
                let longer = path.push(found[i].node);
                assert(way(start, next, longer, found[i].node)) by {
                    assert forall|j: int| 0 < j < longer.len() implies leads(
                        next,
                        longer[j - 1],
                        #[trigger] longer[j],
                    ) by {
                        if j < path.len() {
                            assert(leads(next, path[j - 1], path[j]));
                        }
                    }
                }
            }
        } else {
            finds_can_be_reached(start, next, (k - 1) as nat, i);
        }
    } else {
        assert(way(start, next, seq![start], start));
    }
}

/// What can be reached is found, and as no more moves away.
pub proof fn what_can_be_reached_is_found<N>(
    start: N,
    next: spec_fn(N) -> Seq<(N, Option<Hop>)>,
    n: nat,
    node: N,
) -> (at: (nat, int))
    requires
        reaches(start, next, n, node),
    ensures
        0 <= at.1 < grown(start, next, at.0).len(),
        grown(start, next, at.0)[at.1].node == node,
        grown(start, next, at.0)[at.1].moves <= n,
    decreases n,
{
    let path = choose|path: Seq<N>|
        path.len() == n + 1 && #[trigger] way(start, next, path, node);
    if n == 0 {
        (0, 0)
    } else {
        let p = path[n - 1];
        assert(way(start, next, path.drop_last(), p)) by {
            let shorter = path.drop_last();
            assert forall|j: int| 0 < j < shorter.len() implies leads(
                next,
                shorter[j - 1],
                #[trigger] shorter[j],
            ) by {
                assert(leads(next, path[j - 1], path[j]));
            }
        }
        assert(leads(next, p, path[n as int]));
        let at = what_can_be_reached_is_found(start, next, (n - 1) as nat, p);
        let i = at.1 as nat;
        // Find `i` is there when it is its turn.
        if at.0 <= i {
            finds_stay(start, next, at.0, i);
        } else {
            stuck_or_there(start, next, at.0, i);
            finds_stay(start, next, i, at.0);
        }
        let before = grown(start, next, i);
        assert(before[i as int] == grown(start, next, at.0)[at.1]);
        let found = grown(start, next, i + 1);
        extending_keeps(before, before[i as int], next(p));
        let j = choose|j: int| 0 <= j < next(p).len() && (#[trigger] next(p)[j]).0 == node;
        assert(knows(found, next(p)[j].0));
        let at_found = choose|m: int| 0 <= m < found.len() && (#[trigger] found[m]).node == node;
        finds_are_in_order(start, next, i);
        if at_found < before.len() {
            assert(found[at_found] == before[at_found]);
        }
        (i + 1, at_found)
    }
}

/// A find that is there later was there when its turn came.
proof fn stuck_or_there<N>(
    start: N,
    next: spec_fn(N) -> Seq<(N, Option<Hop>)>,
    k: nat,
    i: nat,
)
    requires
        i <= k,
        i < grown(start, next, k).len(),
    ensures
        i < grown(start, next, i).len(),
    decreases k,
{
    if i < k {
        if i < grown(start, next, (k - 1) as nat).len() {
            stuck_or_there(start, next, (k - 1) as nat, i);
        } else {
            // Nothing more is found once everything was looked around from.
            assert(grown(start, next, k) == grown(start, next, (k - 1) as nat));
        }
    }
}

/// What is found later is farther than what is being looked around from.
pub proof fn later_finds_are_farther<N>(
    start: N,
    next: spec_fn(N) -> Seq<(N, Option<Hop>)>,
    k: nat,
    later: nat,
    i: int,
)
    requires
        k <= later,
        k < grown(start, next, k).len(),
        grown(start, next, k).len() <= i < grown(start, next, later).len(),
    ensures
        grown(start, next, later)[i].moves > grown(start, next, k)[k as int].moves,
    decreases later,
{
    if k < later {
        let before = grown(start, next, (later - 1) as nat);
        finds_stay(start, next, k, (later - 1) as nat);
        if later - 1 < before.len() {
            extending_keeps(before, before[later - 1], next(before[later - 1].node));
        }
        if i < before.len() {
            later_finds_are_farther(start, next, k, (later - 1) as nat, i);
        } else {
            finds_are_in_order(start, next, (later - 1) as nat);
            assert(before[k as int] == grown(start, next, k)[k as int]);
            assert(before[k as int].moves <= before[later - 1].moves);
        }
    }
}

/// The goal found first is one, can be reached, and no goal is fewer moves
/// away.
pub proof fn the_first_goal_is_nearest<N>(
    start: N,
    next: spec_fn(N) -> Seq<(N, Option<Hop>)>,
    goal: spec_fn(N) -> bool,
    k: nat,
    n: nat,
    other: N,
)
    requires
        stops_at(start, next, goal, k),
        goal(other),
        reaches(start, next, n, other),
    ensures
        grown(start, next, k)[k as int].moves <= n,
        reaches(
            start,
            next,
            grown(start, next, k)[k as int].moves,
            grown(start, next, k)[k as int].node,
        ),
{
    finds_can_be_reached(start, next, k, k as int);
    let at = what_can_be_reached_is_found(start, next, n, other);
    let top: nat = if at.0 < k {
        k
    } else {
        at.0
    };
    finds_stay(start, next, at.0, top);
    finds_stay(start, next, k, top);
    finds_are_in_order(start, next, top);
    let all = grown(start, next, top);
    assert(all[at.1] == grown(start, next, at.0)[at.1]);
    assert(all[k as int] == grown(start, next, k)[k as int]);
    if at.1 < k {
        assert(all[at.1] == grown(start, next, k)[at.1]);
    } else {
        assert(all[k as int].moves <= all[at.1].moves);
    }
}

/// Once everything found was looked around from and none is a goal, no goal
/// can be reached.
pub proof fn nothing_left_means_no_goal<N>(
    start: N,
    next: spec_fn(N) -> Seq<(N, Option<Hop>)>,
    goal: spec_fn(N) -> bool,
    k: nat,
)
    requires
        k >= grown(start, next, k).len(),
        forall|j: int| 0 <= j < grown(start, next, k).len() ==> !goal(
            (#[trigger] grown(start, next, k)[j]).node,
        ),
    ensures
        forall|n: nat, node: N| #[trigger] reaches(start, next, n, node) ==> !goal(node),
        forall|m: nat| !#[trigger] stops_at(start, next, goal, m),
        searched(start, next, goal) is None,
{
    assert forall|n: nat, node: N| #[trigger] reaches(start, next, n, node) implies !goal(
        node,
    ) by {
        let at = what_can_be_reached_is_found(start, next, n, node);
        found_by_then(start, next, k, at.0, at.1);
    }
    assert forall|m: nat| !#[trigger] stops_at(start, next, goal, m) by {
        if stops_at(start, next, goal, m) {
            finds_can_be_reached(start, next, m, m as int);
        }
    }
}

/// Once everything found was looked around from, nothing more is found.
pub proof fn found_by_then<N>(
    start: N,
    next: spec_fn(N) -> Seq<(N, Option<Hop>)>,
    k: nat,
    m: nat,
    i: int,
)
    requires
        k >= grown(start, next, k).len(),
        0 <= i < grown(start, next, m).len(),
    ensures
        i < grown(start, next, k).len(),
        grown(start, next, k)[i] == grown(start, next, m)[i],
    decreases m,
{
    if m <= k {
        finds_stay(start, next, m, k);
    } else {
        finished(start, next, k, m);
    }
}

proof fn finished<N>(
    start: N,
    next: spec_fn(N) -> Seq<(N, Option<Hop>)>,
    k: nat,
    m: nat,
)
    requires
        k >= grown(start, next, k).len(),
        k <= m,
    ensures
        grown(start, next, m) == grown(start, next, k),
    decreases m,
{
    if k < m {
        finished(start, next, k, (m - 1) as nat);
    }
}

/// There is but one first goal.
pub proof fn the_first_goal_is_one<N>(
    start: N,
    next: spec_fn(N) -> Seq<(N, Option<Hop>)>,
    goal: spec_fn(N) -> bool,
    k: nat,
)
    requires
        stops_at(start, next, goal, k),
    ensures
        searched(start, next, goal) == Some(grown(start, next, k)[k as int].hop),
{
    let c = choose|c: nat| stops_at(start, next, goal, c);
    if c < k {
        stuck_or_there(start, next, k, c);
        finds_stay(start, next, c, k);
        assert(grown(start, next, k)[c as int] == grown(start, next, c)[c as int]);
    } else if k < c {
        finds_stay(start, next, k, c);
        assert(grown(start, next, c)[k as int] == grown(start, next, k)[k as int]);
    }
}

} // verus!
