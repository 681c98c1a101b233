//! Traversal of the runtime's linked collections.
//!
//! The runtime keeps its targets, and each target's transports and
//! subsystems, in linked sequences that can only be walked: it tells the
//! first handle of a sequence and the handle that follows a given one, and
//! answers with the null handle at the end. A cursor holds the handle to
//! yield next. Each step captures that handle, moves the cursor to the
//! handle that follows it, and yields what it captured.

use vstd::prelude::*;

verus! {

/// One step of a cursor: the cursor after the step, and the handle yielded.
/// `following` is the runtime's answer for the handle after `cursor`; an
/// exhausted cursor ignores it and stays exhausted.
pub open spec fn advance(cursor: usize, following: usize) -> (usize, Option<usize>) {
    if cursor == 0 {
        (0, None)
    } else {
        (following, Some(cursor))
    }
}

/// Whether `links` can be the content of a linked sequence: no null handle,
/// and no handle twice.
pub open spec fn well_linked(links: Seq<usize>) -> bool {
    &&& forall|i: int| 0 <= i < links.len() ==> #[trigger] links[i] != 0
    &&& forall|i: int, j: int|
        0 <= i < links.len() && 0 <= j < links.len() && i != j ==> links[i] != links[j]
}

/// The runtime's answer for the first handle of `links`.
pub open spec fn head(links: Seq<usize>) -> usize {
    if links.len() == 0 {
        0
    } else {
        links[0]
    }
}

/// Where `handle` stands in `links`.
pub open spec fn position(links: Seq<usize>, handle: usize) -> int {
    choose|i: int| 0 <= i < links.len() && links[i] == handle
}

/// The runtime's answer for the handle that follows `handle` in `links`.
pub open spec fn successor(links: Seq<usize>, handle: usize) -> usize {
    let next = position(links, handle) + 1;
    if 0 < next < links.len() {
        links[next]
    } else {
        0
    }
}

/// The handles that a cursor yields in up to `steps` steps over `links`,
/// and the cursor that is left.
pub open spec fn walk(links: Seq<usize>, cursor: usize, steps: nat) -> (Seq<usize>, usize)
    decreases steps,
{
    if steps == 0 {
        (Seq::empty(), cursor)
    } else {
        match advance(cursor, successor(links, cursor)) {
            (next, Some(handle)) => {
                let (rest, last) = walk(links, next, (steps - 1) as nat);
                (seq![handle] + rest, last)
            },
            (next, None) => (Seq::empty(), next),
        }
    }
}

/// In a well-linked sequence every handle is found where it stands.
pub proof fn lemma_position(links: Seq<usize>, i: int)
    requires
        well_linked(links),
        0 <= i < links.len(),
    ensures
        position(links, links[i]) == i,
        successor(links, links[i]) == if i + 1 < links.len() {
            links[i + 1]
        } else {
            0
        },
{
}

/// A cursor that stands at index `i` of a well-linked sequence yields the
/// rest of the sequence in order and is exhausted after it.
proof fn lemma_walk_from(links: Seq<usize>, i: int, steps: nat)
    requires
        well_linked(links),
        0 <= i <= links.len(),
        steps >= links.len() - i,
    ensures
        walk(links, if i < links.len() { links[i] } else { 0 }, steps)
            == (links.subrange(i, links.len() as int), 0usize),
    decreases links.len() - i,
{
    let cursor: usize = if i < links.len() { links[i] } else { 0 };
    if i < links.len() {
        lemma_position(links, i);
        lemma_walk_from(links, i + 1, (steps - 1) as nat);
        let next: usize = if i + 1 < links.len() { links[i + 1] } else { 0 };
        assert(advance(cursor, successor(links, cursor)) == (next, Some(cursor)));
        assert(seq![cursor] + links.subrange(i + 1, links.len() as int)
            =~= links.subrange(i, links.len() as int));
    } else {
        assert(links.subrange(i, links.len() as int) =~= Seq::<usize>::empty());
    }
}

/// A fresh cursor over an empty sequence is exhausted at once. A fresh
/// cursor over a well-linked sequence of any length yields exactly its
/// handles, in the order in which they are linked, and is exhausted after
/// the last one; further steps yield nothing. Every fresh cursor does the
/// same, whatever was walked before.
pub proof fn lemma_walk_yields_links(links: Seq<usize>, steps: nat)
    requires
        well_linked(links),
        steps >= links.len(),
    ensures
        walk(links, head(links), steps) == (links, 0usize),
        links.len() == 0 ==> advance(head(links), 0).1 is None,
        forall|following: usize| advance(0, following) == (0usize, None::<usize>),
{
    lemma_walk_from(links, 0, steps);
    assert(links.subrange(0, links.len() as int) =~= links);
}

} // verus!
