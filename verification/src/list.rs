//! Walking a native linked list.
//!
//! A native list is a chain of nodes, each with the address of its
//! successor in `p_next`; the last node's `p_next` is null, and an empty
//! list is the null address. A walk keeps a cursor, the address of the node
//! to read next. It reads a node only while the cursor is not null, and it
//! moves the cursor to the node's `p_next`. The lemmas below show that such
//! a walk visits every node of a list once and then stops.

use vstd::prelude::*;

verus! {

/// True when a list that starts at address `head` has exactly the nodes
/// whose `p_next` fields are `nexts`, in order: no node lies at the null
/// address, and the last node's `p_next` is null.
pub open spec fn is_chain(head: usize, nexts: Seq<usize>) -> bool
    decreases nexts.len(),
{
    if nexts.len() == 0 {
        head == 0
    } else {
        head != 0 && is_chain(nexts[0], nexts.drop_first())
    }
}

/// The cursor after a node with the given `p_next` was offered to a cursor
/// at `cursor`: an exhausted cursor stays exhausted.
pub open spec fn cursor_step(cursor: usize, p_next: usize) -> usize {
    if cursor == 0 {
        0
    } else {
        p_next
    }
}

/// The cursor after nodes with the given `p_next` fields were offered, in
/// order, to a cursor that started at `head`.
pub open spec fn cursor_after(head: usize, nexts: Seq<usize>) -> usize
    decreases nexts.len(),
{
    if nexts.len() == 0 {
        head
    } else {
        cursor_after(cursor_step(head, nexts[0]), nexts.drop_first())
    }
}

/// Number of nodes that a cursor starting at `head` takes when nodes with
/// the given `p_next` fields are offered to it in order.
pub open spec fn taken(head: usize, nexts: Seq<usize>) -> nat
    decreases nexts.len(),
{
    if nexts.len() == 0 || head == 0 {
        0
    } else {
        1 + taken(nexts[0], nexts.drop_first())
    }
}

/// Walking a list of K nodes takes exactly K nodes and then stops: the
/// cursor is at a node before each of them and is null after the last.
/// For K = 0 the cursor is null from the start, so nothing is ever read.
pub proof fn lemma_walk_takes_every_node(head: usize, nexts: Seq<usize>)
    requires
        is_chain(head, nexts),
    ensures
        taken(head, nexts) == nexts.len(),
        cursor_after(head, nexts) == 0,
        forall|k: int| 0 <= k < nexts.len() ==> cursor_after(head, #[trigger] nexts.take(k)) != 0,
        nexts.len() == 0 <==> head == 0,
    decreases nexts.len(),
{
    if nexts.len() > 0 {
        let rest = nexts.drop_first();
        lemma_walk_takes_every_node(nexts[0], rest);
        assert forall|k: int| 0 <= k < nexts.len() implies cursor_after(
            head,
            #[trigger] nexts.take(k),
        ) != 0 by {
            if k > 0 {
                assert(nexts.take(k).drop_first() == rest.take(k - 1));
                assert(nexts.take(k)[0] == nexts[0]);
            }
        }
    }
}

/// A walk never goes on past the end of a list: once the cursor is null,
/// whatever is offered to it is ignored.
pub proof fn lemma_walk_stops(nexts: Seq<usize>)
    ensures
        taken(0, nexts) == 0,
        cursor_after(0, nexts) == 0,
    decreases nexts.len(),
{
    if nexts.len() > 0 {
        lemma_walk_stops(nexts.drop_first());
    }
}

} // verus!
