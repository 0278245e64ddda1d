//! Ring-neighbor arithmetic and the link-establishment (dialing) rules.
//!
//! Nodes are identified by an index in `[0, n)` and sit on a cycle: node `i`
//! is linked to `prev_in_ring(i, n)` and `next_in_ring(i, n)`. At startup a
//! node dials only those neighbors whose index is numerically lower than its
//! own; the neighbor with the higher index dials back when it receives the
//! introduction. `lemma_topology_complete` shows that under these rules every
//! node ends up dialing each of its two neighbors exactly once, and that the
//! two links land in distinct slots (one previous, one next).

use vstd::prelude::*;

verus! {

/// The fixed size of the simulated ring.
pub const RING_SIZE: u64 = 4;

/// The successor of `i` on a ring of `n` nodes.
pub open spec fn next_in_ring(i: int, n: int) -> int {
    if i == n - 1 {
        0
    } else {
        i + 1
    }
}

/// The predecessor of `i` on a ring of `n` nodes.
pub open spec fn prev_in_ring(i: int, n: int) -> int {
    if i == 0 {
        n - 1
    } else {
        i - 1
    }
}

/// `j` is one of the two ring neighbors of `i`.
pub open spec fn is_neighbor(i: int, j: int, n: int) -> bool {
    j == prev_in_ring(i, n) || j == next_in_ring(i, n)
}

/// The startup dialing rule: a node dials exactly those of its neighbors
/// whose index is numerically lower than its own.
pub open spec fn dials_at_startup(i: int, j: int, n: int) -> bool {
    is_neighbor(i, j, n) && j < i
}

/// The reciprocal dialing rule: a node that receives an introduction from a
/// peer with a higher index dials back to complete the return link.
pub open spec fn dials_back(i: int, j: int, n: int) -> bool {
    dials_at_startup(j, i, n) && j > i
}

/// `i` establishes an outbound link to `j`, either at startup or in
/// response to `j`'s introduction.
pub open spec fn establishes_link(i: int, j: int, n: int) -> bool {
    dials_at_startup(i, j, n) || dials_back(i, j, n)
}

/// Which slot a freshly dialed link to `peer` occupies at `own`: the
/// previous slot when `own` succeeds `peer` on the ring, else the next slot
/// when `peer` succeeds `own`, else none (not a neighbor).
pub open spec fn link_is_prev(own: int, peer: int, n: int) -> bool {
    next_in_ring(peer, n) == own
}

pub open spec fn link_is_next(own: int, peer: int, n: int) -> bool {
    next_in_ring(peer, n) != own && next_in_ring(own, n) == peer
}

/// The successor of `index` on the fixed ring of `RING_SIZE` nodes.
pub fn next_index(index: u64) -> (r: u64)
    requires
        index < RING_SIZE,
    ensures
        r == next_in_ring(index as int, RING_SIZE as int),
        r < RING_SIZE,
{
    match index {
        3 => 0,
        _ => index + 1,
    }
}

/// The predecessor of `index` on the fixed ring of `RING_SIZE` nodes.
pub fn prev_index(index: u64) -> (r: u64)
    requires
        index < RING_SIZE,
    ensures
        r == prev_in_ring(index as int, RING_SIZE as int),
        r < RING_SIZE,
{
    match index {
        0 => 3,
        _ => index - 1,
    }
}

/// Topology completeness: on a ring of at least three nodes, every node
/// establishes an outbound link to each of its two neighbors and to nobody
/// else; each of those links is dialed exactly once (either at startup or
/// reciprocally, never both); and the two links occupy distinct slots, so
/// after startup every node holds exactly one previous and one next link.
///
/// On a two-node ring the slot rule cannot tell the two relations apart
/// (the single peer is both predecessor and successor), so the statement is
/// made for rings of three or more nodes.
pub proof fn lemma_topology_complete(i: int, n: int)
    requires
        3 <= n,
        0 <= i < n,
    ensures
        // neighbor arithmetic is involutive: the two directions agree
        next_in_ring(prev_in_ring(i, n), n) == i,
        prev_in_ring(next_in_ring(i, n), n) == i,
        // the two neighbors are distinct nodes, distinct from `i`
        prev_in_ring(i, n) != next_in_ring(i, n),
        prev_in_ring(i, n) != i,
        next_in_ring(i, n) != i,
        // every node links to both of its neighbors ...
        establishes_link(i, prev_in_ring(i, n), n),
        establishes_link(i, next_in_ring(i, n), n),
        // ... and to no other node
        forall|j: int| 0 <= j < n && establishes_link(i, j, n) ==> is_neighbor(i, j, n),
        // each link is dialed exactly once: startup and reciprocal dialing
        // exclude each other
        forall|j: int|
            0 <= j < n && is_neighbor(i, j, n) ==> (dials_at_startup(i, j, n) <==> !dials_back(
                i,
                j,
                n,
            )),
        // the two links land in distinct slots: one previous, one next
        link_is_prev(i, prev_in_ring(i, n), n),
        !link_is_next(i, prev_in_ring(i, n), n),
        link_is_next(i, next_in_ring(i, n), n),
        !link_is_prev(i, next_in_ring(i, n), n),
{
}

} // verus!
