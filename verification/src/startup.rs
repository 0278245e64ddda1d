//! Link establishment: the dial plan a node computes at startup, and the
//! transition taken when an outbound dial succeeds.
//!
//! Neighbor ports are derived by a fixed offset from a shared base port:
//! the node on index `i` listens on `base + i`, so the peer on index `j` is
//! reached at `own_port + j - own_index`.

use vstd::prelude::*;
use crate::commitment::hash_of;
use crate::message::{DialRequest, Message};
use crate::node::Node;
use crate::protocol::{introduce, send_hash_value};
use crate::ring::{
    dials_at_startup, next_in_ring, next_index, prev_in_ring, prev_index, RING_SIZE,
};

verus! {

/// The listening port of the peer on ring index `j`, derived from this
/// node's own port and index.
pub open spec fn peer_port(node: Node, j: int) -> int {
    node.port + j - node.index
}

/// The dial plan of `start`: the previous neighbor, then the next, each
/// only when its index is numerically lower than the node's own.
pub open spec fn startup_dial_plan(node: Node) -> Seq<DialRequest> {
    let i = node.index as int;
    let n = RING_SIZE as int;
    let p = prev_in_ring(i, n);
    let nx = next_in_ring(i, n);
    (if p < i {
        seq![(DialRequest { port: peer_port(node, p) as u64, index: p as u64 })]
    } else {
        Seq::empty()
    }) + (if nx < i {
        seq![(DialRequest { port: peer_port(node, nx) as u64, index: nx as u64 })]
    } else {
        Seq::empty()
    })
}

/// The dialed peer sits just before this node on the ring: the new link is
/// this node's previous link.
pub open spec fn peer_is_prev(node: Node, peer: u64) -> bool {
    next_in_ring(peer as int, RING_SIZE as int) == node.index
}

/// The dialed peer sits just after this node on the ring: the new link is
/// this node's next link.
pub open spec fn peer_is_next(node: Node, peer: u64) -> bool {
    !peer_is_prev(node, peer) && next_in_ring(node.index as int, RING_SIZE as int) == peer
}

/// The introduction `node` sends on a freshly dialed link.
pub open spec fn intro_of(node: Node) -> Message {
    Message::Introduction { port: node.port, index: node.index }
}

/// Identity and funds are untouched: only links and the stored secret may
/// change.
pub open spec fn ledger_kept(pre: Node, post: Node) -> bool {
    &&& post.index == pre.index
    &&& post.port == pre.port
    &&& post.balance == pre.balance
    &&& post.deposit == pre.deposit
    &&& post.hash_value == pre.hash_value
    &&& post.deadline == pre.deadline
}

/// Start a node: compute which neighbors to dial. A node initiates an
/// outbound connection only toward a neighbor whose index is lower than
/// its own; the caller performs the dials, in order, and feeds each
/// successful one to `on_connect`.
pub fn start(node: &Node) -> (dials: Vec<DialRequest>)
    requires
        node.wf(),
        node.index <= node.port,
        node.port + RING_SIZE <= u64::MAX,
    ensures
        dials@ == startup_dial_plan(*node),
        forall|k: int|
            0 <= k < dials@.len() ==> dials_at_startup(
                node.index as int,
                dials@[k].index as int,
                RING_SIZE as int,
            ),
{
    let mut dials: Vec<DialRequest> = Vec::new();
    let p = prev_index(node.index);
    if p < node.index {
        dials.push(DialRequest { port: node.port + p - node.index, index: p });
    }
    let nx = next_index(node.index);
    if nx < node.index {
        dials.push(DialRequest { port: node.port + nx - node.index, index: nx });
    }
    proof {
        assert(dials@ =~= startup_dial_plan(*node));
    }
    dials
}

/// The transition taken when an outbound dial to the peer on index `peer`
/// has succeeded: the new link is recorded in the slot its ring relation
/// selects and an introduction is sent on it; the destination, on forming
/// its next link, additionally issues its secret and sends the commitment.
/// The returned messages travel on the new link, in order. A peer that is
/// no ring neighbor gets no slot and no message.
pub fn on_connect(node: &mut Node, peer: u64) -> (msgs: Vec<Message>)
    requires
        old(node).wf(),
    ensures
        ledger_kept(*old(node), *final(node)),
        // the dialed peer is this node's predecessor: the previous slot
        peer_is_prev(*old(node), peer) ==> {
            &&& final(node).has_prev
            &&& final(node).has_next == old(node).has_next
            &&& final(node).pre_image == old(node).pre_image
            &&& msgs@ =~= seq![intro_of(*old(node))]
        },
        // the dialed peer is this node's successor: the next slot
        peer_is_next(*old(node), peer) ==> {
            &&& final(node).has_next
            &&& final(node).has_prev == old(node).has_prev
            &&& (if old(node).index == RING_SIZE - 1 {
                msgs@ =~= seq![
                    intro_of(*old(node)),
                    (Message::HashValue { hash_value: hash_of(final(node).pre_image) }),
                ]
            } else {
                final(node).pre_image == old(node).pre_image && msgs@ =~= seq![
                    intro_of(*old(node)),
                ]
            })
        },
        // not a neighbor: nothing changes, nothing is sent
        !peer_is_prev(*old(node), peer) && !peer_is_next(*old(node), peer) ==> *final(node)
            == *old(node) && msgs@ =~= Seq::<Message>::empty(),
{
    let mut msgs: Vec<Message> = Vec::new();
    if peer < RING_SIZE && next_index(peer) == node.index {
        node.has_prev = true;
        msgs.push(introduce(node));
    } else if next_index(node.index) == peer {
        node.has_next = true;
        msgs.push(introduce(node));
        if node.index == RING_SIZE - 1 {
            let commit = send_hash_value(node);
            msgs.push(commit);
        }
    }
    msgs
}

} // verus!
