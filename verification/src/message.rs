//! The closed, tagged-variant message type exchanged on ring links, and the
//! small carrier types a protocol transition hands back to the transport
//! layer: which messages to send in which direction, and which peer to dial.

use vstd::prelude::*;

verus! {

/// One protocol message. Every message on a link is one line of text; the
/// transport decodes it into this type (or into nothing, when the line is
/// malformed) before the protocol sees it.
#[derive(Clone, Copy, PartialEq, Eq, Structural, Debug)]
pub enum Message {
    /// First message on every fresh link: the dialer names its own listening
    /// port and ring index.
    Introduction { port: u64, index: u64 },
    /// The destination's hash commitment, sent forward around the ring.
    HashValue { hash_value: u64 },
    /// A hop-by-hop lock: commitment, locked amount, and remaining time to
    /// live.
    Htlc { hash_value: u64, amount: u64, time_due: u64 },
    /// The preimage reveal, propagated backward hop by hop.
    Claim { pre_image: u64 },
    /// A settlement credit, sent forward to reimburse the next hop.
    Payment { amount: u64 },
}

/// A request to dial a peer: its listening port and its ring index.
#[derive(Clone, Copy, PartialEq, Eq, Structural, Debug)]
pub struct DialRequest {
    pub port: u64,
    pub index: u64,
}

/// The outbound messages one protocol transition emits: at most one backward
/// (to the previous neighbor) and at most one forward (to the next).
#[derive(Clone, Copy, PartialEq, Eq, Debug)]
pub struct Effects {
    pub to_prev: Option<Message>,
    pub to_next: Option<Message>,
}

impl Effects {
    /// No outbound message in either direction.
    pub open spec fn is_empty(self) -> bool {
        self.to_prev is None && self.to_next is None
    }
}

} // verus!
