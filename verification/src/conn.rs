//! Per-connection dispatch: the state one connection worker keeps, and the
//! handling of one decoded line against the shared node ledger.
//!
//! The first message on a link is always an introduction; its declared index
//! becomes the link's peer identity. A malformed line is a no-op: mid-stream
//! it is simply ignored, but as the very first line it consumes the
//! introduction slot and leaves the peer identity uncaptured, after which
//! later messages on that link have no origin and are dropped.

use vstd::prelude::*;
use crate::message::{DialRequest, Effects, Message};
use crate::node::Node;
use crate::protocol::{handle_introduction, handle_msg, step, step_enabled};

verus! {

/// What one connection worker remembers between lines.
#[derive(Clone, Copy, PartialEq, Eq, Debug)]
pub struct ConnectionState {
    /// Whether the first line has arrived (well formed or not).
    pub got_first: bool,
    /// The peer index captured from the introduction, if any was captured.
    pub peer: Option<u64>,
}

impl ConnectionState {
    /// A peer identity is only ever captured from a received line.
    pub open spec fn inv(self) -> bool {
        self.peer is Some ==> self.got_first
    }

    /// The state of a fresh connection: nothing received, no peer captured.
    pub fn new() -> (c: Self)
        ensures
            !c.got_first,
            c.peer is None,
            c.inv(),
    {
        Self { got_first: false, peer: None }
    }
}

/// What handling one line asks of the caller: messages to send and,
/// possibly, a peer to dial back.
#[derive(Clone, Copy, PartialEq, Eq, Debug)]
pub struct LineEffects {
    pub effects: Effects,
    pub dial: Option<DialRequest>,
}

/// Handle one decoded line (`None` for a malformed one) arriving on a
/// connection in state `conn` against the node ledger, at time `now`.
pub fn handle_line(node: &mut Node, conn: &mut ConnectionState, decoded: Option<Message>, now: u64) -> (out:
    LineEffects)
    requires
        old(conn).inv(),
        // the first well-formed message on a link is always an introduction
        !old(conn).got_first && decoded is Some ==> decoded matches Some(
            Message::Introduction { .. },
        ),
        // a dispatched message meets the machine limits and finds its links
        (match (old(conn).got_first, old(conn).peer, decoded) {
            (true, Some(origin), Some(msg)) => step_enabled(*old(node), msg, origin, now),
            _ => true,
        }),
    ensures
        final(conn).inv(),
        (match decoded {
            // a malformed line never touches the ledger; as the first line
            // it consumes the introduction slot without capturing a peer
            None => *final(node) == *old(node) && out.effects.is_empty() && out.dial is None && (
            if old(conn).got_first {
                *final(conn) == *old(conn)
            } else {
                final(conn).got_first && final(conn).peer is None
            }),
            Some(msg) => if !old(conn).got_first {
                // introduction: capture the peer, dial back a higher index
                &&& *final(node) == *old(node)
                &&& out.effects.is_empty()
                &&& final(conn).got_first
                &&& (match msg {
                    Message::Introduction { port, index } => final(conn).peer == Some(index)
                        && out.dial == (if index > old(node).index {
                        Some(DialRequest { port, index })
                    } else {
                        None
                    }),
                    _ => false,
                })
            } else {
                &&& *final(conn) == *old(conn)
                &&& out.dial is None
                &&& (match old(conn).peer {
                    // a captured origin: one protocol transition
                    Some(origin) => (*final(node), out.effects) == step(
                        *old(node),
                        msg,
                        origin,
                        now,
                    ),
                    // no captured origin: the line is dropped
                    None => *final(node) == *old(node) && out.effects.is_empty(),
                })
            },
        }),
{
    match decoded {
        None => {
            if !conn.got_first {
                conn.got_first = true;
            }
            LineEffects { effects: Effects { to_prev: None, to_next: None }, dial: None }
        },
        Some(msg) => {
            if !conn.got_first {
                conn.got_first = true;
                match msg {
                    Message::Introduction { port, index } => {
                        let (captured, dial) = handle_introduction(node, port, index);
                        conn.peer = Some(captured);
                        LineEffects {
                            effects: Effects { to_prev: None, to_next: None },
                            dial,
                        }
                    },
                    _ => LineEffects {
                        effects: Effects { to_prev: None, to_next: None },
                        dial: None,
                    },
                }
            } else {
                match conn.peer {
                    Some(origin) => {
                        let effects = handle_msg(node, msg, origin, now);
                        LineEffects { effects, dial: None }
                    },
                    None => LineEffects {
                        effects: Effects { to_prev: None, to_next: None },
                        dial: None,
                    },
                }
            }
        },
    }
}

} // verus!
