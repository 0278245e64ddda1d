//! A simulation of a multi-hop payment-channel network built from
//! Hashed Time-Locked Contracts (HTLC) over a fixed ring of peer nodes.
//!
//! The library holds the verified core: ring-neighbor arithmetic and the
//! link-establishment rules, the per-node ledger, the closed message type,
//! the HTLC protocol state machine, and the per-connection dispatch logic.
//! Byte-stream transport (dialing, listening, line framing, JSON
//! encode/decode) is left to the embedding program, which feeds decoded
//! messages in and carries the returned messages out.

pub mod commitment;
pub mod conn;
pub mod laws;
pub mod message;
pub mod node;
pub mod protocol;
pub mod ring;
pub mod startup;
