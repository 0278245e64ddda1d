//! The per-node ledger: ring identity, balance and escrowed deposit, the
//! recorded hash commitment and deadline, and the presence of the two ring
//! links. Exactly one worker mutates a `Node` at a time; each protocol
//! transition runs to completion against it.

use vstd::prelude::*;
use crate::ring::RING_SIZE;

verus! {

/// The balance every node starts with.
pub const INITIAL_BALANCE: u64 = 10;

/// The exclusive-access state of one ring node.
///
/// The two link fields record whether the node's outbound link to its
/// previous and next neighbor has been established; the byte streams
/// themselves live with the embedding program.
#[derive(Clone, Copy, PartialEq, Eq, Structural, Debug)]
pub struct Node {
    /// Ring index, in `[0, RING_SIZE)`.
    pub index: u64,
    /// The port this node listens on.
    pub port: u64,
    /// Spendable funds.
    pub balance: u64,
    /// Funds escrowed by an outstanding lock.
    pub deposit: u64,
    /// The secret this node issued (meaningful only at the destination).
    pub pre_image: u64,
    /// The hash commitment recorded by the last lock.
    pub hash_value: u64,
    /// The absolute deadline recorded by the last lock.
    pub deadline: u64,
    /// Whether the outbound link to the previous neighbor exists.
    pub has_prev: bool,
    /// Whether the outbound link to the next neighbor exists.
    pub has_next: bool,
}

impl Node {
    /// A node is well formed when its index lies on the ring.
    pub open spec fn wf(self) -> bool {
        self.index < RING_SIZE
    }

    /// The node's total holdings: spendable balance plus escrowed deposit.
    pub open spec fn total(self) -> int {
        self.balance + self.deposit
    }

    /// A fresh node: initial balance, nothing escrowed, no commitment, no
    /// links.
    pub fn new(index: u64, port: u64) -> (n: Self)
        requires
            index < RING_SIZE,
        ensures
            n.wf(),
            n == (Node {
                index,
                port,
                balance: INITIAL_BALANCE,
                deposit: 0,
                pre_image: 0,
                hash_value: 0,
                deadline: 0,
                has_prev: false,
                has_next: false,
            }),
    {
        Self {
            index,
            port,
            balance: INITIAL_BALANCE,
            deposit: 0,
            pre_image: 0,
            hash_value: 0,
            deadline: 0,
            has_prev: false,
            has_next: false,
        }
    }
}

} // verus!
