//! The HTLC protocol state machine: hash issuance at the destination,
//! hop-by-hop locking propagating forward from the source, backward claim
//! propagation with preimage reveal, and forward settlement.
//!
//! Every transition is a function from the node's ledger, an incoming
//! message and its origin, and the current time, to the new ledger and the
//! messages to send. `step` is the specification-level transition function;
//! `handle_msg` is the executable one, proved equal to it.

use vstd::prelude::*;
use crate::commitment::{hash, hash_of, random_pre_image};
use crate::message::{DialRequest, Effects, Message};
use crate::node::Node;
use crate::ring::{next_in_ring, next_index, prev_in_ring, prev_index, RING_SIZE};

verus! {

/// The amount the source locks when it initiates a payment.
pub const LOCK_AMOUNT: u64 = 1;

/// The time to live the source gives its lock.
pub const LOCK_TTL: u64 = 5;

/// The ledger after a lock: `amount` moves from balance to escrow, the
/// commitment and an absolute deadline are recorded. Identity, secret and
/// links are untouched.
pub open spec fn lock_node(pre: Node, h: u64, amount: u64, time_due: u64, now: u64) -> Node {
    Node {
        index: pre.index,
        port: pre.port,
        balance: (pre.balance - amount) as u64,
        deposit: (pre.deposit + amount) as u64,
        pre_image: pre.pre_image,
        hash_value: h,
        deadline: (now + time_due) as u64,
        has_prev: pre.has_prev,
        has_next: pre.has_next,
    }
}

/// The ledger after a payment receipt: the carried amount is credited to the
/// balance, unconditionally; nothing else moves.
pub open spec fn credit_node(pre: Node, amount: u64) -> Node {
    Node {
        index: pre.index,
        port: pre.port,
        balance: (pre.balance + amount) as u64,
        deposit: pre.deposit,
        pre_image: pre.pre_image,
        hash_value: pre.hash_value,
        deadline: pre.deadline,
        has_prev: pre.has_prev,
        has_next: pre.has_next,
    }
}

/// The ledger after a settlement: the escrowed deposit is released (it was
/// just sent forward as a payment); nothing else moves.
pub open spec fn settle_node(pre: Node) -> Node {
    Node {
        index: pre.index,
        port: pre.port,
        balance: pre.balance,
        deposit: 0,
        pre_image: pre.pre_image,
        hash_value: pre.hash_value,
        deadline: pre.deadline,
        has_prev: pre.has_prev,
        has_next: pre.has_next,
    }
}

/// The ledger after the destination issues a secret.
pub open spec fn issue_node(pre: Node, p: u64) -> Node {
    Node {
        index: pre.index,
        port: pre.port,
        balance: pre.balance,
        deposit: pre.deposit,
        pre_image: p,
        hash_value: pre.hash_value,
        deadline: pre.deadline,
        has_prev: pre.has_prev,
        has_next: pre.has_next,
    }
}

/// No outbound messages.
pub open spec fn no_effects() -> Effects {
    Effects { to_prev: None, to_next: None }
}

/// An incoming `Htlc` from the recorded previous neighbor of an
/// intermediate hop: the hop re-locks and forwards.
pub open spec fn htlc_forward_relation(pre: Node, origin: u64) -> bool {
    1 <= pre.index < RING_SIZE - 1 && origin == pre.index - 1
}

/// An incoming `Htlc` from node `RING_SIZE - 2` at the destination: the
/// destination reveals its preimage.
pub open spec fn htlc_reveal_relation(pre: Node, origin: u64) -> bool {
    pre.index == RING_SIZE - 1 && origin == RING_SIZE - 2
}

/// An incoming `Claim` from the recorded next neighbor of a hop before the
/// destination: the hop verifies the preimage.
pub open spec fn claim_relation(pre: Node, origin: u64) -> bool {
    pre.index < RING_SIZE - 1 && 1 <= origin && pre.index == origin - 1
}

/// The outcome of a claim carrying preimage `p` whose digest is `hashed`:
/// on a match the claim is forwarded upstream (except at the source), and,
/// when the hop's deadline has not yet elapsed, the deposit is sent forward
/// as a payment and released; past the deadline the deposit stays stranded.
/// On a mismatch, or from any peer but the recorded next neighbor, nothing
/// changes and nothing is sent.
pub open spec fn claim_step(pre: Node, p: u64, hashed: u64, origin: u64, now: u64) -> (Node,
    Effects) {
    if claim_relation(pre, origin) && hashed == pre.hash_value {
        (
            if pre.deadline > now {
                settle_node(pre)
            } else {
                pre
            },
            Effects {
                to_prev: if pre.index != 0 {
                    Some(Message::Claim { pre_image: p })
                } else {
                    None
                },
                to_next: if pre.deadline > now {
                    Some(Message::Payment { amount: pre.deposit })
                } else {
                    None
                },
            },
        )
    } else {
        (pre, no_effects())
    }
}

/// The specification-level transition function: the node's new ledger and
/// the emitted messages, for one incoming message from `origin` at time
/// `now`.
pub open spec fn step(pre: Node, msg: Message, origin: u64, now: u64) -> (Node, Effects) {
    match msg {
        Message::Introduction { .. } => (pre, no_effects()),
        Message::HashValue { hash_value } => if pre.index == 0 && origin == RING_SIZE - 1 {
            (
                lock_node(pre, hash_value, LOCK_AMOUNT, LOCK_TTL, now),
                Effects {
                    to_prev: None,
                    to_next: Some(
                        Message::Htlc { hash_value, amount: LOCK_AMOUNT, time_due: LOCK_TTL },
                    ),
                },
            )
        } else {
            (pre, no_effects())
        },
        Message::Htlc { hash_value, amount, time_due } => if htlc_forward_relation(pre, origin) {
            (
                lock_node(pre, hash_value, amount, (time_due - 1) as u64, now),
                Effects {
                    to_prev: None,
                    to_next: Some(
                        Message::Htlc { hash_value, amount, time_due: (time_due - 1) as u64 },
                    ),
                },
            )
        } else if htlc_reveal_relation(pre, origin) {
            (pre, Effects { to_prev: Some(Message::Claim { pre_image: pre.pre_image }), to_next: None })
        } else {
            (pre, no_effects())
        },
        Message::Claim { pre_image } => claim_step(pre, pre_image, hash_of(pre_image), origin, now),
        Message::Payment { amount } => (credit_node(pre, amount), no_effects()),
    }
}

/// What a transition demands of its inputs: enough balance for a lock, no
/// arithmetic past the machine limits, and the link a resulting send would
/// travel on. A transition whose guard does not fire demands nothing.
pub open spec fn step_enabled(pre: Node, msg: Message, origin: u64, now: u64) -> bool {
    match msg {
        Message::Introduction { .. } => true,
        Message::HashValue { hash_value } => (pre.index == 0 && origin == RING_SIZE - 1) ==> (
        LOCK_AMOUNT <= pre.balance && pre.deposit + LOCK_AMOUNT <= u64::MAX && now + LOCK_TTL
            <= u64::MAX && pre.has_next),
        Message::Htlc { hash_value, amount, time_due } => {
            &&& htlc_forward_relation(pre, origin) ==> (1 <= time_due && amount <= pre.balance
                && pre.deposit + amount <= u64::MAX && now + (time_due - 1) <= u64::MAX
                && pre.has_next)
            &&& htlc_reveal_relation(pre, origin) ==> pre.has_prev
        },
        Message::Claim { pre_image } => claim_relation(pre, origin) ==> ((pre.index != 0
            ==> pre.has_prev) && (pre.deadline > now ==> pre.has_next)),
        Message::Payment { amount } => pre.balance + amount <= u64::MAX,
    }
}

/// The introduction a node sends on a link it has just dialed.
pub fn introduce(node: &Node) -> (m: Message)
    ensures
        m == (Message::Introduction { port: node.port, index: node.index }),
{
    Message::Introduction { port: node.port, index: node.index }
}

/// The claim message revealing a preimage, to be sent backward.
pub fn claim(pre_image: u64) -> (m: Message)
    ensures
        m == (Message::Claim { pre_image }),
{
    Message::Claim { pre_image }
}

/// The destination draws a fresh secret, keeps it, and commits to it: the
/// returned message carries the digest of the stored secret and travels
/// forward.
pub fn send_hash_value(node: &mut Node) -> (m: Message)
    requires
        old(node).has_next,
    ensures
        *final(node) == issue_node(*old(node), final(node).pre_image),
        m == (Message::HashValue { hash_value: hash_of(final(node).pre_image) }),
{
    node.pre_image = random_pre_image();
    let hash_value = hash(node.pre_image);
    Message::HashValue { hash_value }
}

/// Lock a hop: move `amount` from balance to escrow, record the commitment
/// and the deadline `now + time_due`, and forward the lock. The destination
/// (the last ring index) never locks.
pub fn htlc(node: &mut Node, hash_value: u64, amount: u64, time_due: u64, now: u64) -> (fwd: Option<
    Message,
>)
    requires
        old(node).index != RING_SIZE - 1 ==> amount <= old(node).balance && old(node).deposit
            + amount <= u64::MAX && now + time_due <= u64::MAX && old(node).has_next,
    ensures
        old(node).index != RING_SIZE - 1 ==> *final(node) == lock_node(
            *old(node),
            hash_value,
            amount,
            time_due,
            now,
        ) && fwd == Some(Message::Htlc { hash_value, amount, time_due }),
        old(node).index == RING_SIZE - 1 ==> *final(node) == *old(node) && fwd is None,
{
    if node.index != RING_SIZE - 1 {
        node.balance = node.balance - amount;
        node.deposit = node.deposit + amount;
        node.hash_value = hash_value;
        node.deadline = now + time_due;
        Some(Message::Htlc { hash_value, amount, time_due })
    } else {
        None
    }
}

/// Dispatch an incoming `Htlc`: an intermediate hop that receives it from
/// its recorded previous neighbor re-locks with the time to live
/// decremented and forwards; the destination, on receiving it from the
/// penultimate hop, reveals its preimage backward; anything else is ignored.
pub fn handle_htlc(node: &mut Node, hash_value: u64, amount: u64, time_due: u64, origin: u64, now: u64) -> (eff:
    Effects)
    requires
        step_enabled(
            *old(node),
            Message::Htlc { hash_value, amount, time_due },
            origin,
            now,
        ),
    ensures
        (*final(node), eff) == step(
            *old(node),
            Message::Htlc { hash_value, amount, time_due },
            origin,
            now,
        ),
{
    if node.index >= 1 && node.index < RING_SIZE - 1 && origin == node.index - 1 {
        let fwd = htlc(node, hash_value, amount, time_due - 1, now);
        Effects { to_prev: None, to_next: fwd }
    } else if node.index == RING_SIZE - 1 && origin == RING_SIZE - 2 {
        Effects { to_prev: Some(claim(node.pre_image)), to_next: None }
    } else {
        Effects { to_prev: None, to_next: None }
    }
}

/// Release the escrowed deposit and hand it forward as a payment.
pub fn pay_deposit(node: &mut Node) -> (m: Message)
    requires
        old(node).has_next,
    ensures
        *final(node) == settle_node(*old(node)),
        m == (Message::Payment { amount: old(node).deposit }),
{
    let m = Message::Payment { amount: node.deposit };
    node.deposit = 0;
    m
}

/// The decision a hop takes once the digest of a claimed preimage is known:
/// `hashed` must be that digest. On a match the claim is forwarded upstream
/// (except at the source) and, before the deadline, the deposit is paid
/// forward and released; on a mismatch nothing happens.
///
/// The links a matching claim would use are demanded up front, whether or
/// not the digest matches, so that no caller needs to compute the digest to
/// meet the contract.
pub fn apply_claim(node: &mut Node, pre_image: u64, hashed: u64, origin: u64, now: u64) -> (eff:
    Effects)
    requires
        claim_relation(*old(node), origin) ==> ((old(node).index != 0 ==> old(node).has_prev) && (
        old(node).deadline > now ==> old(node).has_next)),
    ensures
        (*final(node), eff) == claim_step(*old(node), pre_image, hashed, origin, now),
{
    if node.index < RING_SIZE - 1 && origin >= 1 && node.index == origin - 1 {
        if hashed == node.hash_value {
            let fwd = if node.index != 0 {
                Some(claim(pre_image))
            } else {
                None
            };
            let pay = if node.deadline > now {
                Some(pay_deposit(node))
            } else {
                None
            };
            Effects { to_prev: fwd, to_next: pay }
        } else {
            Effects { to_prev: None, to_next: None }
        }
    } else {
        Effects { to_prev: None, to_next: None }
    }
}

/// Dispatch an incoming `Claim`: verify that the revealed preimage hashes
/// to the recorded commitment and apply `apply_claim`'s decision.
pub fn handle_claim(node: &mut Node, pre_image: u64, origin: u64, now: u64) -> (eff: Effects)
    requires
        step_enabled(*old(node), Message::Claim { pre_image }, origin, now),
    ensures
        (*final(node), eff) == step(*old(node), Message::Claim { pre_image }, origin, now),
{
    let hashed = hash(pre_image);
    apply_claim(node, pre_image, hashed, origin, now)
}

/// Credit a received payment to the balance, unconditionally: receipts are
/// not correlated with an outstanding lock.
pub fn handle_payment(node: &mut Node, amount: u64)
    requires
        old(node).balance + amount <= u64::MAX,
    ensures
        *final(node) == credit_node(*old(node), amount),
{
    node.balance = node.balance + amount;
}

/// The decision taken on a link's first message: the declared index becomes
/// the link's peer identity, and a peer with a higher index is dialed back
/// to complete the return link.
pub fn handle_introduction(node: &Node, port: u64, index: u64) -> (r: (u64, Option<DialRequest>))
    ensures
        r.0 == index,
        r.1 == if index > node.index {
            Some(DialRequest { port, index })
        } else {
            None
        },
{
    let dial = if index > node.index {
        Some(DialRequest { port, index })
    } else {
        None
    };
    (index, dial)
}

/// Dispatch one well-formed message from the peer at `origin`: the source
/// initiates a lock on the destination's commitment; locks, claims and
/// payments go to their handlers; a stray introduction is ignored.
pub fn handle_msg(node: &mut Node, msg: Message, origin: u64, now: u64) -> (eff: Effects)
    requires
        step_enabled(*old(node), msg, origin, now),
    ensures
        (*final(node), eff) == step(*old(node), msg, origin, now),
{
    match msg {
        Message::HashValue { hash_value } => {
            if node.index == 0 && origin == RING_SIZE - 1 {
                let fwd = htlc(node, hash_value, LOCK_AMOUNT, LOCK_TTL, now);
                Effects { to_prev: None, to_next: fwd }
            } else {
                Effects { to_prev: None, to_next: None }
            }
        },
        Message::Htlc { hash_value, amount, time_due } => handle_htlc(
            node,
            hash_value,
            amount,
            time_due,
            origin,
            now,
        ),
        Message::Claim { pre_image } => handle_claim(node, pre_image, origin, now),
        Message::Payment { amount } => {
            handle_payment(node, amount);
            Effects { to_prev: None, to_next: None }
        },
        Message::Introduction { .. } => Effects { to_prev: None, to_next: None },
    }
}

} // verus!
