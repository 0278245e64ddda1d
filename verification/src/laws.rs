//! The laws the protocol obeys, stated over the specification-level
//! transitions of `protocol` and proved once and for all: conservation of
//! funds over lock and settlement, the exact cost of a missed deadline,
//! commutativity of payment receipt, and the binding of claims to the
//! recorded hash commitment.

use vstd::prelude::*;
use crate::commitment::hash_of;
use crate::message::Message;
use crate::node::Node;
use crate::protocol::{
    claim_relation, claim_step, credit_node, lock_node, no_effects, settle_node, step,
    step_enabled,
};

verus! {

/// The sum of balance plus escrowed deposit over a ring of nodes.
pub open spec fn ring_total(s: Seq<Node>) -> int
    decreases s.len(),
{
    if s.len() == 0 {
        0
    } else {
        ring_total(s.drop_last()) + s.last().total()
    }
}

/// The sum of the spendable balances alone.
pub open spec fn balance_total(s: Seq<Node>) -> int
    decreases s.len(),
{
    if s.len() == 0 {
        0
    } else {
        balance_total(s.drop_last()) + s.last().balance
    }
}

/// Replacing one node changes the two sums by exactly the difference at
/// that node.
pub proof fn lemma_totals_update(s: Seq<Node>, i: int, v: Node)
    requires
        0 <= i < s.len(),
    ensures
        ring_total(s.update(i, v)) == ring_total(s) - s[i].total() + v.total(),
        balance_total(s.update(i, v)) == balance_total(s) - s[i].balance + v.balance,
    decreases s.len(),
{
    if i == s.len() - 1 {
        assert(s.update(i, v).drop_last() =~= s.drop_last());
    } else {
        assert(s.update(i, v).drop_last() =~= s.drop_last().update(i, v));
        lemma_totals_update(s.drop_last(), i, v);
    }
}

/// The funds a message carries: only payments move money between nodes.
pub open spec fn payment_value(m: Option<Message>) -> int {
    match m {
        Some(Message::Payment { amount }) => amount as int,
        _ => 0,
    }
}

/// Conservation, one transition at a time: a node's transition changes the
/// ring's total holdings by exactly the value of the payment it received
/// minus the value of the payments it emitted. Locks shuffle a hop's own
/// funds between balance and escrow; only payments cross the wire.
pub proof fn lemma_step_conserves_total(s: Seq<Node>, i: int, msg: Message, origin: u64, now: u64)
    requires
        0 <= i < s.len(),
        step_enabled(s[i], msg, origin, now),
    ensures
        ({
            let (post, eff) = step(s[i], msg, origin, now);
            ring_total(s.update(i, post)) == ring_total(s) + payment_value(Some(msg))
                - payment_value(eff.to_prev) - payment_value(eff.to_next)
        }),
{
    let (post, eff) = step(s[i], msg, origin, now);
    lemma_totals_update(s, i, post);
}

/// Conservation under a lock: moving an amount from a hop's balance into
/// its escrowed deposit leaves the ring's total holdings unchanged (and
/// lowers the hop's spendable balance by exactly that amount).
pub proof fn lemma_lock_conserves_total(s: Seq<Node>, i: int, h: u64, amount: u64, time_due: u64, now: u64)
    requires
        0 <= i < s.len(),
        amount <= s[i].balance,
        s[i].deposit + amount <= u64::MAX,
        now + time_due <= u64::MAX,
    ensures
        ring_total(s.update(i, lock_node(s[i], h, amount, time_due, now))) == ring_total(s),
        balance_total(s.update(i, lock_node(s[i], h, amount, time_due, now))) == balance_total(s)
            - amount,
{
    lemma_totals_update(s, i, lock_node(s[i], h, amount, time_due, now));
}

/// Conservation under a settlement: a hop releases its deposit and the next
/// hop receives it as a payment; across the two the ring's total holdings
/// are unchanged, and the paid amount has turned from escrow into balance.
pub proof fn lemma_settlement_conserves_total(s: Seq<Node>, i: int, j: int)
    requires
        0 <= i < s.len(),
        0 <= j < s.len(),
        i != j,
        s[j].balance + s[i].deposit <= u64::MAX,
    ensures
        ring_total(s.update(i, settle_node(s[i])).update(j, credit_node(s[j], s[i].deposit)))
            == ring_total(s),
        balance_total(s.update(i, settle_node(s[i])).update(j, credit_node(s[j], s[i].deposit)))
            == balance_total(s) + s[i].deposit,
{
    let s1 = s.update(i, settle_node(s[i]));
    lemma_totals_update(s, i, settle_node(s[i]));
    lemma_totals_update(s1, j, credit_node(s1[j], s[i].deposit));
}

/// The cost of a missed deadline: a claim past the hop's deadline leaves
/// the ring exactly as it was, so against the settled outcome the spendable
/// balances fall short by exactly the stranded deposit — which stays,
/// unusable, in that hop's escrow.
pub proof fn lemma_deadline_miss_strands_deposit(s: Seq<Node>, i: int, j: int, p: u64, origin: u64, now: u64)
    requires
        0 <= i < s.len(),
        0 <= j < s.len(),
        i != j,
        s[j].balance + s[i].deposit <= u64::MAX,
        claim_relation(s[i], origin),
        hash_of(p) == s[i].hash_value,
        // the deadline has elapsed
        s[i].deadline <= now,
    ensures
        // the claim leaves the hop untouched and emits no payment
        claim_step(s[i], p, hash_of(p), origin, now).0 == s[i],
        claim_step(s[i], p, hash_of(p), origin, now).1.to_next is None,
        // so the ring is unchanged, deposit still counted ...
        ring_total(s.update(i, claim_step(s[i], p, hash_of(p), origin, now).0)) == ring_total(s),
        // ... while the settled outcome would have turned it into balance:
        // the miss leaves the spendable total short by exactly the deposit
        balance_total(s.update(i, claim_step(s[i], p, hash_of(p), origin, now).0))
            == balance_total(s.update(i, settle_node(s[i])).update(j, credit_node(s[j], s[i].deposit)))
            - s[i].deposit,
{
    assert(s.update(i, claim_step(s[i], p, hash_of(p), origin, now).0) =~= s);
    lemma_settlement_conserves_total(s, i, j);
}

/// Payment receipt is commutative: two payments credit the same balance in
/// either order of arrival.
pub proof fn lemma_payment_commutes(n: Node, a: u64, b: u64)
    requires
        n.balance + a + b <= u64::MAX,
    ensures
        credit_node(credit_node(n, a), b) == credit_node(credit_node(n, b), a),
{
}

/// A claim is bound to the recorded commitment: it is meaningful only after
/// the matching lock. A lock is the one transition that records a
/// commitment, and a claim whose preimage does not hash to the recorded
/// value changes nothing and emits nothing; after a lock recording `h`, a
/// claim succeeds exactly when its preimage hashes to `h`.
pub proof fn lemma_claim_bound_to_lock(pre: Node, h: u64, amount: u64, time_due: u64, now0: u64, p: u64, origin: u64, now: u64)
    requires
        amount <= pre.balance,
        pre.deposit + amount <= u64::MAX,
        now0 + time_due <= u64::MAX,
    ensures
        // the lock records exactly the commitment it was given
        lock_node(pre, h, amount, time_due, now0).hash_value == h,
        // a mismatched claim at the locked hop is a no-op
        hash_of(p) != h ==> claim_step(lock_node(pre, h, amount, time_due, now0), p, hash_of(p), origin, now)
            == (lock_node(pre, h, amount, time_due, now0), no_effects()),
        // a matching claim from the recorded next neighbor settles or
        // forwards: at any hop but the source it is passed upstream
        hash_of(p) == h && claim_relation(lock_node(pre, h, amount, time_due, now0), origin)
            && pre.index != 0 ==> claim_step(
            lock_node(pre, h, amount, time_due, now0),
            p,
            hash_of(p),
            origin,
            now,
        ).1.to_prev == Some(Message::Claim { pre_image: p }),
{
}

/// Only a lock records a commitment: no transition but the handling of a
/// `HashValue` at the source or of an `Htlc` at an intermediate hop ever
/// changes the hop's recorded hash — so a claim can only ever be measured
/// against what a lock put there.
pub proof fn lemma_only_locks_record_commitments(pre: Node, msg: Message, origin: u64, now: u64)
    ensures
        step(pre, msg, origin, now).0.hash_value != pre.hash_value ==> (msg matches Message::HashValue {
            ..
        } || msg matches Message::Htlc { .. }),
{
}

/// A claim succeeds at a hop exactly when the digest of its preimage equals
/// the hop's recorded commitment: only a matching claim moves the deposit
/// or emits a message, and a matching one is forwarded upstream (at every
/// hop but the source) and settles the deposit when the deadline has not
/// yet elapsed.
pub proof fn lemma_claim_succeeds_iff_hash_matches(pre: Node, p: u64, origin: u64, now: u64)
    requires
        claim_relation(pre, origin),
    ensures
        hash_of(p) != pre.hash_value ==> claim_step(pre, p, hash_of(p), origin, now) == (
            pre,
            no_effects(),
        ),
        hash_of(p) == pre.hash_value ==> {
            let (post, eff) = claim_step(pre, p, hash_of(p), origin, now);
            &&& eff.to_prev == (if pre.index != 0 {
                Some(Message::Claim { pre_image: p })
            } else {
                None::<Message>
            })
            &&& (pre.deadline > now ==> post == settle_node(pre) && eff.to_next == Some(
                Message::Payment { amount: pre.deposit },
            ))
            &&& (pre.deadline <= now ==> post == pre && eff.to_next is None)
        },
{
}

} // verus!
