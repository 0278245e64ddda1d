use htlc_ring::commitment::hash;
use htlc_ring::message::{Effects, Message};
use htlc_ring::node::Node;
use htlc_ring::protocol::{
    claim, handle_claim, handle_htlc, handle_msg, handle_payment, htlc, introduce, pay_deposit,
    send_hash_value, LOCK_AMOUNT, LOCK_TTL,
};

#[test]
fn hash_is_a_function_of_the_preimage() {
    assert_eq!(hash(5), hash(5));
    // the digest is a real digest, not the preimage handed back
    assert_ne!(hash(5), 5);
    assert_ne!(hash(5), hash(6));
}

#[test]
fn introduce_names_own_port_and_index() {
    let node = Node::new(2, 9002);
    assert_eq!(introduce(&node), Message::Introduction { port: 9002, index: 2 });
}

#[test]
fn claim_carries_the_preimage() {
    assert_eq!(claim(77), Message::Claim { pre_image: 77 });
}

#[test]
fn send_hash_value_commits_to_the_stored_secret() {
    let mut node = Node::new(3, 9003);
    node.has_next = true;
    let msg = send_hash_value(&mut node);
    assert_eq!(msg, Message::HashValue { hash_value: hash(node.pre_image) });
    assert_eq!(node.balance, 10);
    assert_eq!(node.deposit, 0);
}

#[test]
fn lock_moves_balance_to_deposit() {
    let mut node = Node::new(1, 9001);
    node.has_next = true;
    let fwd = htlc(&mut node, 1234, 2, 4, 100);
    assert_eq!(node.balance, 8);
    assert_eq!(node.deposit, 2);
    assert_eq!(node.hash_value, 1234);
    assert_eq!(node.deadline, 104);
    assert_eq!(fwd, Some(Message::Htlc { hash_value: 1234, amount: 2, time_due: 4 }));
}

#[test]
fn destination_never_locks() {
    let mut node = Node::new(3, 9003);
    let before = node;
    let fwd = htlc(&mut node, 1234, 2, 4, 100);
    assert_eq!(node, before);
    assert_eq!(fwd, None);
}

#[test]
fn htlc_from_prev_is_relocked_with_decremented_ttl() {
    let mut node = Node::new(2, 9002);
    node.has_next = true;
    let eff = handle_htlc(&mut node, 55, 1, 4, 1, 100);
    assert_eq!(node.balance, 9);
    assert_eq!(node.deposit, 1);
    assert_eq!(node.deadline, 103);
    assert_eq!(eff.to_prev, None);
    assert_eq!(eff.to_next, Some(Message::Htlc { hash_value: 55, amount: 1, time_due: 3 }));
}

#[test]
fn htlc_from_wrong_origin_is_ignored() {
    let mut node = Node::new(2, 9002);
    node.has_next = true;
    let before = node;
    let eff = handle_htlc(&mut node, 55, 1, 4, 0, 100);
    assert_eq!(node, before);
    assert_eq!(eff, Effects { to_prev: None, to_next: None });
}

#[test]
fn destination_reveals_preimage_on_final_hop() {
    let mut node = Node::new(3, 9003);
    node.pre_image = 4242;
    node.has_prev = true;
    let eff = handle_htlc(&mut node, 55, 1, 3, 2, 100);
    assert_eq!(eff.to_prev, Some(Message::Claim { pre_image: 4242 }));
    assert_eq!(eff.to_next, None);
    assert_eq!(node.balance, 10);
    assert_eq!(node.deposit, 0);
}

#[test]
fn matching_claim_before_deadline_settles_and_forwards() {
    let mut node = Node::new(1, 9001);
    node.has_prev = true;
    node.has_next = true;
    node.deposit = 1;
    node.balance = 9;
    node.hash_value = hash(4242);
    node.deadline = 105;
    let eff = handle_claim(&mut node, 4242, 2, 100);
    assert_eq!(eff.to_prev, Some(Message::Claim { pre_image: 4242 }));
    assert_eq!(eff.to_next, Some(Message::Payment { amount: 1 }));
    assert_eq!(node.deposit, 0);
    assert_eq!(node.balance, 9);
}

#[test]
fn mismatched_claim_changes_nothing() {
    let mut node = Node::new(1, 9001);
    node.has_prev = true;
    node.has_next = true;
    node.deposit = 1;
    node.hash_value = hash(4242);
    node.deadline = 105;
    assert_ne!(hash(4243), hash(4242));
    let before = node;
    let eff = handle_claim(&mut node, 4243, 2, 100);
    assert_eq!(node, before);
    assert_eq!(eff, Effects { to_prev: None, to_next: None });
}

#[test]
fn claim_from_wrong_origin_is_ignored() {
    let mut node = Node::new(1, 9001);
    node.has_prev = true;
    node.has_next = true;
    node.hash_value = hash(4242);
    let before = node;
    let eff = handle_claim(&mut node, 4242, 3, 100);
    assert_eq!(node, before);
    assert_eq!(eff, Effects { to_prev: None, to_next: None });
}

#[test]
fn source_settles_but_does_not_forward_the_claim() {
    let mut node = Node::new(0, 9000);
    node.has_prev = true;
    node.has_next = true;
    node.deposit = 1;
    node.balance = 9;
    node.hash_value = hash(4242);
    node.deadline = 105;
    let eff = handle_claim(&mut node, 4242, 1, 100);
    assert_eq!(eff.to_prev, None);
    assert_eq!(eff.to_next, Some(Message::Payment { amount: 1 }));
    assert_eq!(node.deposit, 0);
}

#[test]
fn claim_past_deadline_forwards_but_strands_the_deposit() {
    // an intermediate hop whose deadline has elapsed: the preimage still
    // travels upstream, no payment is emitted, the deposit stays locked
    let mut node = Node::new(2, 9002);
    node.has_prev = true;
    node.has_next = true;
    node.deposit = 1;
    node.balance = 9;
    node.hash_value = hash(4242);
    node.deadline = 100;
    let eff = handle_claim(&mut node, 4242, 3, 100);
    assert_eq!(eff.to_prev, Some(Message::Claim { pre_image: 4242 }));
    assert_eq!(eff.to_next, None);
    assert_eq!(node.deposit, 1);
    assert_eq!(node.balance, 9);
}

#[test]
fn pay_deposit_releases_the_escrow() {
    let mut node = Node::new(1, 9001);
    node.has_next = true;
    node.deposit = 3;
    node.balance = 7;
    let msg = pay_deposit(&mut node);
    assert_eq!(msg, Message::Payment { amount: 3 });
    assert_eq!(node.deposit, 0);
    assert_eq!(node.balance, 7);
}

#[test]
fn payment_is_credited_unconditionally() {
    let mut node = Node::new(2, 9002);
    handle_payment(&mut node, 5);
    assert_eq!(node.balance, 15);
    assert_eq!(node.deposit, 0);
}

#[test]
fn payment_receipt_is_commutative() {
    let mut first = Node::new(2, 9002);
    handle_payment(&mut first, 5);
    handle_payment(&mut first, 7);
    let mut second = Node::new(2, 9002);
    handle_payment(&mut second, 7);
    handle_payment(&mut second, 5);
    assert_eq!(first, second);
    assert_eq!(first.balance, 22);
}

#[test]
fn source_locks_on_commitment_from_destination() {
    let mut node = Node::new(0, 9000);
    node.has_next = true;
    let eff = handle_msg(&mut node, Message::HashValue { hash_value: 99 }, 3, 100);
    assert_eq!(node.balance, 10 - LOCK_AMOUNT);
    assert_eq!(node.deposit, LOCK_AMOUNT);
    assert_eq!(node.hash_value, 99);
    assert_eq!(node.deadline, 100 + LOCK_TTL);
    assert_eq!(
        eff.to_next,
        Some(Message::Htlc { hash_value: 99, amount: LOCK_AMOUNT, time_due: LOCK_TTL })
    );
    assert_eq!(eff.to_prev, None);
}

#[test]
fn commitment_from_other_peer_is_ignored() {
    let mut node = Node::new(1, 9001);
    node.has_next = true;
    let before = node;
    let eff = handle_msg(&mut node, Message::HashValue { hash_value: 99 }, 0, 100);
    assert_eq!(node, before);
    assert_eq!(eff, Effects { to_prev: None, to_next: None });
}

#[test]
fn stray_introduction_is_ignored_by_dispatch() {
    let mut node = Node::new(1, 9001);
    let before = node;
    let eff = handle_msg(&mut node, Message::Introduction { port: 9000, index: 0 }, 0, 100);
    assert_eq!(node, before);
    assert_eq!(eff, Effects { to_prev: None, to_next: None });
}
