//! A whole-ring run driven through the library's transitions: startup
//! handshake, hash issuance, full forward lock, backward claim, and forward
//! settlement, with every message delivered over a simulated per-edge
//! stream.

use std::collections::HashMap;
use std::collections::VecDeque;

use htlc_ring::conn::{handle_line, ConnectionState};
use htlc_ring::message::Message;
use htlc_ring::node::Node;
use htlc_ring::ring::{next_index, RING_SIZE};
use htlc_ring::startup::{on_connect, start};

const NOW: u64 = 100;

struct Ring {
    nodes: Vec<Node>,
    // one reader state per directed stream (dialer -> receiver)
    conns: HashMap<(u64, u64), ConnectionState>,
    // undelivered lines, in order: (sender, receiver, decoded line)
    pending: VecDeque<(u64, u64, Option<Message>)>,
}

impl Ring {
    fn new() -> Ring {
        let nodes = (0..RING_SIZE).map(|i| Node::new(i, 9000 + i)).collect();
        Ring { nodes: nodes, conns: HashMap::new(), pending: VecDeque::new() }
    }

    fn dial(&mut self, dialer: u64, target: u64) {
        self.conns.insert((dialer, target), ConnectionState::new());
        let msgs = on_connect(&mut self.nodes[dialer as usize], target);
        for m in msgs {
            self.pending.push_back((dialer, target, Some(m)));
        }
    }

    fn startup(&mut self) {
        for i in 0..RING_SIZE {
            let plan = start(&self.nodes[i as usize]);
            for d in plan {
                self.dial(i, d.index);
            }
        }
    }

    /// Deliver pending lines until the ring is quiet.
    fn run(&mut self) {
        while let Some((sender, receiver, line)) = self.pending.pop_front() {
            let conn = self.conns.get_mut(&(sender, receiver)).unwrap();
            let mut conn_state = *conn;
            let out =
                handle_line(&mut self.nodes[receiver as usize], &mut conn_state, line, NOW);
            self.conns.insert((sender, receiver), conn_state);
            if let Some(d) = out.dial {
                self.dial(receiver, d.index);
            }
            if let Some(m) = out.effects.to_prev {
                let prev = if receiver == 0 { RING_SIZE - 1 } else { receiver - 1 };
                self.pending.push_back((receiver, prev, Some(m)));
            }
            if let Some(m) = out.effects.to_next {
                self.pending.push_back((receiver, next_index(receiver), Some(m)));
            }
        }
    }

    fn totals(&self) -> (u64, u64) {
        let balance: u64 = self.nodes.iter().map(|n| n.balance).sum();
        let deposit: u64 = self.nodes.iter().map(|n| n.deposit).sum();
        (balance, deposit)
    }
}

#[test]
fn startup_forms_the_complete_ring() {
    let mut ring = Ring::new();
    ring.startup();
    ring.run();
    // after startup every node holds exactly one previous and one next link
    for n in &ring.nodes {
        assert!(n.has_prev, "node {} has no previous link", n.index);
        assert!(n.has_next, "node {} has no next link", n.index);
    }
}

#[test]
fn full_run_settles_the_payment() {
    let mut ring = Ring::new();
    ring.startup();
    ring.run();

    // the full forward lock and backward claim have settled: every deposit
    // is released, the source has paid the locked amount, every
    // intermediate hop is made whole, and the destination was credited
    assert_eq!(ring.nodes[0].balance, 9);
    assert_eq!(ring.nodes[1].balance, 10);
    assert_eq!(ring.nodes[2].balance, 10);
    assert_eq!(ring.nodes[3].balance, 11);
    for n in &ring.nodes {
        assert_eq!(n.deposit, 0, "node {} still holds a deposit", n.index);
    }
    // conservation: the ring's holdings equal the initial endowment
    let (balance, deposit) = ring.totals();
    assert_eq!(balance + deposit, 40);
}

#[test]
fn source_balance_drops_at_lock_time() {
    let mut ring = Ring::new();
    // form the topology but hold back the destination's commitment
    ring.startup();
    let mut commitment = None;
    while let Some((sender, receiver, line)) = ring.pending.pop_front() {
        if let Some(Message::HashValue { .. }) = line {
            commitment = Some((sender, receiver, line));
            continue;
        }
        let mut conn_state = *ring.conns.get(&(sender, receiver)).unwrap();
        let out = handle_line(&mut ring.nodes[receiver as usize], &mut conn_state, line, NOW);
        ring.conns.insert((sender, receiver), conn_state);
        if let Some(d) = out.dial {
            ring.dial(receiver, d.index);
        }
        assert_eq!(out.effects.to_prev, None);
        assert_eq!(out.effects.to_next, None);
    }
    assert_eq!(ring.nodes[0].balance, 10);

    // delivering the commitment makes the source lock: balance 10 -> 9,
    // the locked amount held in escrow
    let (sender, receiver, line) = commitment.unwrap();
    let mut conn_state = *ring.conns.get(&(sender, receiver)).unwrap();
    let out = handle_line(&mut ring.nodes[receiver as usize], &mut conn_state, line, NOW);
    ring.conns.insert((sender, receiver), conn_state);
    assert_eq!(ring.nodes[0].balance, 9);
    assert_eq!(ring.nodes[0].deposit, 1);

    // the rest of the run returns the ring to rest, with the deposit gone
    if let Some(m) = out.effects.to_next {
        ring.pending.push_back((receiver, next_index(receiver), Some(m)));
    }
    ring.run();
    assert_eq!(ring.nodes[0].balance, 9);
    assert_eq!(ring.nodes[0].deposit, 0);
}
