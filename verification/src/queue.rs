//! The shared handoff queue between the UDP receiver and the delivery
//! workers.
//!
//! The receiver appends each captured payload at the back; a worker removes
//! the *most recently pushed* payload. The drain discipline is therefore
//! last-in-first-out, not first-in-first-out: under sustained load a burst
//! of fresh payloads can starve older ones. That is the documented contract
//! of this queue, not an accident to repair silently.
//!
//! The queue itself is a plain sequential structure; the mutual exclusion
//! and the wake signal that share it across threads are layered on top of
//! it by the embedding program. The laws at the bottom of this module state
//! what any interleaving of pushes and pops preserves: no payload is ever
//! lost or duplicated by the queue.

use vstd::prelude::*;

verus! {

use vstd::multiset::Multiset;

/// The set of payloads currently in flight between receipt and the start of
/// a delivery attempt. Viewed as the sequence of pending payloads in push
/// order (oldest first).
pub struct HandoffQueue {
    items: Vec<Vec<u8>>,
}

impl View for HandoffQueue {
    type V = Seq<Seq<u8>>;

    closed spec fn view(&self) -> Seq<Seq<u8>> {
        self.items.deep_view()
    }
}

impl HandoffQueue {
    /// An empty queue: no payload is pending.
    pub fn new() -> (q: HandoffQueue)
        ensures
            q@ == Seq::<Seq<u8>>::empty(),
    {
        let q = HandoffQueue { items: Vec::new() };
        proof {
            assert(q@ =~= Seq::<Seq<u8>>::empty());
        }
        q
    }

    /// How many payloads are pending.
    pub fn len(&self) -> (n: usize)
        ensures
            n == self@.len(),
    {
        self.items.len()
    }

    /// Whether no payload is pending.
    pub fn is_empty(&self) -> (e: bool)
        ensures
            e <==> self@.len() == 0,
    {
        self.items.len() == 0
    }

    /// Appends one payload at the back. Total: it succeeds on every queue
    /// state, whatever the backlog — the producer is never blocked by slow
    /// or failing consumers.
    pub fn push(&mut self, payload: Vec<u8>)
        ensures
            final(self)@ == old(self)@.push(payload@),
    {
        let ghost before = self.items.deep_view();
        let ghost p = payload@;
        proof {
            assert(payload.deep_view() =~= p);
        }
        self.items.push(payload);
        proof {
            assert(self.items.deep_view() =~= before.push(p));
        }
    }

    /// Removes and returns the most recently pushed payload, or `None` when
    /// the queue is empty (a waiting consumer re-checks after a wake; an
    /// empty answer is normal, not an error). The returned payload leaves
    /// the queue in the same step: it can never be handed to two consumers.
    pub fn pop(&mut self) -> (r: Option<Vec<u8>>)
        ensures
            old(self)@.len() == 0 ==> r is None && final(self)@ == old(self)@,
            old(self)@.len() > 0 ==> (r matches Some(p) && p@ == old(self)@.last()
                && final(self)@ == old(self)@.drop_last()),
    {
        let ghost before = self.items.deep_view();
        let r = self.items.pop();
        proof {
            if before.len() == 0 {
                assert(self@ =~= before);
            } else {
                assert(self@ =~= before.drop_last());
                assert(r matches Some(p) && p@ =~= before.last());
            }
        }
        r
    }
}

// ---------------------------------------------------------------------------
// Abstract model of queue traffic
// ---------------------------------------------------------------------------

/// One abstract operation on the handoff queue: the receiver pushing a
/// payload, or a worker popping one.
pub enum QueueOp {
    Push(Seq<u8>),
    Pop,
}

/// The queue state after one operation. A pop of an empty queue leaves the
/// queue unchanged (the worker saw a spurious wake and goes back to
/// waiting).
pub open spec fn apply_op(s: Seq<Seq<u8>>, op: QueueOp) -> Seq<Seq<u8>> {
    match op {
        QueueOp::Push(p) => s.push(p),
        QueueOp::Pop => if s.len() == 0 {
            s
        } else {
            s.drop_last()
        },
    }
}

/// The payloads one operation hands out for delivery: nothing for a push or
/// for a pop of an empty queue, the newest pending payload otherwise.
pub open spec fn handed_out_by_op(s: Seq<Seq<u8>>, op: QueueOp) -> Multiset<Seq<u8>> {
    match op {
        QueueOp::Push(_) => Multiset::empty(),
        QueueOp::Pop => if s.len() == 0 {
            Multiset::empty()
        } else {
            Multiset::singleton(s.last())
        },
    }
}

/// The payloads one operation accepts from the receiver.
pub open spec fn taken_in_by_op(op: QueueOp) -> Multiset<Seq<u8>> {
    match op {
        QueueOp::Push(p) => Multiset::singleton(p),
        QueueOp::Pop => Multiset::empty(),
    }
}

/// The queue state after a whole history of operations, applied in order.
pub open spec fn apply_ops(s: Seq<Seq<u8>>, ops: Seq<QueueOp>) -> Seq<Seq<u8>>
    decreases ops.len(),
{
    if ops.len() == 0 {
        s
    } else {
        apply_ops(apply_op(s, ops.first()), ops.drop_first())
    }
}

/// All payloads a history of operations hands out for delivery.
pub open spec fn handed_out_by_ops(s: Seq<Seq<u8>>, ops: Seq<QueueOp>) -> Multiset<Seq<u8>>
    decreases ops.len(),
{
    if ops.len() == 0 {
        Multiset::empty()
    } else {
        handed_out_by_op(s, ops.first()).add(
            handed_out_by_ops(apply_op(s, ops.first()), ops.drop_first()),
        )
    }
}

/// All payloads a history of operations accepts from the receiver.
pub open spec fn taken_in_by_ops(ops: Seq<QueueOp>) -> Multiset<Seq<u8>>
    decreases ops.len(),
{
    if ops.len() == 0 {
        Multiset::empty()
    } else {
        taken_in_by_op(ops.first()).add(taken_in_by_ops(ops.drop_first()))
    }
}

/// Conservation law: over any history of pushes and pops, the payloads
/// initially pending plus the payloads accepted are exactly the payloads
/// still pending plus the payloads handed out for delivery. The queue never
/// loses a payload while it is enqueued, and never hands the same enqueued
/// payload to two consumers.
pub proof fn lemma_queue_conserves_payloads(s: Seq<Seq<u8>>, ops: Seq<QueueOp>)
    ensures
        apply_ops(s, ops).to_multiset().add(handed_out_by_ops(s, ops))
            == s.to_multiset().add(taken_in_by_ops(ops)),
    decreases ops.len(),
{
    broadcast use vstd::multiset::group_multiset_axioms;
    broadcast use vstd::seq_lib::group_to_multiset_ensures;

    let lhs = apply_ops(s, ops).to_multiset().add(handed_out_by_ops(s, ops));
    let rhs = s.to_multiset().add(taken_in_by_ops(ops));
    if ops.len() == 0 {
        assert(lhs =~= rhs);
    } else {
        let op = ops.first();
        let s2 = apply_op(s, op);
        let a = apply_ops(s2, ops.drop_first()).to_multiset();
        let h2 = handed_out_by_ops(s2, ops.drop_first());
        let t2 = taken_in_by_ops(ops.drop_first());
        lemma_queue_conserves_payloads(s2, ops.drop_first());
        assert(a.add(h2) == s2.to_multiset().add(t2));
        match op {
            QueueOp::Push(p) => {
                assert(s2.to_multiset() == s.to_multiset().insert(p));
                assert forall|x: Seq<u8>| #[trigger] lhs.count(x) == rhs.count(x) by {
                    assert(a.add(h2).count(x) == s2.to_multiset().add(t2).count(x));
                }
                assert(lhs =~= rhs);
            },
            QueueOp::Pop => {
                if s.len() == 0 {
                    assert forall|x: Seq<u8>| #[trigger] lhs.count(x) == rhs.count(x) by {
                        assert(a.add(h2).count(x) == s2.to_multiset().add(t2).count(x));
                    }
                    assert(lhs =~= rhs);
                } else {
                    let l = s.last();
                    assert(s[s.len() - 1] == l);
                    assert(s.contains(l));
                    assert(s.to_multiset().count(l) >= 1);
                    assert(s.drop_last() =~= s.remove(s.len() - 1));
                    assert(s.remove(s.len() - 1).to_multiset() == s.to_multiset().remove(l));
                    assert forall|x: Seq<u8>| #[trigger] lhs.count(x) == rhs.count(x) by {
                        assert(a.add(h2).count(x) == s2.to_multiset().add(t2).count(x));
                    }
                    assert(lhs =~= rhs);
                }
            },
        }
    }
}

/// Counting corollary of the conservation law: however pushes and pops
/// interleave, every payload ever accepted is accounted for — it is either
/// still pending or was handed out for exactly one delivery attempt. In
/// numbers: pending-at-start plus accepted equals pending-at-end plus
/// handed out.
pub proof fn lemma_every_payload_accounted_for(s: Seq<Seq<u8>>, ops: Seq<QueueOp>)
    ensures
        apply_ops(s, ops).len() + handed_out_by_ops(s, ops).len() == s.len() + taken_in_by_ops(
            ops,
        ).len(),
{
    broadcast use vstd::multiset::group_multiset_axioms;
    broadcast use vstd::seq_lib::group_to_multiset_ensures;

    lemma_queue_conserves_payloads(s, ops);
    assert(apply_ops(s, ops).to_multiset().add(handed_out_by_ops(s, ops)).len() == s.to_multiset()
        .add(taken_in_by_ops(ops)).len());
}

/// The payloads handed out, in order, by `n` successive pops.
pub open spec fn drain_results(s: Seq<Seq<u8>>, n: nat) -> Seq<Seq<u8>>
    decreases n,
{
    if n == 0 || s.len() == 0 {
        Seq::empty()
    } else {
        seq![s.last()] + drain_results(s.drop_last(), (n - 1) as nat)
    }
}

/// The queue state left behind by `n` successive pops.
pub open spec fn after_drain(s: Seq<Seq<u8>>, n: nat) -> Seq<Seq<u8>>
    decreases n,
{
    if n == 0 || s.len() == 0 {
        s
    } else {
        after_drain(s.drop_last(), (n - 1) as nat)
    }
}

/// The drain discipline is last-in-first-out: push any payloads, in order,
/// onto any queue state; the same number of pops then returns exactly those
/// payloads, newest first, and leaves the earlier state pending. In
/// particular three payloads pushed into an empty queue come back reversed.
pub proof fn lemma_drain_is_lifo(s: Seq<Seq<u8>>, ps: Seq<Seq<u8>>)
    ensures
        drain_results(s + ps, ps.len()) == ps.reverse(),
        after_drain(s + ps, ps.len()) == s,
    decreases ps.len(),
{
    if ps.len() == 0 {
        assert(s + ps =~= s);
        assert(drain_results(s + ps, 0) =~= ps.reverse());
    } else {
        let t = s + ps;
        assert(t.last() == ps.last());
        assert(t.drop_last() =~= s + ps.drop_last());
        lemma_drain_is_lifo(s, ps.drop_last());
        assert(ps.reverse() =~= seq![ps.last()] + ps.drop_last().reverse());
        assert(drain_results(t, ps.len()) =~= ps.reverse());
    }
}

/// A run of `n` pops, as queue operations.
pub open spec fn pops(n: nat) -> Seq<QueueOp> {
    Seq::new(n, |i: int| QueueOp::Pop)
}

/// The two views of draining agree: a history of `n` pops leaves exactly
/// the state `after_drain` describes, and hands out exactly the payloads
/// `drain_results` lists (as a multiset — pops hand each one out once).
pub proof fn lemma_drain_matches_history(s: Seq<Seq<u8>>, n: nat)
    ensures
        apply_ops(s, pops(n)) == after_drain(s, n),
        handed_out_by_ops(s, pops(n)) == drain_results(s, n).to_multiset(),
    decreases n,
{
    broadcast use vstd::multiset::group_multiset_axioms;
    broadcast use vstd::seq_lib::group_to_multiset_ensures;

    if n == 0 {
        assert(pops(n).len() == 0);
        assert(drain_results(s, n).to_multiset() =~= Multiset::empty());
    } else {
        let rest = pops((n - 1) as nat);
        assert(pops(n).first() == QueueOp::Pop);
        assert(pops(n).drop_first() =~= rest);
        if s.len() == 0 {
            lemma_drain_matches_history(s, (n - 1) as nat);
            assert(apply_op(s, QueueOp::Pop) == s);
            assert(handed_out_by_ops(s, pops(n)) =~= handed_out_by_ops(s, rest));
            assert(drain_results(s, n).to_multiset() =~= Multiset::empty());
        } else {
            let l = s.last();
            let d = s.drop_last();
            lemma_drain_matches_history(d, (n - 1) as nat);
            assert(after_drain(s, n) == after_drain(d, (n - 1) as nat));
            assert(drain_results(d, (n - 1) as nat).insert(0, l) =~= seq![l] + drain_results(
                d,
                (n - 1) as nat,
            ));
            assert(drain_results(d, (n - 1) as nat).insert(0, l).to_multiset() == drain_results(
                d,
                (n - 1) as nat,
            ).to_multiset().insert(l));
            assert(handed_out_by_ops(s, pops(n)) =~= drain_results(s, n).to_multiset());
        }
    }
}

/// A burst of receipts, as queue operations.
pub open spec fn pushes_of(ps: Seq<Seq<u8>>) -> Seq<QueueOp> {
    ps.map_values(|p: Seq<u8>| QueueOp::Push(p))
}

/// The producer is never blocked by its consumers: whatever the backlog —
/// in particular when no worker can reach the upstream endpoint and nothing
/// is ever popped — every push is accepted, and all pushed payloads stay
/// pending, in arrival order.
pub proof fn lemma_producer_never_blocked(s: Seq<Seq<u8>>, ps: Seq<Seq<u8>>)
    ensures
        apply_ops(s, pushes_of(ps)) == s + ps,
        handed_out_by_ops(s, pushes_of(ps)) == Multiset::<Seq<u8>>::empty(),
    decreases ps.len(),
{
    broadcast use vstd::multiset::group_multiset_axioms;

    if ps.len() == 0 {
        assert(pushes_of(ps).len() == 0);
        assert(s + ps =~= s);
    } else {
        let ops = pushes_of(ps);
        assert(ops.first() == QueueOp::Push(ps.first()));
        assert(ops.drop_first() =~= pushes_of(ps.drop_first()));
        lemma_producer_never_blocked(s.push(ps.first()), ps.drop_first());
        assert(s.push(ps.first()) + ps.drop_first() =~= s + ps);
        assert(handed_out_by_ops(s, ops) =~= Multiset::<Seq<u8>>::empty());
    }
}

} // verus!
