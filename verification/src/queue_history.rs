//! Histories of queue operations, and what holds of every history.
//!
//! A history starts from an empty queue and applies enqueues and dequeues in
//! some order. It records the items that were accepted and the items that
//! were delivered, next to the queue's contents. The theorems below are
//! stated over [`enqueue_model`] and [`dequeue_model`], the functions in which
//! the contracts of `enqueue` and `dequeue` are written.

use vstd::prelude::*;
use vstd::seq_lib::lemma_multiset_commutative;
use crate::queue::{dequeue_model, enqueue_model};

verus! {

/// One call made on a queue.
pub enum QueueOp<T> {
    Enqueue(T),
    Dequeue,
}

/// The state of a queue together with a record of what went in and out.
pub struct QueueHistory<T> {
    /// The queued items, oldest first.
    pub contents: Seq<T>,
    /// Every item that an enqueue accepted, in the order of the calls.
    pub accepted: Seq<T>,
    /// Every item that a dequeue returned, in the order of the calls.
    pub delivered: Seq<T>,
}

/// The history of a queue on which nothing has been called.
pub open spec fn fresh<T>() -> QueueHistory<T> {
    QueueHistory { contents: Seq::empty(), accepted: Seq::empty(), delivered: Seq::empty() }
}

/// The history after one more call on a queue of `capacity` slots.
pub open spec fn step<T>(h: QueueHistory<T>, capacity: nat, op: QueueOp<T>) -> QueueHistory<T> {
    match op {
        QueueOp::Enqueue(item) => QueueHistory {
            contents: enqueue_model(h.contents, capacity, item),
            accepted: if h.contents.len() + 1 < capacity {
                h.accepted.push(item)
            } else {
                h.accepted
            },
            delivered: h.delivered,
        },
        QueueOp::Dequeue => QueueHistory {
            contents: dequeue_model(h.contents),
            accepted: h.accepted,
            delivered: if h.contents.len() > 0 {
                h.delivered.push(h.contents[0])
            } else {
                h.delivered
            },
        },
    }
}

/// The history after the calls `ops`, made in order from `h`.
pub open spec fn run<T>(h: QueueHistory<T>, capacity: nat, ops: Seq<QueueOp<T>>) -> QueueHistory<T>
    decreases ops.len(),
{
    if ops.len() == 0 {
        h
    } else {
        step(run(h, capacity, ops.drop_last()), capacity, ops.last())
    }
}

/// The calls that enqueue `items` one after another.
pub open spec fn enqueue_all<T>(items: Seq<T>) -> Seq<QueueOp<T>> {
    Seq::new(items.len(), |i: int| QueueOp::Enqueue(items[i]))
}

/// `n` dequeues in a row.
pub open spec fn dequeue_times<T>(n: nat) -> Seq<QueueOp<T>> {
    Seq::new(n, |i: int| QueueOp::<T>::Dequeue)
}

/// First in, first out: after any calls on a fresh queue, the accepted items
/// are the delivered items followed by the items still queued. The delivered
/// items are therefore a prefix of the accepted ones, in the order in which
/// they were accepted, and the queue never holds more than `capacity - 1`.
pub proof fn lemma_fifo<T>(capacity: nat, ops: Seq<QueueOp<T>>)
    requires
        capacity >= 1,
    ensures
        ({
            let h = run(fresh::<T>(), capacity, ops);
            &&& h.accepted == h.delivered + h.contents
            &&& h.contents.len() + 1 <= capacity
        }),
    decreases ops.len(),
{
    if ops.len() == 0 {
        assert(fresh::<T>().accepted =~= fresh::<T>().delivered + fresh::<T>().contents);
    } else {
        lemma_fifo(capacity, ops.drop_last());
        let before = run(fresh::<T>(), capacity, ops.drop_last());
        let after = step(before, capacity, ops.last());
        assert(after.accepted =~= after.delivered + after.contents);
    }
}

/// Nothing is lost and nothing is duplicated: after any calls on a fresh
/// queue, the accepted items are, as a multiset, the delivered items together
/// with the queued ones. Once the queue has been emptied, what was delivered is
/// exactly what was accepted, each item as often as it was accepted.
pub proof fn lemma_no_loss_no_duplication<T>(capacity: nat, ops: Seq<QueueOp<T>>)
    requires
        capacity >= 1,
    ensures
        ({
            let h = run(fresh::<T>(), capacity, ops);
            &&& h.accepted.to_multiset() == h.delivered.to_multiset().add(
                h.contents.to_multiset(),
            )
            &&& h.contents.len() == 0 ==> h.delivered == h.accepted
        }),
{
    let h = run(fresh::<T>(), capacity, ops);
    lemma_fifo(capacity, ops);
    lemma_multiset_commutative(h.delivered, h.contents);
    if h.contents.len() == 0 {
        assert(h.delivered + h.contents =~= h.delivered);
    }
}

/// While there is room, every enqueue is accepted.
pub proof fn lemma_enqueues_accepted<T>(h: QueueHistory<T>, capacity: nat, items: Seq<T>)
    requires
        h.contents.len() + items.len() < capacity,
    ensures
        run(h, capacity, enqueue_all(items)) == (QueueHistory {
            contents: h.contents + items,
            accepted: h.accepted + items,
            delivered: h.delivered,
        }),
    decreases items.len(),
{
    let ops = enqueue_all(items);
    if items.len() == 0 {
        assert(h.contents + items =~= h.contents);
        assert(h.accepted + items =~= h.accepted);
    } else {
        lemma_enqueues_accepted(h, capacity, items.drop_last());
        assert(ops.drop_last() =~= enqueue_all(items.drop_last()));
        assert(ops.last() == QueueOp::Enqueue(items.last()));
        assert((h.contents + items.drop_last()).push(items.last()) =~= h.contents + items);
        assert((h.accepted + items.drop_last()).push(items.last()) =~= h.accepted + items);
    }
}

/// Dequeues deliver the queued items from the front, in order.
pub proof fn lemma_dequeues_deliver<T>(h: QueueHistory<T>, capacity: nat, n: nat)
    requires
        n <= h.contents.len(),
    ensures
        run(h, capacity, dequeue_times::<T>(n)) == (QueueHistory {
            contents: h.contents.skip(n as int),
            accepted: h.accepted,
            delivered: h.delivered + h.contents.take(n as int),
        }),
    decreases n,
{
    let ops = dequeue_times::<T>(n);
    if n == 0 {
        assert(h.contents.skip(0) =~= h.contents);
        assert(h.delivered + h.contents.take(0) =~= h.delivered);
    } else {
        let m = (n - 1) as nat;
        lemma_dequeues_deliver(h, capacity, m);
        assert(ops.drop_last() =~= dequeue_times::<T>(m));
        assert(ops.last() == QueueOp::<T>::Dequeue);
        assert(h.contents.skip(m as int).drop_first() =~= h.contents.skip(n as int));
        assert((h.delivered + h.contents.take(m as int)).push(h.contents.skip(m as int)[0])
            =~= h.delivered + h.contents.take(n as int));
    }
}

/// The boundary between full and empty: on a fresh queue of `capacity` slots,
/// `capacity - 1` enqueues are all accepted and fill it; one more enqueue is
/// refused and changes nothing; `capacity - 1` dequeues then deliver the
/// accepted items in order and leave the queue empty.
pub proof fn lemma_full_boundary<T>(capacity: nat, items: Seq<T>, extra: T)
    requires
        capacity >= 1,
        items.len() == capacity - 1,
    ensures
        ({
            let filled = run(fresh::<T>(), capacity, enqueue_all(items));
            let refused = step(filled, capacity, QueueOp::Enqueue(extra));
            let drained = run(refused, capacity, dequeue_times::<T>(items.len()));
            &&& filled.contents == items
            &&& filled.accepted == items
            &&& refused == filled
            &&& enqueue_model(filled.contents, capacity, extra) == items
            &&& drained.delivered == items
            &&& drained.accepted == items
            &&& drained.contents.len() == 0
        }),
{
    let start = fresh::<T>();
    lemma_enqueues_accepted(start, capacity, items);
    let filled = run(start, capacity, enqueue_all(items));
    assert(start.contents + items =~= items);
    assert(start.accepted + items =~= items);
    let refused = step(filled, capacity, QueueOp::Enqueue(extra));
    lemma_dequeues_deliver(refused, capacity, items.len());
    let drained = run(refused, capacity, dequeue_times::<T>(items.len()));
    assert(refused.delivered + items.take(items.len() as int) =~= items);
}

} // verus!
