//! A bounded first-in, first-out ring buffer.
//!
//! The queue owns `capacity` slots and two cursors that wrap with a bit mask,
//! so `capacity` is always a power of two. One slot is kept free to tell a
//! full queue from an empty one: a queue of capacity `N` holds at most `N - 1`
//! items.
//!
//! Every operation takes the queue by exclusive reference. The borrow rules
//! therefore admit one caller at a time, which is the strictest reading of the
//! one-producer, one-consumer discipline: two enqueues, or two dequeues, can
//! never race. Sharing a queue between threads needs an outer lock.

use vstd::prelude::*;
use vstd::arithmetic::power2::is_pow2;
use crate::bits::{lemma_mask_keeps_small, lemma_power_of_two_mask};

verus! {

/// The capacity of a queue built by [`SafeBoundedQueue::new`].
pub const OPTIMAL_SIZE: usize = 1024;

/// What an enqueue does to the contents `q` of a queue with `capacity`
/// slots: the item joins the back unless the queue is full.
pub open spec fn enqueue_model<T>(q: Seq<T>, capacity: nat, item: T) -> Seq<T> {
    if q.len() + 1 < capacity {
        q.push(item)
    } else {
        q
    }
}

/// What a dequeue does to the contents `q`: the front item leaves, if any.
pub open spec fn dequeue_model<T>(q: Seq<T>) -> Seq<T> {
    if q.len() > 0 {
        q.drop_first()
    } else {
        q
    }
}

/// The number of occupied slots between the cursors.
pub open spec fn occupied(head: int, tail: int, capacity: int) -> int {
    if head <= tail {
        tail - head
    } else {
        capacity - head + tail
    }
}

/// The slot that holds the `i`-th item counted from `head`.
pub open spec fn slot_of(head: int, i: int, capacity: int) -> int {
    if head + i < capacity {
        head + i
    } else {
        head + i - capacity
    }
}

/// The cursor that follows `cursor` in a ring of `capacity` slots: the next
/// index, or zero after the last. For a capacity that is a power of two this
/// is `(cursor + 1) & (capacity - 1)`.
pub open spec fn next_cursor(cursor: int, capacity: int) -> int {
    if cursor + 1 < capacity {
        cursor + 1
    } else {
        0
    }
}

/// Whether slot `s` lies between the cursors.
pub open spec fn in_use(head: int, tail: int, s: int) -> bool {
    if head <= tail {
        head <= s < tail
    } else {
        s >= head || s < tail
    }
}

/// Whether `n` is a power of two.
pub fn is_power_of_two(n: usize) -> (yes: bool)
    ensures
        yes == is_pow2(n as int),
{
    proof {
        lemma_power_of_two_mask(n);
    }
    n != 0 && n & (n - 1) == 0
}

/// A fixed-capacity ring buffer of `T`.
pub struct SafeBoundedQueue<T> {
    buffer: Vec<Option<T>>,
    head: usize,
    tail: usize,
    capacity: usize,
}

impl<T> SafeBoundedQueue<T> {
    /// The number of slots, one of which always stays free.
    pub closed spec fn spec_capacity(&self) -> nat {
        self.capacity as nat
    }

    /// The head cursor: the slot of the oldest item.
    pub closed spec fn spec_head(&self) -> nat {
        self.head as nat
    }

    /// The tail cursor: the slot that the next item goes to.
    pub closed spec fn spec_tail(&self) -> nat {
        self.tail as nat
    }

    /// The queued items, oldest first.
    pub closed spec fn view(&self) -> Seq<T> {
        Seq::new(
            occupied(self.head as int, self.tail as int, self.capacity as int) as nat,
            |i: int| self.buffer@[slot_of(self.head as int, i, self.capacity as int)].unwrap(),
        )
    }

    /// The representation invariant: the capacity is a power of two, both
    /// cursors are in range, and exactly the slots between them are occupied.
    pub closed spec fn wf(&self) -> bool {
        &&& is_pow2(self.capacity as int)
        &&& self.buffer@.len() == self.capacity
        &&& self.head < self.capacity
        &&& self.tail < self.capacity
        &&& forall|s: int|
            0 <= s < self.capacity ==> (#[trigger] self.buffer@[s].is_some() <==> in_use(
                self.head as int,
                self.tail as int,
                s,
            ))
    }

    /// A well-formed queue has a power-of-two capacity and never holds more
    /// than `capacity - 1` items.
    pub proof fn lemma_bounds(&self)
        requires
            self.wf(),
        ensures
            is_pow2(self.spec_capacity() as int),
            self@.len() + 1 <= self.spec_capacity(),
    {
    }

    /// Both cursors of a well-formed queue are in range, and the items are
    /// those between them. The queue is empty exactly when the cursors meet,
    /// and full exactly when the cursor after the tail is the head.
    pub proof fn lemma_cursors(&self)
        requires
            self.wf(),
        ensures
            self.spec_head() < self.spec_capacity(),
            self.spec_tail() < self.spec_capacity(),
            self@.len() == occupied(
                self.spec_head() as int,
                self.spec_tail() as int,
                self.spec_capacity() as int,
            ),
            self@.len() == 0 <==> self.spec_head() == self.spec_tail(),
            self@.len() + 1 == self.spec_capacity() <==> next_cursor(
                self.spec_tail() as int,
                self.spec_capacity() as int,
            ) == self.spec_head(),
    {
    }

    /// An empty queue of [`OPTIMAL_SIZE`] slots.
    pub fn new() -> (queue: Self)
        ensures
            queue.wf(),
            queue@ == Seq::<T>::empty(),
            queue.spec_capacity() == OPTIMAL_SIZE,
            queue.spec_head() == 0,
            queue.spec_tail() == 0,
    {
        proof {
            assert(1024usize & 1023usize == 0) by (bit_vector);
            lemma_power_of_two_mask(OPTIMAL_SIZE);
        }
        Self::build(OPTIMAL_SIZE)
    }

    /// An empty queue of `capacity` slots, or `None` where `capacity` is not a
    /// power of two.
    pub fn with_capacity(capacity: usize) -> (made: Option<Self>)
        ensures
            made.is_some() <==> is_pow2(capacity as int),
            made matches Some(queue) ==> queue.wf() && queue@ == Seq::<T>::empty()
                && queue.spec_capacity() == capacity && queue.spec_head() == 0
                && queue.spec_tail() == 0,
    {
        if is_power_of_two(capacity) {
            Some(Self::build(capacity))
        } else {
            None
        }
    }

    fn build(capacity: usize) -> (queue: Self)
        requires
            is_pow2(capacity as int),
        ensures
            queue.wf(),
            queue@ == Seq::<T>::empty(),
            queue.spec_capacity() == capacity,
            queue.spec_head() == 0,
            queue.spec_tail() == 0,
    {
        let mut buffer: Vec<Option<T>> = Vec::with_capacity(capacity);
        let mut filled: usize = 0;
        while filled < capacity
            invariant
                filled <= capacity,
                buffer@.len() == filled,
                forall|s: int| 0 <= s < filled ==> (#[trigger] buffer@[s]).is_none(),
            decreases capacity - filled,
        {
            buffer.push(None);
            filled += 1;
        }
        proof {
            reveal(is_pow2);
        }
        let queue = SafeBoundedQueue { buffer, head: 0, tail: 0, capacity };
        assert(queue@ =~= Seq::<T>::empty());
        queue
    }

    /// The number of slots.
    pub fn capacity(&self) -> (capacity: usize)
        ensures
            capacity == self.spec_capacity(),
    {
        self.capacity
    }

    /// The number of queued items.
    pub fn len(&self) -> (len: usize)
        requires
            self.wf(),
        ensures
            len == self@.len(),
    {
        if self.head <= self.tail {
            self.tail - self.head
        } else {
            self.capacity - self.head + self.tail
        }
    }

    /// Whether nothing is queued.
    pub fn is_empty(&self) -> (empty: bool)
        requires
            self.wf(),
        ensures
            empty == (self@.len() == 0),
    {
        self.head == self.tail
    }

    /// Whether the next enqueue would be refused.
    pub fn is_full(&self) -> (full: bool)
        requires
            self.wf(),
        ensures
            full == (self@.len() + 1 == self.spec_capacity()),
    {
        let next_tail = self.next_index(self.tail);
        next_tail == self.head
    }

    /// The cursor that follows `index`, wrapping at the capacity.
    fn next_index(&self, index: usize) -> (next: usize)
        requires
            self.wf(),
            index < self.capacity,
        ensures
            next == next_cursor(index as int, self.capacity as int),
    {
        proof {
            lemma_power_of_two_mask(self.capacity);
            if index + 1 < self.capacity {
                lemma_mask_keeps_small((index + 1) as usize, self.capacity);
            }
        }
        (index + 1) & (self.capacity - 1)
    }

    /// Adds `item` at the back: it is written to the slot at the tail cursor,
    /// and the tail cursor advances. A full queue is left as it was, cursors
    /// included, and hands the item back to the caller.
    pub fn enqueue(&mut self, item: T) -> (outcome: Result<(), T>)
        requires
            old(self).wf(),
        ensures
            final(self).wf(),
            final(self).spec_capacity() == old(self).spec_capacity(),
            final(self)@ == enqueue_model(old(self)@, old(self).spec_capacity(), item),
            outcome == (if old(self)@.len() + 1 < old(self).spec_capacity() {
                Ok::<(), T>(())
            } else {
                Err::<(), T>(item)
            }),
            final(self).spec_head() == old(self).spec_head(),
            final(self).spec_tail() == (if old(self)@.len() + 1 < old(self).spec_capacity() {
                next_cursor(old(self).spec_tail() as int, old(self).spec_capacity() as int)
            } else {
                old(self).spec_tail() as int
            }),
    {
        let current_tail = self.tail;
        let next_tail = self.next_index(current_tail);
        if next_tail == self.head {
            return Err(item);
        }
        // The slot index is checked once more before it is used. For a
        // well-formed queue the check cannot fail, as the contract shows.
        if current_tail >= self.buffer.len() {
            return Err(item);
        }
        self.buffer[current_tail] = Some(item);
        self.tail = next_tail;
        proof {
            let old_q = old(self)@;
            let new_q = final(self)@;
            assert(new_q.len() == old_q.len() + 1);
            assert forall|i: int| 0 <= i < new_q.len() implies new_q[i] == old_q.push(item)[i] by {
                let s = slot_of(self.head as int, i, self.capacity as int);
                if i < old_q.len() {
                    assert(s != current_tail);
                } else {
                    assert(s == current_tail);
                }
            }
            assert(new_q =~= old_q.push(item));
        }
        Ok(())
    }

    /// Removes and returns the front item, the one at the head cursor, and
    /// advances the head cursor; or returns `None` where the queue is empty,
    /// and leaves it as it was.
    pub fn dequeue(&mut self) -> (item: Option<T>)
        requires
            old(self).wf(),
        ensures
            final(self).wf(),
            final(self).spec_capacity() == old(self).spec_capacity(),
            final(self)@ == dequeue_model(old(self)@),
            item == (if old(self)@.len() > 0 {
                Some(old(self)@[0])
            } else {
                None::<T>
            }),
            final(self).spec_tail() == old(self).spec_tail(),
            final(self).spec_head() == (if old(self)@.len() > 0 {
                next_cursor(old(self).spec_head() as int, old(self).spec_capacity() as int)
            } else {
                old(self).spec_head() as int
            }),
    {
        let current_head = self.head;
        if current_head == self.tail {
            return None;
        }
        // As in `enqueue`, the index is checked again before use.
        if current_head >= self.buffer.len() {
            return None;
        }
        let next_head = self.next_index(current_head);
        let item = self.buffer[current_head].take();
        self.head = next_head;
        proof {
            let old_q = old(self)@;
            let new_q = final(self)@;
            assert(new_q.len() + 1 == old_q.len());
            assert forall|i: int| 0 <= i < new_q.len() implies new_q[i] == old_q.drop_first()[i] by {
                let s = slot_of(self.head as int, i, self.capacity as int);
                assert(s == slot_of(current_head as int, i + 1, self.capacity as int));
                assert(s != current_head);
            }
            assert(new_q =~= old_q.drop_first());
        }
        item
    }
}

} // verus!
