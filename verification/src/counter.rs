//! A counter of the size of one cache line.
//!
//! The count, the number of operations and the time of the last access sit
//! together in one block of 64 bytes. The block has the size of a cache line
//! but only the alignment of its fields: to keep a busy counter from sharing
//! its line with anything else, the program that embeds it places it at an
//! address that is a multiple of 64.

use vstd::prelude::*;
use crate::clock::epoch_secs;

verus! {

/// What a counter holds.
pub struct CounterState {
    pub value: u64,
    pub operations: u64,
    pub last_access: u64,
}

/// The successor of `n`, wrapping to zero after `u64::MAX`.
pub open spec fn wrapping_succ(n: u64) -> u64 {
    if n == u64::MAX {
        0
    } else {
        (n + 1) as u64
    }
}

/// The state after one increment made at `now_secs`.
pub open spec fn increment_model(s: CounterState, now_secs: u64) -> CounterState {
    CounterState {
        value: wrapping_succ(s.value),
        operations: wrapping_succ(s.operations),
        last_access: now_secs,
    }
}

/// The state after `n` increments that were all made at `now_secs`.
pub open spec fn increments_model(s: CounterState, n: nat, now_secs: u64) -> CounterState
    decreases n,
{
    if n == 0 {
        s
    } else {
        increment_model(increments_model(s, (n - 1) as nat, now_secs), now_secs)
    }
}

/// A counter with the bookkeeping of its own use: three numbers of eight
/// bytes each, padded to 64 bytes. Its alignment is that of its fields;
/// placing it on a cache-line boundary is left to the embedding program.
pub struct EnterpriseCacheAlignedCounter {
    value: u64,
    operations_count: u64,
    last_access_time: u64,
    _padding: [u8; 40],
}

impl View for EnterpriseCacheAlignedCounter {
    type V = CounterState;

    closed spec fn view(&self) -> CounterState {
        CounterState {
            value: self.value,
            operations: self.operations_count,
            last_access: self.last_access_time,
        }
    }
}

impl EnterpriseCacheAlignedCounter {
    /// A counter at zero that has never been used.
    pub fn new() -> (counter: Self)
        ensures
            counter@ == (CounterState { value: 0, operations: 0, last_access: 0 }),
    {
        EnterpriseCacheAlignedCounter {
            value: 0,
            operations_count: 0,
            last_access_time: 0,
            _padding: [0u8; 40],
        }
    }

    /// Counts one operation made at `now_secs`, seconds since the Unix epoch,
    /// and returns the value from before the increment.
    pub fn increment_at(&mut self, now_secs: u64) -> (previous: u64)
        ensures
            previous == old(self)@.value,
            final(self)@ == increment_model(old(self)@, now_secs),
    {
        let previous = self.value;
        self.operations_count = self.operations_count.wrapping_add(1);
        self.last_access_time = now_secs;
        self.value = previous.wrapping_add(1);
        previous
    }

    /// Counts one operation made now and returns the value from before the
    /// increment. The time of the access is whatever the wall clock reads.
    pub fn increment(&mut self) -> (previous: u64)
        ensures
            previous == old(self)@.value,
            final(self)@.value == wrapping_succ(old(self)@.value),
            final(self)@.operations == wrapping_succ(old(self)@.operations),
    {
        let now_secs = epoch_secs();
        self.increment_at(now_secs)
    }

    /// The value, the number of operations, and the time of the last access in
    /// seconds since the Unix epoch.
    pub fn get_stats(&self) -> (stats: (u64, u64, u64))
        ensures
            stats == (self@.value, self@.operations, self@.last_access),
    {
        (self.value, self.operations_count, self.last_access_time)
    }
}

/// The successor of a machine word, wrapping to zero after `usize::MAX`.
pub open spec fn next_count(n: usize) -> usize {
    if n == usize::MAX {
        0
    } else {
        (n + 1) as usize
    }
}

/// A bare counter with compare-and-swap.
pub struct LockFreeCounter {
    value: usize,
}

impl View for LockFreeCounter {
    type V = usize;

    closed spec fn view(&self) -> usize {
        self.value
    }
}

impl LockFreeCounter {
    /// A counter at zero.
    pub fn new() -> (counter: Self)
        ensures
            counter@ == 0,
    {
        LockFreeCounter { value: 0 }
    }

    /// The value of the counter.
    pub fn load(&self) -> (value: usize)
        ensures
            value == self@,
    {
        self.value
    }

    /// Adds one, wrapping to zero after `usize::MAX`, and returns the value
    /// from before.
    pub fn increment(&mut self) -> (previous: usize)
        ensures
            previous == old(self)@,
            final(self)@ == next_count(old(self)@),
    {
        let previous = self.value;
        self.value = previous.wrapping_add(1);
        previous
    }

    /// Sets the counter to `new` where it stands at `expected`, and returns
    /// the value from before: as `Ok` where the counter was set, as `Err`
    /// where it stood elsewhere and was left alone.
    pub fn compare_and_swap(&mut self, expected: usize, new: usize) -> (outcome: Result<
        usize,
        usize,
    >)
        ensures
            outcome == (if old(self)@ == expected {
                Ok::<usize, usize>(expected)
            } else {
                Err::<usize, usize>(old(self)@)
            }),
            final(self)@ == (if old(self)@ == expected {
                new
            } else {
                old(self)@
            }),
    {
        let current = self.value;
        if current == expected {
            self.value = new;
            Ok(current)
        } else {
            Err(current)
        }
    }
}

impl LockFreeCounter {
    /// Raises the counter to `candidate` where it stands below, by comparing
    /// and swapping until the counter is seen to be high enough.
    pub fn raise_to(&mut self, candidate: usize)
        ensures
            final(self)@ == (if candidate > old(self)@ {
                candidate
            } else {
                old(self)@
            }),
    {
        let mut current = self.load();
        while candidate > current
            invariant
                current == self@,
                self@ == old(self)@ || (self@ == candidate && candidate > old(self)@),
            decreases candidate - current,
        {
            match self.compare_and_swap(current, candidate) {
                Ok(_) => {
                    current = candidate;
                },
                Err(seen) => {
                    current = seen;
                },
            }
        }
    }
}

/// After `n` increments from zero the counter reads `n`, and has counted `n`
/// operations, as long as `n` fits in 64 bits.
pub proof fn lemma_counts_every_increment(n: nat, now_secs: u64)
    requires
        n <= u64::MAX,
    ensures
        ({
            let s = increments_model(
                CounterState { value: 0, operations: 0, last_access: 0 },
                n,
                now_secs,
            );
            s.value == n && s.operations == n
        }),
    decreases n,
{
    if n > 0 {
        lemma_counts_every_increment((n - 1) as nat, now_secs);
    }
}

} // verus!
