//! A pool of objects that are all allocated up front.
//!
//! The pool is filled when it is built and never grows. `allocate` hands out
//! the object at the front of the free list, `deallocate` puts one back at the
//! end. An empty free list is an ordinary outcome that the pool counts; it is
//! up to the caller to reject the request or to allocate elsewhere.
//!
//! The pool is not synchronised. Its methods take it by exclusive reference,
//! so sharing one between threads needs a lock around it, or one pool per
//! worker.

use vstd::prelude::*;
use std::collections::VecDeque;
use crate::clock::{elapsed_since, monotonic_now};
use crate::counter::{next_count, LockFreeCounter};

verus! {

/// The number of objects in a pool built by [`EnterpriseMemoryPool::new`].
pub const POOL_SIZE: usize = 4096;

/// The number of allocation times that such a pool remembers.
pub const MONITORING_WINDOW: usize = 1000;

/// What a pool holds.
pub struct PoolState<T> {
    /// The free objects; the front one is handed out next.
    pub free: Seq<Box<T>>,
    /// The number of objects handed out and not yet returned.
    pub total_allocated: nat,
    /// The number of objects the pool was built with.
    pub pool_size: nat,
    /// The number of allocations made on an empty free list.
    pub allocation_failures: usize,
    /// The largest number of objects that were ever out at once.
    pub peak_usage: nat,
    /// The times of the latest successful allocations, in nanoseconds, oldest
    /// first.
    pub allocation_times: Seq<u64>,
    /// The number of allocation times that are remembered.
    pub window: nat,
}

/// The remembered times after one more was recorded: once the window is full
/// the oldest time makes room.
pub open spec fn record_time(times: Seq<u64>, window: nat, latency_ns: u64) -> Seq<u64> {
    if times.len() >= window && times.len() > 0 {
        times.drop_first().push(latency_ns)
    } else {
        times.push(latency_ns)
    }
}

/// The pool after an allocation that took `latency_ns` nanoseconds.
pub open spec fn allocate_model<T>(p: PoolState<T>, latency_ns: u64) -> PoolState<T> {
    if p.free.len() > 0 {
        PoolState {
            free: p.free.drop_first(),
            total_allocated: p.total_allocated + 1,
            peak_usage: if p.total_allocated + 1 > p.peak_usage {
                p.total_allocated + 1
            } else {
                p.peak_usage
            },
            allocation_times: record_time(p.allocation_times, p.window, latency_ns),
            ..p
        }
    } else {
        PoolState { allocation_failures: next_count(p.allocation_failures), ..p }
    }
}

/// What an allocation returns: the front of the free list, if there is one.
pub open spec fn allocate_result<T>(p: PoolState<T>) -> Option<Box<T>> {
    if p.free.len() > 0 {
        Some(p.free[0])
    } else {
        None
    }
}

/// The pool after `object` was handed back. A pool with nothing outstanding
/// does not take it.
pub open spec fn deallocate_model<T>(p: PoolState<T>, object: Box<T>) -> PoolState<T> {
    if p.total_allocated > 0 {
        PoolState {
            free: p.free.push(object),
            total_allocated: (p.total_allocated - 1) as nat,
            ..p
        }
    } else {
        p
    }
}

/// The sum of the given times.
pub open spec fn total_time(times: Seq<u64>) -> nat
    decreases times.len(),
{
    if times.len() == 0 {
        0
    } else {
        total_time(times.drop_last()) + times.last() as nat
    }
}

/// The mean of the given times, rounded down; zero where there are none.
pub open spec fn average_time(times: Seq<u64>) -> nat {
    if times.len() == 0 {
        0
    } else {
        total_time(times) / times.len()
    }
}

/// The pool after `count` allocations in a row, each taking `latency_ns`.
pub open spec fn allocate_repeatedly<T>(p: PoolState<T>, count: nat, latency_ns: u64) -> PoolState<
    T,
>
    decreases count,
{
    if count == 0 {
        p
    } else {
        allocate_model(allocate_repeatedly(p, (count - 1) as nat, latency_ns), latency_ns)
    }
}

/// A snapshot of a pool's counters.
#[derive(Debug, Clone, Copy, PartialEq, Eq, Structural)]
pub struct PoolStats {
    pub total_allocated: usize,
    pub pool_size: usize,
    pub free_objects: usize,
    pub allocation_failures: usize,
    pub peak_usage: usize,
    /// The mean time of the remembered allocations, in nanoseconds.
    pub avg_allocation_time: u64,
}

/// A bounded free list of pre-allocated `T`, with usage statistics.
pub struct EnterpriseMemoryPool<T> {
    free_list: VecDeque<Box<T>>,
    total_allocated: usize,
    pool_size: usize,
    allocation_failures: usize,
    peak_usage: LockFreeCounter,
    allocation_times: VecDeque<u64>,
    window: usize,
}

impl<T> View for EnterpriseMemoryPool<T> {
    type V = PoolState<T>;

    closed spec fn view(&self) -> PoolState<T> {
        PoolState {
            free: self.free_list@,
            total_allocated: self.total_allocated as nat,
            pool_size: self.pool_size as nat,
            allocation_failures: self.allocation_failures,
            peak_usage: self.peak_usage@ as nat,
            allocation_times: self.allocation_times@,
            window: self.window as nat,
        }
    }
}

/// The accounting that every pool keeps: each of its objects is either free
/// or outstanding, the peak is at least what is outstanding and at most the
/// pool's size, and no more times are remembered than one window holds.
pub open spec fn accounts_balance<T>(p: PoolState<T>) -> bool {
    &&& p.free.len() + p.total_allocated == p.pool_size
    &&& p.total_allocated <= p.peak_usage <= p.pool_size
    &&& p.pool_size <= usize::MAX
    &&& p.allocation_times.len() <= p.window || p.allocation_times.len() <= 1
}

/// The sum of `n` times is at most `n` times the largest 64-bit number.
pub proof fn lemma_total_time_bound(times: Seq<u64>)
    ensures
        total_time(times) <= times.len() * u64::MAX,
    decreases times.len(),
{
    if times.len() > 0 {
        lemma_total_time_bound(times.drop_last());
        assert((times.len() - 1) * u64::MAX + u64::MAX == times.len() * u64::MAX)
            by (nonlinear_arith);
    }
}

impl<T> EnterpriseMemoryPool<T> {
    /// The representation invariant: the accounts of the pool balance.
    pub open spec fn wf(&self) -> bool {
        accounts_balance(self@)
    }

    /// Takes the object at the front of the free list and counts it as
    /// outstanding, or counts the failure on an empty free list. No time is
    /// remembered yet.
    fn take_front(&mut self) -> (object: Option<Box<T>>)
        requires
            old(self).wf(),
        ensures
            final(self).wf(),
            object == allocate_result(old(self)@),
            final(self)@ == (PoolState {
                allocation_times: old(self)@.allocation_times,
                ..allocate_model(old(self)@, 0)
            }),
    {
        match self.free_list.pop_front() {
            Some(object) => {
                let current_allocated = self.total_allocated + 1;
                self.total_allocated = current_allocated;
                self.peak_usage.raise_to(current_allocated);
                proof {
                    assert(self.free_list@ =~= old(self)@.free.drop_first());
                }
                Some(object)
            },
            None => {
                self.allocation_failures = self.allocation_failures.wrapping_add(1);
                None
            },
        }
    }

    /// Remembers the time of an allocation; once the window is full the
    /// oldest time makes room.
    fn remember_time(&mut self, latency_ns: u64)
        requires
            old(self).wf(),
        ensures
            final(self).wf(),
            final(self)@ == (PoolState {
                allocation_times: record_time(
                    old(self)@.allocation_times,
                    old(self)@.window,
                    latency_ns,
                ),
                ..old(self)@
            }),
    {
        if self.allocation_times.len() >= self.window {
            let _ = self.allocation_times.pop_front();
        }
        self.allocation_times.push_back(latency_ns);
        proof {
            let p = old(self)@;
            assert(self.allocation_times@ =~= record_time(
                p.allocation_times,
                p.window,
                latency_ns,
            ));
        }
    }

    /// Takes the object at the front of the free list. `latency_ns` is the time
    /// the allocation took, which is remembered where it succeeds. On an empty
    /// free list the failure is counted and nothing else changes.
    pub fn allocate_timed(&mut self, latency_ns: u64) -> (object: Option<Box<T>>)
        requires
            old(self).wf(),
        ensures
            final(self).wf(),
            final(self)@ == allocate_model(old(self)@, latency_ns),
            object == allocate_result(old(self)@),
    {
        let object = self.take_front();
        if object.is_some() {
            self.remember_time(latency_ns);
        }
        object
    }

    /// Takes the object at the front of the free list and remembers how long
    /// that took by the monotonic clock. The pool ends as `allocate_timed`
    /// leaves it for the time that was measured.
    pub fn allocate(&mut self) -> (object: Option<Box<T>>)
        requires
            old(self).wf(),
        ensures
            final(self).wf(),
            exists|latency_ns: u64| final(self)@ == allocate_model(old(self)@, latency_ns),
            object == allocate_result(old(self)@),
    {
        let start_time = monotonic_now();
        let object = self.take_front();
        if object.is_some() {
            let latency_ns = elapsed_since(&start_time).as_nanos();
            self.remember_time(latency_ns);
            assert(self@ == allocate_model(old(self)@, latency_ns));
        } else {
            assert(self@ == allocate_model(old(self)@, 0));
        }
        object
    }

    /// Hands `object` back to the pool, at the end of the free list. The object
    /// is kept as it is: resetting it is the caller's business. A pool with
    /// nothing outstanding holds all its objects already; it refuses the
    /// object and returns it.
    pub fn deallocate(&mut self, object: Box<T>) -> (refused: Result<(), Box<T>>)
        requires
            old(self).wf(),
        ensures
            final(self).wf(),
            final(self)@ == deallocate_model(old(self)@, object),
            refused == (if old(self)@.total_allocated > 0 {
                Ok::<(), Box<T>>(())
            } else {
                Err::<(), Box<T>>(object)
            }),
    {
        if self.total_allocated == 0 {
            return Err(object);
        }
        self.total_allocated = self.total_allocated - 1;
        self.free_list.push_back(object);
        Ok(())
    }

    /// The pool's counters and the mean of the remembered allocation times.
    pub fn get_stats(&self) -> (stats: PoolStats)
        requires
            self.wf(),
        ensures
            stats.total_allocated == self@.total_allocated,
            stats.pool_size == self@.pool_size,
            stats.free_objects == self@.free.len(),
            stats.allocation_failures == self@.allocation_failures,
            stats.peak_usage == self@.peak_usage,
            stats.avg_allocation_time == average_time(self@.allocation_times),
    {
        let count = self.allocation_times.len();
        let mut sum: u128 = 0;
        let mut i: usize = 0;
        while i < count
            invariant
                i <= count,
                count == self.allocation_times@.len(),
                sum == total_time(self.allocation_times@.take(i as int)),
            decreases count - i,
        {
            proof {
                let times = self.allocation_times@;
                lemma_total_time_bound(times.take(i as int));
                assert(times.take(i + 1).drop_last() =~= times.take(i as int));
                assert(i * u64::MAX + u64::MAX <= usize::MAX * u64::MAX + u64::MAX)
                    by (nonlinear_arith)
                    requires
                        i <= usize::MAX,
                ;
            }
            sum = sum + (self.allocation_times[i] as u128);
            i += 1;
        }
        proof {
            let times = self.allocation_times@;
            assert(times.take(count as int) =~= times);
            lemma_total_time_bound(times);
            if count > 0 {
                assert(sum / (count as u128) <= u64::MAX) by (nonlinear_arith)
                    requires
                        sum <= count * u64::MAX,
                        count > 0,
                ;
            }
        }
        let avg_allocation_time: u64 = if count > 0 {
            (sum / (count as u128)) as u64
        } else {
            0
        };
        PoolStats {
            total_allocated: self.total_allocated,
            pool_size: self.pool_size,
            free_objects: self.free_list.len(),
            allocation_failures: self.allocation_failures,
            peak_usage: self.peak_usage.load(),
            avg_allocation_time,
        }
    }
}

/// Whether `p` is a pool of `pool_size` objects on which nothing has been
/// called yet.
pub open spec fn is_fresh<T>(p: PoolState<T>, pool_size: nat, window: nat) -> bool {
    &&& p.free.len() == pool_size
    &&& p.total_allocated == 0
    &&& p.pool_size == pool_size
    &&& p.allocation_failures == 0
    &&& p.peak_usage == 0
    &&& p.allocation_times.len() == 0
    &&& p.window == window
}

impl<T: Default> EnterpriseMemoryPool<T> {
    /// A pool of [`POOL_SIZE`] default objects that remembers the latest
    /// [`MONITORING_WINDOW`] allocation times.
    pub fn new() -> (pool: Self)
        ensures
            pool.wf(),
            is_fresh(pool@, POOL_SIZE as nat, MONITORING_WINDOW as nat),
            forall|i: int| 0 <= i < pool@.free.len() ==> T::default.ensures((), *pool@.free[i]),
    {
        Self::with_config(POOL_SIZE, MONITORING_WINDOW)
    }

    /// A pool of `pool_size` default objects that remembers the latest `window`
    /// allocation times.
    pub fn with_config(pool_size: usize, window: usize) -> (pool: Self)
        ensures
            pool.wf(),
            is_fresh(pool@, pool_size as nat, window as nat),
            forall|i: int| 0 <= i < pool@.free.len() ==> T::default.ensures((), *pool@.free[i]),
    {
        let mut free_list: VecDeque<Box<T>> = VecDeque::with_capacity(pool_size);
        let mut made: usize = 0;
        while made < pool_size
            invariant
                made <= pool_size,
                free_list@.len() == made,
                forall|i: int| 0 <= i < free_list@.len() ==> T::default.ensures((), *free_list@[i]),
            decreases pool_size - made,
        {
            free_list.push_back(Box::new(T::default()));
            made += 1;
        }
        EnterpriseMemoryPool {
            free_list,
            total_allocated: 0,
            pool_size,
            allocation_failures: 0,
            peak_usage: LockFreeCounter::new(),
            allocation_times: VecDeque::with_capacity(window),
            window,
        }
    }
}

/// While objects are free, allocations succeed: `count` allocations on a fresh
/// pool of at least `count` objects leave `count` outstanding, which is also
/// the peak, and count no failure.
pub proof fn lemma_allocations_within_capacity<T>(
    p: PoolState<T>,
    pool_size: nat,
    window: nat,
    count: nat,
    latency_ns: u64,
)
    requires
        is_fresh(p, pool_size, window),
        count <= pool_size,
    ensures
        ({
            let q = allocate_repeatedly(p, count, latency_ns);
            &&& q.free == p.free.skip(count as int)
            &&& q.total_allocated == count
            &&& q.peak_usage == count
            &&& q.allocation_failures == 0
            &&& q.pool_size == pool_size
            &&& q.window == window
        }),
    decreases count,
{
    if count == 0 {
        assert(p.free.skip(0) =~= p.free);
    } else {
        lemma_allocations_within_capacity(p, pool_size, window, (count - 1) as nat, latency_ns);
        let before = allocate_repeatedly(p, (count - 1) as nat, latency_ns);
        assert(before.free.drop_first() =~= p.free.skip(count as int));
    }
}

/// Exhaustion: of `pool_size + 1` allocations on a fresh pool, with nothing
/// handed back in between, the first `pool_size` succeed and exactly the last
/// one fails. Afterwards one failure is counted, and the peak, like the number
/// outstanding, is the size of the pool.
pub proof fn lemma_pool_exhaustion<T>(
    p: PoolState<T>,
    pool_size: nat,
    window: nat,
    latency_ns: u64,
)
    requires
        is_fresh(p, pool_size, window),
    ensures
        forall|k: nat|
            k < pool_size ==> (#[trigger] allocate_result(
                allocate_repeatedly(p, k, latency_ns),
            )).is_some(),
        allocate_result(allocate_repeatedly(p, pool_size, latency_ns)).is_none(),
        ({
            let q = allocate_repeatedly(p, pool_size + 1, latency_ns);
            &&& q.allocation_failures == 1
            &&& q.peak_usage == pool_size
            &&& q.total_allocated == pool_size
            &&& q.free.len() == 0
        }),
{
    assert forall|k: nat| k < pool_size implies (#[trigger] allocate_result(
        allocate_repeatedly(p, k, latency_ns),
    )).is_some() by {
        lemma_allocations_within_capacity(p, pool_size, window, k, latency_ns);
    }
    lemma_allocations_within_capacity(p, pool_size, window, pool_size, latency_ns);
}

} // verus!
