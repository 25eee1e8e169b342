//! The admission pipeline: a queue, a pool and a counter working together.
//!
//! A request is validated, then offered to the queue in a record drawn from
//! the pool. Each admission is counted. A consumer later retires the oldest
//! request, which hands its record back to the pool. A full queue and an
//! exhausted pool are the two signals of overload; both are ordinary results,
//! and neither is retried here.

use vstd::prelude::*;
use vstd::arithmetic::power2::is_pow2;
use crate::clock::{epoch_nanos, epoch_secs};
use crate::counter::{
    increment_model, increments_model, wrapping_succ, CounterState,
    EnterpriseCacheAlignedCounter,
};
use crate::pool::{EnterpriseMemoryPool, POOL_SIZE};
use crate::queue::{SafeBoundedQueue, OPTIMAL_SIZE};
use crate::request::{
    is_stamped, next_sequence, verdict_at, ProductionOptimizedRequest, SequenceCounter,
    ValidationError,
};

verus! {

/// Why a request was not admitted.
#[derive(Debug, Clone, Copy, PartialEq, Eq, Structural)]
pub enum AdmissionError {
    /// The request violates the named constraint.
    ValidationFailed(ValidationError),
    /// The queue is full.
    AdmissionRejected,
    /// The pool has no free record.
    PoolExhausted,
}

/// A request that was turned away, handed back as it came.
#[derive(Debug, Clone, Copy, PartialEq, Eq)]
pub struct Rejection {
    pub request: ProductionOptimizedRequest,
    pub reason: AdmissionError,
}

/// What a pipeline holds.
pub struct PipelineState {
    /// The admitted requests that wait to be retired, oldest first.
    pub queued: Seq<ProductionOptimizedRequest>,
    /// The number of slots of the queue, one of which stays free.
    pub capacity: nat,
    /// The number of free records in the pool.
    pub free_records: nat,
    /// The number of admissions, with the time of the latest.
    pub admissions: CounterState,
    /// The number of requests turned away for each reason, and of requests
    /// retired; each wraps to zero after `u64::MAX`.
    pub invalid: u64,
    pub backpressure: u64,
    pub exhausted: u64,
    pub retired: u64,
}

/// What becomes of `request` when it is offered to the pipeline `p` at `now`
/// nanoseconds: the first of the three reasons that turns it away, if any.
pub open spec fn admission_verdict(
    p: PipelineState,
    request: ProductionOptimizedRequest,
    now: u64,
) -> Result<(), AdmissionError> {
    match verdict_at(request, now) {
        Err(e) => Err(AdmissionError::ValidationFailed(e)),
        Ok(()) => if p.queued.len() + 1 >= p.capacity {
            Err(AdmissionError::AdmissionRejected)
        } else if p.free_records == 0 {
            Err(AdmissionError::PoolExhausted)
        } else {
            Ok(())
        },
    }
}

/// The pipeline after `request` was offered to it at `now` nanoseconds,
/// `now_secs` seconds, since the Unix epoch.
pub open spec fn submit_model(
    p: PipelineState,
    request: ProductionOptimizedRequest,
    now: u64,
    now_secs: u64,
) -> PipelineState {
    match admission_verdict(p, request, now) {
        Ok(()) => PipelineState {
            queued: p.queued.push(request),
            free_records: (p.free_records - 1) as nat,
            admissions: increment_model(p.admissions, now_secs),
            ..p
        },
        Err(AdmissionError::ValidationFailed(_)) => PipelineState {
            invalid: wrapping_succ(p.invalid),
            ..p
        },
        Err(AdmissionError::AdmissionRejected) => PipelineState {
            backpressure: wrapping_succ(p.backpressure),
            ..p
        },
        Err(AdmissionError::PoolExhausted) => PipelineState {
            exhausted: wrapping_succ(p.exhausted),
            ..p
        },
    }
}

/// The pipeline after its oldest request, if any, was retired.
pub open spec fn retire_model(p: PipelineState) -> PipelineState {
    if p.queued.len() > 0 {
        PipelineState {
            queued: p.queued.drop_first(),
            free_records: p.free_records + 1,
            retired: wrapping_succ(p.retired),
            ..p
        }
    } else {
        p
    }
}

/// No record is lost: whatever is offered and whatever is retired, the records
/// that wait in the queue and the free records of the pool together stay as
/// many as they were.
pub proof fn lemma_records_are_conserved(
    p: PipelineState,
    request: ProductionOptimizedRequest,
    now: u64,
    now_secs: u64,
)
    ensures
        submit_model(p, request, now, now_secs).queued.len() + submit_model(
            p,
            request,
            now,
            now_secs,
        ).free_records == p.queued.len() + p.free_records,
        retire_model(p).queued.len() + retire_model(p).free_records == p.queued.len()
            + p.free_records,
        submit_model(p, request, now, now_secs).capacity == p.capacity,
        retire_model(p).capacity == p.capacity,
        p.queued.len() + 1 <= p.capacity ==> submit_model(p, request, now, now_secs).queued.len()
            + 1 <= p.capacity,
{
}

/// `start` advanced `steps` times, wrapping to zero after `u64::MAX`.
pub open spec fn wrapping_advance(start: u64, steps: nat) -> u64
    decreases steps,
{
    if steps == 0 {
        start
    } else {
        wrapping_succ(wrapping_advance(start, (steps - 1) as nat))
    }
}

/// The sequence number that is issued after `steps` others, from `start`.
pub open spec fn nth_sequence(start: u64, steps: nat) -> u64
    decreases steps,
{
    if steps == 0 {
        start
    } else {
        next_sequence(nth_sequence(start, (steps - 1) as nat))
    }
}

/// Whether `r` is the request that a run makes in its iteration `i`: stamped
/// at `now` from the sequence number `issued`, then given `i` as its request id
/// and `i % 4` as its priority.
pub open spec fn is_run_request(
    r: ProductionOptimizedRequest,
    i: nat,
    now: u64,
    issued: u64,
) -> bool {
    &&& r.request_id == i as u64
    &&& r.priority == (i % 4) as u32
    &&& is_stamped(ProductionOptimizedRequest { request_id: issued, priority: 0, ..r }, now, issued)
}

/// Whether the pipeline `p` has room for one more request.
pub open spec fn has_room(p: PipelineState) -> bool {
    p.queued.len() + 1 < p.capacity && p.free_records > 0
}

/// What a run of `iterations` iterations at the time `now` makes of the
/// pipeline `before` and of a sequence counter at `issued`. With room, every
/// request is admitted and the oldest waiting request is retired in the same
/// iteration, so the queue keeps its length while its contents move up.
/// Without room every request is turned away for the same reason, and nothing
/// but the count of that reason changes.
pub open spec fn run_outcome(
    before: PipelineState,
    issued: u64,
    after: PipelineState,
    run: PipelineRun,
    iterations: nat,
    now: u64,
    now_secs: u64,
) -> bool {
    let waiting = before.queued.len();
    let admitted = if has_room(before) {
        iterations
    } else {
        0
    };
    &&& run.iterations == iterations
    &&& run.admitted == admitted
    &&& run.processed == admitted
    &&& run.rejected == iterations - admitted
    &&& after.capacity == before.capacity
    &&& after.free_records == before.free_records
    &&& after.queued.len() == waiting
    &&& after.admissions == increments_model(before.admissions, admitted, now_secs)
    &&& after.retired == wrapping_advance(before.retired, admitted)
    &&& after.invalid == before.invalid
    &&& after.backpressure == (if before.queued.len() + 1 >= before.capacity {
        wrapping_advance(before.backpressure, iterations)
    } else {
        before.backpressure
    })
    &&& after.exhausted == (if before.queued.len() + 1 < before.capacity && before.free_records
        == 0 {
        wrapping_advance(before.exhausted, iterations)
    } else {
        before.exhausted
    })
    &&& !has_room(before) ==> after.queued == before.queued
    &&& has_room(before) ==> forall|j: int|
        0 <= j < waiting ==> if j + iterations < waiting {
            #[trigger] after.queued[j] == before.queued[j + iterations]
        } else {
            is_run_request(
                after.queued[j],
                (j + iterations - waiting) as nat,
                now,
                nth_sequence(issued, (j + iterations - waiting) as nat),
            )
        }
}

/// What a run of the pipeline did.
#[derive(Debug, Clone, Copy, PartialEq, Eq, Structural)]
pub struct PipelineRun {
    pub iterations: usize,
    pub admitted: usize,
    pub rejected: usize,
    pub processed: usize,
}

/// A queue of pooled records with the counters of what went through it.
pub struct Pipeline {
    queue: SafeBoundedQueue<Box<ProductionOptimizedRequest>>,
    pool: EnterpriseMemoryPool<ProductionOptimizedRequest>,
    admissions: EnterpriseCacheAlignedCounter,
    invalid: u64,
    backpressure: u64,
    exhausted: u64,
    retired: u64,
}

impl View for Pipeline {
    type V = PipelineState;

    closed spec fn view(&self) -> PipelineState {
        PipelineState {
            queued: Seq::new(self.queue@.len(), |i: int| *self.queue@[i]),
            capacity: self.queue.spec_capacity(),
            free_records: self.pool@.free.len(),
            admissions: self.admissions@,
            invalid: self.invalid,
            backpressure: self.backpressure,
            exhausted: self.exhausted,
            retired: self.retired,
        }
    }
}

impl Pipeline {
    /// The representation invariant: queue and pool are well formed, and the
    /// records that the pool has handed out are the ones that wait in the
    /// queue.
    pub closed spec fn wf(&self) -> bool {
        &&& self.queue.wf()
        &&& self.pool.wf()
        &&& self.pool@.total_allocated == self.queue@.len()
    }

    /// A pipeline with a queue of 1024 slots and a pool of 4096 records, on
    /// which nothing has been called.
    pub fn new() -> (pipeline: Self)
        ensures
            pipeline.wf(),
            pipeline@ == (PipelineState {
                queued: Seq::empty(),
                capacity: OPTIMAL_SIZE as nat,
                free_records: POOL_SIZE as nat,
                admissions: CounterState { value: 0, operations: 0, last_access: 0 },
                invalid: 0,
                backpressure: 0,
                exhausted: 0,
                retired: 0,
            }),
    {
        let pipeline = Pipeline {
            queue: SafeBoundedQueue::new(),
            pool: EnterpriseMemoryPool::new(),
            admissions: EnterpriseCacheAlignedCounter::new(),
            invalid: 0,
            backpressure: 0,
            exhausted: 0,
            retired: 0,
        };
        assert(pipeline@.queued =~= Seq::empty());
        pipeline
    }

    /// A pipeline with a queue of `capacity` slots and a pool of `pool_size`
    /// records that remembers `window` allocation times, or `None` where
    /// `capacity` is not a power of two.
    pub fn with_config(capacity: usize, pool_size: usize, window: usize) -> (made: Option<Self>)
        ensures
            made.is_some() <==> is_pow2(capacity as int),
            made matches Some(pipeline) ==> pipeline.wf() && pipeline@ == (PipelineState {
                queued: Seq::empty(),
                capacity: capacity as nat,
                free_records: pool_size as nat,
                admissions: CounterState { value: 0, operations: 0, last_access: 0 },
                invalid: 0,
                backpressure: 0,
                exhausted: 0,
                retired: 0,
            }),
    {
        match SafeBoundedQueue::with_capacity(capacity) {
            Some(queue) => {
                let pipeline = Pipeline {
                    queue,
                    pool: EnterpriseMemoryPool::with_config(pool_size, window),
                    admissions: EnterpriseCacheAlignedCounter::new(),
                    invalid: 0,
                    backpressure: 0,
                    exhausted: 0,
                    retired: 0,
                };
                assert(pipeline@.queued =~= Seq::empty());
                Some(pipeline)
            },
            None => None,
        }
    }

    /// Offers `request` to the pipeline at `now` nanoseconds, `now_secs`
    /// seconds, since the Unix epoch. A request that is invalid, that finds the
    /// queue full or that finds the pool exhausted comes back unchanged with
    /// the reason, and the rejection is counted.
    pub fn submit(&mut self, request: ProductionOptimizedRequest, now: u64, now_secs: u64) -> (outcome:
        Result<(), Rejection>)
        requires
            old(self).wf(),
        ensures
            final(self).wf(),
            final(self)@ == submit_model(old(self)@, request, now, now_secs),
            outcome == (match admission_verdict(old(self)@, request, now) {
                Ok(()) => Ok::<(), Rejection>(()),
                Err(reason) => Err::<(), Rejection>(Rejection { request, reason }),
            }),
    {
        proof {
            self.queue.lemma_bounds();
        }
        match request.validate_at(now) {
            Err(violated) => {
                self.invalid = self.invalid.wrapping_add(1);
                return Err(
                    Rejection { request, reason: AdmissionError::ValidationFailed(violated) },
                );
            },
            Ok(()) => {},
        }
        if self.queue.is_full() {
            self.backpressure = self.backpressure.wrapping_add(1);
            return Err(Rejection { request, reason: AdmissionError::AdmissionRejected });
        }
        match self.pool.allocate() {
            None => {
                self.exhausted = self.exhausted.wrapping_add(1);
                Err(Rejection { request, reason: AdmissionError::PoolExhausted })
            },
            Some(mut record) => {
                *record = request;
                let ghost before = self.queue@;
                let enqueued = self.queue.enqueue(record);
                let _ = self.admissions.increment_at(now_secs);
                proof {
                    assert(enqueued.is_ok());
                    assert(self.queue@ == before.push(record));
                    assert(self@.queued =~= old(self)@.queued.push(request));
                }
                Ok(())
            },
        }
    }

    /// Retires the oldest request: takes it from the queue, hands its record
    /// back to the pool and returns it. `None` where nothing waits.
    pub fn retire(&mut self) -> (request: Option<ProductionOptimizedRequest>)
        requires
            old(self).wf(),
        ensures
            final(self).wf(),
            final(self)@ == retire_model(old(self)@),
            request == (if old(self)@.queued.len() > 0 {
                Some(old(self)@.queued[0])
            } else {
                None::<ProductionOptimizedRequest>
            }),
    {
        match self.queue.dequeue() {
            Some(record) => {
                let request = *record;
                let _ = self.pool.deallocate(record);
                self.retired = self.retired.wrapping_add(1);
                proof {
                    assert(self@.queued =~= old(self)@.queued.drop_first());
                }
                Some(request)
            },
            None => {
                proof {
                    assert(self@.queued =~= old(self)@.queued);
                }
                None
            },
        }
    }

    /// The number of requests that wait to be retired.
    pub fn queued(&self) -> (count: usize)
        requires
            self.wf(),
        ensures
            count == self@.queued.len(),
    {
        self.queue.len()
    }

    /// The admission counter: the number of admissions, the number of
    /// operations on it, and the time of the latest in seconds.
    pub fn admission_stats(&self) -> (stats: (u64, u64, u64))
        ensures
            stats == (self@.admissions.value, self@.admissions.operations, self@.admissions.last_access),
    {
        self.admissions.get_stats()
    }

    /// The numbers of requests turned away as invalid, by a full queue and by
    /// an exhausted pool, and the number retired.
    pub fn rejection_stats(&self) -> (stats: (u64, u64, u64, u64))
        ensures
            stats == (self@.invalid, self@.backpressure, self@.exhausted, self@.retired),
    {
        (self.invalid, self.backpressure, self.exhausted, self.retired)
    }
    /// Drives the pipeline for `iterations` iterations at the time `now`
    /// nanoseconds, `now_secs` seconds, since the Unix epoch. Each iteration
    /// stamps a request from `sequence`, gives it the iteration's number as its
    /// request id and that number modulo four as its priority, and offers it.
    /// An admitted request is followed by the retirement of the oldest one. A
    /// rejected request is counted and dropped.
    pub fn run_at(
        &mut self,
        sequence: &mut SequenceCounter,
        iterations: usize,
        now: u64,
        now_secs: u64,
    ) -> (run: PipelineRun)
        requires
            old(self).wf(),
        ensures
            final(self).wf(),
            final(sequence)@ == nth_sequence(old(sequence)@, iterations as nat),
            run_outcome(
                old(self)@,
                old(sequence)@,
                final(self)@,
                run,
                iterations as nat,
                now,
                now_secs,
            ),
    {
        let ghost before = self@;
        let ghost issued = sequence@;
        let ghost waiting = before.queued.len();
        let ghost room = has_room(before);
        let mut run = PipelineRun { iterations: 0, admitted: 0, rejected: 0, processed: 0 };
        let mut i: usize = 0;
        while i < iterations
            invariant
                i <= iterations,
                self.wf(),
                waiting == before.queued.len(),
                room == has_room(before),
                sequence@ == nth_sequence(issued, i as nat),
                run_outcome(before, issued, self@, run, i as nat, now, now_secs),
            decreases iterations - i,
        {
            let ghost at_start = self@;
            let mut request = ProductionOptimizedRequest::stamped(now, sequence);
            request.request_id = i as u64;
            request.priority = (i % 4) as u32;
            assert(is_run_request(request, i as nat, now, nth_sequence(issued, i as nat)));
            match self.submit(request, now, now_secs) {
                Ok(()) => {
                    run.admitted = run.admitted + 1;
                    let retired = self.retire();
                    assert(retired.is_some());
                    run.processed = run.processed + 1;
                    proof {
                        let after = self@;
                        let n = i as nat;
                        assert(after.queued =~= at_start.queued.push(request).drop_first());
                        assert forall|j: int| 0 <= j < waiting implies if j + (n + 1) < waiting {
                            #[trigger] after.queued[j] == before.queued[j + (n + 1)]
                        } else {
                            is_run_request(
                                after.queued[j],
                                (j + (n + 1) - waiting) as nat,
                                now,
                                nth_sequence(issued, (j + (n + 1) - waiting) as nat),
                            )
                        } by {
                            if j + 1 < waiting {
                                assert(after.queued[j] == at_start.queued[j + 1]);
                            } else {
                                assert(after.queued[j] == request);
                            }
                        }
                    }
                },
                Err(_) => {
                    run.rejected = run.rejected + 1;
                },
            }
            i += 1;
            run.iterations = i;
        }
        run
    }

    /// Drives the pipeline for `iterations` iterations at the time that the
    /// wall clock reads when the run begins.
    pub fn run(&mut self, sequence: &mut SequenceCounter, iterations: usize) -> (run: PipelineRun)
        requires
            old(self).wf(),
        ensures
            final(self).wf(),
            final(sequence)@ == nth_sequence(old(sequence)@, iterations as nat),
            exists|now: u64, now_secs: u64|
                run_outcome(
                    old(self)@,
                    old(sequence)@,
                    final(self)@,
                    run,
                    iterations as nat,
                    now,
                    now_secs,
                ),
    {
        let now = epoch_nanos();
        let now_secs = epoch_secs();
        self.run_at(sequence, iterations, now, now_secs)
    }
}

} // verus!
