//! The request record that flows through the pipeline.
//!
//! A record is sixty-four bytes of plain data. Its hot fields come first
//! (timestamp, request id, priority, flags, sequence number), then the warm
//! ones (correlation id, timeout, retry count), then sixteen bytes of metadata
//! that the pipeline never reads.

use vstd::prelude::*;
use crate::clock::epoch_nanos;
use crate::counter::wrapping_succ;

verus! {

/// How far ahead of the clock a timestamp may lie: one second.
pub const MAX_CLOCK_SKEW_NS: u64 = 1_000_000_000;

/// The oldest a record may be: five minutes.
pub const MAX_AGE_NS: u64 = 300_000_000_000;

/// The highest priority.
pub const MAX_PRIORITY: u32 = 255;

/// The shortest timeout, in milliseconds.
pub const MIN_TIMEOUT_MS: u32 = 1;

/// The longest timeout, in milliseconds.
pub const MAX_TIMEOUT_MS: u32 = 300_000;

/// The timeout of a new record, in milliseconds.
pub const DEFAULT_TIMEOUT_MS: u32 = 5000;

/// What one step of priority is worth in a priority score.
pub const PRIORITY_WEIGHT: u64 = 1_000_000_000;

/// The priority score of a record of priority zero that is made this instant.
/// It leaves room above it for the weight of the highest priority that the
/// field can hold, so that no score ever exceeds `u64::MAX`, and below it for
/// an age of some 448 years.
pub const SCORE_BASE: u64 = 14_151_776_778_709_551_615;

/// The source of request ids and sequence numbers. It starts at zero, only
/// ever counts up, and is handed to whoever stamps a record.
pub struct SequenceCounter {
    issued: u64,
}

impl View for SequenceCounter {
    type V = u64;

    /// The number that the next record will get as its request id.
    closed spec fn view(&self) -> u64 {
        self.issued
    }
}

/// The sequence number that follows `n`: its successor, wrapping to zero
/// after `u64::MAX`.
pub open spec fn next_sequence(n: u64) -> u64 {
    wrapping_succ(n)
}

impl SequenceCounter {
    /// A counter that has issued nothing.
    pub fn new() -> (counter: Self)
        ensures
            counter@ == 0,
    {
        SequenceCounter { issued: 0 }
    }

    /// Issues the next number and moves on by one.
    pub fn issue(&mut self) -> (number: u64)
        ensures
            number == old(self)@,
            final(self)@ == next_sequence(old(self)@),
    {
        let number = self.issued;
        self.issued = number.wrapping_add(1);
        number
    }

    /// The number that the next call of `issue` will return.
    pub fn current(&self) -> (number: u64)
        ensures
            number == self@,
    {
        self.issued
    }
}

/// The constraint that a rejected record violates.
#[derive(Debug, Clone, Copy, PartialEq, Eq, Structural)]
pub enum ValidationError {
    /// The timestamp lies more than the clock skew ahead of now.
    FutureTimestamp,
    /// The timestamp lies more than the maximum age behind now.
    StaleTimestamp,
    /// The priority is above 255.
    PriorityOutOfRange,
    /// The timeout is outside 1 to 300000 milliseconds.
    TimeoutOutOfRange,
}

/// One request as the pipeline sees it.
#[derive(Debug, Clone, Copy, PartialEq, Eq)]
pub struct ProductionOptimizedRequest {
    /// Nanoseconds since the Unix epoch at which the record was made.
    pub timestamp: u64,
    pub request_id: u64,
    pub priority: u32,
    pub flags: u32,
    pub sequence_number: u64,
    pub correlation_id: u64,
    pub timeout_ms: u32,
    pub retry_count: u32,
    pub metadata: [u8; 16],
}

/// The compact record: fifty-six bytes, with the fields that are read most at
/// the front and thirty-two bytes of metadata.
#[derive(Debug, Clone, Copy, PartialEq, Eq)]
pub struct OptimizedRequest {
    /// Nanoseconds since the Unix epoch at which the record was made.
    pub timestamp: u64,
    pub request_id: u64,
    pub priority: u32,
    pub flags: u32,
    pub metadata: [u8; 32],
}

impl OptimizedRequest {
    /// A record made at `now`, nanoseconds since the Unix epoch, with every
    /// other field at zero.
    pub fn stamped(now: u64) -> (record: Self)
        ensures
            record.timestamp == now,
            record.request_id == 0,
            record.priority == 0,
            record.flags == 0,
            forall|i: int| 0 <= i < 32 ==> record.metadata[i] == 0,
    {
        OptimizedRequest { timestamp: now, request_id: 0, priority: 0, flags: 0, metadata: [0u8; 32] }
    }

    /// A record made now, with every other field at zero.
    pub fn new() -> (record: Self)
        ensures
            record.request_id == 0,
            record.priority == 0,
            record.flags == 0,
            forall|i: int| 0 <= i < 32 ==> record.metadata[i] == 0,
    {
        Self::stamped(epoch_nanos())
    }
}

/// The age at `now` of a record stamped at `timestamp`; zero for a timestamp
/// that lies ahead.
pub open spec fn age_at(timestamp: u64, now: u64) -> int {
    if now >= timestamp {
        now - timestamp
    } else {
        0
    }
}

/// The verdict on a record at the time `now`: the first constraint that it
/// violates, in the order timestamp ahead, timestamp behind, priority, timeout.
pub open spec fn verdict_at(r: ProductionOptimizedRequest, now: u64) -> Result<
    (),
    ValidationError,
> {
    if r.timestamp > now + MAX_CLOCK_SKEW_NS {
        Err(ValidationError::FutureTimestamp)
    } else if age_at(r.timestamp, now) > MAX_AGE_NS {
        Err(ValidationError::StaleTimestamp)
    } else if r.priority > MAX_PRIORITY {
        Err(ValidationError::PriorityOutOfRange)
    } else if r.timeout_ms < MIN_TIMEOUT_MS || r.timeout_ms > MAX_TIMEOUT_MS {
        Err(ValidationError::TimeoutOutOfRange)
    } else {
        Ok(())
    }
}

/// Whether a record is admissible at the time `now`.
pub open spec fn valid_at(r: ProductionOptimizedRequest, now: u64) -> bool {
    &&& r.timestamp <= now + MAX_CLOCK_SKEW_NS
    &&& age_at(r.timestamp, now) <= MAX_AGE_NS
    &&& r.priority <= MAX_PRIORITY
    &&& MIN_TIMEOUT_MS <= r.timeout_ms <= MAX_TIMEOUT_MS
}

/// The age that counts in the ordering key: the age, but no more than
/// `SCORE_BASE`.
pub open spec fn counted_age(timestamp: u64, now: u64) -> int {
    if age_at(timestamp, now) > SCORE_BASE {
        SCORE_BASE as int
    } else {
        age_at(timestamp, now)
    }
}

/// The ordering key of a record at the time `now`: the priority, weighted by
/// one thousand million, plus `SCORE_BASE` less the age that counts. The
/// priority is the dominant term; within one priority an older record has the
/// smaller key.
pub open spec fn score_at(r: ProductionOptimizedRequest, now: u64) -> int {
    r.priority * PRIORITY_WEIGHT + (SCORE_BASE - counted_age(r.timestamp, now))
}

/// Whether `r` is the record that `stamped` makes at `now` from the sequence
/// number `issued`.
pub open spec fn is_stamped(r: ProductionOptimizedRequest, now: u64, issued: u64) -> bool {
    &&& r.timestamp == now
    &&& r.request_id == issued
    &&& r.priority == 0
    &&& r.flags == 0
    &&& r.sequence_number == next_sequence(issued)
    &&& r.correlation_id == 0
    &&& r.timeout_ms == DEFAULT_TIMEOUT_MS
    &&& r.retry_count == 0
    &&& forall|i: int| 0 <= i < 16 ==> r.metadata[i] == 0
}

impl Default for ProductionOptimizedRequest {
    /// The record of a new request for a caller that holds no sequence
    /// counter, such as a pool that fills itself: stamped with the current
    /// time, and numbered as the first of a sequence of its own. The records
    /// of one process are numbered by `new`, from the counter of that process.
    fn default() -> (record: Self)
        ensures
            is_stamped(record, record.timestamp, 0),
    {
        let mut sequence = SequenceCounter::new();
        Self::new(&mut sequence)
    }
}

impl ProductionOptimizedRequest {
    /// A record made at `now`, nanoseconds since the Unix epoch. Its request id
    /// is the number that `sequence` issues; its sequence number is the one
    /// that `sequence` stands at afterwards. Every other field has its default.
    pub fn stamped(now: u64, sequence: &mut SequenceCounter) -> (record: Self)
        ensures
            is_stamped(record, now, old(sequence)@),
            final(sequence)@ == next_sequence(old(sequence)@),
    {
        let request_id = sequence.issue();
        let sequence_number = sequence.current();
        ProductionOptimizedRequest {
            timestamp: now,
            request_id,
            priority: 0,
            flags: 0,
            sequence_number,
            correlation_id: 0,
            timeout_ms: DEFAULT_TIMEOUT_MS,
            retry_count: 0,
            metadata: [0u8; 16],
        }
    }

    /// The record of a new request: stamped with the current time and with the
    /// next number of `sequence`, the process-wide source of request ids, which
    /// is handed in by whoever owns it. Apart from the timestamp, which is
    /// whatever the wall clock reads, it is the record that `stamped` makes.
    pub fn new(sequence: &mut SequenceCounter) -> (record: Self)
        ensures
            is_stamped(record, record.timestamp, old(sequence)@),
            final(sequence)@ == next_sequence(old(sequence)@),
    {
        let now = epoch_nanos();
        Self::stamped(now, sequence)
    }

    /// Checks the record at the time `now` and names the constraint it
    /// violates, if any.
    pub fn validate_at(&self, now: u64) -> (verdict: Result<(), ValidationError>)
        ensures
            verdict == verdict_at(*self, now),
            verdict.is_ok() == valid_at(*self, now),
    {
        let age = now.saturating_sub(self.timestamp);
        if self.timestamp > now.saturating_add(MAX_CLOCK_SKEW_NS) {
            Err(ValidationError::FutureTimestamp)
        } else if age > MAX_AGE_NS {
            Err(ValidationError::StaleTimestamp)
        } else if self.priority > MAX_PRIORITY {
            Err(ValidationError::PriorityOutOfRange)
        } else if self.timeout_ms < MIN_TIMEOUT_MS || self.timeout_ms > MAX_TIMEOUT_MS {
            Err(ValidationError::TimeoutOutOfRange)
        } else {
            Ok(())
        }
    }

    /// Whether the record is admissible at the time `now`.
    pub fn is_valid_at(&self, now: u64) -> (valid: bool)
        ensures
            valid == valid_at(*self, now),
    {
        self.validate_at(now).is_ok()
    }

    /// Whether the record is admissible now: the answer of `is_valid_at` for
    /// the time that the wall clock reads. Whatever that time is, a priority
    /// above 255 or a timeout outside 1 to 300000 is rejected.
    pub fn is_valid(&self) -> (valid: bool)
        ensures
            exists|now: u64| valid == valid_at(*self, now),
            valid ==> self.priority <= MAX_PRIORITY,
            valid ==> MIN_TIMEOUT_MS <= self.timeout_ms <= MAX_TIMEOUT_MS,
    {
        let now = epoch_nanos();
        self.is_valid_at(now)
    }

    /// The ordering key of the record at the time `now`. The sum always fits
    /// in 64 bits.
    pub fn priority_score_at(&self, now: u64) -> (score: u64)
        ensures
            score == score_at(*self, now),
    {
        let age = now.saturating_sub(self.timestamp);
        let counted = if age > SCORE_BASE {
            SCORE_BASE
        } else {
            age
        };
        proof {
            lemma_weight_fits(self.priority);
        }
        let weighted: u64 = (self.priority as u64) * PRIORITY_WEIGHT;
        weighted + (SCORE_BASE - counted)
    }

    /// The ordering key of the record now: the key of `priority_score_at` for
    /// the time that the wall clock reads. Whatever that time is, the key is
    /// at least the weighted priority and at most that plus `SCORE_BASE`.
    pub fn priority_score(&self) -> (score: u64)
        ensures
            exists|now: u64| score == score_at(*self, now),
            self.priority * PRIORITY_WEIGHT <= score <= self.priority * PRIORITY_WEIGHT
                + SCORE_BASE,
    {
        let now = epoch_nanos();
        self.priority_score_at(now)
    }
}

/// The weight of any priority that the field can hold leaves room for
/// `SCORE_BASE` below `u64::MAX`.
pub proof fn lemma_weight_fits(priority: u32)
    ensures
        0 <= priority * PRIORITY_WEIGHT <= u64::MAX - SCORE_BASE,
{
    assert(priority * PRIORITY_WEIGHT <= 0xffff_ffff * PRIORITY_WEIGHT) by (nonlinear_arith)
        requires
            priority <= 0xffff_ffff,
    ;
}

/// Every ordering key fits in 64 bits.
pub proof fn lemma_score_fits(r: ProductionOptimizedRequest, now: u64)
    ensures
        0 <= score_at(r, now) <= u64::MAX,
{
    lemma_weight_fits(r.priority);
}

/// A record is valid at the moment it is stamped, and stays valid for five
/// minutes.
pub proof fn lemma_stamped_is_valid(
    r: ProductionOptimizedRequest,
    stamp: u64,
    issued: u64,
    now: u64,
)
    requires
        is_stamped(r, stamp, issued),
        stamp <= now,
        now - stamp <= MAX_AGE_NS,
    ensures
        valid_at(r, now),
        verdict_at(r, now) == Ok::<(), ValidationError>(()),
{
}

/// A record is valid exactly when no constraint is named against it.
pub proof fn lemma_verdict_agrees(r: ProductionOptimizedRequest, now: u64)
    ensures
        verdict_at(r, now).is_ok() == valid_at(r, now),
{
}

/// The priority is the dominant term of the key: of two records of the same
/// timestamp, the one of higher priority has the strictly larger key, and the
/// keys differ by the difference of the priorities, weighted.
pub proof fn lemma_priority_dominates(
    a: ProductionOptimizedRequest,
    b: ProductionOptimizedRequest,
    now: u64,
)
    requires
        a.timestamp == b.timestamp,
        a.priority < b.priority,
    ensures
        score_at(b, now) - score_at(a, now) == (b.priority - a.priority) * PRIORITY_WEIGHT,
        score_at(a, now) < score_at(b, now),
{
    assert(b.priority * PRIORITY_WEIGHT - a.priority * PRIORITY_WEIGHT == (b.priority
        - a.priority) * PRIORITY_WEIGHT) by (nonlinear_arith);
    assert((b.priority - a.priority) * PRIORITY_WEIGHT > 0) by (nonlinear_arith)
        requires
            b.priority - a.priority > 0,
    ;
}

/// Within one priority the older record sorts first: of two records of the
/// same priority, neither stamped after `now`, the one with the earlier
/// timestamp has the strictly smaller key, and the keys differ by the
/// difference of the timestamps. This holds as long as the older record is no
/// older than `SCORE_BASE` nanoseconds.
pub proof fn lemma_older_sorts_first(
    a: ProductionOptimizedRequest,
    b: ProductionOptimizedRequest,
    now: u64,
)
    requires
        a.priority == b.priority,
        a.timestamp < b.timestamp <= now,
        now - a.timestamp <= SCORE_BASE,
    ensures
        score_at(b, now) - score_at(a, now) == b.timestamp - a.timestamp,
        score_at(a, now) < score_at(b, now),
{
}

/// The key never runs against the order: a higher priority at the same
/// timestamp, or a later timestamp at the same priority, gives a key that is
/// no smaller, whatever the age.
pub proof fn lemma_score_order(a: ProductionOptimizedRequest, b: ProductionOptimizedRequest, now: u64)
    ensures
        a.timestamp == b.timestamp && a.priority <= b.priority ==> score_at(a, now) <= score_at(
            b,
            now,
        ),
        a.priority == b.priority && a.timestamp <= b.timestamp ==> score_at(a, now) <= score_at(
            b,
            now,
        ),
{
    if a.timestamp == b.timestamp && a.priority <= b.priority {
        assert(a.priority * PRIORITY_WEIGHT <= b.priority * PRIORITY_WEIGHT) by (nonlinear_arith)
            requires
                a.priority <= b.priority,
        ;
    }
}

} // verus!
