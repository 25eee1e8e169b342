//! Timing of a piece of work, and what a measurement says about the latency
//! target.

use vstd::prelude::*;
use std::time::Instant;
use crate::clock::{elapsed_since, monotonic_now};

verus! {

/// The latency that one request may take at most: 20 ms, in nanoseconds.
pub const TARGET_LATENCY_NS: u64 = 20_000_000;

/// Nanoseconds in one second.
pub const NANOS_PER_SEC: u64 = 1_000_000_000;

/// The ticks between two readings of a counter; zero where the second reading
/// is not after the first.
pub open spec fn elapsed_cycles_model(start: u64, end: u64) -> u64 {
    if end > start {
        (end - start) as u64
    } else {
        0
    }
}

/// The ticks between two readings of a counter.
pub fn elapsed_cycles(start: u64, end: u64) -> (cycles: u64)
    ensures
        cycles == elapsed_cycles_model(start, end),
{
    if end > start {
        end - start
    } else {
        0
    }
}

/// A timer that reads the monotonic clock where no cycle counter is used.
pub struct ProductionHighPrecisionTimer {
    fallback_timer: Instant,
}

impl ProductionHighPrecisionTimer {
    /// A timer that counts from now.
    pub fn new() -> (timer: Self) {
        ProductionHighPrecisionTimer { fallback_timer: monotonic_now() }
    }

    /// A reading of the timer's counter: the nanoseconds since the timer was
    /// made, as far as they fit in 64 bits. Nothing is known of a reading.
    pub fn rdtsc_safe(&self) -> (reading: u64) {
        elapsed_since(&self.fallback_timer).as_nanos()
    }

    /// Runs `work` and measures it. Returns what `work` returned, the time it
    /// took in nanoseconds, and the ticks of the counter that passed. Of the
    /// two measurements nothing is known; the first component is the result of
    /// `work`.
    pub fn measure_precise<F, R>(&self, work: F) -> (measured: (R, u64, u64))
        where F: FnOnce() -> R
        requires
            work.requires(()),
        ensures
            work.ensures((), measured.0),
    {
        let start_instant = monotonic_now();
        let start_tsc = self.rdtsc_safe();
        let result = work();
        let end_tsc = self.rdtsc_safe();
        let duration_ns = elapsed_since(&start_instant).as_nanos();
        let cycles = elapsed_cycles(start_tsc, end_tsc);
        (result, duration_ns, cycles)
    }
}

/// What a measured run says about latency and throughput.
#[derive(Debug, Clone, Copy, PartialEq, Eq, Structural)]
pub struct LatencyReport {
    pub iterations: u64,
    pub total_ns: u64,
    /// The mean time of one iteration in nanoseconds, rounded down.
    pub avg_latency_ns: u64,
    /// Iterations per second, rounded down.
    pub throughput_per_sec: u128,
    pub target_latency_ns: u64,
    /// How many times the mean latency fits into the target.
    pub safety_factor: u64,
    /// Whether the mean latency is below the target.
    pub target_met: bool,
}

/// The report on `iterations` iterations that took `total_ns` nanoseconds in
/// all, held against `target_ns`. A quotient whose divisor is zero is reported
/// as zero.
pub open spec fn report_model(iterations: u64, total_ns: u64, target_ns: u64) -> LatencyReport {
    let avg = if iterations == 0 {
        0
    } else {
        total_ns as int / iterations as int
    };
    LatencyReport {
        iterations,
        total_ns,
        avg_latency_ns: avg as u64,
        throughput_per_sec: (if total_ns == 0 {
            0
        } else {
            (iterations as int * NANOS_PER_SEC as int) / total_ns as int
        }) as u128,
        target_latency_ns: target_ns,
        safety_factor: (if avg == 0 {
            0
        } else {
            target_ns as int / avg
        }) as u64,
        target_met: avg < target_ns,
    }
}

/// Reports on a measured run, against the latency target `target_ns`.
pub fn analyze_latency(iterations: u64, total_ns: u64, target_ns: u64) -> (report: LatencyReport)
    ensures
        report == report_model(iterations, total_ns, target_ns),
{
    let avg_latency_ns: u64 = if iterations == 0 {
        0
    } else {
        total_ns / iterations
    };
    let throughput_per_sec: u128 = if total_ns == 0 {
        0
    } else {
        ((iterations as u128) * (NANOS_PER_SEC as u128)) / (total_ns as u128)
    };
    let safety_factor: u64 = if avg_latency_ns == 0 {
        0
    } else {
        target_ns / avg_latency_ns
    };
    LatencyReport {
        iterations,
        total_ns,
        avg_latency_ns,
        throughput_per_sec,
        target_latency_ns: target_ns,
        safety_factor,
        target_met: avg_latency_ns < target_ns,
    }
}

/// One stage of the request path and the time budgeted for it.
#[derive(Debug, Clone, Copy, PartialEq, Eq)]
pub struct LatencyComponent {
    pub name: &'static str,
    pub latency_ns: u64,
    pub description: &'static str,
}

/// The sum of the budgets of `components`.
pub open spec fn total_budget(components: Seq<LatencyComponent>) -> nat
    decreases components.len(),
{
    if components.len() == 0 {
        0
    } else {
        total_budget(components.drop_last()) + components.last().latency_ns as nat
    }
}

/// The sum of the budgets of `components`, or `None` where it does not fit in
/// 64 bits.
pub fn total_latency_ns(components: &Vec<LatencyComponent>) -> (total: Option<u64>)
    ensures
        total == (if total_budget(components@) <= u64::MAX {
            Some(total_budget(components@) as u64)
        } else {
            None::<u64>
        }),
{
    let mut sum: u64 = 0;
    let mut i: usize = 0;
    while i < components.len()
        invariant
            i <= components@.len(),
            sum == total_budget(components@.take(i as int)),
        decreases components@.len() - i,
    {
        proof {
            assert(components@.take(i + 1).drop_last() =~= components@.take(i as int));
            lemma_total_budget_grows(components@, i + 1);
        }
        match sum.checked_add(components[i].latency_ns) {
            Some(next) => {
                sum = next;
            },
            None => {
                return None;
            },
        }
        i += 1;
    }
    proof {
        assert(components@.take(i as int) =~= components@);
    }
    Some(sum)
}

/// The budget of a prefix is at most the budget of the whole.
pub proof fn lemma_total_budget_grows(components: Seq<LatencyComponent>, n: int)
    requires
        0 <= n <= components.len(),
    ensures
        total_budget(components.take(n)) <= total_budget(components),
    decreases components.len() - n,
{
    if n < components.len() {
        lemma_total_budget_grows(components, n + 1);
        assert(components.take(n + 1).drop_last() =~= components.take(n));
    } else {
        assert(components.take(n) =~= components);
    }
}

/// The budget of the production request path, stage by stage: 1120 ns in all.
pub fn production_latency_budget() -> (components: Vec<LatencyComponent>)
    ensures
        components@.len() == 9,
        components@[0].latency_ns == 500,
        components@[1].latency_ns == 50,
        components@[2].latency_ns == 5,
        components@[3].latency_ns == 15,
        components@[4].latency_ns == 3,
        components@[5].latency_ns == 2,
        components@[6].latency_ns == 25,
        components@[7].latency_ns == 20,
        components@[8].latency_ns == 500,
        total_budget(components@) == 1120,
{
    let mut components: Vec<LatencyComponent> = Vec::new();
    components.push(
        LatencyComponent {
            name: "Network RX",
            latency_ns: 500,
            description: "NIC processing + DMA",
        },
    );
    components.push(
        LatencyComponent {
            name: "Kernel->User Copy",
            latency_ns: 50,
            description: "Context switch + memcpy",
        },
    );
    components.push(
        LatencyComponent { name: "Bounds Check", latency_ns: 5, description: "Safety validation" },
    );
    components.push(
        LatencyComponent {
            name: "Queue Lookup",
            latency_ns: 15,
            description: "Atomic load + bit mask",
        },
    );
    components.push(
        LatencyComponent { name: "Cache Line Access", latency_ns: 3, description: "L1 cache hit" },
    );
    components.push(
        LatencyComponent {
            name: "Prefetch Overhead",
            latency_ns: 2,
            description: "CPU prefetch instruction",
        },
    );
    components.push(
        LatencyComponent {
            name: "Processing Logic",
            latency_ns: 25,
            description: "Business logic execution",
        },
    );
    components.push(
        LatencyComponent {
            name: "Response Serialize",
            latency_ns: 20,
            description: "JSON/binary serialization",
        },
    );
    components.push(
        LatencyComponent { name: "Network TX", latency_ns: 500, description: "NIC transmission" },
    );
    proof {
        reveal_with_fuel(total_budget, 10);
    }
    components
}

} // verus!
