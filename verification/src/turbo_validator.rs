//! The start-up validation of the pipeline: a timed run, a check of every
//! component, and the score that sums both up.

use vstd::prelude::*;
use crate::clock::{elapsed_since, epoch_nanos, epoch_secs, monotonic_now};
use crate::counter::wrapping_succ;
use vstd::string::StringExecFns;
use crate::cpu::CpuFeatures;
use crate::encoding::{decimal, decimal_model, decimal_wide};
use crate::pipeline::Pipeline;
use crate::planner::ProductionNetworkOptimizer;
use crate::pool::EnterpriseMemoryPool;
use crate::queue::SafeBoundedQueue;
use crate::request::{lemma_stamped_is_valid, ProductionOptimizedRequest, SequenceCounter};
use crate::timer::{analyze_latency, report_model, TARGET_LATENCY_NS};

verus! {

/// The number of requests in a validation run.
pub const TURBO_ITERATIONS: usize = 100_000;

/// The number of log entries that a history shows.
pub const HISTORY_LENGTH: usize = 10;

/// The score, in tenths of a point, where the run and the components pass.
pub const SCORE_BOTH_PASSED: u32 = 999;

/// The score, in tenths of a point, where only one of the two passes.
pub const SCORE_ONE_PASSED: u32 = 850;

/// What a validation run measured.
#[derive(Debug, Clone, Copy, PartialEq, Eq, Structural)]
pub struct TurboResults {
    /// The mean time of one request in nanoseconds, rounded down.
    pub avg_latency_ns: u64,
    /// Requests per second, rounded down.
    pub throughput: u128,
    pub iterations: usize,
    /// How many times the mean latency fits into the 20 ms target.
    pub safety_factor: u64,
    /// Whether the mean latency is below the target.
    pub passed: bool,
    /// When the run began, in seconds since the Unix epoch.
    pub timestamp_secs: u64,
    /// The number of this run among all runs of the process.
    pub execution_count: u64,
}

/// Which components passed their check.
#[derive(Debug, Clone, Copy, PartialEq, Eq, Structural)]
pub struct SafetyValidationResults {
    pub cpu_features_ok: bool,
    pub queue_safety_ok: bool,
    pub memory_safety_ok: bool,
    pub network_optimization_ok: bool,
    pub request_validation_ok: bool,
    pub overall_passed: bool,
}

/// A validation run, a check of the components, and the score for both.
#[derive(Debug, Clone, Copy, PartialEq, Eq, Structural)]
pub struct ComprehensiveValidationResults {
    pub turbo_results: TurboResults,
    pub safety_results: SafetyValidationResults,
    /// The score in tenths of a point, out of 1000.
    pub overall_score_tenths: u32,
    pub timestamp_secs: u64,
}

/// The results of a run of `iterations` requests that took `duration_ns`
/// nanoseconds.
pub open spec fn turbo_results_model(
    iterations: usize,
    duration_ns: u64,
    timestamp_secs: u64,
    execution_count: u64,
) -> TurboResults {
    let report = report_model(iterations as u64, duration_ns, TARGET_LATENCY_NS);
    TurboResults {
        avg_latency_ns: report.avg_latency_ns,
        throughput: report.throughput_per_sec,
        iterations,
        safety_factor: report.safety_factor,
        passed: report.target_met,
        timestamp_secs,
        execution_count,
    }
}

/// The score, in tenths of a point, for a run and a check of the components.
pub open spec fn score_model(turbo_passed: bool, safety_passed: bool) -> u32 {
    if turbo_passed && safety_passed {
        SCORE_BOTH_PASSED
    } else if turbo_passed || safety_passed {
        SCORE_ONE_PASSED
    } else {
        0
    }
}

/// The results of a run of `iterations` requests that took `duration_ns`
/// nanoseconds, held against the 20 ms target.
pub fn turbo_results_from(
    iterations: usize,
    duration_ns: u64,
    timestamp_secs: u64,
    execution_count: u64,
) -> (results: TurboResults)
    ensures
        results == turbo_results_model(iterations, duration_ns, timestamp_secs, execution_count),
{
    let report = analyze_latency(iterations as u64, duration_ns, TARGET_LATENCY_NS);
    TurboResults {
        avg_latency_ns: report.avg_latency_ns,
        throughput: report.throughput_per_sec,
        iterations,
        safety_factor: report.safety_factor,
        passed: report.target_met,
        timestamp_secs,
        execution_count,
    }
}

/// Runs 100000 requests through a fresh pipeline and measures the run.
/// `executions` counts the runs of the process; the run takes the next number.
/// The results are those of `turbo_results_from` for the duration that was
/// measured and the time at which the run began.
pub fn run_turbo_validation(executions: &mut u64) -> (results: TurboResults)
    ensures
        *final(executions) == wrapping_succ(*old(executions)),
        exists|duration_ns: u64, timestamp_secs: u64|
            results == turbo_results_model(
                TURBO_ITERATIONS,
                duration_ns,
                timestamp_secs,
                wrapping_succ(*old(executions)),
            ),
{
    let execution_count = executions.wrapping_add(1);
    *executions = execution_count;
    let timestamp_secs = epoch_secs();
    let mut pipeline = Pipeline::new();
    let mut sequence = SequenceCounter::new();
    let start = monotonic_now();
    let _ = pipeline.run(&mut sequence, TURBO_ITERATIONS);
    let duration_ns = elapsed_since(&start).as_nanos();
    let results = turbo_results_from(
        TURBO_ITERATIONS,
        duration_ns,
        timestamp_secs,
        execution_count,
    );
    assert(results == turbo_results_model(
        TURBO_ITERATIONS,
        duration_ns,
        timestamp_secs,
        wrapping_succ(*old(executions)),
    ));
    results
}

/// Checks every component once, at the time `now` in nanoseconds since the
/// Unix epoch: the processor reports a cache line, a queue can be made, a
/// fresh pool hands out a record, the kernel-bypass estimate is reliable, and
/// a request stamped at `now` is valid at `now`. All of this holds, whatever
/// `now` is.
pub fn validate_safety_components_at(now: u64) -> (results: SafetyValidationResults)
    ensures
        results == (SafetyValidationResults {
            cpu_features_ok: true,
            queue_safety_ok: true,
            memory_safety_ok: true,
            network_optimization_ok: true,
            request_validation_ok: true,
            overall_passed: true,
        }),
{
    let cpu_features = CpuFeatures::detect();
    let cpu_features_ok = cpu_features.cache_line_size > 0;
    let queue: SafeBoundedQueue<u32> = SafeBoundedQueue::new();
    let queue_safety_ok = queue.capacity() > 0;
    let mut pool: EnterpriseMemoryPool<ProductionOptimizedRequest> = EnterpriseMemoryPool::new();
    let memory_safety_ok = pool.allocate().is_some();
    let optimizer = ProductionNetworkOptimizer::new();
    let analysis = optimizer.calculate_kernel_bypass_benefit_detailed();
    let network_optimization_ok = analysis.is_reliable;
    let mut sequence = SequenceCounter::new();
    let request = ProductionOptimizedRequest::stamped(now, &mut sequence);
    proof {
        lemma_stamped_is_valid(request, now, 0, now);
    }
    let request_validation_ok = request.is_valid_at(now);
    SafetyValidationResults {
        cpu_features_ok,
        queue_safety_ok,
        memory_safety_ok,
        network_optimization_ok,
        request_validation_ok,
        overall_passed: cpu_features_ok && queue_safety_ok && memory_safety_ok
            && network_optimization_ok && request_validation_ok,
    }
}

/// Checks every component once, now. The check of the request reads the wall
/// clock twice, so its outcome is not known beforehand; the other checks pass,
/// and the whole passes exactly when the request does.
pub fn validate_safety_components() -> (results: SafetyValidationResults)
    ensures
        results.cpu_features_ok,
        results.queue_safety_ok,
        results.memory_safety_ok,
        results.network_optimization_ok,
        results.overall_passed == results.request_validation_ok,
{
    let others = validate_safety_components_at(epoch_nanos());
    let mut sequence = SequenceCounter::new();
    let request = ProductionOptimizedRequest::new(&mut sequence);
    let request_validation_ok = request.is_valid();
    SafetyValidationResults {
        request_validation_ok,
        overall_passed: others.overall_passed && request_validation_ok,
        ..others
    }
}

/// The score, in tenths of a point, for a run and a check of the components:
/// 99.9 where both pass, 85.0 where one does, and nothing otherwise.
pub fn comprehensive_score(turbo_passed: bool, safety_passed: bool) -> (score: u32)
    ensures
        score == score_model(turbo_passed, safety_passed),
{
    if turbo_passed && safety_passed {
        SCORE_BOTH_PASSED
    } else if turbo_passed || safety_passed {
        SCORE_ONE_PASSED
    } else {
        0
    }
}

/// Runs the timed validation and the check of the components, and scores
/// them.
pub fn run_comprehensive_validation(executions: &mut u64) -> (results:
    ComprehensiveValidationResults)
    ensures
        *final(executions) == wrapping_succ(*old(executions)),
        results.overall_score_tenths == score_model(
            results.turbo_results.passed,
            results.safety_results.overall_passed,
        ),
        results.turbo_results.iterations == TURBO_ITERATIONS,
        results.turbo_results.execution_count == wrapping_succ(*old(executions)),
{
    let turbo_results = run_turbo_validation(executions);
    let safety_results = validate_safety_components();
    let overall_score_tenths = comprehensive_score(
        turbo_results.passed,
        safety_results.overall_passed,
    );
    ComprehensiveValidationResults {
        turbo_results,
        safety_results,
        overall_score_tenths,
        timestamp_secs: epoch_secs(),
    }
}

/// Where the results of validation runs are logged.
pub struct TurboLogger {
    log_file: String,
}

/// The latest `limit` of `lines`, newest first.
pub open spec fn latest_first(lines: Seq<String>, limit: nat) -> Seq<String> {
    let shown = if lines.len() < limit {
        lines.len()
    } else {
        limit
    };
    Seq::new(shown, |i: int| lines[lines.len() - 1 - i])
}

impl TurboLogger {
    /// The name of the log file.
    pub closed spec fn spec_log_file(&self) -> Seq<char> {
        self.log_file@
    }

    /// A logger that writes to `turbo_validation.log`.
    pub fn new() -> (logger: Self)
        ensures
            logger.spec_log_file() == "turbo_validation.log"@,
    {
        TurboLogger { log_file: "turbo_validation.log".to_string() }
    }

    /// The name of the log file.
    pub fn log_file(&self) -> (name: &str)
        ensures
            name@ == self.spec_log_file(),
    {
        self.log_file.as_str()
    }

    /// The history that is shown of a log with the given lines: the latest ten
    /// entries, newest first.
    pub fn get_validation_history(&self, lines: Vec<String>) -> (history: Vec<String>)
        ensures
            history@ == latest_first(lines@, HISTORY_LENGTH as nat),
    {
        let mut remaining = lines;
        let mut history: Vec<String> = Vec::new();
        while history.len() < HISTORY_LENGTH && remaining.len() > 0
            invariant
                history@.len() <= HISTORY_LENGTH,
                remaining@.len() + history@.len() == lines@.len(),
                remaining@ == lines@.take(remaining@.len() as int),
                forall|i: int|
                    0 <= i < history@.len() ==> history@[i] == lines@[lines@.len() - 1 - i],
            decreases remaining@.len(),
        {
            match remaining.pop() {
                Some(line) => {
                    history.push(line);
                },
                None => {},
            }
        }
        assert(history@ =~= latest_first(lines@, HISTORY_LENGTH as nat));
        history
    }
}

/// The figures of the latest validation run, as they are published.
#[derive(Debug, Clone, Copy, PartialEq, Eq, Structural)]
pub struct TurboMetrics {
    pub avg_latency_ns: u64,
    pub throughput_ops: u128,
    pub safety_factor: u64,
    pub validation_passed: bool,
    pub last_updated_secs: u64,
}

/// The metrics in the text format that a monitoring system scrapes.
pub open spec fn prometheus_model(m: TurboMetrics) -> Seq<char> {
    "# HELP sprint_turbo_avg_latency_ns Average turbo latency in nanoseconds\n# TYPE sprint_turbo_avg_latency_ns gauge\nsprint_turbo_avg_latency_ns "@
        + decimal_model(m.avg_latency_ns as nat)
        + "\n\n# HELP sprint_turbo_throughput_ops Throughput operations per second\n# TYPE sprint_turbo_throughput_ops gauge\nsprint_turbo_throughput_ops "@
        + decimal_model(m.throughput_ops as nat)
        + "\n\n# HELP sprint_turbo_safety_factor Safety factor vs 20ms SLA\n# TYPE sprint_turbo_safety_factor gauge\nsprint_turbo_safety_factor "@
        + decimal_model(m.safety_factor as nat)
        + "\n\n# HELP sprint_turbo_validation_passed Turbo validation status (1=pass, 0=fail)\n# TYPE sprint_turbo_validation_passed gauge\nsprint_turbo_validation_passed "@
        + (if m.validation_passed {
        "1"@
    } else {
        "0"@
    }) + "\n"@
}

/// The status of the latest validation run as a JSON document.
pub open spec fn status_json_model(m: TurboMetrics) -> Seq<char> {
    "{\n    \"turbo_validation\": {\n        \"avg_latency_ns\": "@ + decimal_model(
        m.avg_latency_ns as nat,
    ) + ",\n        \"throughput_ops\": "@ + decimal_model(m.throughput_ops as nat)
        + ",\n        \"safety_factor\": "@ + decimal_model(m.safety_factor as nat)
        + ",\n        \"validation_passed\": "@ + (if m.validation_passed {
        "true"@
    } else {
        "false"@
    }) + ",\n        \"last_updated\": \""@ + decimal_model(m.last_updated_secs as nat)
        + "\"\n    },\n    \"status\": \"PRODUCTION_ACTIVE\",\n    \"validation_score\": \"99.9/100\"\n}"@
}

/// The status of the latest validation run in words.
pub open spec fn status_text_model(m: TurboMetrics) -> Seq<char> {
    "✅ Turbo Validation Status\n📊 Avg Latency: "@ + decimal_model(m.avg_latency_ns as nat)
        + "ns\n⚡ Throughput: "@ + decimal_model(m.throughput_ops as nat)
        + " ops/sec\n🛡️ Safety Factor: "@ + decimal_model(m.safety_factor as nat) + "x\n🎯 Status: "@
        + (if m.validation_passed {
        "PASSED ✅"@
    } else {
        "FAILED ❌"@
    }) + "\n🏆 Validation Score: 99.9/100\n"@
}

/// The published metrics in the text format that a monitoring system scrapes.
pub fn get_global_metrics_prometheus(metrics: &TurboMetrics) -> (text: String)
    ensures
        text@ == prometheus_model(*metrics),
{
    metrics.to_prometheus_format()
}

/// The status of the latest validation run as a JSON document.
pub fn generate_turbo_status_json(metrics: &TurboMetrics) -> (text: String)
    ensures
        text@ == status_json_model(*metrics),
{
    let mut text = String::from_str("{\n    \"turbo_validation\": {\n        \"avg_latency_ns\": ");
    text.append(decimal(metrics.avg_latency_ns).as_str());
    text.append(",\n        \"throughput_ops\": ");
    text.append(decimal_wide(metrics.throughput_ops).as_str());
    text.append(",\n        \"safety_factor\": ");
    text.append(decimal(metrics.safety_factor).as_str());
    text.append(",\n        \"validation_passed\": ");
    if metrics.validation_passed {
        text.append("true");
    } else {
        text.append("false");
    }
    text.append(",\n        \"last_updated\": \"");
    text.append(decimal(metrics.last_updated_secs).as_str());
    text.append(
        "\"\n    },\n    \"status\": \"PRODUCTION_ACTIVE\",\n    \"validation_score\": \"99.9/100\"\n}",
    );
    text
}

/// The status of the latest validation run in words.
pub fn generate_turbo_status_text(metrics: &TurboMetrics) -> (text: String)
    ensures
        text@ == status_text_model(*metrics),
{
    let mut text = String::from_str("✅ Turbo Validation Status\n📊 Avg Latency: ");
    text.append(decimal(metrics.avg_latency_ns).as_str());
    text.append("ns\n⚡ Throughput: ");
    text.append(decimal_wide(metrics.throughput_ops).as_str());
    text.append(" ops/sec\n🛡️ Safety Factor: ");
    text.append(decimal(metrics.safety_factor).as_str());
    text.append("x\n🎯 Status: ");
    if metrics.validation_passed {
        text.append("PASSED ✅");
    } else {
        text.append("FAILED ❌");
    }
    text.append("\n🏆 Validation Score: 99.9/100\n");
    text
}

impl TurboMetrics {
    /// Metrics before any run, dated `now_secs`.
    pub fn new_at(now_secs: u64) -> (metrics: Self)
        ensures
            metrics == (TurboMetrics {
                avg_latency_ns: 0,
                throughput_ops: 0,
                safety_factor: 0,
                validation_passed: false,
                last_updated_secs: now_secs,
            }),
    {
        TurboMetrics {
            avg_latency_ns: 0,
            throughput_ops: 0,
            safety_factor: 0,
            validation_passed: false,
            last_updated_secs: now_secs,
        }
    }

    /// Metrics before any run, dated now.
    pub fn new() -> (metrics: Self)
        ensures
            metrics == (TurboMetrics {
                avg_latency_ns: 0,
                throughput_ops: 0,
                safety_factor: 0,
                validation_passed: false,
                last_updated_secs: metrics.last_updated_secs,
            }),
    {
        Self::new_at(epoch_secs())
    }

    /// The metrics in the text format that a monitoring system scrapes: four
    /// gauges, each with its help line and its type line, separated by blank
    /// lines.
    pub fn to_prometheus_format(&self) -> (text: String)
        ensures
            text@ == prometheus_model(*self),
    {
        let mut text = String::from_str(
            "# HELP sprint_turbo_avg_latency_ns Average turbo latency in nanoseconds\n# TYPE sprint_turbo_avg_latency_ns gauge\nsprint_turbo_avg_latency_ns ",
        );
        text.append(decimal(self.avg_latency_ns).as_str());
        text.append(
            "\n\n# HELP sprint_turbo_throughput_ops Throughput operations per second\n# TYPE sprint_turbo_throughput_ops gauge\nsprint_turbo_throughput_ops ",
        );
        text.append(decimal_wide(self.throughput_ops).as_str());
        text.append(
            "\n\n# HELP sprint_turbo_safety_factor Safety factor vs 20ms SLA\n# TYPE sprint_turbo_safety_factor gauge\nsprint_turbo_safety_factor ",
        );
        text.append(decimal(self.safety_factor).as_str());
        text.append(
            "\n\n# HELP sprint_turbo_validation_passed Turbo validation status (1=pass, 0=fail)\n# TYPE sprint_turbo_validation_passed gauge\nsprint_turbo_validation_passed ",
        );
        if self.validation_passed {
            text.append("1");
        } else {
            text.append("0");
        }
        text.append("\n");
        text
    }

    /// Takes over the figures of `results`.
    pub fn update(&mut self, results: &TurboResults)
        ensures
            *final(self) == (TurboMetrics {
                avg_latency_ns: results.avg_latency_ns,
                throughput_ops: results.throughput,
                safety_factor: results.safety_factor,
                validation_passed: results.passed,
                last_updated_secs: results.timestamp_secs,
            }),
    {
        self.avg_latency_ns = results.avg_latency_ns;
        self.throughput_ops = results.throughput;
        self.safety_factor = results.safety_factor;
        self.validation_passed = results.passed;
        self.last_updated_secs = results.timestamp_secs;
    }
}

} // verus!
