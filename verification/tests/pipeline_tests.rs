use sprint_backend::clock::{nanos_of, secs_of, ClockReading};
use sprint_backend::pipeline::{AdmissionError, Pipeline};
use sprint_backend::request::{ProductionOptimizedRequest, SequenceCounter, ValidationError};
use sprint_backend::timer::{
    analyze_latency, elapsed_cycles, production_latency_budget, total_latency_ns,
    LatencyComponent, ProductionHighPrecisionTimer, TARGET_LATENCY_NS,
};

const NOW: u64 = 1_700_000_000_000_000_000;
const NOW_SECS: u64 = 1_700_000_000;

#[test]
fn submit_then_retire_keeps_order() {
    let mut pipeline = Pipeline::with_config(4, 8, 16).unwrap();
    let mut sequence = SequenceCounter::new();
    let a = ProductionOptimizedRequest::stamped(NOW, &mut sequence);
    let b = ProductionOptimizedRequest::stamped(NOW, &mut sequence);
    let c = ProductionOptimizedRequest::stamped(NOW, &mut sequence);
    let d = ProductionOptimizedRequest::stamped(NOW, &mut sequence);
    assert!(pipeline.submit(a, NOW, NOW_SECS).is_ok());
    assert!(pipeline.submit(b, NOW, NOW_SECS).is_ok());
    assert!(pipeline.submit(c, NOW, NOW_SECS).is_ok());
    let rejected = pipeline.submit(d, NOW, NOW_SECS).unwrap_err();
    assert_eq!(rejected.reason, AdmissionError::AdmissionRejected);
    assert_eq!(rejected.request, d);
    assert_eq!(pipeline.queued(), 3);
    assert_eq!(pipeline.retire(), Some(a));
    assert!(pipeline.submit(d, NOW, NOW_SECS + 1).is_ok());
    assert_eq!(pipeline.retire(), Some(b));
    assert_eq!(pipeline.retire(), Some(c));
    assert_eq!(pipeline.retire(), Some(d));
    assert_eq!(pipeline.retire(), None);
    assert_eq!(pipeline.admission_stats(), (4, 4, NOW_SECS + 1));
    assert_eq!(pipeline.rejection_stats(), (0, 1, 0, 4));
}

#[test]
fn invalid_request_is_turned_away_first() {
    let mut pipeline = Pipeline::with_config(2, 1, 4).unwrap();
    let mut sequence = SequenceCounter::new();
    let mut request = ProductionOptimizedRequest::stamped(NOW, &mut sequence);
    request.priority = 256;
    let rejected = pipeline.submit(request, NOW, NOW_SECS).unwrap_err();
    assert_eq!(
        rejected.reason,
        AdmissionError::ValidationFailed(ValidationError::PriorityOutOfRange)
    );
    assert_eq!(rejected.request, request);
    assert_eq!(pipeline.rejection_stats(), (1, 0, 0, 0));
    assert_eq!(pipeline.admission_stats(), (0, 0, 0));
}

#[test]
fn exhausted_pool_turns_requests_away() {
    let mut pipeline = Pipeline::with_config(8, 2, 4).unwrap();
    let mut sequence = SequenceCounter::new();
    for _ in 0..2 {
        let request = ProductionOptimizedRequest::stamped(NOW, &mut sequence);
        assert!(pipeline.submit(request, NOW, NOW_SECS).is_ok());
    }
    let request = ProductionOptimizedRequest::stamped(NOW, &mut sequence);
    let rejected = pipeline.submit(request, NOW, NOW_SECS).unwrap_err();
    assert_eq!(rejected.reason, AdmissionError::PoolExhausted);
    assert_eq!(pipeline.rejection_stats(), (0, 0, 1, 0));
    assert!(pipeline.retire().is_some());
    assert!(pipeline.submit(request, NOW, NOW_SECS).is_ok());
}

#[test]
fn run_admits_and_retires_every_request() {
    let mut pipeline = Pipeline::new();
    let mut sequence = SequenceCounter::new();
    let run = pipeline.run_at(&mut sequence, 100_000, NOW, NOW_SECS);
    assert_eq!(run.iterations, 100_000);
    assert_eq!(run.admitted, 100_000);
    assert_eq!(run.processed, 100_000);
    assert_eq!(run.rejected, 0);
    assert_eq!(pipeline.queued(), 0);
    assert_eq!(sequence.current(), 100_000);
    assert_eq!(pipeline.admission_stats(), (100_000, 100_000, NOW_SECS));
    assert_eq!(pipeline.rejection_stats(), (0, 0, 0, 100_000));
}

#[test]
fn run_on_a_full_queue_only_counts_backpressure() {
    let mut pipeline = Pipeline::with_config(2, 4, 4).unwrap();
    let mut sequence = SequenceCounter::new();
    let waiting = ProductionOptimizedRequest::stamped(NOW, &mut sequence);
    assert!(pipeline.submit(waiting, NOW, NOW_SECS).is_ok());
    let run = pipeline.run_at(&mut sequence, 10, NOW, NOW_SECS);
    assert_eq!(run.admitted, 0);
    assert_eq!(run.rejected, 10);
    assert_eq!(run.processed, 0);
    assert_eq!(pipeline.rejection_stats(), (0, 10, 0, 0));
    assert_eq!(pipeline.retire(), Some(waiting));
}

#[test]
fn run_moves_waiting_requests_out_in_order() {
    let mut pipeline = Pipeline::with_config(8, 8, 4).unwrap();
    let mut sequence = SequenceCounter::new();
    let first = ProductionOptimizedRequest::stamped(NOW, &mut sequence);
    let second = ProductionOptimizedRequest::stamped(NOW, &mut sequence);
    assert!(pipeline.submit(first, NOW, NOW_SECS).is_ok());
    assert!(pipeline.submit(second, NOW, NOW_SECS).is_ok());
    let run = pipeline.run_at(&mut sequence, 1, NOW, NOW_SECS);
    assert_eq!(run.admitted, 1);
    assert_eq!(pipeline.queued(), 2);
    assert_eq!(pipeline.retire(), Some(second));
    let made = pipeline.retire().unwrap();
    assert_eq!(made.request_id, 0);
    assert_eq!(made.priority, 0);
    assert_eq!(made.sequence_number, 3);
    assert_eq!(made.timestamp, NOW);
}

#[test]
fn run_with_the_wall_clock() {
    let mut pipeline = Pipeline::new();
    let mut sequence = SequenceCounter::new();
    let run = pipeline.run(&mut sequence, 1000);
    assert_eq!(run.admitted, 1000);
    assert_eq!(run.rejected, 0);
    let (value, operations, last_access) = pipeline.admission_stats();
    assert_eq!(value, 1000);
    assert_eq!(operations, 1000);
    assert!(last_access > 0);
}

#[test]
fn latency_report_values() {
    let report = analyze_latency(100_000, 5_000_000, TARGET_LATENCY_NS);
    assert_eq!(report.avg_latency_ns, 50);
    assert_eq!(report.throughput_per_sec, 20_000_000);
    assert_eq!(report.safety_factor, 400_000);
    assert!(report.target_met);
    let slow = analyze_latency(2, 50_000_000, TARGET_LATENCY_NS);
    assert_eq!(slow.avg_latency_ns, 25_000_000);
    assert_eq!(slow.throughput_per_sec, 40);
    assert_eq!(slow.safety_factor, 0);
    assert!(!slow.target_met);
    let empty = analyze_latency(0, 0, TARGET_LATENCY_NS);
    assert_eq!(empty.avg_latency_ns, 0);
    assert_eq!(empty.throughput_per_sec, 0);
    assert_eq!(empty.safety_factor, 0);
    assert!(empty.target_met);
}

#[test]
fn latency_budget_adds_up() {
    let components = production_latency_budget();
    assert_eq!(components.len(), 9);
    assert_eq!(components[0].name, "Network RX");
    assert_eq!(total_latency_ns(&components), Some(1120));
    assert_eq!(TARGET_LATENCY_NS / 1120, 17857);
    let overflowing = vec![
        LatencyComponent { name: "a", latency_ns: u64::MAX, description: "" },
        LatencyComponent { name: "b", latency_ns: 1, description: "" },
    ];
    assert_eq!(total_latency_ns(&overflowing), None);
    assert_eq!(total_latency_ns(&Vec::new()), Some(0));
}

#[test]
fn timer_hands_back_the_result_of_the_work() {
    let timer = ProductionHighPrecisionTimer::new();
    let (result, _duration_ns, _cycles) = timer.measure_precise(|| 6 * 7);
    assert_eq!(result, 42);
    assert_eq!(elapsed_cycles(10, 25), 15);
    assert_eq!(elapsed_cycles(25, 10), 0);
    assert_eq!(elapsed_cycles(7, 7), 0);
}

#[test]
fn a_clock_before_the_epoch_counts_as_zero() {
    let reading = ClockReading { secs: 3, subsec_nanos: 500 };
    assert_eq!(nanos_of(Some(reading)), 3_000_000_500);
    assert_eq!(secs_of(Some(reading)), 3);
    assert_eq!(nanos_of(None), 0);
    assert_eq!(secs_of(None), 0);
    // Nanoseconds beyond 64 bits wrap.
    let late = ClockReading { secs: u64::MAX, subsec_nanos: 999_999_999 };
    let wide = (u64::MAX as u128) * 1_000_000_000 + 999_999_999;
    assert_eq!(nanos_of(Some(late)), wide as u64);
    assert_eq!(secs_of(Some(late)), u64::MAX);
}
