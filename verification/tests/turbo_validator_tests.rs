use sprint_backend::turbo_validator::{
    comprehensive_score, generate_turbo_status_json, generate_turbo_status_text,
    get_global_metrics_prometheus, run_comprehensive_validation, run_turbo_validation,
    turbo_results_from, validate_safety_components, validate_safety_components_at, TurboLogger,
    TurboMetrics,
};

#[test]
fn logger_writes_to_the_turbo_log() {
    let logger = TurboLogger::new();
    assert_eq!(logger.log_file(), "turbo_validation.log");
}

#[test]
fn history_shows_the_latest_ten_newest_first() {
    let logger = TurboLogger::new();
    let lines: Vec<String> = (0..25).map(|i| format!("entry {}", i)).collect();
    let history = logger.get_validation_history(lines);
    assert_eq!(history.len(), 10);
    assert_eq!(history[0], "entry 24");
    assert_eq!(history[9], "entry 15");
    let few = logger.get_validation_history(vec!["a".to_string(), "b".to_string()]);
    assert_eq!(few, vec!["b".to_string(), "a".to_string()]);
    assert!(logger.get_validation_history(Vec::new()).is_empty());
}

#[test]
fn safety_components_pass() {
    let results = validate_safety_components_at(1_700_000_000_000_000_000);
    assert!(results.cpu_features_ok);
    assert!(results.queue_safety_ok);
    assert!(results.memory_safety_ok);
    assert!(results.network_optimization_ok);
    assert!(results.request_validation_ok);
    assert!(results.overall_passed);
    assert!(validate_safety_components().overall_passed);
}

#[test]
fn turbo_results_from_a_measurement() {
    let results = turbo_results_from(100_000, 5_000_000, 1_700_000_000, 3);
    assert_eq!(results.avg_latency_ns, 50);
    assert_eq!(results.throughput, 20_000_000);
    assert_eq!(results.safety_factor, 400_000);
    assert!(results.passed);
    assert_eq!(results.iterations, 100_000);
    assert_eq!(results.timestamp_secs, 1_700_000_000);
    assert_eq!(results.execution_count, 3);
    let slow = turbo_results_from(10, 300_000_000, 0, 1);
    assert_eq!(slow.avg_latency_ns, 30_000_000);
    assert!(!slow.passed);
}

#[test]
fn turbo_validation_counts_its_runs() {
    let mut executions = 0u64;
    let first = run_turbo_validation(&mut executions);
    assert_eq!(first.execution_count, 1);
    assert_eq!(first.iterations, 100_000);
    assert!(first.passed);
    let second = run_turbo_validation(&mut executions);
    assert_eq!(second.execution_count, 2);
    assert_eq!(executions, 2);
}

#[test]
fn comprehensive_score_values() {
    assert_eq!(comprehensive_score(true, true), 999);
    assert_eq!(comprehensive_score(true, false), 850);
    assert_eq!(comprehensive_score(false, true), 850);
    assert_eq!(comprehensive_score(false, false), 0);
    let mut executions = 0u64;
    let results = run_comprehensive_validation(&mut executions);
    assert_eq!(results.overall_score_tenths, 999);
    assert_eq!(executions, 1);
}

#[test]
fn metrics_take_over_the_results() {
    let mut metrics = TurboMetrics::new_at(5);
    assert_eq!(metrics.avg_latency_ns, 0);
    assert!(!metrics.validation_passed);
    assert_eq!(metrics.last_updated_secs, 5);
    let results = turbo_results_from(100_000, 5_000_000, 1_700_000_000, 1);
    metrics.update(&results);
    assert_eq!(metrics.avg_latency_ns, 50);
    assert_eq!(metrics.throughput_ops, 20_000_000);
    assert_eq!(metrics.safety_factor, 400_000);
    assert!(metrics.validation_passed);
    assert_eq!(metrics.last_updated_secs, 1_700_000_000);
    assert!(TurboMetrics::new().last_updated_secs > 0);
}

fn sample_metrics() -> TurboMetrics {
    TurboMetrics {
        avg_latency_ns: 50,
        throughput_ops: 20_000_000,
        safety_factor: 400_000,
        validation_passed: true,
        last_updated_secs: 1_700_000_000,
    }
}

#[test]
fn prometheus_text() {
    let expected = "# HELP sprint_turbo_avg_latency_ns Average turbo latency in nanoseconds\n\
# TYPE sprint_turbo_avg_latency_ns gauge\n\
sprint_turbo_avg_latency_ns 50\n\
\n\
# HELP sprint_turbo_throughput_ops Throughput operations per second\n\
# TYPE sprint_turbo_throughput_ops gauge\n\
sprint_turbo_throughput_ops 20000000\n\
\n\
# HELP sprint_turbo_safety_factor Safety factor vs 20ms SLA\n\
# TYPE sprint_turbo_safety_factor gauge\n\
sprint_turbo_safety_factor 400000\n\
\n\
# HELP sprint_turbo_validation_passed Turbo validation status (1=pass, 0=fail)\n\
# TYPE sprint_turbo_validation_passed gauge\n\
sprint_turbo_validation_passed 1\n";
    assert_eq!(sample_metrics().to_prometheus_format(), expected);
    assert_eq!(get_global_metrics_prometheus(&sample_metrics()), expected);
    let failed = TurboMetrics { validation_passed: false, ..sample_metrics() };
    assert!(failed.to_prometheus_format().ends_with("sprint_turbo_validation_passed 0\n"));
}

#[test]
fn status_json() {
    let expected = "{\n    \"turbo_validation\": {\n        \"avg_latency_ns\": 50,\n        \"throughput_ops\": 20000000,\n        \"safety_factor\": 400000,\n        \"validation_passed\": true,\n        \"last_updated\": \"1700000000\"\n    },\n    \"status\": \"PRODUCTION_ACTIVE\",\n    \"validation_score\": \"99.9/100\"\n}";
    assert_eq!(generate_turbo_status_json(&sample_metrics()), expected);
}

#[test]
fn status_text() {
    let text = generate_turbo_status_text(&sample_metrics());
    let lines: Vec<&str> = text.lines().collect();
    assert_eq!(lines.len(), 6);
    assert!(lines[0].ends_with("Turbo Validation Status"));
    assert!(lines[1].ends_with("Avg Latency: 50ns"));
    assert!(lines[2].ends_with("Throughput: 20000000 ops/sec"));
    assert!(lines[3].ends_with("Safety Factor: 400000x"));
    assert!(lines[4].contains("Status: PASSED"));
    assert!(lines[5].ends_with("Validation Score: 99.9/100"));
    let failed = TurboMetrics { validation_passed: false, ..sample_metrics() };
    assert!(generate_turbo_status_text(&failed).contains("Status: FAILED"));
}
