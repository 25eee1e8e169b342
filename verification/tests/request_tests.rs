use sprint_backend::request::{
    OptimizedRequest, ProductionOptimizedRequest, SequenceCounter, ValidationError, SCORE_BASE,
};
use std::time::{SystemTime, UNIX_EPOCH};

const NOW: u64 = 1_700_000_000_000_000_000;

fn record_at(now: u64) -> ProductionOptimizedRequest {
    let mut sequence = SequenceCounter::new();
    ProductionOptimizedRequest::stamped(now, &mut sequence)
}

#[test]
fn record_is_one_cache_line() {
    assert_eq!(std::mem::size_of::<ProductionOptimizedRequest>(), 64);
}

#[test]
fn stamped_record_has_the_defaults() {
    let mut sequence = SequenceCounter::new();
    let first = ProductionOptimizedRequest::stamped(NOW, &mut sequence);
    assert_eq!(first.timestamp, NOW);
    assert_eq!(first.request_id, 0);
    assert_eq!(first.sequence_number, 1);
    assert_eq!(first.priority, 0);
    assert_eq!(first.flags, 0);
    assert_eq!(first.correlation_id, 0);
    assert_eq!(first.timeout_ms, 5000);
    assert_eq!(first.retry_count, 0);
    assert_eq!(first.metadata, [0u8; 16]);
    let second = ProductionOptimizedRequest::stamped(NOW, &mut sequence);
    assert_eq!(second.request_id, 1);
    assert_eq!(second.sequence_number, 2);
    assert_eq!(sequence.current(), 2);
}

#[test]
fn a_record_made_now_is_valid() {
    let mut sequence = SequenceCounter::new();
    let request = ProductionOptimizedRequest::new(&mut sequence);
    assert!(request.is_valid());
}

#[test]
fn timestamp_boundaries() {
    let six_minutes = 6 * 60 * 1_000_000_000u64;
    let five_minutes = 5 * 60 * 1_000_000_000u64;
    let stale = record_at(NOW - six_minutes);
    assert!(!stale.is_valid_at(NOW));
    assert_eq!(stale.validate_at(NOW), Err(ValidationError::StaleTimestamp));
    assert!(record_at(NOW - five_minutes).is_valid_at(NOW));
    assert!(!record_at(NOW - five_minutes - 1).is_valid_at(NOW));
    let future = record_at(NOW + 2_000_000_000);
    assert!(!future.is_valid_at(NOW));
    assert_eq!(future.validate_at(NOW), Err(ValidationError::FutureTimestamp));
    assert!(record_at(NOW + 1_000_000_000).is_valid_at(NOW));
    assert!(!record_at(NOW + 1_000_000_001).is_valid_at(NOW));
}

#[test]
fn priority_boundaries() {
    let mut request = record_at(NOW);
    request.priority = 255;
    assert!(request.is_valid_at(NOW));
    request.priority = 256;
    assert!(!request.is_valid_at(NOW));
    assert_eq!(request.validate_at(NOW), Err(ValidationError::PriorityOutOfRange));
    request.priority = 300;
    assert!(!request.is_valid());
}

#[test]
fn timeout_boundaries() {
    let mut request = record_at(NOW);
    request.timeout_ms = 0;
    assert!(!request.is_valid_at(NOW));
    assert_eq!(request.validate_at(NOW), Err(ValidationError::TimeoutOutOfRange));
    request.timeout_ms = 300_001;
    assert!(!request.is_valid_at(NOW));
    request.timeout_ms = 1;
    assert!(request.is_valid_at(NOW));
    request.timeout_ms = 300_000;
    assert!(request.is_valid_at(NOW));
    request.timeout_ms = 600_000;
    assert!(!request.is_valid());
}

#[test]
fn a_timestamp_ten_seconds_ahead_is_rejected() {
    let mut sequence = SequenceCounter::new();
    let mut request = ProductionOptimizedRequest::new(&mut sequence);
    request.timestamp =
        SystemTime::now().duration_since(UNIX_EPOCH).unwrap().as_nanos() as u64 + 10_000_000_000;
    assert!(!request.is_valid());
}

#[test]
fn the_first_violation_is_the_one_named() {
    let mut request = record_at(NOW + 5_000_000_000);
    request.priority = 1000;
    request.timeout_ms = 0;
    assert_eq!(request.validate_at(NOW), Err(ValidationError::FutureTimestamp));
    request.timestamp = NOW;
    assert_eq!(request.validate_at(NOW), Err(ValidationError::PriorityOutOfRange));
}

#[test]
fn priority_score_values() {
    let mut request = record_at(NOW - 3_000_000_000);
    assert_eq!(request.priority_score_at(NOW), SCORE_BASE - 3_000_000_000);
    request.priority = 2;
    assert_eq!(request.priority_score_at(NOW), SCORE_BASE - 1_000_000_000);
    request.priority = 3;
    assert_eq!(request.priority_score_at(NOW), SCORE_BASE);
    request.priority = 200;
    assert_eq!(request.priority_score_at(NOW), SCORE_BASE + 197_000_000_000);
    let future = record_at(NOW + 5);
    assert_eq!(future.priority_score_at(NOW), SCORE_BASE);
}

#[test]
fn priority_score_never_overflows() {
    assert_eq!(SCORE_BASE, u64::MAX - (u32::MAX as u64) * 1_000_000_000);
    let mut request = record_at(NOW);
    request.priority = u32::MAX;
    assert_eq!(request.priority_score_at(NOW), u64::MAX);
    request.priority = 255;
    assert_eq!(request.priority_score_at(NOW), SCORE_BASE + 255_000_000_000);
    // An age beyond the base counts as the base.
    let mut ancient = record_at(0);
    assert_eq!(ancient.priority_score_at(u64::MAX), 0);
    assert_eq!(ancient.priority_score_at(SCORE_BASE), 0);
    assert_eq!(ancient.priority_score_at(SCORE_BASE - 1), 1);
    ancient.priority = 7;
    assert_eq!(ancient.priority_score_at(u64::MAX), 7_000_000_000);
}

#[test]
fn older_records_score_lower_within_one_priority() {
    let older = record_at(NOW - 9_000_000_000);
    let younger = record_at(NOW - 1_000_000_000);
    assert!(older.priority_score_at(NOW) < younger.priority_score_at(NOW));
}

#[test]
fn fresh_records_keep_their_order() {
    for priority in [0u32, 1, 2, 100, 255] {
        let mut older = record_at(NOW - 1);
        let mut younger = record_at(NOW);
        older.priority = priority;
        younger.priority = priority;
        assert!(older.priority_score_at(NOW) < younger.priority_score_at(NOW));
        assert_eq!(younger.priority_score_at(NOW) - older.priority_score_at(NOW), 1);
    }
}

#[test]
fn priority_is_the_dominant_term() {
    for age in [0u64, 1, 999_999_999, 300_000_000_000] {
        let mut low = record_at(NOW - age);
        let mut high = record_at(NOW - age);
        low.priority = 3;
        high.priority = 10;
        assert!(low.priority_score_at(NOW) < high.priority_score_at(NOW));
        assert_eq!(
            high.priority_score_at(NOW) - low.priority_score_at(NOW),
            7 * 1_000_000_000
        );
    }
}

#[test]
fn priority_score_reads_the_clock() {
    let now = SystemTime::now().duration_since(UNIX_EPOCH).unwrap().as_nanos() as u64;
    let mut older = record_at(now - 60_000_000_000);
    let mut younger = record_at(now - 1_000_000_000);
    older.priority = 5;
    younger.priority = 5;
    let first = older.priority_score();
    let second = younger.priority_score();
    assert!(first < second);
    assert!(second <= SCORE_BASE + 5_000_000_000);
    assert!(first >= SCORE_BASE + 5_000_000_000 - 120_000_000_000);
}

#[test]
fn default_record_is_stamped_now() {
    let before = SystemTime::now().duration_since(UNIX_EPOCH).unwrap().as_nanos() as u64;
    let record = ProductionOptimizedRequest::default();
    let after = SystemTime::now().duration_since(UNIX_EPOCH).unwrap().as_nanos() as u64;
    assert!(before <= record.timestamp && record.timestamp <= after);
    assert_eq!(record.request_id, 0);
    assert_eq!(record.sequence_number, 1);
    assert_eq!(record.priority, 0);
    assert_eq!(record.flags, 0);
    assert_eq!(record.correlation_id, 0);
    assert_eq!(record.timeout_ms, 5000);
    assert_eq!(record.retry_count, 0);
    assert_eq!(record.metadata, [0u8; 16]);
    assert!(record.is_valid());
}

#[test]
fn sequence_counter_wraps() {
    let mut sequence = SequenceCounter::new();
    assert_eq!(sequence.issue(), 0);
    assert_eq!(sequence.issue(), 1);
    assert_eq!(sequence.current(), 2);
}

#[test]
fn test_request_size() {
    assert_eq!(std::mem::size_of::<OptimizedRequest>(), 56);
    assert!(std::mem::size_of::<OptimizedRequest>() <= 64);
}

#[test]
fn compact_record_defaults() {
    let request = OptimizedRequest::stamped(NOW);
    assert_eq!(request.timestamp, NOW);
    assert_eq!(request.request_id, 0);
    assert_eq!(request.priority, 0);
    assert_eq!(request.flags, 0);
    assert_eq!(request.metadata, [0u8; 32]);
    assert!(OptimizedRequest::new().timestamp > 0);
}
