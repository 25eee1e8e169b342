use sprint_backend::settings::{
    flag_setting, millis_setting, number_setting, parse_number, seconds_setting, text_setting,
    trim_trailing, trim_trailing_pairs,
};
use sprint_backend::api::{
    generate_peer_id, get_default_seeds, Cache, LatencyOptimizer, ProtocolType,
};
use sprint_backend::channel_pool::{
    CircuitBreakerState, PoolConfig, SecureChannelPool,
};

#[test]
fn protocol_names() {
    assert_eq!(ProtocolType::Bitcoin.name(), "bitcoin");
    assert_eq!(ProtocolType::Ethereum.name(), "ethereum");
    assert_eq!(ProtocolType::Solana.name(), "solana");
}

#[test]
fn default_seeds() {
    let bitcoin = get_default_seeds(ProtocolType::Bitcoin);
    assert_eq!(bitcoin.len(), 7);
    assert_eq!(bitcoin[0], "seed.bitcoin.sipa.be:8333");
    assert_eq!(bitcoin[6], "seed.bitcoin.jonasschnelli.ch:8333");
    let ethereum = get_default_seeds(ProtocolType::Ethereum);
    assert_eq!(ethereum.len(), 5);
    assert_eq!(ethereum[4], "52.74.57.123:30303");
    let solana = get_default_seeds(ProtocolType::Solana);
    assert_eq!(solana, vec![
        "http://localhost:8899",
        "http://localhost:8901",
        "http://localhost:8903",
        "http://localhost:8904",
        "http://localhost:8905",
    ]);
}

#[test]
fn peer_ids() {
    assert_eq!(generate_peer_id("a", ProtocolType::Bitcoin), generate_peer_id("a", ProtocolType::Bitcoin));
    assert_ne!(generate_peer_id("a", ProtocolType::Bitcoin), generate_peer_id("a", ProtocolType::Solana));
    assert_ne!(generate_peer_id("a", ProtocolType::Bitcoin), generate_peer_id("b", ProtocolType::Bitcoin));
    let id = generate_peer_id("seed.bitnodes.io:8333", ProtocolType::Bitcoin);
    assert!(id.starts_with("peer_"));
    assert!(id.len() <= 5 + 16);
    assert!(id[5..].chars().all(|c| c.is_ascii_hexdigit() && !c.is_ascii_uppercase()));
}

#[test]
fn cache_entries_expire() {
    let mut cache: Cache<u32> = Cache::new(2);
    cache.set_at("a".to_string(), 1, 100, 1000);
    cache.set_at("b".to_string(), 2, 500, 1000);
    assert_eq!(cache.get_at("a", 1100), Some(&1));
    assert_eq!(cache.get_at("a", 1101), None);
    assert_eq!(cache.len(), 1);
    assert_eq!(cache.get_at("b", 1101), Some(&2));
    assert_eq!(cache.get_at("c", 1101), None);
}

#[test]
fn full_cache_gives_up_its_oldest_entry() {
    let mut cache: Cache<&'static str> = Cache::new(2);
    cache.set_at("a".to_string(), "first", 100, 0);
    cache.set_at("b".to_string(), "second", 100, 0);
    cache.set_at("c".to_string(), "third", 100, 0);
    assert_eq!(cache.len(), 2);
    assert_eq!(cache.get_at("a", 1), None);
    assert_eq!(cache.get_at("b", 1), Some(&"second"));
    assert_eq!(cache.get_at("c", 1), Some(&"third"));
    let mut single: Cache<u8> = Cache::new(4);
    single.set_at("k".to_string(), 1, 10, 0);
    single.set_at("k".to_string(), 2, 10, 5);
    assert_eq!(single.len(), 1);
    assert_eq!(single.get_at("k", 15), Some(&2));
}

#[test]
fn latencies_are_kept_per_chain() {
    let mut optimizer = LatencyOptimizer::new(20_000_000);
    assert_eq!(optimizer.sample_count("bitcoin"), 0);
    for i in 0..1500u64 {
        optimizer.track_request("bitcoin", i);
    }
    optimizer.track_request("solana", 7);
    assert_eq!(optimizer.sample_count("bitcoin"), 1000);
    assert_eq!(optimizer.sample_count("solana"), 1);
    assert_eq!(optimizer.sample_count("ethereum"), 0);
}

#[test]
fn pool_defaults() {
    let config = PoolConfig::standard();
    assert_eq!(config.max_connections, 100);
    assert_eq!(config.min_idle, 10);
    assert_eq!(config.max_lifetime_secs, 1800);
    assert_eq!(config.max_latency_ms, 1000);
    assert_eq!(config.cleanup_interval_secs, 30);
    assert_eq!(config.metrics_port, 9090);
    assert_eq!(config.namespace, "default");
    assert_eq!(config.circuit_breaker_failure_threshold, 10);
    assert_eq!(config.circuit_breaker_cooldown_secs, 60);
    assert!(config.enterprise_features_enabled);
    assert!(!config.audit_logging_enabled);
    assert!(!config.compliance_mode);
    let pool = SecureChannelPool::new("relay.bitcoin-sprint.inc:443");
    assert_eq!(pool.endpoint, "relay.bitcoin-sprint.inc:443");
    assert_eq!(pool.config.max_connections, 100);
    assert_eq!(pool.circuit_breaker.state, CircuitBreakerState::Closed);
    assert_eq!(pool.circuit_breaker.failure_threshold, 10);
    assert_eq!(pool.circuit_breaker.success_threshold, 5);
    assert_eq!(pool.circuit_breaker.timeout_secs, 30);
    assert_eq!(pool.circuit_breaker.last_failure_time, None);
    assert_eq!(pool.health_score_tenths, 1000);
    assert!(!pool.is_running);
}

#[test]
fn pool_builder_sets_what_it_is_told() {
    let pool = SecureChannelPool::builder("relay.bitcoin-sprint.inc:443")
        .with_namespace("bitcoin-sprint")
        .with_max_connections(50)
        .with_metrics_port(9091)
        .with_cleanup_interval(31)
        .with_latency_threshold(100)
        .with_enterprise_features(false)
        .with_audit_logging(true)
        .with_compliance_mode(true)
        .build();
    assert_eq!(pool.endpoint, "relay.bitcoin-sprint.inc:443");
    assert_eq!(pool.config.namespace, "bitcoin-sprint");
    assert_eq!(pool.config.max_connections, 50);
    assert_eq!(pool.config.metrics_port, 9091);
    assert_eq!(pool.config.cleanup_interval_secs, 31);
    assert_eq!(pool.config.max_latency_ms, 100);
    assert!(!pool.config.enterprise_features_enabled);
    assert!(pool.config.audit_logging_enabled);
    assert!(pool.config.compliance_mode);
    assert_eq!(pool.config.min_idle, 10);
}

#[test]
fn numbers_are_read_as_the_standard_library_reads_them() {
    let texts = [
        "0", "7", "42", "007", "+5", "+", "", "-1", "-0", "12a", "a12", " 1", "1 ", "1_000",
        "65535", "65536", "4294967295", "4294967296", "18446744073709551615",
        "18446744073709551616", "99999999999999999999", "++1", "1+", "٣",
    ];
    for text in texts {
        assert_eq!(parse_number(text, u64::MAX), text.parse::<u64>().ok(), "{:?}", text);
        assert_eq!(
            parse_number(text, u32::MAX as u64),
            text.parse::<u32>().ok().map(u64::from),
            "{:?}",
            text
        );
        assert_eq!(
            parse_number(text, u16::MAX as u64),
            text.parse::<u16>().ok().map(u64::from),
            "{:?}",
            text
        );
    }
    assert_eq!(parse_number("10", 9), None);
    assert_eq!(parse_number("9", 9), Some(9));
    assert_eq!(parse_number("0", 0), Some(0));
}

#[test]
fn trailing_units_are_cut_off() {
    for text in ["15s", "15", "15ss", "s", "", "s15", "1s5s", "ms", "15ms"] {
        assert_eq!(trim_trailing(text, 's'), text.trim_end_matches('s'), "{:?}", text);
    }
    for text in ["100ms", "100", "100msms", "ms", "", "m", "s", "100sm", "100mms", "ms100"] {
        assert_eq!(trim_trailing_pairs(text, 'm', 's'), text.trim_end_matches("ms"), "{:?}", text);
    }
}

#[test]
fn settings_fall_back_to_their_defaults() {
    assert_eq!(number_setting(None, 20, u32::MAX as u64), 20);
    assert_eq!(number_setting(Some("35"), 20, u32::MAX as u64), 35);
    assert_eq!(number_setting(Some("many"), 20, u32::MAX as u64), 20);
    assert_eq!(number_setting(Some("70000"), 8080, u16::MAX as u64), 8080);
    assert_eq!(number_setting(Some("443"), 8080, u16::MAX as u64), 443);

    assert_eq!(seconds_setting(None, 15), 15);
    assert_eq!(seconds_setting(Some("30s"), 15), 30);
    assert_eq!(seconds_setting(Some("30"), 15), 30);
    assert_eq!(seconds_setting(Some("30ms"), 15), 15);
    assert_eq!(seconds_setting(Some("s"), 15), 15);

    assert_eq!(millis_setting(None, 100), 100);
    assert_eq!(millis_setting(Some("250ms"), 100), 250);
    assert_eq!(millis_setting(Some("250"), 100), 250);
    assert_eq!(millis_setting(Some("250s"), 100), 100);

    assert!(flag_setting(None, true));
    assert!(!flag_setting(None, false));
    assert!(flag_setting(Some("true"), false));
    assert!(!flag_setting(Some("True"), true));
    assert!(!flag_setting(Some("1"), true));
    assert!(!flag_setting(Some(""), true));

    assert_eq!(text_setting(None, "sqlite"), "sqlite");
    assert_eq!(text_setting(Some("postgres"), "sqlite"), "postgres");
    assert_eq!(text_setting(Some(""), "sqlite"), "");
}
