use sprint_backend::encoding::{decimal, hex_digit, lower_hex};
use sprint_backend::storage_verifier::{
    build_challenge, challenge_id, check_identifiers, check_proof_against, compute_proof_hash,
    generate_beacon, generate_expected_hash, keep_recent, size_mismatch_text,
    verify_cryptographic_proof, ChallengeRandomness, InputViolation, ProofOutcome, ProofVerdict,
    RateLimitConfig, RequestTracker, StorageProof, StorageVerificationError, StorageVerifier,
    VerificationMetrics,
};

const NOW: u64 = 1_700_000_000;

fn drawn(salt: u64) -> ChallengeRandomness {
    ChallengeRandomness {
        salt,
        sample_offset: 1234,
        sample_size: 600,
        challenge_data: vec![7u8; 32],
    }
}

fn proof_for(id: &str, data: Vec<u8>, timestamp: u64) -> StorageProof {
    StorageProof {
        challenge_id: id.to_string(),
        file_id: "test_file".to_string(),
        provider: "test_provider".to_string(),
        timestamp,
        proof_data: data,
        merkle_proof: None,
        signature: None,
    }
}

#[test]
fn test_challenge_generation() {
    let mut verifier = StorageVerifier::new();
    let result = verifier.generate_challenge("test_file", "test_provider");
    assert!(result.is_ok());

    let challenge = result.unwrap();
    assert_eq!(challenge.file_id, "test_file");
    assert_eq!(challenge.provider, "test_provider");
    assert!(challenge.expiry > challenge.timestamp);
    assert!(!challenge.expected_hash.is_empty());
    assert!(!challenge.challenge_data.is_empty());
}

#[test]
fn test_cryptographic_proof_verification() {
    let mut verifier = StorageVerifier::new();
    let challenge = verifier.generate_challenge("test_file", "test_provider").unwrap();

    let mut proof_data = vec![0u8; challenge.sample_size as usize];
    proof_data[0] = 42;

    let proof = StorageProof {
        challenge_id: challenge.id.clone(),
        file_id: "test_file".to_string(),
        provider: "test_provider".to_string(),
        timestamp: challenge.timestamp + 10,
        proof_data,
        merkle_proof: None,
        signature: None,
    };

    let result = verifier.verify_proof(&proof);
    assert!(result.is_ok());
}

#[test]
fn test_rate_limiting_with_metrics() {
    let config = RateLimitConfig {
        max_requests_per_minute: 2,
        max_requests_per_hour: 10,
        cleanup_interval_secs: 1,
    };
    let mut verifier = StorageVerifier::with_config(config);

    assert!(verifier.generate_challenge("file1", "provider1").is_ok());
    assert!(verifier.generate_challenge("file2", "provider1").is_ok());

    let result = verifier.generate_challenge("file3", "provider1");
    assert!(result.is_err());

    let metrics = verifier.get_metrics();
    assert_eq!(metrics.total_challenges, 2);
    assert_eq!(metrics.rate_limited_requests, 1);
}

#[test]
fn test_beacon_uniqueness() {
    let mut verifier = StorageVerifier::new();
    let challenge1 = verifier.generate_challenge("test_file", "provider1").unwrap();
    let challenge2 = verifier.generate_challenge("test_file", "provider1").unwrap();

    assert_ne!(challenge1.beacon, challenge2.beacon);
    assert_ne!(challenge1.expected_hash, challenge2.expected_hash);
}

#[test]
fn test_metrics_tracking() {
    let mut verifier = StorageVerifier::new();

    let initial_metrics = verifier.get_metrics();
    assert_eq!(initial_metrics.total_challenges, 0);

    let _challenge1 = verifier.generate_challenge("file1", "provider1").unwrap();
    let mid_metrics = verifier.get_metrics();
    assert_eq!(mid_metrics.total_challenges, 1);

    let _challenge2 = verifier.generate_challenge("file2", "provider2").unwrap();

    let final_metrics = verifier.get_metrics();
    assert_eq!(final_metrics.total_challenges, 2);
    assert_eq!(final_metrics.successful_proofs, 0);
    assert_eq!(final_metrics.failed_proofs, 0);

    verifier.reset_metrics();
    let metrics_after_reset = verifier.get_metrics();
    assert_eq!(metrics_after_reset.total_challenges, 0);
}

#[test]
fn identifiers_are_checked() {
    assert_eq!(check_identifiers("", "p"), Some(InputViolation::Empty));
    assert_eq!(check_identifiers("f", ""), Some(InputViolation::Empty));
    assert_eq!(check_identifiers(&"f".repeat(257), "p"), Some(InputViolation::TooLong));
    assert_eq!(check_identifiers("f", &"p".repeat(65)), Some(InputViolation::TooLong));
    assert_eq!(check_identifiers(&"f".repeat(256), &"p".repeat(64)), None);
    let mut verifier = StorageVerifier::new();
    match verifier.generate_challenge_with("", "p", NOW, drawn(1)) {
        Err(StorageVerificationError::InvalidInput { field, reason }) => {
            assert_eq!(field, "file_id or provider");
            assert_eq!(reason, "Cannot be empty");
        }
        other => panic!("unexpected: {:?}", other),
    }
    match verifier.generate_challenge_with(&"x".repeat(300), "p", NOW, drawn(1)) {
        Err(StorageVerificationError::InvalidInput { reason, .. }) => assert_eq!(reason, "Too long"),
        other => panic!("unexpected: {:?}", other),
    }
    assert_eq!(verifier.get_metrics().total_challenges, 0);
}

#[test]
fn challenge_fields_are_exact() {
    let mut verifier = StorageVerifier::new();
    let challenge =
        verifier.generate_challenge_with("test_file_long", "test_provider", NOW, drawn(9)).unwrap();
    assert_eq!(challenge.id, "chall_test_fil_6553f100");
    assert_eq!(challenge.file_id, "test_file_long");
    assert_eq!(challenge.provider, "test_provider");
    assert_eq!(challenge.nonce, 9);
    assert_eq!(challenge.timestamp, NOW);
    assert_eq!(challenge.expiry, NOW + 1800);
    assert_eq!(challenge.difficulty, 1);
    assert_eq!(challenge.sample_offset, 1234);
    assert_eq!(challenge.sample_size, 600);
    assert_eq!(challenge.challenge_data, vec![7u8; 32]);
    assert_eq!(challenge.beacon, generate_beacon("test_file_long", "test_provider", NOW, 9));
    assert_eq!(
        challenge.expected_hash,
        generate_expected_hash("test_file_long", &[7u8; 32], 1234, 600)
    );
    assert_eq!(challenge.beacon.len(), 64);
    assert_eq!(challenge_id("ab", 255), "chall_ab_ff");
}

#[test]
fn known_digests() {
    // With no proof data, no challenge data, offset zero and size zero the
    // input is twelve zero bytes, whose SHA-256 digest is well known.
    let hash = compute_proof_hash(&[], &[], 0, 0);
    assert_eq!(hash, "15ec7bf0b50732b49f8228e07d24365338f9e3ab994b00af08e5a3bffe55fd8b");
    assert_eq!(
        generate_beacon("a", "b", 0, 0),
        generate_beacon("a", "b", 0, 0)
    );
    assert_ne!(generate_beacon("a", "b", 0, 0), generate_beacon("a", "b", 0, 1));
    assert_ne!(generate_beacon("a", "b", 0, 0), generate_beacon("a", "b", 1, 0));
    assert_ne!(generate_beacon("ab", "", 0, 0), generate_beacon("a", "c", 0, 0));
}

#[test]
fn a_beacon_is_handed_out_once() {
    let mut verifier = StorageVerifier::new();
    assert!(verifier.generate_challenge_with("file", "provider", NOW, drawn(5)).is_ok());
    match verifier.generate_challenge_with("file", "provider", NOW, drawn(5)) {
        Err(StorageVerificationError::CryptographicFailure { reason }) => {
            assert_eq!(reason, "Beacon collision detected")
        }
        other => panic!("unexpected: {:?}", other),
    }
    assert_eq!(verifier.get_metrics().total_challenges, 1);
    assert!(verifier.generate_challenge_with("file", "provider", NOW, drawn(6)).is_ok());
}

#[test]
fn rate_limit_is_reported_with_the_minute_limit() {
    let config = RateLimitConfig {
        max_requests_per_minute: 1,
        max_requests_per_hour: 10,
        cleanup_interval_secs: 1000,
    };
    let mut verifier = StorageVerifier::with_config(config);
    assert!(verifier.generate_challenge_with("f", "p", NOW, drawn(1)).is_ok());
    match verifier.generate_challenge_with("f", "p", NOW + 1, drawn(2)) {
        Err(StorageVerificationError::RateLimitExceeded { limit, window }) => {
            assert_eq!(limit, 1);
            assert_eq!(window, "minute");
        }
        other => panic!("unexpected: {:?}", other),
    }
    // Another provider has its own allowance.
    assert!(verifier.generate_challenge_with("f", "q", NOW + 1, drawn(3)).is_ok());
    // After the cleanup interval the old request no longer counts.
    assert!(verifier.generate_challenge_with("f", "p", NOW + 1200, drawn(4)).is_ok());
    assert_eq!(verifier.get_metrics().rate_limited_requests, 1);
}

#[test]
fn proof_outcomes() {
    let mut verifier = StorageVerifier::new();
    let challenge =
        verifier.generate_challenge_with("test_file", "test_provider", NOW, drawn(1)).unwrap();

    let empty = proof_for("", vec![1], NOW);
    match verifier.verify_proof_at(&empty, NOW, 0) {
        Err(StorageVerificationError::InvalidInput { field, reason }) => {
            assert_eq!(field, "proof fields");
            assert_eq!(reason, "Cannot be empty");
        }
        other => panic!("unexpected: {:?}", other),
    }

    let unknown = proof_for("chall_nothing_0", vec![1], NOW);
    assert_eq!(
        verifier.verify_proof_at(&unknown, NOW, 0),
        Err(StorageVerificationError::ChallengeNotFound {
            challenge_id: "chall_nothing_0".to_string()
        })
    );

    let mut wrong_file = proof_for(&challenge.id, vec![0u8; 600], NOW);
    wrong_file.file_id = "other".to_string();
    assert_eq!(verifier.verify_proof_at(&wrong_file, NOW, 0), Ok(false));
    assert_eq!(verifier.get_metrics().failed_proofs, 1);

    let late = proof_for(&challenge.id, vec![0u8; 600], NOW + 10);
    assert_eq!(verifier.verify_proof_at(&late, NOW + 1801, 0), Ok(false));
    assert_eq!(verifier.get_metrics().expired_challenges, 1);

    let early = proof_for(&challenge.id, vec![0u8; 600], NOW - 1);
    match verifier.verify_proof_at(&early, NOW, 0) {
        Err(StorageVerificationError::CryptographicFailure { reason }) => {
            assert_eq!(reason, "Invalid proof timestamp")
        }
        other => panic!("unexpected: {:?}", other),
    }
    let ahead = proof_for(&challenge.id, vec![0u8; 600], NOW + 301);
    assert!(verifier.verify_proof_at(&ahead, NOW, 0).is_err());

    let no_data = proof_for(&challenge.id, vec![], NOW);
    match verifier.verify_proof_at(&no_data, NOW, 0) {
        Err(StorageVerificationError::CryptographicFailure { reason }) => {
            assert_eq!(reason, "Proof data cannot be empty")
        }
        other => panic!("unexpected: {:?}", other),
    }

    let short = proof_for(&challenge.id, vec![0u8; 599], NOW);
    match verifier.verify_proof_at(&short, NOW, 0) {
        Err(StorageVerificationError::CryptographicFailure { reason }) => {
            assert_eq!(reason, "Proof data size 599 does not match expected 600")
        }
        other => panic!("unexpected: {:?}", other),
    }

    let wrong = proof_for(&challenge.id, vec![0u8; 600], NOW + 300);
    assert_eq!(verifier.verify_proof_at(&wrong, NOW, 40), Ok(false));
    let metrics = verifier.get_metrics();
    assert_eq!(metrics.failed_proofs, 2);
    assert_eq!(metrics.successful_proofs, 0);
    assert_eq!(metrics.average_response_time_ms, 20);
    assert_eq!(metrics.success_rate_permille(), 0);
}

#[test]
fn a_proof_with_the_expected_hash_holds() {
    let data = vec![3u8; 600];
    let mut verifier = StorageVerifier::new();
    let mut challenge = build_challenge("test_file", "test_provider", NOW, drawn(1));
    challenge.expected_hash = compute_proof_hash(&data, &challenge.challenge_data, 1234, 600);
    let proof = proof_for(&challenge.id, data, NOW);
    assert_eq!(verify_cryptographic_proof(&proof, &challenge), ProofVerdict::Verified);
    assert_eq!(
        check_proof_against(&proof, &challenge, NOW),
        ProofOutcome::Checked(ProofVerdict::Verified)
    );
    let other = proof_for(&challenge.id, vec![4u8; 600], NOW);
    assert_eq!(verify_cryptographic_proof(&other, &challenge), ProofVerdict::HashMismatch);
    assert_eq!(verifier.get_metrics().successful_proofs, 0);
}

#[test]
fn tracker_keeps_recent_requests() {
    let config = RateLimitConfig::default();
    assert_eq!(config.max_requests_per_minute, 60);
    assert_eq!(config.max_requests_per_hour, 1000);
    assert_eq!(config.cleanup_interval_secs, 300);
    assert_eq!(keep_recent(&vec![0, 41, 100, 150], 100, 60), vec![41, 100, 150]);
    assert_eq!(keep_recent(&vec![40], 100, 60), Vec::<u64>::new());

    let small = RateLimitConfig {
        max_requests_per_minute: 2,
        max_requests_per_hour: 3,
        cleanup_interval_secs: 10,
    };
    let mut tracker = RequestTracker::new_at(1000);
    assert!(tracker.can_make_request(1000, &small));
    tracker.record_request(1000);
    tracker.record_request(1001);
    assert!(!tracker.can_make_request(1002, &small));
    // Past the minute and past the cleanup interval the minute window is empty
    // again, but the hour window still counts both requests.
    assert!(tracker.can_make_request(1070, &small));
    tracker.record_request(1070);
    assert!(!tracker.can_make_request(1200, &small));
    tracker.cleanup(5000);
    assert!(tracker.can_make_request(5000, &small));
}

#[test]
fn metrics_reset_after_a_day() {
    let mut metrics = VerificationMetrics::new_at(100);
    metrics.total_challenges = 4;
    metrics.successful_proofs = 3;
    assert_eq!(metrics.success_rate_permille(), 750);
    metrics.reset_if_needed(100 + 86400);
    assert_eq!(metrics.total_challenges, 4);
    metrics.reset_if_needed(100 + 86401);
    assert_eq!(metrics.total_challenges, 0);
    assert_eq!(metrics.last_reset, 100 + 86401);
    assert_eq!(VerificationMetrics::new_at(0).success_rate_permille(), 0);
}

#[test]
fn cleanup_drops_expired_challenges() {
    let mut verifier = StorageVerifier::new();
    let first = verifier.generate_challenge_with("aaaa", "p", NOW, drawn(1)).unwrap();
    let second = verifier.generate_challenge_with("bbbb", "p", NOW + 1000, drawn(2)).unwrap();
    verifier.cleanup_expired_at(NOW + 1800);
    let a = proof_for(&first.id, vec![0u8; 600], NOW + 1);
    assert!(matches!(
        verifier.verify_proof_at(&a, NOW + 1800, 0),
        Err(StorageVerificationError::ChallengeNotFound { .. })
    ));
    let mut b = proof_for(&second.id, vec![0u8; 600], NOW + 1001);
    b.file_id = "bbbb".to_string();
    b.provider = "p".to_string();
    assert_eq!(verifier.verify_proof_at(&b, NOW + 1800, 0), Ok(false));
    verifier.cleanup_expired();
}

#[test]
fn numbers_as_text() {
    assert_eq!(decimal(0), "0");
    assert_eq!(decimal(7), "7");
    assert_eq!(decimal(600), "600");
    assert_eq!(decimal(u64::MAX), "18446744073709551615");
    assert_eq!(lower_hex(0), "0");
    assert_eq!(lower_hex(255), "ff");
    assert_eq!(lower_hex(0x6553f100), "6553f100");
    assert_eq!(lower_hex(u64::MAX), "ffffffffffffffff");
    assert_eq!(hex_digit(0), '0');
    assert_eq!(hex_digit(9), '9');
    assert_eq!(hex_digit(10), 'a');
    assert_eq!(hex_digit(15), 'f');
    assert_eq!(size_mismatch_text(1, 4095), "Proof data size 1 does not match expected 4095");
}

#[test]
fn drawn_numbers_are_in_range() {
    for _ in 0..200 {
        let drawn = ChallengeRandomness::draw().expect("the system gives a seed");
        assert!(drawn.sample_offset < 1_000_000);
        assert!(drawn.sample_size >= 512 && drawn.sample_size < 4096);
        assert_eq!(drawn.challenge_data.len(), 32);
    }
    let a = ChallengeRandomness::draw().expect("the system gives a seed");
    let b = ChallengeRandomness::draw().expect("the system gives a seed");
    assert!(a.salt != b.salt || a.challenge_data != b.challenge_data);
}
