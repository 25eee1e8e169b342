use sprint_backend::web_server::{
    check_request, default_file_size, generate_mock_samples, validate_request, RateLimiter,
    RequestViolation, VerifyRequest, supports_lowered,
};

fn request(file_id: &str, provider: &str, protocol: &str, file_size: u64) -> VerifyRequest {
    VerifyRequest {
        file_id: file_id.to_string(),
        provider: provider.to_string(),
        protocol: protocol.to_string(),
        file_size,
    }
}

#[test]
fn default_file_size_is_one_mebibyte() {
    assert_eq!(default_file_size(), 1024 * 1024);
}

#[test]
fn requests_are_validated_in_order() {
    assert_eq!(validate_request(&request("f", "p", "ipfs", 1)), Ok(()));
    assert_eq!(validate_request(&request("f", "p", "IPFS", 1024 * 1024 * 1024)), Ok(()));
    assert_eq!(validate_request(&request("f", "p", "Arweave", 5)), Ok(()));
    assert_eq!(validate_request(&request("f", "p", "filecoin", 5)), Ok(()));
    assert_eq!(validate_request(&request("f", "p", "BitCoin", 5)), Ok(()));
    assert_eq!(
        validate_request(&request("", "", "nothing", 0)),
        Err("file_id cannot be empty".to_string())
    );
    assert_eq!(
        validate_request(&request("f", "", "nothing", 0)),
        Err("provider cannot be empty".to_string())
    );
    assert_eq!(
        validate_request(&request("f", "p", "nothing", 0)),
        Err("unsupported protocol".to_string())
    );
    assert_eq!(
        validate_request(&request("f", "p", "ipfs", 0)),
        Err("invalid file size".to_string())
    );
    assert_eq!(
        validate_request(&request("f", "p", "ipfs", 1024 * 1024 * 1024 + 1)),
        Err("invalid file size".to_string())
    );
    assert_eq!(
        check_request(&request("f", "p", "ipfs ", 5)),
        Some(RequestViolation::UnsupportedProtocol)
    );
}

#[test]
fn mock_samples_are_cut_or_padded() {
    assert_eq!(generate_mock_samples("abc", 5), vec![b'a', b'b', b'c', 0, 0]);
    assert_eq!(generate_mock_samples("abcdef", 2), vec![b'a', b'b']);
    assert_eq!(generate_mock_samples("abc", 0), Vec::<u8>::new());
    let large = generate_mock_samples("abc", 1 << 20);
    assert_eq!(large.len(), 1024);
    assert_eq!(&large[0..3], b"abc");
    assert!(large[3..].iter().all(|b| *b == 0));
    let long_id = "x".repeat(2000);
    assert_eq!(generate_mock_samples(&long_id, 1 << 20), vec![b'x'; 1024]);
}

#[test]
fn rate_limiter_counts_per_caller_and_window() {
    let mut limiter = RateLimiter::new(2, 60);
    assert!(limiter.check_rate_limit_at("a", 0));
    assert!(limiter.check_rate_limit_at("a", 10));
    assert!(!limiter.check_rate_limit_at("a", 20));
    assert!(limiter.check_rate_limit_at("b", 20));
    // Still inside the first window of a.
    assert!(!limiter.check_rate_limit_at("a", 59_999));
    // The window of a is over: the count starts again.
    assert!(limiter.check_rate_limit_at("a", 60_000));
    assert!(limiter.check_rate_limit_at("a", 60_001));
    assert!(!limiter.check_rate_limit_at("a", 60_002));
    // After two windows without a request the entry of b is dropped.
    assert!(limiter.check_rate_limit_at("b", 200_000));
    assert!(limiter.check_rate_limit_at("b", 200_001));
    assert!(!limiter.check_rate_limit_at("b", 200_002));
}

#[test]
fn rate_limiter_with_its_own_clock() {
    let mut limiter = RateLimiter::new(3, 60);
    assert!(limiter.check_rate_limit("caller"));
    assert!(limiter.check_rate_limit("caller"));
    assert!(limiter.check_rate_limit("caller"));
    assert!(!limiter.check_rate_limit("caller"));
    assert!(limiter.check_rate_limit("other"));
    let mut none = RateLimiter::new(0, 60);
    assert!(!none.check_rate_limit("caller"));
}

#[test]
fn supported_protocols_in_lower_case() {
    for name in ["ipfs", "arweave", "filecoin", "bitcoin"] {
        assert!(supports_lowered(name));
    }
    for name in ["IPFS", "Bitcoin", "", "ipfs ", "ethereum", "ipf", "bitcoins"] {
        assert!(!supports_lowered(name));
    }
}
