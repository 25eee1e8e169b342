use sprint_backend::entropy::{
    additional_digest, block_from_system, enterprise_entropy, enterprise_entropy_from,
    fast_entropy, fast_entropy_from, fill_from_system, hybrid_entropy, hybrid_entropy_from,
    jitter_block, lcg_accumulator, mix_additional, mix_fast_jitter, mix_final_jitter, mix_round,
    xor_blocks, EntropyCollector, EntropyError,
};
use sprint_backend::encoding::le_bytes;

#[test]
fn test_fast_entropy() {
    let entropy1 = fast_entropy();
    let entropy2 = fast_entropy();

    // Should produce different outputs
    assert_ne!(entropy1, entropy2);

    // Should not be all zeros
    assert_ne!(entropy1, [0u8; 32]);
}

#[test]
fn test_hybrid_entropy() {
    let mock_headers = vec![
        vec![0u8; 80], // Mock Bitcoin header
        vec![1u8; 80],
    ];

    let entropy1 = hybrid_entropy(&mock_headers);
    let entropy2 = hybrid_entropy(&mock_headers);

    // Should produce different outputs due to jitter
    assert_ne!(entropy1, entropy2);
}

#[test]
fn test_enterprise_entropy() {
    let mock_headers = vec![vec![0u8; 80]];
    let additional_data = b"test_data";

    let entropy = enterprise_entropy(&mock_headers, additional_data);
    assert_ne!(entropy, [0u8; 32]);
}

#[test]
fn generator_after_a_hundred_rounds() {
    let mut accumulator = 0u64;
    for i in 0..100u64 {
        accumulator = accumulator
            .wrapping_mul(6364136223846793005u64)
            .wrapping_add(1442695040888963407u64)
            .wrapping_add(i);
    }
    assert_eq!(lcg_accumulator(), accumulator);
}

#[test]
fn jitter_sample_is_elapsed_xor_generator() {
    let mut collector = EntropyCollector::new();
    let accumulator = lcg_accumulator();
    assert_eq!(collector.collect_jitter_from(0), accumulator);
    assert_eq!(collector.collect_jitter_from(0xffff), accumulator ^ 0xffff);
    for n in 0..100u64 {
        assert_eq!(collector.collect_jitter_from(n), accumulator ^ n);
    }
}

#[test]
fn no_headers_return_the_last_block_entropy() {
    let mut collector = EntropyCollector::new();
    assert_eq!(collector.extract_block_entropy(&[]), [0u8; 32]);
    let first = collector.extract_block_entropy_from(&[vec![7u8; 80]], 5);
    assert_eq!(collector.extract_block_entropy(&[]), first);
    assert_eq!(collector.extract_block_entropy_from(&[], 99), first);
}

#[test]
fn block_entropy_depends_on_the_headers() {
    let mut a = EntropyCollector::new();
    let mut b = EntropyCollector::new();
    let mut c = EntropyCollector::new();
    let one = a.extract_block_entropy_from(&[vec![0u8; 80]], 1000);
    let same = b.extract_block_entropy_from(&[vec![0u8; 80]], 1000);
    let other = c.extract_block_entropy_from(&[vec![1u8; 80]], 1000);
    assert_eq!(one, same);
    assert_ne!(one, other);
}

#[test]
fn little_endian_bytes() {
    assert_eq!(le_bytes(0x0807_0605_0403_0201), [1, 2, 3, 4, 5, 6, 7, 8]);
    assert_eq!(le_bytes(0), [0u8; 8]);
    assert_eq!(le_bytes(u64::MAX), [0xff; 8]);
    assert_eq!(le_bytes(0x1234), 0x1234u64.to_le_bytes());
}

#[test]
fn mixing_steps_on_concrete_values() {
    let zero = [0u8; 32];
    let mut ones = [0u8; 32];
    for (i, byte) in ones.iter_mut().enumerate() {
        *byte = i as u8;
    }
    assert_eq!(xor_blocks(zero, ones), ones);
    assert_eq!(xor_blocks(ones, ones), zero);

    let jitter = 0x0807_0605_0403_0201u64;
    let fast = mix_fast_jitter(zero, jitter);
    assert_eq!(&fast[0..8], &[1, 2, 3, 4, 5, 6, 7, 8]);
    assert_eq!(&fast[8..24], &[0u8; 16]);
    assert_eq!(&fast[24..32], &[8, 7, 6, 5, 4, 3, 2, 1]);

    let last = mix_final_jitter(zero, jitter);
    for i in 0..32 {
        if i % 4 == 0 {
            assert_eq!(last[i], (i / 4 + 1) as u8);
        } else {
            assert_eq!(last[i], 0);
        }
    }

    let extra = mix_additional(zero, jitter);
    assert_eq!(&extra[0..8], &[1, 2, 3, 4, 5, 6, 7, 8]);
    assert_eq!(&extra[8..16], &[0u8; 8]);
    assert_eq!(&extra[16..24], &[8, 7, 6, 5, 4, 3, 2, 1]);
    assert_eq!(&extra[24..32], &[0u8; 8]);

    let round = mix_round(zero, ones, jitter);
    for i in 0..32 {
        assert_eq!(round[i], (i as u8) ^ ((i % 8 + 1) as u8));
    }

    let block = jitter_block([1, 2, 3, 0x0100]);
    assert_eq!(block[0], 1);
    assert_eq!(block[8], 2);
    assert_eq!(block[16], 3);
    assert_eq!(block[24], 0);
    assert_eq!(block[25], 1);
}

#[test]
fn additional_digest_depends_on_data_and_round() {
    assert_eq!(additional_digest(b"test_data", 0), additional_digest(b"test_data", 0));
    assert_ne!(additional_digest(b"test_data", 0), additional_digest(b"test_data", 1));
    assert_ne!(additional_digest(b"test_data", 0), additional_digest(b"other", 0));
}

#[test]
fn os_entropy_fills_the_buffer() {
    let collector = EntropyCollector::new();
    let mut buffer = [0u8; 16];
    assert!(collector.get_os_entropy(&mut buffer).is_ok());
    // Should not be all zeros (very unlikely)
    assert_ne!(buffer, [0u8; 16]);
    let mut empty: [u8; 0] = [];
    assert!(collector.get_os_entropy(&mut empty).is_ok());
}

#[test]
fn block_entropy_depends_on_the_jitter() {
    let mut a = EntropyCollector::new();
    let mut b = EntropyCollector::new();
    let one = a.extract_block_entropy_from(&[vec![0u8; 80]], 1000);
    let other = b.extract_block_entropy_from(&[vec![0u8; 80]], 1001);
    assert_ne!(one, other);
}

#[test]
fn short_headers_are_hashed_whole() {
    let mut a = EntropyCollector::new();
    let mut b = EntropyCollector::new();
    let short = a.extract_block_entropy_from(&[vec![5u8; 79]], 1);
    let long = b.extract_block_entropy_from(&[vec![5u8; 80]], 1);
    assert_ne!(short, long);
}

fn counting_block() -> [u8; 32] {
    let mut block = [0u8; 32];
    for (i, byte) in block.iter_mut().enumerate() {
        *byte = (i as u8).wrapping_mul(7).wrapping_add(3);
    }
    block
}

#[test]
fn system_bytes_replace_the_output() {
    let mut output = [9u8; 4];
    assert_eq!(fill_from_system(&mut output, Some(vec![1, 2, 3, 4])), Ok(()));
    assert_eq!(output, [1, 2, 3, 4]);
    let mut empty: [u8; 0] = [];
    assert_eq!(fill_from_system(&mut empty, Some(Vec::new())), Ok(()));
}

#[test]
fn a_failed_delivery_leaves_the_output_alone() {
    let failure = Err(EntropyError::SystemError("Failed to generate random bytes".to_string()));
    let mut output = [9u8; 4];
    assert_eq!(fill_from_system(&mut output, None), failure);
    assert_eq!(output, [9u8; 4]);
    assert_eq!(fill_from_system(&mut output, Some(vec![1, 2, 3])), failure);
    assert_eq!(output, [9u8; 4]);
    assert_eq!(fill_from_system(&mut output, Some(vec![1, 2, 3, 4, 5])), failure);
    assert_eq!(output, [9u8; 4]);
}

#[test]
fn a_block_needs_thirty_two_bytes() {
    let block = counting_block();
    assert_eq!(block_from_system(Some(block.to_vec())), Some(block));
    assert_eq!(block_from_system(Some(vec![1u8; 31])), None);
    assert_eq!(block_from_system(Some(vec![1u8; 33])), None);
    assert_eq!(block_from_system(Some(Vec::new())), None);
    assert_eq!(block_from_system(None), None);
}

#[test]
fn fast_entropy_with_system_bytes() {
    let block = counting_block();
    let jitter = 1234u64 ^ lcg_accumulator();
    let bytes = jitter.to_le_bytes();
    let entropy = fast_entropy_from(Some(block), [1234, 77, 88, 99]);
    for i in 0..32 {
        let expected = if i < 8 {
            block[i] ^ bytes[i]
        } else if i < 24 {
            block[i]
        } else {
            block[i] ^ bytes[31 - i]
        };
        assert_eq!(entropy[i], expected);
    }
    // Only the first time counts where the system delivered.
    assert_eq!(entropy, fast_entropy_from(Some(block), [1234, 0, 0, 0]));
    assert_ne!(entropy, fast_entropy_from(Some(block), [1235, 77, 88, 99]));
}

#[test]
fn fast_entropy_without_system_bytes() {
    let accumulator = lcg_accumulator();
    let entropy = fast_entropy_from(None, [1, 2, 3, 4]);
    let mut expected = Vec::new();
    for elapsed in [1u64, 2, 3, 4] {
        expected.extend_from_slice(&(elapsed ^ accumulator).to_le_bytes());
    }
    assert_eq!(entropy.to_vec(), expected);
}

#[test]
fn hybrid_entropy_without_headers() {
    let block = counting_block();
    let bytes = (500u64 ^ lcg_accumulator()).to_le_bytes();
    let entropy = hybrid_entropy_from(&[], Some(block), 0, 500);
    for i in 0..32 {
        let expected = if i % 4 == 0 { block[i] ^ bytes[i / 4] } else { block[i] };
        assert_eq!(entropy[i], expected);
    }
    // Without headers no sample goes into the block entropy.
    assert_eq!(entropy, hybrid_entropy_from(&[], Some(block), 12345, 500));
    // A failed delivery counts as zeros.
    assert_eq!(
        hybrid_entropy_from(&[], None, 0, 500),
        hybrid_entropy_from(&[], Some([0u8; 32]), 0, 500)
    );
}

#[test]
fn hybrid_entropy_with_headers() {
    let block = counting_block();
    let headers = vec![vec![0u8; 80], vec![1u8; 80], vec![2u8; 80]];
    let entropy = hybrid_entropy_from(&headers, Some(block), 40, 50);

    let mut collector = EntropyCollector::new();
    let block_entropy = collector.extract_block_entropy_from(&headers, 40);
    let final_jitter = collector.collect_jitter_from(50);
    assert_eq!(entropy, mix_final_jitter(xor_blocks(block, block_entropy), final_jitter));

    assert_eq!(entropy, hybrid_entropy_from(&headers, Some(block), 40, 50));
    assert_ne!(entropy, hybrid_entropy_from(&headers[..2], Some(block), 40, 50));
    assert_ne!(entropy, hybrid_entropy_from(&headers, Some(block), 41, 50));
    assert_ne!(entropy, hybrid_entropy_from(&headers, Some(block), 40, 51));
    assert_ne!(entropy, hybrid_entropy_from(&headers, None, 40, 50));
}

#[test]
fn enterprise_entropy_round_by_round() {
    let headers = vec![vec![0u8; 80], vec![1u8; 80]];
    let additional = b"test_data";
    let system = [Some(counting_block()), None, Some([0xa5u8; 32])];
    let elapsed = [10u64, 11, 20, 21, 30, 31];
    let entropy = enterprise_entropy_from(&headers, additional, system, elapsed);

    let mut collector = EntropyCollector::new();
    let mut expected = [0u8; 32];
    for round in 0..3usize {
        let mut round_output = system[round].unwrap_or([0u8; 32]);
        let block_entropy = collector.extract_block_entropy_from(&headers, elapsed[2 * round]);
        let digest = additional_digest(additional, round as i32);
        round_output = mix_additional(round_output, digest);
        let jitter = collector.collect_jitter_from(elapsed[2 * round + 1]);
        round_output = mix_round(round_output, block_entropy, jitter);
        expected = xor_blocks(expected, round_output);
    }
    assert_eq!(entropy, expected);

    assert_eq!(entropy, enterprise_entropy_from(&headers, additional, system, elapsed));
    assert_ne!(entropy, enterprise_entropy_from(&headers, b"other", system, elapsed));
    assert_ne!(entropy, enterprise_entropy_from(&headers, b"", system, elapsed));
    assert_ne!(entropy, enterprise_entropy_from(&headers[..1], additional, system, elapsed));
    assert_ne!(
        entropy,
        enterprise_entropy_from(&headers, additional, system, [10, 11, 20, 21, 30, 32])
    );
}

#[test]
fn enterprise_entropy_without_headers_or_data() {
    let accumulator = lcg_accumulator();
    let system = [Some([1u8; 32]), Some([2u8; 32]), Some([4u8; 32])];
    let entropy = enterprise_entropy_from(&[], b"", system, [0, 5, 0, 6, 0, 7]);
    let folded = ((5 ^ accumulator) ^ (6 ^ accumulator) ^ (7 ^ accumulator)).to_le_bytes();
    for i in 0..32 {
        assert_eq!(entropy[i], 7u8 ^ folded[i % 8]);
    }
}

#[test]
fn test_entropy_collector() {
    let mut collector = EntropyCollector::new();

    // Test jitter collection
    let jitter1 = collector.collect_jitter();
    let jitter2 = collector.collect_jitter();

    // Jitter values should be different
    assert_ne!(jitter1, jitter2);

    // Test OS entropy
    let mut buffer = [0u8; 16];
    assert!(collector.get_os_entropy(&mut buffer).is_ok());

    // Should not be all zeros (very unlikely)
    assert_ne!(buffer, [0u8; 16]);
}
