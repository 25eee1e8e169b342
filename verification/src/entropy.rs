//! Entropy from three sources: the operating system, the jitter of the
//! clock, and the headers of recent blocks.
//!
//! What the sources deliver cannot be predicted, and nothing is claimed of it.
//! What is fixed is how the pieces are mixed, and the mixing steps are stated
//! and proved here one by one.

use vstd::prelude::*;
use rand::rngs::OsRng;
use rand::RngCore;
use std::collections::hash_map::DefaultHasher;
use std::collections::VecDeque;
use std::hash::{Hash, Hasher};
use vstd::std_specs::hash::DefaultHasherAdditionalSpecFns;
use vstd::string::StringExecFns;
use crate::clock::{elapsed_since, monotonic_now};
use crate::encoding::{le_byte, le_bytes};

verus! {

/// The number of jitter samples that a collector remembers.
pub const JITTER_HISTORY: usize = 64;

/// The number of rounds of the generator that is timed for one sample.
pub const JITTER_ROUNDS: u64 = 100;

/// The multiplier of the generator.
pub const LCG_MULTIPLIER: u64 = 6364136223846793005;

/// The increment of the generator.
pub const LCG_INCREMENT: u64 = 1442695040888963407;

/// The length of a block header that has a nonce and a timestamp.
pub const HEADER_LENGTH: usize = 80;

/// Why no entropy could be had.
#[derive(Debug, Clone, PartialEq, Eq)]
pub enum EntropyError {
    SystemError(String),
    InsufficientEntropy,
    InvalidBlockHeaders,
}

/// The hasher's state after a slice of bytes was fed to it through
/// `Hash::hash`.
pub uninterp spec fn hashed_bytes(state: Seq<Seq<u8>>, bytes: Seq<u8>) -> Seq<Seq<u8>>;

/// The hasher's state after a 64-bit number was fed to it through
/// `Hash::hash`.
pub uninterp spec fn hashed_u64(state: Seq<Seq<u8>>, value: u64) -> Seq<Seq<u8>>;

/// The hasher's state after a 32-bit signed number was fed to it through
/// `Hash::hash`.
pub uninterp spec fn hashed_i32(state: Seq<Seq<u8>>, value: i32) -> Seq<Seq<u8>>;

/// Feeds `bytes` to `hasher` through std's `Hash::hash` for slices. What this
/// writes to the hasher is decided by std and depends on the hasher's state
/// and on the bytes alone; the contract only gives it a name.
#[verifier::external_body]
fn hash_bytes(hasher: &mut DefaultHasher, bytes: &[u8])
    ensures
        final(hasher)@ == hashed_bytes(old(hasher)@, bytes@),
{
    bytes.hash(hasher);
}

/// Feeds `value` to `hasher` through std's `Hash::hash` for `u64`. The
/// contract gives the new state a name.
#[verifier::external_body]
fn hash_u64(hasher: &mut DefaultHasher, value: u64)
    ensures
        final(hasher)@ == hashed_u64(old(hasher)@, value),
{
    value.hash(hasher);
}

/// Feeds `value` to `hasher` through std's `Hash::hash` for `i32`. The
/// contract gives the new state a name.
#[verifier::external_body]
fn hash_i32(hasher: &mut DefaultHasher, value: i32)
    ensures
        final(hasher)@ == hashed_i32(old(hasher)@, value),
{
    value.hash(hasher);
}

/// Asks the operating system for `count` random bytes through rand's
/// `OsRng::try_fill_bytes`, which hands the request to the system's random
/// source, fills the whole of the slice it is given and reports a failure.
/// `None` stands for a failure. A request for no bytes never reaches the
/// system and cannot fail. Nothing is claimed of the bytes.
#[verifier::external_body]
fn os_random_bytes(count: usize) -> (bytes: Option<Vec<u8>>)
    ensures
        bytes matches Some(filled) ==> filled@.len() == count,
        count == 0 ==> bytes is Some,
{
    let mut output = vec![0u8; count];
    match OsRng.try_fill_bytes(&mut output) {
        Ok(()) => Some(output),
        Err(_) => None,
    }
}

/// Whether the system delivered exactly `count` bytes.
pub open spec fn delivered_in_full(delivered: Option<Vec<u8>>, count: nat) -> bool {
    delivered matches Some(bytes) && bytes@.len() == count
}

/// Puts what the system delivered into `output`. Where it delivered as many
/// bytes as `output` holds, they replace the contents of `output`. Where it
/// delivered none, or another number of them, `output` is left alone and the
/// failure is reported.
pub fn fill_from_system(output: &mut [u8], delivered: Option<Vec<u8>>) -> (filled: Result<
    (),
    EntropyError,
>)
    ensures
        delivered_in_full(delivered, old(output)@.len()) ==> {
            &&& filled is Ok
            &&& final(output)@ == delivered->Some_0@
        },
        !delivered_in_full(delivered, old(output)@.len()) ==> {
            &&& final(output)@ == old(output)@
            &&& filled matches Err(EntropyError::SystemError(text)) && text@
                == "Failed to generate random bytes"@
        },
{
    match delivered {
        Some(bytes) => {
            let count = output.len();
            if bytes.len() == count {
                let mut i: usize = 0;
                while i < count
                    invariant
                        i <= count,
                        count == output@.len(),
                        count == bytes@.len(),
                        forall|j: int| 0 <= j < i ==> output@[j] == bytes@[j],
                    decreases count - i,
                {
                    output[i] = bytes[i];
                    i += 1;
                }
                proof {
                    assert(output@ =~= bytes@);
                }
                return Ok(());
            }
        },
        None => {},
    }
    Err(EntropyError::SystemError(String::from_str("Failed to generate random bytes")))
}

/// What the system delivered as a block of 32 bytes, or `None` where it
/// delivered none, or another number of them.
pub fn block_from_system(delivered: Option<Vec<u8>>) -> (block: Option<[u8; 32]>)
    ensures
        delivered_in_full(delivered, 32) ==> {
            &&& block is Some
            &&& block->Some_0@ == delivered->Some_0@
        },
        !delivered_in_full(delivered, 32) ==> block is None,
{
    match delivered {
        Some(bytes) => {
            if bytes.len() == 32 {
                let mut output = [0u8; 32];
                let mut i: usize = 0;
                while i < 32
                    invariant
                        i <= 32,
                        bytes@.len() == 32,
                        forall|j: int| 0 <= j < i ==> output@[j] == bytes@[j],
                    decreases 32 - i,
                {
                    output[i] = bytes[i];
                    i += 1;
                }
                proof {
                    assert(output@ =~= bytes@);
                }
                Some(output)
            } else {
                None
            }
        },
        None => None,
    }
}

/// Thirty-two random bytes from the operating system, or `None` where it
/// delivers none.
fn os_entropy() -> (bytes: Option<[u8; 32]>) {
    block_from_system(os_random_bytes(32))
}

/// One round of the generator: `accumulator * multiplier + increment + round`,
/// reduced modulo 2^64.
pub open spec fn lcg_step(accumulator: u64, round: u64) -> u64 {
    ((accumulator * LCG_MULTIPLIER + LCG_INCREMENT + round) % 0x1_0000_0000_0000_0000) as u64
}

/// The generator after `rounds` rounds from zero.
pub open spec fn lcg_rounds(rounds: nat) -> u64
    decreases rounds,
{
    if rounds == 0 {
        0
    } else {
        lcg_step(lcg_rounds((rounds - 1) as nat), (rounds - 1) as u64)
    }
}

/// What a collector holds.
pub struct EntropyState {
    /// The latest jitter samples, oldest first; at most 64.
    pub jitter_history: Seq<u64>,
    /// The entropy that the latest block headers gave.
    pub last_block_entropy: Seq<u8>,
    /// The running total of all samples, each weighted by the generator.
    pub jitter_counter: u64,
}

/// The jitter sample for an elapsed time: the nanoseconds, exclusive-or the
/// generator after its hundred rounds.
pub open spec fn jitter_model(elapsed_nanos: u64) -> u64 {
    elapsed_nanos ^ lcg_rounds(JITTER_ROUNDS as nat)
}

/// The history after one more sample: beyond 64 samples the oldest leaves.
pub open spec fn remember(history: Seq<u64>, sample: u64) -> Seq<u64> {
    if history.len() + 1 > JITTER_HISTORY {
        history.push(sample).drop_first()
    } else {
        history.push(sample)
    }
}

/// The collector after a sample was taken from an elapsed time.
pub open spec fn collect_model(s: EntropyState, elapsed_nanos: u64) -> EntropyState {
    let jitter = jitter_model(elapsed_nanos);
    EntropyState {
        jitter_history: remember(s.jitter_history, jitter),
        jitter_counter: ((s.jitter_counter + (jitter * lcg_rounds(JITTER_ROUNDS as nat))
            % 0x1_0000_0000_0000_0000) % 0x1_0000_0000_0000_0000) as u64,
        ..s
    }
}

/// The hasher's state after the first `count` of `headers` were fed to it.
/// Each header is fed whole; one of at least eighty bytes is followed by its
/// nonce, bytes 76 to 80, and its timestamp, bytes 68 to 72.
pub open spec fn headers_state(headers: Seq<Seq<u8>>, count: nat) -> Seq<Seq<u8>>
    decreases count,
{
    if count == 0 || count > headers.len() {
        Seq::empty()
    } else {
        let before = headers_state(headers, (count - 1) as nat);
        let header = headers[count - 1];
        let whole = hashed_bytes(before, header);
        if header.len() >= HEADER_LENGTH {
            hashed_bytes(hashed_bytes(whole, header.subrange(76, 80)), header.subrange(68, 72))
        } else {
            whole
        }
    }
}

/// The 64-bit digest of the headers, a jitter sample and the running total.
pub open spec fn block_digest(headers: Seq<Seq<u8>>, jitter: u64, counter: u64) -> u64 {
    DefaultHasher::spec_finish(
        hashed_u64(hashed_u64(headers_state(headers, headers.len()), jitter), counter),
    )
}

/// Byte `i` of the entropy that a digest expands to, accumulated onto the
/// entropy `last` of the blocks before.
pub open spec fn expanded_byte(digest: u64, last: Seq<u8>, i: int) -> u8 {
    le_byte(digest, i % 8) ^ (i as u8) ^ last[i]
}

/// The entropy that a collector in the state `s` draws from `headers`, with
/// `elapsed_nanos` as the time of the jitter sample that goes into it. Without
/// headers it is the entropy of the blocks before. Otherwise the headers, the
/// sample and the running total are hashed, and the digest is expanded to 32
/// bytes and accumulated onto the entropy of the blocks before.
pub open spec fn block_entropy_model(s: EntropyState, headers: Seq<Seq<u8>>, elapsed_nanos: u64) -> Seq<
    u8,
> {
    if headers.len() == 0 {
        s.last_block_entropy
    } else {
        let digest = block_digest(
            headers,
            jitter_model(elapsed_nanos),
            collect_model(s, elapsed_nanos).jitter_counter,
        );
        Seq::new(32, |i: int| expanded_byte(digest, s.last_block_entropy, i))
    }
}

/// The collector after it drew entropy from `headers`: unchanged without
/// headers; otherwise one sample richer, and holding the entropy it drew.
pub open spec fn after_block_model(s: EntropyState, headers: Seq<Seq<u8>>, elapsed_nanos: u64) -> EntropyState {
    if headers.len() == 0 {
        s
    } else {
        EntropyState {
            last_block_entropy: block_entropy_model(s, headers, elapsed_nanos),
            ..collect_model(s, elapsed_nanos)
        }
    }
}

/// The contents of each of `headers`.
pub open spec fn header_views(headers: Seq<Vec<u8>>) -> Seq<Seq<u8>> {
    Seq::new(headers.len(), |k: int| headers[k]@)
}

/// A collector that has seen nothing.
pub open spec fn fresh_state() -> EntropyState {
    EntropyState {
        jitter_history: Seq::empty(),
        last_block_entropy: zero_block(),
        jitter_counter: 0,
    }
}

/// A collector of jitter and of block entropy.
pub struct EntropyCollector {
    jitter_history: VecDeque<u64>,
    last_block_entropy: [u8; 32],
    jitter_counter: u64,
}

impl View for EntropyCollector {
    type V = EntropyState;

    closed spec fn view(&self) -> EntropyState {
        EntropyState {
            jitter_history: self.jitter_history@,
            last_block_entropy: self.last_block_entropy@,
            jitter_counter: self.jitter_counter,
        }
    }
}

/// The generator after its hundred rounds.
pub fn lcg_accumulator() -> (accumulator: u64)
    ensures
        accumulator == lcg_rounds(JITTER_ROUNDS as nat),
{
    let mut accumulator: u64 = 0;
    let mut i: u64 = 0;
    while i < JITTER_ROUNDS
        invariant
            i <= JITTER_ROUNDS,
            accumulator == lcg_rounds(i as nat),
        decreases JITTER_ROUNDS - i,
    {
        let ghost before = accumulator;
        accumulator = accumulator.wrapping_mul(LCG_MULTIPLIER).wrapping_add(
            LCG_INCREMENT,
        ).wrapping_add(i);
        proof {
            lemma_lcg_step(before, i);
        }
        i += 1;
    }
    accumulator
}

/// Three wrapping operations in a row are one reduction modulo 2^64.
proof fn lemma_lcg_step(accumulator: u64, round: u64)
    ensures
        vstd::wrapping::u64_specs::wrapping_add(
            vstd::wrapping::u64_specs::wrapping_add(
                vstd::wrapping::u64_specs::wrapping_mul(accumulator, LCG_MULTIPLIER),
                LCG_INCREMENT,
            ),
            round,
        ) == lcg_step(accumulator, round),
{
    let m = 0x1_0000_0000_0000_0000int;
    let product = accumulator as int * LCG_MULTIPLIER as int;
    let a = product % m;
    let b = (a + LCG_INCREMENT as int) % m;
    let c = (b + round as int) % m;
    assert(b == (product + LCG_INCREMENT as int) % m) by {
        vstd::arithmetic::div_mod::lemma_add_mod_noop(product, LCG_INCREMENT as int, m);
        vstd::arithmetic::div_mod::lemma_small_mod(LCG_INCREMENT as nat, m as nat);
        vstd::arithmetic::div_mod::lemma_add_mod_noop(a, LCG_INCREMENT as int, m);
        vstd::arithmetic::div_mod::lemma_mod_twice(product, m);
    }
    assert(c == (product + LCG_INCREMENT as int + round as int) % m) by {
        vstd::arithmetic::div_mod::lemma_add_mod_noop(
            product + LCG_INCREMENT as int,
            round as int,
            m,
        );
        vstd::arithmetic::div_mod::lemma_small_mod(round as nat, m as nat);
        vstd::arithmetic::div_mod::lemma_add_mod_noop(b, round as int, m);
        vstd::arithmetic::div_mod::lemma_mod_twice(product + LCG_INCREMENT as int, m);
    }
}

/// The time that the generator's hundred rounds take now, in nanoseconds by
/// the monotonic clock. Nothing is known of it.
fn time_of_rounds() -> (elapsed_nanos: u64) {
    let start = monotonic_now();
    let _ = lcg_accumulator();
    elapsed_since(&start).as_nanos()
}

impl EntropyCollector {
    /// The representation invariant: no more than 64 samples are remembered.
    pub closed spec fn wf(&self) -> bool {
        self.jitter_history@.len() <= JITTER_HISTORY
    }

    /// A collector that has seen nothing: no samples, and block entropy of 32
    /// zero bytes.
    pub fn new() -> (collector: Self)
        ensures
            collector.wf(),
            collector@ == fresh_state(),
    {
        let collector = EntropyCollector {
            jitter_history: VecDeque::with_capacity(JITTER_HISTORY),
            last_block_entropy: [0u8; 32],
            jitter_counter: 0,
        };
        assert(collector@.last_block_entropy =~= zero_block());
        collector
    }

    /// Fills `output` with random bytes from the operating system. Where the
    /// system delivers none, `output` is left alone and the failure is
    /// reported. An empty `output` is always filled.
    pub fn get_os_entropy(&self, output: &mut [u8]) -> (filled: Result<(), EntropyError>)
        ensures
            final(output)@.len() == old(output)@.len(),
            old(output)@.len() == 0 ==> filled is Ok,
            filled is Err ==> final(output)@ == old(output)@,
            filled matches Err(e) ==> (e matches EntropyError::SystemError(text) && text@
                == "Failed to generate random bytes"@),
    {
        let delivered = os_random_bytes(output.len());
        fill_from_system(output, delivered)
    }

    /// Takes a sample from the time `elapsed_nanos` that the generator's rounds
    /// took, remembers it and adds it to the running total.
    pub fn collect_jitter_from(&mut self, elapsed_nanos: u64) -> (jitter: u64)
        requires
            old(self).wf(),
        ensures
            final(self).wf(),
            jitter == jitter_model(elapsed_nanos),
            final(self)@ == collect_model(old(self)@, elapsed_nanos),
    {
        let accumulator = lcg_accumulator();
        let jitter = elapsed_nanos ^ accumulator;
        self.jitter_history.push_back(jitter);
        if self.jitter_history.len() > JITTER_HISTORY {
            let _ = self.jitter_history.pop_front();
        }
        self.jitter_counter = self.jitter_counter.wrapping_add(jitter.wrapping_mul(accumulator));
        proof {
            assert(self.jitter_history@ =~= remember(old(self)@.jitter_history, jitter));
        }
        jitter
    }

    /// Takes a sample from the time that the generator's rounds take now.
    pub fn collect_jitter(&mut self) -> (jitter: u64)
        requires
            old(self).wf(),
        ensures
            final(self).wf(),
            exists|elapsed_nanos: u64|
                jitter == jitter_model(elapsed_nanos) && final(self)@ == collect_model(
                    old(self)@,
                    elapsed_nanos,
                ),
    {
        let elapsed_nanos = time_of_rounds();
        self.collect_jitter_from(elapsed_nanos)
    }

    /// Draws entropy from block headers, with `elapsed_nanos` as the time of
    /// the jitter sample that goes into it. Without headers the entropy of the
    /// latest blocks is returned and nothing changes. Otherwise the headers,
    /// a fresh sample and the running total are hashed, the digest is expanded
    /// to 32 bytes and accumulated onto the entropy of the blocks before.
    pub fn extract_block_entropy_from(&mut self, headers: &[Vec<u8>], elapsed_nanos: u64) -> (entropy:
        [u8; 32])
        requires
            old(self).wf(),
        ensures
            final(self).wf(),
            entropy@ == block_entropy_model(old(self)@, header_views(headers@), elapsed_nanos),
            final(self)@ == after_block_model(old(self)@, header_views(headers@), elapsed_nanos),
    {
        if headers.len() == 0 {
            return self.last_block_entropy;
        }
        let ghost views = header_views(headers@);
        let mut hasher = DefaultHasher::new();
        let mut k: usize = 0;
        while k < headers.len()
            invariant
                k <= headers@.len(),
                views == header_views(headers@),
                hasher@ == headers_state(views, k as nat),
            decreases headers@.len() - k,
        {
            let header = &headers[k];
            hash_bytes(&mut hasher, header.as_slice());
            if header.len() >= HEADER_LENGTH {
                let nonce = vstd::slice::slice_subrange(header.as_slice(), 76, 80);
                let timestamp = vstd::slice::slice_subrange(header.as_slice(), 68, 72);
                hash_bytes(&mut hasher, nonce);
                hash_bytes(&mut hasher, timestamp);
            }
            k += 1;
        }
        let jitter = self.collect_jitter_from(elapsed_nanos);
        hash_u64(&mut hasher, jitter);
        hash_u64(&mut hasher, self.jitter_counter);
        let digest = hasher.finish();
        let digest_bytes = le_bytes(digest);
        let mut combined = [0u8; 32];
        let mut i: usize = 0;
        while i < 32
            invariant
                i <= 32,
                forall|j: int| 0 <= j < 8 ==> digest_bytes[j] == le_byte(digest, j),
                forall|j: int|
                    0 <= j < i ==> combined[j] == expanded_byte(
                        digest,
                        self.last_block_entropy@,
                        j,
                    ),
            decreases 32 - i,
        {
            combined[i] = digest_bytes[i % 8] ^ (i as u8) ^ self.last_block_entropy[i];
            i += 1;
        }
        self.last_block_entropy = combined;
        proof {
            assert(combined@ =~= block_entropy_model(old(self)@, views, elapsed_nanos));
        }
        combined
    }

    /// Draws entropy from block headers, with a jitter sample taken now.
    pub fn extract_block_entropy(&mut self, headers: &[Vec<u8>]) -> (entropy: [u8; 32])
        requires
            old(self).wf(),
        ensures
            final(self).wf(),
            headers@.len() == 0 ==> final(self)@ == old(self)@ && entropy@ == old(
                self,
            )@.last_block_entropy,
            headers@.len() > 0 ==> final(self)@.last_block_entropy == entropy@,
    {
        let elapsed_nanos = time_of_rounds();
        self.extract_block_entropy_from(headers, elapsed_nanos)
    }
}

/// A block of 32 zero bytes.
pub open spec fn zero_block() -> Seq<u8> {
    Seq::new(32, |i: int| 0u8)
}

/// Two blocks folded together: byte by byte, the exclusive-or of the two.
pub open spec fn xor_model(a: Seq<u8>, b: Seq<u8>) -> Seq<u8> {
    Seq::new(32, |i: int| a[i] ^ b[i])
}

/// A block with a sample spread over both ends: the first eight bytes take
/// the bytes of the sample in order, the last eight take them in reverse.
pub open spec fn fast_mix_model(output: Seq<u8>, jitter: u64) -> Seq<u8> {
    Seq::new(
        32,
        |i: int|
            if i < 8 {
                output[i] ^ le_byte(jitter, i)
            } else if i < 24 {
                output[i]
            } else {
                output[i] ^ le_byte(jitter, 31 - i)
            },
    )
}

/// Four samples laid end to end, each as its eight bytes, least significant
/// first.
pub open spec fn jitter_block_model(samples: Seq<u64>) -> Seq<u8> {
    Seq::new(32, |i: int| le_byte(samples[i / 8], i % 8))
}

/// A block with a final sample folded in: byte `i` of the sample goes to
/// position `4 * i`.
pub open spec fn final_mix_model(output: Seq<u8>, jitter: u64) -> Seq<u8> {
    Seq::new(
        32,
        |i: int|
            if i % 4 == 0 {
                output[i] ^ le_byte(jitter, i / 4)
            } else {
                output[i]
            },
    )
}

/// A block with the digest of additional data folded in: the first eight
/// bytes take the bytes of the digest in order, bytes 16 to 24 take them in
/// reverse.
pub open spec fn additional_mix_model(output: Seq<u8>, digest: u64) -> Seq<u8> {
    Seq::new(
        32,
        |i: int|
            if i < 8 {
                output[i] ^ le_byte(digest, i)
            } else if 16 <= i < 24 {
                output[i] ^ le_byte(digest, 23 - i)
            } else {
                output[i]
            },
    )
}

/// One round's block with the block entropy and the round's sample folded in:
/// byte `i` takes byte `i` of the block entropy and byte `i % 8` of the sample.
pub open spec fn round_mix_model(output: Seq<u8>, block_entropy: Seq<u8>, jitter: u64) -> Seq<u8> {
    Seq::new(32, |i: int| output[i] ^ (block_entropy[i] ^ le_byte(jitter, i % 8)))
}

/// `a` with `b` folded in: byte by byte, the exclusive-or of the two.
pub fn xor_blocks(a: [u8; 32], b: [u8; 32]) -> (mixed: [u8; 32])
    ensures
        mixed@ == xor_model(a@, b@),
{
    let mut mixed = a;
    let mut i: usize = 0;
    while i < 32
        invariant
            i <= 32,
            forall|j: int| 0 <= j < i ==> mixed[j] == a[j] ^ b[j],
            forall|j: int| i <= j < 32 ==> mixed[j] == a[j],
        decreases 32 - i,
    {
        mixed[i] = a[i] ^ b[i];
        i += 1;
    }
    proof {
        assert(mixed@ =~= xor_model(a@, b@));
    }
    mixed
}

/// `output` with a sample spread over both ends: the first eight bytes take
/// the bytes of the sample in order, the last eight take them in reverse.
pub fn mix_fast_jitter(output: [u8; 32], jitter: u64) -> (mixed: [u8; 32])
    ensures
        mixed@ == fast_mix_model(output@, jitter),
{
    let jitter_bytes = le_bytes(jitter);
    let mut mixed = output;
    let mut i: usize = 0;
    while i < 8
        invariant
            i <= 8,
            forall|j: int| 0 <= j < 8 ==> jitter_bytes[j] == le_byte(jitter, j),
            forall|j: int| 0 <= j < i ==> mixed[j] == output[j] ^ le_byte(jitter, j),
            forall|j: int| i <= j < 24 ==> mixed[j] == output[j],
            forall|j: int| 24 <= j < 24 + i ==> mixed[j] == output[j] ^ le_byte(jitter, 31 - j),
            forall|j: int| 24 + i <= j < 32 ==> mixed[j] == output[j],
        decreases 8 - i,
    {
        mixed[i] = mixed[i] ^ jitter_bytes[i];
        mixed[i + 24] = mixed[i + 24] ^ jitter_bytes[7 - i];
        i += 1;
    }
    proof {
        assert(mixed@ =~= fast_mix_model(output@, jitter));
    }
    mixed
}

/// Four samples laid end to end, each as its eight bytes, least significant
/// first.
pub fn jitter_block(samples: [u64; 4]) -> (block: [u8; 32])
    ensures
        block@ == jitter_block_model(samples@),
{
    let mut block = [0u8; 32];
    let mut k: usize = 0;
    while k < 4
        invariant
            k <= 4,
            forall|j: int| 0 <= j < 8 * k ==> block[j] == le_byte(samples[j / 8], j % 8),
        decreases 4 - k,
    {
        let bytes = le_bytes(samples[k]);
        let mut b: usize = 0;
        while b < 8
            invariant
                k < 4,
                b <= 8,
                forall|j: int| 0 <= j < 8 ==> bytes[j] == le_byte(samples[k as int], j),
                forall|j: int|
                    0 <= j < 8 * k + b ==> block[j] == le_byte(samples[j / 8], j % 8),
            decreases 8 - b,
        {
            block[k * 8 + b] = bytes[b];
            b += 1;
        }
        k += 1;
    }
    proof {
        assert(block@ =~= jitter_block_model(samples@));
    }
    block
}

/// `output` with a final sample folded in: byte `i` of the sample goes to
/// position `4 * i`.
pub fn mix_final_jitter(output: [u8; 32], jitter: u64) -> (mixed: [u8; 32])
    ensures
        mixed@ == final_mix_model(output@, jitter),
{
    let jitter_bytes = le_bytes(jitter);
    let mut mixed = output;
    let mut i: usize = 0;
    while i < 8
        invariant
            i <= 8,
            forall|j: int| 0 <= j < 8 ==> jitter_bytes[j] == le_byte(jitter, j),
            forall|j: int|
                0 <= j < 32 ==> mixed[j] == (if j % 4 == 0 && j < 4 * i {
                    output[j] ^ le_byte(jitter, j / 4)
                } else {
                    output[j]
                }),
        decreases 8 - i,
    {
        mixed[i * 4 % 32] = mixed[i * 4 % 32] ^ jitter_bytes[i];
        i += 1;
    }
    proof {
        assert(mixed@ =~= final_mix_model(output@, jitter));
    }
    mixed
}

/// `output` with the digest of additional data folded in: the first eight
/// bytes take the bytes of the digest in order, bytes 16 to 24 take them in
/// reverse.
pub fn mix_additional(output: [u8; 32], digest: u64) -> (mixed: [u8; 32])
    ensures
        mixed@ == additional_mix_model(output@, digest),
{
    let digest_bytes = le_bytes(digest);
    let mut mixed = output;
    let mut i: usize = 0;
    while i < 8
        invariant
            i <= 8,
            forall|j: int| 0 <= j < 8 ==> digest_bytes[j] == le_byte(digest, j),
            forall|j: int|
                0 <= j < 32 ==> mixed[j] == (if j < i {
                    output[j] ^ le_byte(digest, j)
                } else if 16 <= j < 16 + i {
                    output[j] ^ le_byte(digest, 23 - j)
                } else {
                    output[j]
                }),
        decreases 8 - i,
    {
        mixed[i] = mixed[i] ^ digest_bytes[i];
        mixed[i + 16] = mixed[i + 16] ^ digest_bytes[7 - i];
        i += 1;
    }
    proof {
        assert(mixed@ =~= additional_mix_model(output@, digest));
    }
    mixed
}

/// One round's output with the block entropy and the round's sample folded
/// in: byte `i` takes byte `i` of the block entropy and byte `i % 8` of the
/// sample.
pub fn mix_round(output: [u8; 32], block_entropy: [u8; 32], jitter: u64) -> (mixed: [u8; 32])
    ensures
        mixed@ == round_mix_model(output@, block_entropy@, jitter),
{
    let jitter_bytes = le_bytes(jitter);
    let mut mixed = output;
    let mut i: usize = 0;
    while i < 32
        invariant
            i <= 32,
            forall|j: int| 0 <= j < 8 ==> jitter_bytes[j] == le_byte(jitter, j),
            forall|j: int|
                0 <= j < i ==> mixed[j] == output[j] ^ (block_entropy[j] ^ le_byte(
                    jitter,
                    j % 8,
                )),
            forall|j: int| i <= j < 32 ==> mixed[j] == output[j],
        decreases 32 - i,
    {
        mixed[i] = mixed[i] ^ (block_entropy[i] ^ jitter_bytes[i % 8]);
        i += 1;
    }
    proof {
        assert(mixed@ =~= round_mix_model(output@, block_entropy@, jitter));
    }
    mixed
}

/// The digest of additional data for one round: the data and the round's
/// number are hashed together.
pub fn additional_digest(additional_data: &[u8], round: i32) -> (digest: u64)
    ensures
        digest == additional_digest_model(additional_data@, round),
{
    let mut hasher = DefaultHasher::new();
    hash_bytes(&mut hasher, additional_data);
    hash_i32(&mut hasher, round);
    hasher.finish()
}

/// The digest of additional data for one round.
pub open spec fn additional_digest_model(additional_data: Seq<u8>, round: i32) -> u64 {
    DefaultHasher::spec_finish(hashed_i32(hashed_bytes(Seq::empty(), additional_data), round))
}

/// What the system delivered, as a block: zeros where it delivered nothing.
pub open spec fn system_block(system: Option<[u8; 32]>) -> Seq<u8> {
    match system {
        Some(bytes) => bytes@,
        None => zero_block(),
    }
}

/// The quick entropy for what the system delivered and for the times of up to
/// four jitter samples: the system's bytes with the first sample spread over
/// both ends, or, where the system delivered nothing, the four samples laid
/// end to end.
pub open spec fn fast_model(system: Option<[u8; 32]>, elapsed: Seq<u64>) -> Seq<u8> {
    match system {
        Some(bytes) => fast_mix_model(bytes@, jitter_model(elapsed[0])),
        None => jitter_block_model(Seq::new(4, |k: int| jitter_model(elapsed[k]))),
    }
}

/// The entropy from the system, from block headers and from jitter: the
/// system's block with the entropy that a fresh collector draws from the
/// headers folded in, and then a final sample.
pub open spec fn hybrid_model(
    headers: Seq<Seq<u8>>,
    system: Option<[u8; 32]>,
    block_elapsed: u64,
    final_elapsed: u64,
) -> Seq<u8> {
    final_mix_model(
        xor_model(system_block(system), block_entropy_model(fresh_state(), headers, block_elapsed)),
        jitter_model(final_elapsed),
    )
}

/// What one round contributes, for a collector in the state `s`: the system's
/// block, with the digest of the additional data folded in where there is any,
/// and then the block entropy and the round's sample.
pub open spec fn round_output_model(
    s: EntropyState,
    headers: Seq<Seq<u8>>,
    additional_data: Seq<u8>,
    round: i32,
    system: Option<[u8; 32]>,
    block_elapsed: u64,
    round_elapsed: u64,
) -> Seq<u8> {
    let base = system_block(system);
    let with_additional = if additional_data.len() > 0 {
        additional_mix_model(base, additional_digest_model(additional_data, round))
    } else {
        base
    };
    round_mix_model(
        with_additional,
        block_entropy_model(s, headers, block_elapsed),
        jitter_model(round_elapsed),
    )
}

/// The collector after one round: it drew block entropy and took the round's
/// sample.
pub open spec fn round_state_model(
    s: EntropyState,
    headers: Seq<Seq<u8>>,
    block_elapsed: u64,
    round_elapsed: u64,
) -> EntropyState {
    collect_model(after_block_model(s, headers, block_elapsed), round_elapsed)
}

/// The collector after `rounds` rounds from a fresh one. Round `r` takes the
/// times `elapsed[2 * r]` and `elapsed[2 * r + 1]`.
pub open spec fn rounds_state(headers: Seq<Seq<u8>>, elapsed: Seq<u64>, rounds: nat) -> EntropyState
    decreases rounds,
{
    if rounds == 0 {
        fresh_state()
    } else {
        let r = rounds - 1;
        round_state_model(
            rounds_state(headers, elapsed, r as nat),
            headers,
            elapsed[2 * r],
            elapsed[2 * r + 1],
        )
    }
}

/// The entropy after `rounds` rounds: the contributions of all rounds folded
/// together. Round `r` takes what the system delivered as `system[r]`.
pub open spec fn rounds_model(
    headers: Seq<Seq<u8>>,
    additional_data: Seq<u8>,
    system: Seq<Option<[u8; 32]>>,
    elapsed: Seq<u64>,
    rounds: nat,
) -> Seq<u8>
    decreases rounds,
{
    if rounds == 0 {
        zero_block()
    } else {
        let r = rounds - 1;
        xor_model(
            rounds_model(headers, additional_data, system, elapsed, r as nat),
            round_output_model(
                rounds_state(headers, elapsed, r as nat),
                headers,
                additional_data,
                r as i32,
                system[r],
                elapsed[2 * r],
                elapsed[2 * r + 1],
            ),
        )
    }
}

/// Thirty-two bytes of entropy, quickly, from what the system delivered and
/// from the times of the jitter samples. Where the system delivered bytes,
/// only the first time is used.
pub fn fast_entropy_from(system: Option<[u8; 32]>, elapsed: [u64; 4]) -> (entropy: [u8; 32])
    ensures
        entropy@ == fast_model(system, elapsed@),
{
    let mut collector = EntropyCollector::new();
    match system {
        Some(output) => {
            let jitter = collector.collect_jitter_from(elapsed[0]);
            mix_fast_jitter(output, jitter)
        },
        None => {
            let first = collector.collect_jitter_from(elapsed[0]);
            let second = collector.collect_jitter_from(elapsed[1]);
            let third = collector.collect_jitter_from(elapsed[2]);
            let fourth = collector.collect_jitter_from(elapsed[3]);
            let samples = [first, second, third, fourth];
            proof {
                assert(samples@ =~= Seq::new(4, |k: int| jitter_model(elapsed@[k])));
            }
            jitter_block(samples)
        },
    }
}

/// Thirty-two bytes of entropy, quickly: the system's random bytes with one
/// jitter sample spread over both ends, or, where the system fails, four
/// jitter samples laid end to end. The result is what `fast_entropy_from`
/// makes of what the system delivers and of the times that are measured.
pub fn fast_entropy() -> (entropy: [u8; 32])
    ensures
        exists|system: Option<[u8; 32]>, elapsed: Seq<u64>|
            elapsed.len() == 4 && entropy@ == fast_model(system, elapsed),
{
    let system = os_entropy();
    let elapsed = match system {
        Some(_) => [time_of_rounds(), 0, 0, 0],
        None => [time_of_rounds(), time_of_rounds(), time_of_rounds(), time_of_rounds()],
    };
    fast_entropy_from(system, elapsed)
}

/// Thirty-two bytes of entropy from what the system delivered, from block
/// headers and from jitter. `block_elapsed` is the time of the sample that
/// goes into the block entropy, `final_elapsed` that of the final sample.
pub fn hybrid_entropy_from(
    headers: &[Vec<u8>],
    system: Option<[u8; 32]>,
    block_elapsed: u64,
    final_elapsed: u64,
) -> (entropy: [u8; 32])
    ensures
        entropy@ == hybrid_model(header_views(headers@), system, block_elapsed, final_elapsed),
{
    let mut collector = EntropyCollector::new();
    let output = match system {
        Some(bytes) => bytes,
        None => [0u8; 32],
    };
    proof {
        assert(output@ =~= system_block(system));
    }
    let block_entropy = collector.extract_block_entropy_from(headers, block_elapsed);
    let mixed = xor_blocks(output, block_entropy);
    let final_jitter = collector.collect_jitter_from(final_elapsed);
    mix_final_jitter(mixed, final_jitter)
}

/// Thirty-two bytes of entropy from the system, from block headers and from
/// jitter: the system's random bytes, or zeros where the system fails, with
/// the block entropy and a final jitter sample folded in. The result is what
/// `hybrid_entropy_from` makes of what the system delivers and of the times
/// that are measured.
pub fn hybrid_entropy(headers: &[Vec<u8>]) -> (entropy: [u8; 32])
    ensures
        exists|system: Option<[u8; 32]>, block_elapsed: u64, final_elapsed: u64|
            entropy@ == hybrid_model(
                header_views(headers@),
                system,
                block_elapsed,
                final_elapsed,
            ),
{
    let system = os_entropy();
    let block_elapsed = if headers.len() > 0 {
        time_of_rounds()
    } else {
        0
    };
    let final_elapsed = time_of_rounds();
    hybrid_entropy_from(headers, system, block_elapsed, final_elapsed)
}

/// One round of the enterprise entropy: mixes what the system delivered, the
/// block entropy, the digest of the additional data, where there is any, and
/// a jitter sample.
fn enterprise_round(
    collector: &mut EntropyCollector,
    headers: &[Vec<u8>],
    additional_data: &[u8],
    round: i32,
    system: Option<[u8; 32]>,
    block_elapsed: u64,
    round_elapsed: u64,
) -> (round_output: [u8; 32])
    requires
        old(collector).wf(),
    ensures
        final(collector).wf(),
        final(collector)@ == round_state_model(
            old(collector)@,
            header_views(headers@),
            block_elapsed,
            round_elapsed,
        ),
        round_output@ == round_output_model(
            old(collector)@,
            header_views(headers@),
            additional_data@,
            round,
            system,
            block_elapsed,
            round_elapsed,
        ),
{
    let mut round_output = match system {
        Some(bytes) => bytes,
        None => [0u8; 32],
    };
    proof {
        assert(round_output@ =~= system_block(system));
    }
    let block_entropy = collector.extract_block_entropy_from(headers, block_elapsed);
    if additional_data.len() > 0 {
        let digest = additional_digest(additional_data, round);
        round_output = mix_additional(round_output, digest);
    }
    let round_jitter = collector.collect_jitter_from(round_elapsed);
    mix_round(round_output, block_entropy, round_jitter)
}

/// Thirty-two bytes of entropy from three rounds, each of which mixes what
/// the system delivered, the block entropy, the digest of the additional
/// data, where there is any, and a jitter sample. Round `r` takes `system[r]`
/// and the times `elapsed[2 * r]`, for the block entropy, and
/// `elapsed[2 * r + 1]`, for its own sample.
pub fn enterprise_entropy_from(
    headers: &[Vec<u8>],
    additional_data: &[u8],
    system: [Option<[u8; 32]>; 3],
    elapsed: [u64; 6],
) -> (entropy: [u8; 32])
    ensures
        entropy@ == rounds_model(header_views(headers@), additional_data@, system@, elapsed@, 3),
{
    let mut collector = EntropyCollector::new();
    let mut output = [0u8; 32];
    proof {
        assert(output@ =~= zero_block());
    }
    let mut round: usize = 0;
    while round < 3
        invariant
            round <= 3,
            collector.wf(),
            collector@ == rounds_state(header_views(headers@), elapsed@, round as nat),
            output@ == rounds_model(
                header_views(headers@),
                additional_data@,
                system@,
                elapsed@,
                round as nat,
            ),
        decreases 3 - round,
    {
        let number: i32 = if round == 0 {
            0
        } else if round == 1 {
            1
        } else {
            2
        };
        let round_output = enterprise_round(
            &mut collector,
            headers,
            additional_data,
            number,
            system[round],
            elapsed[2 * round],
            elapsed[2 * round + 1],
        );
        output = xor_blocks(output, round_output);
        round += 1;
    }
    output
}

/// Thirty-two bytes of entropy from three rounds, each of which mixes the
/// system's random bytes, the block entropy, the digest of the additional
/// data, where there is any, and a jitter sample. The result is what
/// `enterprise_entropy_from` makes of what the system delivers and of the
/// times that are measured, round by round.
pub fn enterprise_entropy(headers: &[Vec<u8>], additional_data: &[u8]) -> (entropy: [u8; 32])
    ensures
        exists|system: Seq<Option<[u8; 32]>>, elapsed: Seq<u64>|
            system.len() == 3 && elapsed.len() == 6 && entropy@ == rounds_model(
                header_views(headers@),
                additional_data@,
                system,
                elapsed,
                3,
            ),
{
    let mut system: [Option<[u8; 32]>; 3] = [None, None, None];
    let mut elapsed: [u64; 6] = [0, 0, 0, 0, 0, 0];
    let mut round: usize = 0;
    while round < 3
        invariant
            round <= 3,
        decreases 3 - round,
    {
        system[round] = os_entropy();
        if headers.len() > 0 {
            elapsed[2 * round] = time_of_rounds();
        }
        elapsed[2 * round + 1] = time_of_rounds();
        round += 1;
    }
    enterprise_entropy_from(headers, additional_data, system, elapsed)
}

} // verus!
