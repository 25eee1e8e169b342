//! Challenges that make a storage provider prove it still holds a file.
//!
//! A verifier hands out challenges, limited per provider and per minute and
//! hour, and later checks the proofs that come back. Every rule that depends
//! on the time or on chance is stated in a function that takes the time, or
//! what chance delivered, as an argument.

use vstd::prelude::*;
use vstd::string::{StrSliceExecFns, StringExecFns, StringSliceAdditionalSpecFns};
use rand::rngs::{OsRng, StdRng};
use rand::{Rng, RngCore, SeedableRng};
use crate::clock::epoch_secs;
use crate::encoding::{
    same_text,
    append_bytes, decimal, decimal_model, hex_encode, hex_model, le_bytes, le_bytes_model,
    le_bytes_u32_model, lower_hex, lower_hex_model, sha256, sha256_model,
};

verus! {

/// The longest file id, in bytes.
pub const MAX_FILE_ID_LENGTH: usize = 256;

/// The longest provider name, in bytes.
pub const MAX_PROVIDER_LENGTH: usize = 64;

/// The time a challenge stays open: thirty minutes, in seconds.
pub const CHALLENGE_LIFETIME_SECS: u64 = 1800;

/// The number of remembered beacons above which all are forgotten.
pub const MAX_BEACONS: usize = 10000;

/// The number of open challenges above which the expired ones are dropped.
pub const MAX_CHALLENGES: usize = 1000;

/// The period after which the metrics start afresh: one day, in seconds.
pub const METRICS_PERIOD_SECS: u64 = 86400;

/// How far ahead of the clock the timestamp of a proof may lie, in seconds.
pub const PROOF_CLOCK_SKEW_SECS: u64 = 300;

/// The exclusive upper bound of a sample's offset in the file.
pub const SAMPLE_OFFSET_LIMIT: u64 = 1_000_000;

/// The smallest sample, in bytes.
pub const MIN_SAMPLE_SIZE: u32 = 512;

/// The exclusive upper bound of a sample's size, in bytes.
pub const SAMPLE_SIZE_LIMIT: u32 = 4096;

/// The number of random bytes in a challenge.
pub const CHALLENGE_DATA_LENGTH: usize = 32;

/// The number of characters of the file id that go into a challenge's id.
pub const ID_PREFIX_LENGTH: usize = 8;

/// A challenge to prove possession of a sample of a file.
#[derive(Debug, Clone)]
pub struct StorageChallenge {
    pub id: String,
    pub file_id: String,
    pub provider: String,
    pub nonce: u64,
    pub timestamp: u64,
    pub expiry: u64,
    pub beacon: String,
    pub difficulty: u8,
    pub expected_hash: String,
    pub challenge_data: Vec<u8>,
    pub sample_offset: u64,
    pub sample_size: u32,
}

/// A provider's answer to a challenge.
#[derive(Debug, Clone)]
pub struct StorageProof {
    pub challenge_id: String,
    pub file_id: String,
    pub provider: String,
    pub timestamp: u64,
    pub proof_data: Vec<u8>,
    pub merkle_proof: Option<Vec<String>>,
    pub signature: Option<String>,
}

/// What a challenge says.
pub struct ChallengeRecord {
    pub id: Seq<char>,
    pub file_id: Seq<char>,
    pub provider: Seq<char>,
    pub nonce: u64,
    pub timestamp: u64,
    pub expiry: u64,
    pub beacon: Seq<char>,
    pub difficulty: u8,
    pub expected_hash: Seq<char>,
    pub challenge_data: Seq<u8>,
    pub sample_offset: u64,
    pub sample_size: u32,
}

impl View for StorageChallenge {
    type V = ChallengeRecord;

    open spec fn view(&self) -> ChallengeRecord {
        ChallengeRecord {
            id: self.id@,
            file_id: self.file_id@,
            provider: self.provider@,
            nonce: self.nonce,
            timestamp: self.timestamp,
            expiry: self.expiry,
            beacon: self.beacon@,
            difficulty: self.difficulty,
            expected_hash: self.expected_hash@,
            challenge_data: self.challenge_data@,
            sample_offset: self.sample_offset,
            sample_size: self.sample_size,
        }
    }
}

/// What a proof says, as far as it is checked.
pub struct ProofRecord {
    pub challenge_id: Seq<char>,
    pub file_id: Seq<char>,
    pub provider: Seq<char>,
    pub timestamp: u64,
    pub proof_data: Seq<u8>,
}

impl View for StorageProof {
    type V = ProofRecord;

    open spec fn view(&self) -> ProofRecord {
        ProofRecord {
            challenge_id: self.challenge_id@,
            file_id: self.file_id@,
            provider: self.provider@,
            timestamp: self.timestamp,
            proof_data: self.proof_data@,
        }
    }
}

/// Counts of what a verifier has seen.
#[derive(Debug, Clone, Copy, PartialEq, Eq, Structural)]
pub struct VerificationMetrics {
    pub total_challenges: u64,
    pub successful_proofs: u64,
    pub failed_proofs: u64,
    pub expired_challenges: u64,
    pub rate_limited_requests: u64,
    /// The running mean of the time a verification took, in milliseconds.
    pub average_response_time_ms: u64,
    /// When the counts were last reset, in seconds since the Unix epoch.
    pub last_reset: u64,
}

/// Why a challenge or a verification failed.
#[derive(Debug, Clone, PartialEq, Eq)]
pub enum StorageVerificationError {
    RateLimitExceeded { limit: u32, window: String },
    InvalidInput { field: String, reason: String },
    ChallengeNotFound { challenge_id: String },
    CryptographicFailure { reason: String },
    NetworkError { message: String },
    TimeoutExceeded { timeout_ms: u64 },
    AuthenticationFailed,
}

/// How many challenges a provider may ask for.
#[derive(Debug, Clone, Copy, PartialEq, Eq, Structural)]
pub struct RateLimitConfig {
    pub max_requests_per_minute: u32,
    pub max_requests_per_hour: u32,
    pub cleanup_interval_secs: u64,
}

impl Default for RateLimitConfig {
    /// Sixty requests a minute, a thousand an hour, and a cleanup every five
    /// minutes.
    fn default() -> (config: Self)
        ensures
            config == (RateLimitConfig {
                max_requests_per_minute: 60,
                max_requests_per_hour: 1000,
                cleanup_interval_secs: 300,
            }),
    {
        RateLimitConfig {
            max_requests_per_minute: 60,
            max_requests_per_hour: 1000,
            cleanup_interval_secs: 300,
        }
    }
}

/// One of the metrics one higher, staying at `u64::MAX`.
pub open spec fn counted(n: u64) -> u64 {
    if n == u64::MAX {
        n
    } else {
        (n + 1) as u64
    }
}

/// Metrics with nothing counted, last reset at `now`.
pub open spec fn fresh_metrics(now: u64) -> VerificationMetrics {
    VerificationMetrics {
        total_challenges: 0,
        successful_proofs: 0,
        failed_proofs: 0,
        expired_challenges: 0,
        rate_limited_requests: 0,
        average_response_time_ms: 0,
        last_reset: now,
    }
}

/// The metrics at `now`: started afresh where the last reset lies more than a
/// day back.
pub open spec fn metrics_at(m: VerificationMetrics, now: u64) -> VerificationMetrics {
    if now - m.last_reset > METRICS_PERIOD_SECS {
        fresh_metrics(now)
    } else {
        m
    }
}

/// The share of successful proofs among the challenges, in thousandths.
pub open spec fn success_rate_model(m: VerificationMetrics) -> int {
    if m.total_challenges == 0 {
        0
    } else {
        let exact = m.successful_proofs as int * 1000 / m.total_challenges as int;
        if exact > u64::MAX {
            u64::MAX as int
        } else {
            exact
        }
    }
}

impl VerificationMetrics {
    /// Metrics with nothing counted, last reset at `now`.
    pub fn new_at(now: u64) -> (metrics: Self)
        ensures
            metrics == fresh_metrics(now),
    {
        VerificationMetrics {
            total_challenges: 0,
            successful_proofs: 0,
            failed_proofs: 0,
            expired_challenges: 0,
            rate_limited_requests: 0,
            average_response_time_ms: 0,
            last_reset: now,
        }
    }

    /// The share of challenges that were answered by a successful proof, in
    /// thousandths, rounded down and no larger than `u64::MAX`; zero where no
    /// challenge was handed out.
    pub fn success_rate_permille(&self) -> (rate: u64)
        ensures
            rate == success_rate_model(*self),
    {
        if self.total_challenges == 0 {
            return 0;
        }
        let scaled: u128 = (self.successful_proofs as u128) * 1000;
        let rate: u128 = scaled / (self.total_challenges as u128);
        if rate > u64::MAX as u128 {
            u64::MAX
        } else {
            rate as u64
        }
    }

    /// Starts the metrics afresh where the last reset lies more than a day
    /// before `now`.
    pub fn reset_if_needed(&mut self, now: u64)
        ensures
            *final(self) == metrics_at(*old(self), now),
    {
        if now > self.last_reset && now - self.last_reset > METRICS_PERIOD_SECS {
            *self = VerificationMetrics::new_at(now);
        }
    }
}

/// The requests of one provider that still count.
pub struct TrackerState {
    /// The times of the requests of the last minute.
    pub minute_requests: Seq<u64>,
    /// The times of the requests of the last hour.
    pub hour_requests: Seq<u64>,
    pub last_cleanup: u64,
}

/// Of `requests`, those that lie less than `window` seconds before `now`.
pub open spec fn recent(requests: Seq<u64>, now: u64, window: u64) -> Seq<u64> {
    requests.filter(|ts: u64| now - ts < window)
}

/// The tracker after the requests that no longer count were dropped at `now`.
pub open spec fn cleanup_model(t: TrackerState, now: u64) -> TrackerState {
    TrackerState {
        minute_requests: recent(t.minute_requests, now, 60),
        hour_requests: recent(t.hour_requests, now, 3600),
        last_cleanup: now,
    }
}

/// The tracker as a question at `now` leaves it: cleaned up where the last
/// cleanup lies more than the configured interval back.
pub open spec fn tracker_at(t: TrackerState, now: u64, config: RateLimitConfig) -> TrackerState {
    if now - t.last_cleanup > config.cleanup_interval_secs {
        cleanup_model(t, now)
    } else {
        t
    }
}

/// Whether a provider with the tracker `t` may make one more request.
pub open spec fn within_limits(t: TrackerState, config: RateLimitConfig) -> bool {
    t.minute_requests.len() < config.max_requests_per_minute && t.hour_requests.len()
        < config.max_requests_per_hour
}

/// The times of one provider's requests, kept to limit their rate.
#[derive(Debug, Clone)]
pub struct RequestTracker {
    minute_requests: Vec<u64>,
    hour_requests: Vec<u64>,
    last_cleanup: u64,
}

impl View for RequestTracker {
    type V = TrackerState;

    closed spec fn view(&self) -> TrackerState {
        TrackerState {
            minute_requests: self.minute_requests@,
            hour_requests: self.hour_requests@,
            last_cleanup: self.last_cleanup,
        }
    }
}

/// Of `requests`, those that lie less than `window` seconds before `now`, in
/// their order.
pub fn keep_recent(requests: &Vec<u64>, now: u64, window: u64) -> (kept: Vec<u64>)
    ensures
        kept@ == recent(requests@, now, window),
{
    let mut kept: Vec<u64> = Vec::new();
    let mut i: usize = 0;
    while i < requests.len()
        invariant
            i <= requests@.len(),
            kept@ == recent(requests@.take(i as int), now, window),
        decreases requests@.len() - i,
    {
        let ts = requests[i];
        proof {
            let keep = |ts: u64| now - ts < window;
            assert(requests@.take(i + 1).drop_last() =~= requests@.take(i as int));
            reveal(Seq::filter);
        }
        if ts > now || now - ts < window {
            kept.push(ts);
        }
        i += 1;
    }
    proof {
        assert(requests@.take(requests@.len() as int) =~= requests@);
    }
    kept
}

impl RequestTracker {
    /// A tracker without requests, last cleaned up at `now`.
    pub fn new_at(now: u64) -> (tracker: Self)
        ensures
            tracker@ == (TrackerState {
                minute_requests: Seq::empty(),
                hour_requests: Seq::empty(),
                last_cleanup: now,
            }),
    {
        RequestTracker { minute_requests: Vec::new(), hour_requests: Vec::new(), last_cleanup: now }
    }

    /// A tracker without requests, last cleaned up now.
    pub fn new() -> (tracker: Self)
        ensures
            tracker@.minute_requests == Seq::<u64>::empty(),
            tracker@.hour_requests == Seq::<u64>::empty(),
    {
        Self::new_at(epoch_secs())
    }

    /// Drops the requests that lie a minute, or an hour, before `now`.
    pub fn cleanup(&mut self, now: u64)
        ensures
            final(self)@ == cleanup_model(old(self)@, now),
    {
        self.minute_requests = keep_recent(&self.minute_requests, now, 60);
        self.hour_requests = keep_recent(&self.hour_requests, now, 3600);
        self.last_cleanup = now;
    }

    /// Whether one more request may be made at `now`. The tracker is cleaned
    /// up first where the last cleanup lies more than the configured interval
    /// back.
    pub fn can_make_request(&mut self, now: u64, config: &RateLimitConfig) -> (allowed: bool)
        ensures
            final(self)@ == tracker_at(old(self)@, now, *config),
            allowed == within_limits(tracker_at(old(self)@, now, *config), *config),
    {
        if now > self.last_cleanup && now - self.last_cleanup > config.cleanup_interval_secs {
            self.cleanup(now);
        }
        self.minute_requests.len() < config.max_requests_per_minute as usize
            && self.hour_requests.len() < config.max_requests_per_hour as usize
    }

    /// Notes a request made at `now`.
    pub fn record_request(&mut self, now: u64)
        ensures
            final(self)@ == (TrackerState {
                minute_requests: old(self)@.minute_requests.push(now),
                hour_requests: old(self)@.hour_requests.push(now),
                ..old(self)@
            }),
    {
        self.minute_requests.push(now);
        self.hour_requests.push(now);
    }
}

/// What is wrong with the identifiers of a request.
#[derive(Debug, Clone, Copy, PartialEq, Eq, Structural)]
pub enum InputViolation {
    /// The file id or the provider is empty.
    Empty,
    /// The file id is longer than 256 bytes or the provider longer than 64.
    TooLong,
}

/// What is wrong with a file id and a provider, if anything: emptiness comes
/// before length.
pub open spec fn input_violation(file_id: &str, provider: &str) -> Option<InputViolation> {
    if file_id@.len() == 0 || provider@.len() == 0 {
        Some(InputViolation::Empty)
    } else if file_id.spec_bytes().len() as usize > MAX_FILE_ID_LENGTH
        || provider.spec_bytes().len() as usize > MAX_PROVIDER_LENGTH {
        Some(InputViolation::TooLong)
    } else {
        None
    }
}

/// Checks a file id and a provider.
pub fn check_identifiers(file_id: &str, provider: &str) -> (violation: Option<InputViolation>)
    ensures
        violation == input_violation(file_id, provider),
{
    if file_id.is_empty() || provider.is_empty() {
        Some(InputViolation::Empty)
    } else if file_id.len() > MAX_FILE_ID_LENGTH || provider.len() > MAX_PROVIDER_LENGTH {
        Some(InputViolation::TooLong)
    } else {
        None
    }
}

/// The bytes that are hashed into a beacon: the file id, the provider, the
/// timestamp and the salt as eight bytes each, least significant first, and
/// the separator `UniversalSprint`.
pub open spec fn beacon_input(file_id: &str, provider: &str, timestamp: u64, salt: u64) -> Seq<
    u8,
> {
    file_id.spec_bytes() + provider.spec_bytes() + le_bytes_model(timestamp) + le_bytes_model(
        salt,
    ) + "UniversalSprint".spec_bytes()
}

/// The bytes that are hashed into the expected hash of a challenge: the file
/// id, the challenge data, the offset as eight bytes and the size as four,
/// least significant first, and the separator `UniversalSprint_Expected`.
pub open spec fn expected_hash_input(
    file_id: &str,
    challenge_data: Seq<u8>,
    sample_offset: u64,
    sample_size: u32,
) -> Seq<u8> {
    file_id.spec_bytes() + challenge_data + le_bytes_model(sample_offset) + le_bytes_u32_model(
        sample_size,
    ) + "UniversalSprint_Expected".spec_bytes()
}

/// The bytes that are hashed to check a proof: the proof data, the challenge
/// data, the offset as eight bytes and the size as four, least significant
/// first.
pub open spec fn proof_hash_input(
    proof_data: Seq<u8>,
    challenge_data: Seq<u8>,
    sample_offset: u64,
    sample_size: u32,
) -> Seq<u8> {
    proof_data + challenge_data + le_bytes_model(sample_offset) + le_bytes_u32_model(sample_size)
}

/// Appends the four bytes of `value`, least significant first.
fn append_u32(data: &mut Vec<u8>, value: u32)
    ensures
        final(data)@ == old(data)@ + le_bytes_u32_model(value),
{
    let bytes = le_bytes(value as u64);
    let mut i: usize = 0;
    while i < 4
        invariant
            i <= 4,
            bytes@ == le_bytes_model(value as u64),
            data@ == old(data)@ + le_bytes_u32_model(value).take(i as int),
        decreases 4 - i,
    {
        data.push(bytes[i]);
        proof {
            assert(data@ =~= old(data)@ + le_bytes_u32_model(value).take(i + 1));
        }
        i += 1;
    }
    proof {
        assert(le_bytes_u32_model(value).take(4) =~= le_bytes_u32_model(value));
    }
}

/// Appends the eight bytes of `value`, least significant first.
fn append_u64(data: &mut Vec<u8>, value: u64)
    ensures
        final(data)@ == old(data)@ + le_bytes_model(value),
{
    let bytes = le_bytes(value);
    append_bytes(data, bytes.as_slice());
}

/// The beacon of a challenge: the SHA-256 digest of the beacon's input, in
/// hexadecimal.
pub fn generate_beacon(file_id: &str, provider: &str, timestamp: u64, salt: u64) -> (beacon: String)
    ensures
        beacon@ == hex_model(sha256_model(beacon_input(file_id, provider, timestamp, salt))),
{
    let mut data: Vec<u8> = Vec::new();
    append_bytes(&mut data, file_id.as_bytes());
    append_bytes(&mut data, provider.as_bytes());
    append_u64(&mut data, timestamp);
    append_u64(&mut data, salt);
    append_bytes(&mut data, "UniversalSprint".as_bytes());
    assert(data@ =~= beacon_input(file_id, provider, timestamp, salt));
    let digest = sha256(data.as_slice());
    hex_encode(digest.as_slice())
}

/// The hash that a challenge expects: the SHA-256 digest of the expected hash's
/// input, in hexadecimal.
pub fn generate_expected_hash(
    file_id: &str,
    challenge_data: &[u8],
    sample_offset: u64,
    sample_size: u32,
) -> (hash: String)
    ensures
        hash@ == hex_model(
            sha256_model(
                expected_hash_input(file_id, challenge_data@, sample_offset, sample_size),
            ),
        ),
{
    let mut data: Vec<u8> = Vec::new();
    append_bytes(&mut data, file_id.as_bytes());
    append_bytes(&mut data, challenge_data);
    append_u64(&mut data, sample_offset);
    append_u32(&mut data, sample_size);
    append_bytes(&mut data, "UniversalSprint_Expected".as_bytes());
    assert(data@ =~= expected_hash_input(file_id, challenge_data@, sample_offset, sample_size));
    let digest = sha256(data.as_slice());
    hex_encode(digest.as_slice())
}

/// The hash of a proof under a challenge: the SHA-256 digest of the proof
/// hash's input, in hexadecimal.
pub fn compute_proof_hash(
    proof_data: &[u8],
    challenge_data: &[u8],
    sample_offset: u64,
    sample_size: u32,
) -> (hash: String)
    ensures
        hash@ == hex_model(
            sha256_model(
                proof_hash_input(proof_data@, challenge_data@, sample_offset, sample_size),
            ),
        ),
{
    let mut data: Vec<u8> = Vec::new();
    append_bytes(&mut data, proof_data);
    append_bytes(&mut data, challenge_data);
    append_u64(&mut data, sample_offset);
    append_u32(&mut data, sample_size);
    assert(data@ =~= proof_hash_input(proof_data@, challenge_data@, sample_offset, sample_size));
    let digest = sha256(data.as_slice());
    hex_encode(digest.as_slice())
}

/// The id of a challenge: `chall_`, the first eight characters of the file
/// id, an underscore, and the time in hexadecimal.
pub open spec fn challenge_id_model(file_id: Seq<char>, now: u64) -> Seq<char> {
    let shown = if file_id.len() < ID_PREFIX_LENGTH {
        file_id.len() as int
    } else {
        ID_PREFIX_LENGTH as int
    };
    "chall_"@ + file_id.take(shown) + "_"@ + lower_hex_model(now as nat)
}

/// The id of the challenge for `file_id` that is made at `now`.
pub fn challenge_id(file_id: &str, now: u64) -> (id: String)
    ensures
        id@ == challenge_id_model(file_id@, now),
{
    let length = file_id.unicode_len();
    let shown = if length < ID_PREFIX_LENGTH {
        length
    } else {
        ID_PREFIX_LENGTH
    };
    let prefix = file_id.substring_char(0, shown);
    let mut id = String::from_str("chall_");
    id.append(prefix);
    id.append("_");
    let hex = lower_hex(now);
    id.append(hex.as_str());
    assert(file_id@.subrange(0, shown as int) =~= file_id@.take(shown as int));
    id
}

/// What chance contributes to a challenge.
#[derive(Debug, Clone)]
pub struct ChallengeRandomness {
    pub salt: u64,
    /// The offset of the sample in the file, below one million.
    pub sample_offset: u64,
    /// The size of the sample, from 512 up to but not including 4096.
    pub sample_size: u32,
    /// Thirty-two random bytes.
    pub challenge_data: Vec<u8>,
}

/// rand's `StdRng`, a generator of random numbers. Opaque to the verifier: it
/// is only made and handed to the functions that draw from it.
#[verifier::external_type_specification]
#[verifier::external_body]
pub struct ExStdRng(StdRng);

/// A generator seeded from the operating system, through rand's
/// `SeedableRng::from_rng` on `OsRng`, which asks the system for a seed and
/// reports a failure. `None` stands for a failure.
#[verifier::external_body]
fn seeded_generator() -> (generator: Option<StdRng>) {
    match StdRng::from_rng(OsRng) {
        Ok(generator) => Some(generator),
        Err(_) => None,
    }
}

/// A random 64-bit number from `generator`, through rand's `Rng::gen`.
/// Nothing is claimed of it.
#[verifier::external_body]
fn random_u64(generator: &mut StdRng) -> (value: u64) {
    generator.gen()
}

/// A random number from `low` up to but not including `high`, drawn from
/// `generator` through rand's `Rng::gen_range`, which samples the given range
/// and panics on an empty one.
#[verifier::external_body]
fn random_u64_in(generator: &mut StdRng, low: u64, high: u64) -> (value: u64)
    requires
        low < high,
    ensures
        low <= value < high,
{
    generator.gen_range(low..high)
}

/// `count` random bytes from `generator`, through rand's `RngCore::fill_bytes`,
/// which fills the whole of the slice it is given. Nothing is claimed of the
/// bytes.
#[verifier::external_body]
fn random_bytes(generator: &mut StdRng, count: usize) -> (bytes: Vec<u8>)
    ensures
        bytes@.len() == count,
{
    let mut bytes = vec![0u8; count];
    generator.fill_bytes(&mut bytes);
    bytes
}

impl ChallengeRandomness {
    /// Whether the numbers are in the ranges that a challenge draws them from.
    pub open spec fn in_range(&self) -> bool {
        &&& self.sample_offset < SAMPLE_OFFSET_LIMIT
        &&& MIN_SAMPLE_SIZE <= self.sample_size < SAMPLE_SIZE_LIMIT
        &&& self.challenge_data@.len() == CHALLENGE_DATA_LENGTH
    }

    /// Draws what a challenge needs from a generator that is seeded from the
    /// operating system, or `None` where the system gives no seed.
    pub fn draw() -> (drawn: Option<Self>)
        ensures
            drawn matches Some(numbers) ==> numbers.in_range(),
    {
        match seeded_generator() {
            Some(mut generator) => {
                let salt = random_u64(&mut generator);
                let sample_offset = random_u64_in(&mut generator, 0, SAMPLE_OFFSET_LIMIT);
                let sample_size = random_u64_in(
                    &mut generator,
                    MIN_SAMPLE_SIZE as u64,
                    SAMPLE_SIZE_LIMIT as u64,
                ) as u32;
                let challenge_data = random_bytes(&mut generator, CHALLENGE_DATA_LENGTH);
                Some(ChallengeRandomness { salt, sample_offset, sample_size, challenge_data })
            },
            None => None,
        }
    }
}

/// Whether `challenge` is the challenge for `file_id` and `provider` that is
/// made at `now` from what chance delivered.
pub open spec fn is_challenge_for(
    challenge: ChallengeRecord,
    file_id: &str,
    provider: &str,
    now: u64,
    drawn: ChallengeRandomness,
) -> bool {
    &&& challenge.id == challenge_id_model(file_id@, now)
    &&& challenge.file_id == file_id@
    &&& challenge.provider == provider@
    &&& challenge.nonce == drawn.salt
    &&& challenge.timestamp == now
    &&& challenge.expiry == (if now + CHALLENGE_LIFETIME_SECS > u64::MAX {
        u64::MAX
    } else {
        (now + CHALLENGE_LIFETIME_SECS) as u64
    })
    &&& challenge.beacon == hex_model(
        sha256_model(beacon_input(file_id, provider, now, drawn.salt)),
    )
    &&& challenge.difficulty == 1
    &&& challenge.expected_hash == hex_model(
        sha256_model(
            expected_hash_input(
                file_id,
                drawn.challenge_data@,
                drawn.sample_offset,
                drawn.sample_size,
            ),
        ),
    )
    &&& challenge.challenge_data == drawn.challenge_data@
    &&& challenge.sample_offset == drawn.sample_offset
    &&& challenge.sample_size == drawn.sample_size
}

/// Makes the challenge for `file_id` and `provider` at `now` from what chance
/// delivered. It stays open for thirty minutes.
pub fn build_challenge(file_id: &str, provider: &str, now: u64, drawn: ChallengeRandomness) -> (challenge:
    StorageChallenge)
    ensures
        is_challenge_for(challenge@, file_id, provider, now, drawn),
{
    let beacon = generate_beacon(file_id, provider, now, drawn.salt);
    let expected_hash = generate_expected_hash(
        file_id,
        drawn.challenge_data.as_slice(),
        drawn.sample_offset,
        drawn.sample_size,
    );
    StorageChallenge {
        id: challenge_id(file_id, now),
        file_id: String::from_str(file_id),
        provider: String::from_str(provider),
        nonce: drawn.salt,
        timestamp: now,
        expiry: now.saturating_add(CHALLENGE_LIFETIME_SECS),
        beacon,
        difficulty: 1,
        expected_hash,
        challenge_data: drawn.challenge_data,
        sample_offset: drawn.sample_offset,
        sample_size: drawn.sample_size,
    }
}

/// How the check of a proof against its challenge ends.
#[derive(Debug, Clone, Copy, PartialEq, Eq, Structural)]
pub enum ProofVerdict {
    /// The proof carries no data.
    EmptyProof,
    /// The proof's data has another size than the challenge asked for.
    WrongSize,
    /// The hash of the proof is not the expected one.
    HashMismatch,
    /// The proof holds.
    Verified,
}

/// The verdict on proof data under a challenge: emptiness first, then the
/// size, then the hash.
pub open spec fn proof_verdict(proof_data: Seq<u8>, challenge: ChallengeRecord) -> ProofVerdict {
    if proof_data.len() == 0 {
        ProofVerdict::EmptyProof
    } else if proof_data.len() != challenge.sample_size {
        ProofVerdict::WrongSize
    } else if hex_model(
        sha256_model(
            proof_hash_input(
                proof_data,
                challenge.challenge_data,
                challenge.sample_offset,
                challenge.sample_size,
            ),
        ),
    ) != challenge.expected_hash {
        ProofVerdict::HashMismatch
    } else {
        ProofVerdict::Verified
    }
}

/// Checks the data of a proof against its challenge. A Merkle path and a
/// signature that come with the proof are carried along and not checked.
pub fn verify_cryptographic_proof(proof: &StorageProof, challenge: &StorageChallenge) -> (verdict:
    ProofVerdict)
    ensures
        verdict == proof_verdict(proof@.proof_data, challenge@),
{
    if proof.proof_data.len() == 0 {
        return ProofVerdict::EmptyProof;
    }
    if proof.proof_data.len() != challenge.sample_size as usize {
        return ProofVerdict::WrongSize;
    }
    let computed_hash = compute_proof_hash(
        proof.proof_data.as_slice(),
        challenge.challenge_data.as_slice(),
        challenge.sample_offset,
        challenge.sample_size,
    );
    if !same_text(computed_hash.as_str(), challenge.expected_hash.as_str()) {
        return ProofVerdict::HashMismatch;
    }
    ProofVerdict::Verified
}

/// The reason that goes with a proof of the wrong size: `Proof data size`, the
/// size, `does not match expected`, and the size that was asked for.
pub open spec fn size_mismatch_reason(actual: nat, expected: nat) -> Seq<char> {
    "Proof data size "@ + decimal_model(actual) + " does not match expected "@ + decimal_model(
        expected,
    )
}

/// The reason that goes with a proof of the wrong size.
pub fn size_mismatch_text(actual: usize, expected: u32) -> (reason: String)
    ensures
        reason@ == size_mismatch_reason(actual as nat, expected as nat),
{
    let mut reason = String::from_str("Proof data size ");
    let actual_text = decimal(actual as u64);
    reason.append(actual_text.as_str());
    reason.append(" does not match expected ");
    let expected_text = decimal(expected as u64);
    reason.append(expected_text.as_str());
    reason
}

/// How the verification of a proof ends.
#[derive(Debug, Clone, Copy, PartialEq, Eq, Structural)]
pub enum ProofOutcome {
    /// A field of the proof is empty.
    EmptyField,
    /// No open challenge has the proof's challenge id.
    UnknownChallenge,
    /// The file id or the provider is not the challenge's.
    Mismatch,
    /// The challenge has expired.
    Expired,
    /// The proof is dated before the challenge, or too far ahead of the clock.
    BadTimestamp,
    /// The data of the proof was checked, with this verdict.
    Checked(ProofVerdict),
}

/// The outcome of a proof held against the challenge it names, at `now`: the
/// metadata first, then the expiry, then the timestamp, then the data.
pub open spec fn outcome_against(proof: ProofRecord, challenge: ChallengeRecord, now: u64) -> ProofOutcome {
    if proof.file_id != challenge.file_id || proof.provider != challenge.provider {
        ProofOutcome::Mismatch
    } else if now > challenge.expiry {
        ProofOutcome::Expired
    } else if proof.timestamp < challenge.timestamp || proof.timestamp > now
        + PROOF_CLOCK_SKEW_SECS {
        ProofOutcome::BadTimestamp
    } else {
        ProofOutcome::Checked(proof_verdict(proof.proof_data, challenge))
    }
}

/// Whether a field of the proof is empty.
pub open spec fn has_empty_field(proof: ProofRecord) -> bool {
    proof.challenge_id.len() == 0 || proof.file_id.len() == 0 || proof.provider.len() == 0
}

/// Holds a proof against the challenge it names, at `now`.
pub fn check_proof_against(proof: &StorageProof, challenge: &StorageChallenge, now: u64) -> (outcome:
    ProofOutcome)
    ensures
        outcome == outcome_against(proof@, challenge@, now),
{
    if !same_text(proof.file_id.as_str(), challenge.file_id.as_str()) || !same_text(
        proof.provider.as_str(),
        challenge.provider.as_str(),
    ) {
        return ProofOutcome::Mismatch;
    }
    if now > challenge.expiry {
        return ProofOutcome::Expired;
    }
    if proof.timestamp < challenge.timestamp || proof.timestamp > now.saturating_add(
        PROOF_CLOCK_SKEW_SECS,
    ) {
        return ProofOutcome::BadTimestamp;
    }
    ProofOutcome::Checked(verify_cryptographic_proof(proof, challenge))
}

/// The metrics after a verification that ended with `outcome` and took
/// `elapsed_ms` milliseconds. A mismatch counts as a failed proof and an
/// expired challenge as such. A proof whose data was compared counts as
/// successful or failed, and its time enters the running mean. Every other
/// outcome leaves the metrics alone.
pub open spec fn metrics_after(m: VerificationMetrics, outcome: ProofOutcome, elapsed_ms: u64) -> VerificationMetrics {
    match outcome {
        ProofOutcome::Mismatch => VerificationMetrics {
            failed_proofs: counted(m.failed_proofs),
            ..m
        },
        ProofOutcome::Expired => VerificationMetrics {
            expired_challenges: counted(m.expired_challenges),
            ..m
        },
        ProofOutcome::Checked(ProofVerdict::Verified) => VerificationMetrics {
            successful_proofs: counted(m.successful_proofs),
            average_response_time_ms: ((m.average_response_time_ms + elapsed_ms) / 2) as u64,
            ..m
        },
        ProofOutcome::Checked(ProofVerdict::HashMismatch) => VerificationMetrics {
            failed_proofs: counted(m.failed_proofs),
            average_response_time_ms: ((m.average_response_time_ms + elapsed_ms) / 2) as u64,
            ..m
        },
        _ => m,
    }
}

impl VerificationMetrics {
    /// Counts a verification that ended with `outcome` and took `elapsed_ms`
    /// milliseconds.
    pub fn record_outcome(&mut self, outcome: ProofOutcome, elapsed_ms: u64)
        ensures
            *final(self) == metrics_after(*old(self), outcome, elapsed_ms),
    {
        match outcome {
            ProofOutcome::Mismatch => {
                self.failed_proofs = self.failed_proofs.saturating_add(1);
            },
            ProofOutcome::Expired => {
                self.expired_challenges = self.expired_challenges.saturating_add(1);
            },
            ProofOutcome::Checked(ProofVerdict::Verified) => {
                self.average_response_time_ms = Self::running_mean(
                    self.average_response_time_ms,
                    elapsed_ms,
                );
                self.successful_proofs = self.successful_proofs.saturating_add(1);
            },
            ProofOutcome::Checked(ProofVerdict::HashMismatch) => {
                self.average_response_time_ms = Self::running_mean(
                    self.average_response_time_ms,
                    elapsed_ms,
                );
                self.failed_proofs = self.failed_proofs.saturating_add(1);
            },
            _ => {},
        }
    }

    /// The mean of the running mean and a new sample, rounded down.
    fn running_mean(mean: u64, sample: u64) -> (next: u64)
        ensures
            next == (mean + sample) / 2,
    {
        (((mean as u128) + (sample as u128)) / 2) as u64
    }
}

/// The requests of one provider, under the provider's name.
#[derive(Debug, Clone)]
pub struct ProviderRequests {
    pub provider: String,
    pub tracker: RequestTracker,
}

/// What a verifier holds.
pub struct VerifierState {
    /// The open challenges.
    pub challenges: Seq<ChallengeRecord>,
    /// The beacons that were handed out.
    pub used_beacons: Seq<Seq<char>>,
    /// The providers that have asked for a challenge, and their requests.
    pub providers: Seq<Seq<char>>,
    pub trackers: Seq<TrackerState>,
    pub metrics: VerificationMetrics,
    pub config: RateLimitConfig,
}

/// The first place of `name` among `names`; their number where it is not
/// among them.
pub open spec fn position(names: Seq<Seq<char>>, name: Seq<char>) -> int
    decreases names.len(),
{
    if names.len() == 0 {
        0
    } else if names[0] == name {
        0
    } else {
        1 + position(names.drop_first(), name)
    }
}

/// The ids of `challenges`, in order.
pub open spec fn challenge_ids(challenges: Seq<ChallengeRecord>) -> Seq<Seq<char>> {
    Seq::new(challenges.len(), |i: int| challenges[i].id)
}

/// `items` with `item` at `place`, or at the end where `place` is none of its
/// places.
pub open spec fn put_at<T>(items: Seq<T>, place: int, item: T) -> Seq<T> {
    if 0 <= place < items.len() {
        items.update(place, item)
    } else {
        items.push(item)
    }
}

/// The challenges that are still open at `now`.
pub open spec fn unexpired(challenges: Seq<ChallengeRecord>, now: u64) -> Seq<ChallengeRecord> {
    challenges.filter(|c: ChallengeRecord| now < c.expiry)
}

/// Why a request for a challenge is refused.
#[derive(Debug, Clone, Copy, PartialEq, Eq, Structural)]
pub enum ChallengeRefusal {
    /// The identifiers are empty or too long.
    Invalid(InputViolation),
    /// The provider has used up its requests.
    RateLimited,
    /// The beacon was handed out before.
    BeaconCollision,
}

/// The tracker of `provider` as a request at `now` finds it: the provider's
/// own, or a new one for a provider that asks for the first time, cleaned up
/// where that is due.
pub open spec fn tracker_found(v: VerifierState, provider: Seq<char>, now: u64) -> TrackerState {
    let place = position(v.providers, provider);
    let kept = if place < v.trackers.len() {
        v.trackers[place]
    } else {
        TrackerState { minute_requests: Seq::empty(), hour_requests: Seq::empty(), last_cleanup: now }
    };
    tracker_at(kept, now, v.config)
}

/// Why the request for a challenge for `file_id` from `provider` is refused at
/// `now`, if it is: for its identifiers first, then for the rate of the
/// provider's requests, then for its beacon.
pub open spec fn challenge_refusal(
    v: VerifierState,
    file_id: &str,
    provider: &str,
    now: u64,
    salt: u64,
) -> Option<ChallengeRefusal> {
    match input_violation(file_id, provider) {
        Some(violation) => Some(ChallengeRefusal::Invalid(violation)),
        None => if !within_limits(tracker_found(v, provider@, now), v.config) {
            Some(ChallengeRefusal::RateLimited)
        } else if position(
            v.used_beacons,
            hex_model(sha256_model(beacon_input(file_id, provider, now, salt))),
        ) < v.used_beacons.len() {
            Some(ChallengeRefusal::BeaconCollision)
        } else {
            None
        },
    }
}

/// Whether `error` is the error that reports `refusal`.
pub open spec fn reports(error: StorageVerificationError, refusal: ChallengeRefusal, config: RateLimitConfig) -> bool {
    match refusal {
        ChallengeRefusal::Invalid(violation) => error matches StorageVerificationError::InvalidInput {
            field,
            reason,
        } && field@ == "file_id or provider"@ && reason@ == (match violation {
            InputViolation::Empty => "Cannot be empty"@,
            InputViolation::TooLong => "Too long"@,
        }),
        ChallengeRefusal::RateLimited => error matches StorageVerificationError::RateLimitExceeded {
            limit,
            window,
        } && limit == config.max_requests_per_minute && window@ == "minute"@,
        ChallengeRefusal::BeaconCollision => error matches StorageVerificationError::CryptographicFailure {
            reason,
        } && reason@ == "Beacon collision detected"@,
    }
}

/// The providers and trackers after a request from `provider` at `now` that
/// got as far as the rate limit: the provider has a tracker, cleaned up where
/// due, and the request is noted in it unless the limit refused it.
pub open spec fn trackers_after(v: VerifierState, provider: Seq<char>, now: u64) -> (Seq<Seq<char>>, Seq<TrackerState>) {
    let place = position(v.providers, provider);
    let found = tracker_found(v, provider, now);
    let left = if within_limits(found, v.config) {
        TrackerState {
            minute_requests: found.minute_requests.push(now),
            hour_requests: found.hour_requests.push(now),
            ..found
        }
    } else {
        found
    };
    (put_at(v.providers, place, provider), put_at(v.trackers, place, left))
}

/// The remembered beacons after one more: beyond ten thousand, all are
/// forgotten.
pub open spec fn beacons_after(beacons: Seq<Seq<char>>, beacon: Seq<char>) -> Seq<Seq<char>> {
    if beacons.len() + 1 > MAX_BEACONS {
        Seq::empty()
    } else {
        beacons.push(beacon)
    }
}

/// The open challenges after one more was stored at `now`: it takes the place
/// of a challenge with the same id, and beyond a thousand challenges the
/// expired ones are dropped.
pub open spec fn challenges_after(
    challenges: Seq<ChallengeRecord>,
    challenge: ChallengeRecord,
    now: u64,
) -> Seq<ChallengeRecord> {
    let stored = put_at(challenges, position(challenge_ids(challenges), challenge.id), challenge);
    if stored.len() > MAX_CHALLENGES {
        unexpired(stored, now)
    } else {
        stored
    }
}

/// What the request for a challenge makes of a verifier, given how it ended.
pub open spec fn state_after_request(
    v: VerifierState,
    after: VerifierState,
    file_id: &str,
    provider: &str,
    now: u64,
    salt: u64,
    granted: Option<ChallengeRecord>,
) -> bool {
    let refusal = challenge_refusal(v, file_id, provider, now, salt);
    let noted = trackers_after(v, provider@, now);
    &&& after.config == v.config
    &&& (refusal matches Some(ChallengeRefusal::Invalid(_))) ==> after == v
    &&& !(refusal matches Some(ChallengeRefusal::Invalid(_))) ==> after.providers == noted.0
        && after.trackers == noted.1
    &&& refusal == Some(ChallengeRefusal::RateLimited) ==> {
        &&& after.challenges == v.challenges
        &&& after.used_beacons == v.used_beacons
        &&& after.metrics == (VerificationMetrics {
            rate_limited_requests: counted(v.metrics.rate_limited_requests),
            ..v.metrics
        })
    }
    &&& refusal == Some(ChallengeRefusal::BeaconCollision) ==> {
        &&& after.challenges == v.challenges
        &&& after.used_beacons == v.used_beacons
        &&& after.metrics == v.metrics
    }
    &&& refusal is None ==> granted.is_some() && {
        &&& after.challenges == challenges_after(v.challenges, granted->0, now)
        &&& after.used_beacons == beacons_after(v.used_beacons, granted->0.beacon)
        &&& after.metrics == (VerificationMetrics {
            total_challenges: counted(metrics_at(v.metrics, now).total_challenges),
            ..metrics_at(v.metrics, now)
        })
    }
}

/// Whether `result` and `after` are what a request for a challenge for
/// `file_id` from `provider`, made at `now` with `drawn` as what chance
/// contributes, makes of the verifier `before`: the request is refused for the
/// reason that `challenge_refusal` names, or granted with the challenge that
/// `is_challenge_for` describes, and the verifier is left as
/// `state_after_request` says.
pub open spec fn request_outcome(
    before: VerifierState,
    after: VerifierState,
    file_id: &str,
    provider: &str,
    now: u64,
    drawn: ChallengeRandomness,
    result: Result<StorageChallenge, StorageVerificationError>,
) -> bool {
    &&& match challenge_refusal(before, file_id, provider, now, drawn.salt) {
        Some(refusal) => result is Err && reports(result->Err_0, refusal, before.config),
        None => result is Ok && is_challenge_for(result->Ok_0@, file_id, provider, now, drawn),
    }
    &&& state_after_request(
        before,
        after,
        file_id,
        provider,
        now,
        drawn.salt,
        match result {
            Ok(challenge) => Some(challenge@),
            Err(_) => None,
        },
    )
}

/// Whether `result` reports that the system gave no seed for the random
/// numbers of a challenge.
pub open spec fn reports_no_randomness(
    result: Result<StorageChallenge, StorageVerificationError>,
) -> bool {
    result matches Err(StorageVerificationError::CryptographicFailure { reason }) && reason@
        == "Random source unavailable"@
}

/// Whether `result` is the answer to `proof` whose check at `now` has the
/// outcome that `proof_outcome` names for the verifier `before`.
pub open spec fn answers_proof(
    before: VerifierState,
    proof: ProofRecord,
    now: u64,
    result: Result<bool, StorageVerificationError>,
) -> bool {
    match proof_outcome(before, proof, now) {
        ProofOutcome::EmptyField => result matches Err(
            StorageVerificationError::InvalidInput { field, reason },
        ) && field@ == "proof fields"@ && reason@ == "Cannot be empty"@,
        ProofOutcome::UnknownChallenge => result matches Err(
            StorageVerificationError::ChallengeNotFound { challenge_id },
        ) && challenge_id@ == proof.challenge_id,
        ProofOutcome::Mismatch => result == Ok::<bool, StorageVerificationError>(false),
        ProofOutcome::Expired => result == Ok::<bool, StorageVerificationError>(false),
        ProofOutcome::BadTimestamp => result matches Err(
            StorageVerificationError::CryptographicFailure { reason },
        ) && reason@ == "Invalid proof timestamp"@,
        ProofOutcome::Checked(ProofVerdict::EmptyProof) => result matches Err(
            StorageVerificationError::CryptographicFailure { reason },
        ) && reason@ == "Proof data cannot be empty"@,
        ProofOutcome::Checked(ProofVerdict::WrongSize) => result matches Err(
            StorageVerificationError::CryptographicFailure { reason },
        ) && reason@ == size_mismatch_reason(
            proof.proof_data.len(),
            challenge_named(before, proof).sample_size as nat,
        ),
        ProofOutcome::Checked(ProofVerdict::HashMismatch) => result == Ok::<
            bool,
            StorageVerificationError,
        >(false),
        ProofOutcome::Checked(ProofVerdict::Verified) => result == Ok::<
            bool,
            StorageVerificationError,
        >(true),
    }
}

/// The verifier after the check of `proof` at `now`, which took `elapsed_ms`
/// milliseconds: the outcome is counted, and nothing else changes.
pub open spec fn state_after_proof(
    before: VerifierState,
    proof: ProofRecord,
    now: u64,
    elapsed_ms: u64,
) -> VerifierState {
    VerifierState {
        metrics: metrics_after(before.metrics, proof_outcome(before, proof, now), elapsed_ms),
        ..before
    }
}

/// The verifier after what has expired at `now` was dropped: the challenges
/// that are no longer open, all beacons where more than five thousand are
/// remembered, and in every tracker the requests that no longer count.
pub open spec fn state_after_cleanup(before: VerifierState, now: u64) -> VerifierState {
    VerifierState {
        challenges: unexpired(before.challenges, now),
        used_beacons: if before.used_beacons.len() > BEACON_CLEANUP_THRESHOLD {
            Seq::empty()
        } else {
            before.used_beacons
        },
        trackers: Seq::new(
            before.trackers.len(),
            |i: int| cleanup_model(before.trackers[i], now),
        ),
        ..before
    }
}

/// Hands out challenges and checks the proofs that answer them.
pub struct StorageVerifier {
    challenges: Vec<StorageChallenge>,
    used_beacons: Vec<String>,
    request_trackers: Vec<ProviderRequests>,
    metrics: VerificationMetrics,
    rate_limit_config: RateLimitConfig,
}

impl View for StorageVerifier {
    type V = VerifierState;

    closed spec fn view(&self) -> VerifierState {
        VerifierState {
            challenges: Seq::new(self.challenges@.len(), |i: int| self.challenges@[i]@),
            used_beacons: Seq::new(self.used_beacons@.len(), |i: int| self.used_beacons@[i]@),
            providers: Seq::new(
                self.request_trackers@.len(),
                |i: int| self.request_trackers@[i].provider@,
            ),
            trackers: Seq::new(
                self.request_trackers@.len(),
                |i: int| self.request_trackers@[i].tracker@,
            ),
            metrics: self.metrics,
            config: self.rate_limit_config,
        }
    }
}

/// The place of `name` among `names` is one of its places exactly where the
/// name is among them, and the first such place.
pub proof fn lemma_position(names: Seq<Seq<char>>, name: Seq<char>)
    ensures
        0 <= position(names, name) <= names.len(),
        position(names, name) < names.len() ==> names[position(names, name)] == name,
        forall|i: int| 0 <= i < position(names, name) ==> names[i] != name,
    decreases names.len(),
{
    if names.len() > 0 && names[0] != name {
        lemma_position(names.drop_first(), name);
        let rest = position(names.drop_first(), name);
        assert forall|i: int| 0 <= i < 1 + rest implies names[i] != name by {
            if i > 0 {
                assert(names.drop_first()[i - 1] == names[i]);
            }
        }
    }
}

/// A place is the position of a name where the name stands there and nowhere
/// before.
pub proof fn lemma_position_is(names: Seq<Seq<char>>, name: Seq<char>, place: int)
    requires
        0 <= place <= names.len(),
        place < names.len() ==> names[place] == name,
        forall|i: int| 0 <= i < place ==> names[i] != name,
    ensures
        position(names, name) == place,
{
    lemma_position(names, name);
}

impl StorageVerifier {
    /// A verifier with the default limits that has seen nothing.
    pub fn new() -> (verifier: Self)
        ensures
            verifier@ == (VerifierState {
                challenges: Seq::empty(),
                used_beacons: Seq::empty(),
                providers: Seq::empty(),
                trackers: Seq::empty(),
                metrics: fresh_metrics(0),
                config: RateLimitConfig {
                    max_requests_per_minute: 60,
                    max_requests_per_hour: 1000,
                    cleanup_interval_secs: 300,
                },
            }),
    {
        Self::with_config(RateLimitConfig::default())
    }

    /// A verifier with the given limits that has seen nothing.
    pub fn with_config(config: RateLimitConfig) -> (verifier: Self)
        ensures
            verifier@ == (VerifierState {
                challenges: Seq::empty(),
                used_beacons: Seq::empty(),
                providers: Seq::empty(),
                trackers: Seq::empty(),
                metrics: fresh_metrics(0),
                config,
            }),
    {
        let verifier = StorageVerifier {
            challenges: Vec::new(),
            used_beacons: Vec::new(),
            request_trackers: Vec::new(),
            metrics: VerificationMetrics::new_at(0),
            rate_limit_config: config,
        };
        assert(verifier@.challenges =~= Seq::empty());
        assert(verifier@.used_beacons =~= Seq::empty());
        assert(verifier@.providers =~= Seq::empty());
        assert(verifier@.trackers =~= Seq::empty());
        verifier
    }

    /// The place of `provider` among the providers that have asked before.
    fn find_provider(&self, provider: &str) -> (place: usize)
        ensures
            place == position(self@.providers, provider@),
            place <= self.request_trackers@.len(),
    {
        let mut i: usize = 0;
        while i < self.request_trackers.len()
            invariant
                i <= self.request_trackers@.len(),
                forall|j: int| 0 <= j < i ==> self@.providers[j] != provider@,
            decreases self.request_trackers@.len() - i,
        {
            if same_text(self.request_trackers[i].provider.as_str(), provider) {
                proof {
                    lemma_position_is(self@.providers, provider@, i as int);
                }
                return i;
            }
            i += 1;
        }
        proof {
            lemma_position_is(self@.providers, provider@, i as int);
        }
        i
    }

    /// The place of `beacon` among the beacons that were handed out.
    fn find_beacon(&self, beacon: &str) -> (place: usize)
        ensures
            place == position(self@.used_beacons, beacon@),
            place <= self.used_beacons@.len(),
    {
        let mut i: usize = 0;
        while i < self.used_beacons.len()
            invariant
                i <= self.used_beacons@.len(),
                forall|j: int| 0 <= j < i ==> self@.used_beacons[j] != beacon@,
            decreases self.used_beacons@.len() - i,
        {
            if same_text(self.used_beacons[i].as_str(), beacon) {
                proof {
                    lemma_position_is(self@.used_beacons, beacon@, i as int);
                }
                return i;
            }
            i += 1;
        }
        proof {
            lemma_position_is(self@.used_beacons, beacon@, i as int);
        }
        i
    }

    /// The place of the open challenge with the id `id`.
    fn find_challenge(&self, id: &str) -> (place: usize)
        ensures
            place == position(challenge_ids(self@.challenges), id@),
            place <= self.challenges@.len(),
    {
        let mut i: usize = 0;
        while i < self.challenges.len()
            invariant
                i <= self.challenges@.len(),
                forall|j: int| 0 <= j < i ==> challenge_ids(self@.challenges)[j] != id@,
            decreases self.challenges@.len() - i,
        {
            if same_text(self.challenges[i].id.as_str(), id) {
                proof {
                    lemma_position_is(challenge_ids(self@.challenges), id@, i as int);
                }
                return i;
            }
            i += 1;
        }
        proof {
            lemma_position_is(challenge_ids(self@.challenges), id@, i as int);
        }
        i
    }

    /// The counts of what the verifier has seen.
    pub fn get_metrics(&self) -> (metrics: VerificationMetrics)
        ensures
            metrics == self@.metrics,
    {
        self.metrics
    }

    /// Starts the metrics afresh, dated `now`.
    pub fn reset_metrics_at(&mut self, now: u64)
        ensures
            final(self)@ == (VerifierState { metrics: fresh_metrics(now), ..old(self)@ }),
    {
        self.metrics = VerificationMetrics::new_at(now);
    }

    /// Starts the metrics afresh, dated now.
    pub fn reset_metrics(&mut self)
        ensures
            final(self)@ == (VerifierState {
                metrics: fresh_metrics(final(self)@.metrics.last_reset),
                ..old(self)@
            }),
    {
        self.reset_metrics_at(epoch_secs());
    }
    /// Asks for a challenge for `file_id` from `provider` at `now`, seconds
    /// since the Unix epoch, with `drawn` as what chance contributes. The
    /// request is refused for empty or overlong identifiers, for a provider
    /// that has used up its requests, and for a beacon that was handed out
    /// before, in that order. A granted challenge is stored and counted.
    pub fn generate_challenge_with(
        &mut self,
        file_id: &str,
        provider: &str,
        now: u64,
        drawn: ChallengeRandomness,
    ) -> (result: Result<StorageChallenge, StorageVerificationError>)
        ensures
            request_outcome(old(self)@, final(self)@, file_id, provider, now, drawn, result),
    {
        match check_identifiers(file_id, provider) {
            Some(InputViolation::Empty) => {
                return Err(
                    StorageVerificationError::InvalidInput {
                        field: String::from_str("file_id or provider"),
                        reason: String::from_str("Cannot be empty"),
                    },
                );
            },
            Some(InputViolation::TooLong) => {
                return Err(
                    StorageVerificationError::InvalidInput {
                        field: String::from_str("file_id or provider"),
                        reason: String::from_str("Too long"),
                    },
                );
            },
            None => {},
        }
        let ghost before = self@;
        let place = self.find_provider(provider);
        if place == self.request_trackers.len() {
            self.request_trackers.push(
                ProviderRequests {
                    provider: String::from_str(provider),
                    tracker: RequestTracker::new_at(now),
                },
            );
        }
        let config = self.rate_limit_config;
        let allowed = self.request_trackers[place].tracker.can_make_request(now, &config);
        if !allowed {
            self.metrics.rate_limited_requests = self.metrics.rate_limited_requests.saturating_add(
                1,
            );
            proof {
                let noted = trackers_after(before, provider@, now);
                lemma_position(before.providers, provider@);
                assert(self@.providers =~= noted.0);
                assert(self@.trackers =~= noted.1);
                assert(self@.challenges =~= before.challenges);
                assert(self@.used_beacons =~= before.used_beacons);
            }
            return Err(
                StorageVerificationError::RateLimitExceeded {
                    limit: config.max_requests_per_minute,
                    window: String::from_str("minute"),
                },
            );
        }
        self.request_trackers[place].tracker.record_request(now);
        proof {
            let noted = trackers_after(before, provider@, now);
            lemma_position(before.providers, provider@);
            assert(self@.providers =~= noted.0);
            assert(self@.trackers =~= noted.1);
        }
        let challenge = build_challenge(file_id, provider, now, drawn);
        let beacon_place = self.find_beacon(challenge.beacon.as_str());
        if beacon_place < self.used_beacons.len() {
            proof {
                assert(self@.challenges =~= before.challenges);
                assert(self@.used_beacons =~= before.used_beacons);
            }
            return Err(
                StorageVerificationError::CryptographicFailure {
                    reason: String::from_str("Beacon collision detected"),
                },
            );
        }
        self.used_beacons.push(challenge.beacon.clone());
        if self.used_beacons.len() > MAX_BEACONS {
            self.used_beacons.clear();
        }
        proof {
            assert(self@.used_beacons =~= beacons_after(before.used_beacons, challenge@.beacon));
        }
        let stored = copy_challenge(&challenge);
        let challenge_place = self.find_challenge(challenge.id.as_str());
        if challenge_place < self.challenges.len() {
            self.challenges[challenge_place] = stored;
        } else {
            self.challenges.push(stored);
        }
        proof {
            assert(self@.challenges =~= put_at(
                before.challenges,
                position(challenge_ids(before.challenges), challenge@.id),
                challenge@,
            ));
        }
        if self.challenges.len() > MAX_CHALLENGES {
            self.challenges = keep_unexpired(&self.challenges, now);
        }
        self.metrics.reset_if_needed(now);
        self.metrics.total_challenges = self.metrics.total_challenges.saturating_add(1);
        proof {
            assert(self@.providers =~= trackers_after(before, provider@, now).0);
            assert(self@.trackers =~= trackers_after(before, provider@, now).1);
        }
        Ok(challenge)
    }

    /// Asks for a challenge for `file_id` from `provider` now, with random
    /// numbers from a generator that the operating system seeds. Where the
    /// system gives no seed, that is reported and the verifier is left alone.
    /// Otherwise the answer and the verifier are what
    /// `generate_challenge_with` makes of the time and the numbers that were
    /// read, whatever they are; the numbers are in their ranges.
    pub fn generate_challenge(&mut self, file_id: &str, provider: &str) -> (result: Result<
        StorageChallenge,
        StorageVerificationError,
    >)
        ensures
            (reports_no_randomness(result) && final(self)@ == old(self)@) || (exists|
                now: u64,
                drawn: ChallengeRandomness,
            |
                drawn.in_range() && request_outcome(
                    old(self)@,
                    final(self)@,
                    file_id,
                    provider,
                    now,
                    drawn,
                    result,
                )),
            final(self)@.config == old(self)@.config,
            input_violation(file_id, provider) is Some ==> result is Err && final(self)@ == old(
                self,
            )@,
            result matches Ok(challenge) ==> {
                &&& challenge@.file_id == file_id@
                &&& challenge@.provider == provider@
                &&& challenge@.id == challenge_id_model(file_id@, challenge@.timestamp)
                &&& challenge@.beacon == hex_model(
                    sha256_model(
                        beacon_input(file_id, provider, challenge@.timestamp, challenge@.nonce),
                    ),
                )
                &&& challenge@.expected_hash == hex_model(
                    sha256_model(
                        expected_hash_input(
                            file_id,
                            challenge@.challenge_data,
                            challenge@.sample_offset,
                            challenge@.sample_size,
                        ),
                    ),
                )
                &&& challenge@.sample_offset < SAMPLE_OFFSET_LIMIT
                &&& MIN_SAMPLE_SIZE <= challenge@.sample_size < SAMPLE_SIZE_LIMIT
                &&& challenge@.challenge_data.len() == CHALLENGE_DATA_LENGTH
                &&& challenge@.difficulty == 1
            },
    {
        let now = epoch_secs();
        match ChallengeRandomness::draw() {
            Some(drawn) => self.generate_challenge_with(file_id, provider, now, drawn),
            None => Err(
                StorageVerificationError::CryptographicFailure {
                    reason: String::from_str("Random source unavailable"),
                },
            ),
        }
    }

    /// Checks `proof` at `now`, seconds since the Unix epoch; `elapsed_ms` is
    /// the time the check has taken, in milliseconds. A proof with an empty
    /// field, or for no open challenge, or with a timestamp out of range, or
    /// whose data is empty or of the wrong size, is an error. Otherwise the
    /// answer says whether the proof holds, and the outcome is counted.
    pub fn verify_proof_at(&mut self, proof: &StorageProof, now: u64, elapsed_ms: u64) -> (result:
        Result<bool, StorageVerificationError>)
        ensures
            final(self)@ == state_after_proof(old(self)@, proof@, now, elapsed_ms),
            answers_proof(old(self)@, proof@, now, result),
    {
        if proof.challenge_id.as_str().is_empty() || proof.file_id.as_str().is_empty()
            || proof.provider.as_str().is_empty() {
            return Err(
                StorageVerificationError::InvalidInput {
                    field: String::from_str("proof fields"),
                    reason: String::from_str("Cannot be empty"),
                },
            );
        }
        let place = self.find_challenge(proof.challenge_id.as_str());
        if place >= self.challenges.len() {
            return Err(
                StorageVerificationError::ChallengeNotFound {
                    challenge_id: proof.challenge_id.clone(),
                },
            );
        }
        let outcome = check_proof_against(proof, &self.challenges[place], now);
        let sample_size = self.challenges[place].sample_size;
        self.metrics.record_outcome(outcome, elapsed_ms);
        match outcome {
            ProofOutcome::Mismatch => Ok(false),
            ProofOutcome::Expired => Ok(false),
            ProofOutcome::BadTimestamp => Err(
                StorageVerificationError::CryptographicFailure {
                    reason: String::from_str("Invalid proof timestamp"),
                },
            ),
            ProofOutcome::Checked(ProofVerdict::EmptyProof) => Err(
                StorageVerificationError::CryptographicFailure {
                    reason: String::from_str("Proof data cannot be empty"),
                },
            ),
            ProofOutcome::Checked(ProofVerdict::WrongSize) => Err(
                StorageVerificationError::CryptographicFailure {
                    reason: size_mismatch_text(proof.proof_data.len(), sample_size),
                },
            ),
            ProofOutcome::Checked(ProofVerdict::HashMismatch) => Ok(false),
            ProofOutcome::Checked(ProofVerdict::Verified) => Ok(true),
            ProofOutcome::EmptyField => Ok(false),
            ProofOutcome::UnknownChallenge => Ok(false),
        }
    }

    /// Checks `proof` now. The check itself is fast enough for its time to
    /// count as zero milliseconds. The answer and the verifier are what
    /// `verify_proof_at` makes of the time that the wall clock reads, whatever
    /// it is. A proof with an empty field, or for no open challenge, is an
    /// error at any time.
    pub fn verify_proof(&mut self, proof: &StorageProof) -> (result: Result<
        bool,
        StorageVerificationError,
    >)
        ensures
            exists|now: u64|
                final(self)@ == state_after_proof(old(self)@, proof@, now, 0) && answers_proof(
                    old(self)@,
                    proof@,
                    now,
                    result,
                ),
            !has_empty_field(proof@) && position(
                challenge_ids(old(self)@.challenges),
                proof@.challenge_id,
            ) >= old(self)@.challenges.len() ==> (result matches Err(
                StorageVerificationError::ChallengeNotFound { challenge_id },
            ) && challenge_id@ == proof@.challenge_id),
            final(self)@.challenges == old(self)@.challenges,
            final(self)@.used_beacons == old(self)@.used_beacons,
            final(self)@.providers == old(self)@.providers,
            final(self)@.trackers == old(self)@.trackers,
            final(self)@.config == old(self)@.config,
            has_empty_field(proof@) ==> result is Err && final(self)@ == old(self)@,
    {
        self.verify_proof_at(proof, epoch_secs(), 0)
    }

    /// Drops what has expired at `now`: the challenges that are no longer
    /// open, all beacons where more than five thousand are remembered, and in
    /// every tracker the requests that no longer count.
    pub fn cleanup_expired_at(&mut self, now: u64)
        ensures
            final(self)@ == state_after_cleanup(old(self)@, now),
    {
        self.challenges = keep_unexpired(&self.challenges, now);
        if self.used_beacons.len() > BEACON_CLEANUP_THRESHOLD {
            self.used_beacons.clear();
        }
        let count = self.request_trackers.len();
        let mut i: usize = 0;
        while i < count
            invariant
                i <= count,
                count == self.request_trackers@.len(),
                count == old(self).request_trackers@.len(),
                forall|j: int|
                    0 <= j < count ==> self.request_trackers@[j].provider@ == old(
                        self,
                    ).request_trackers@[j].provider@,
                forall|j: int|
                    0 <= j < i ==> self.request_trackers@[j].tracker@ == cleanup_model(
                        old(self).request_trackers@[j].tracker@,
                        now,
                    ),
                forall|j: int|
                    i <= j < count ==> self.request_trackers@[j].tracker@ == old(
                        self,
                    ).request_trackers@[j].tracker@,
                self@.challenges == unexpired(old(self)@.challenges, now),
                self@.used_beacons == (if old(self)@.used_beacons.len()
                    > BEACON_CLEANUP_THRESHOLD {
                    Seq::empty()
                } else {
                    old(self)@.used_beacons
                }),
                self.metrics == old(self).metrics,
                self.rate_limit_config == old(self).rate_limit_config,
            decreases count - i,
        {
            self.request_trackers[i].tracker.cleanup(now);
            i += 1;
        }
        proof {
            assert(self@.providers =~= old(self)@.providers);
            assert(self@.trackers =~= Seq::new(
                old(self)@.trackers.len(),
                |i: int| cleanup_model(old(self)@.trackers[i], now),
            ));
        }
    }

    /// Drops what has expired now: the verifier is left as
    /// `cleanup_expired_at` leaves it for the time that the wall clock reads,
    /// whatever it is.
    pub fn cleanup_expired(&mut self)
        ensures
            exists|now: u64| final(self)@ == state_after_cleanup(old(self)@, now),
            final(self)@.metrics == old(self)@.metrics,
            final(self)@.config == old(self)@.config,
            final(self)@.providers == old(self)@.providers,
            final(self)@.challenges.len() <= old(self)@.challenges.len(),
    {
        let now = epoch_secs();
        proof {
            lemma_unexpired_is_shorter(self@.challenges, now);
        }
        self.cleanup_expired_at(now);
    }
}

/// The challenge that a proof names, among the open ones.
pub open spec fn challenge_named(v: VerifierState, proof: ProofRecord) -> ChallengeRecord {
    v.challenges[position(challenge_ids(v.challenges), proof.challenge_id)]
}

/// The outcome of a proof at `now`: an empty field first, then the search for
/// the challenge it names, then the check against that challenge.
pub open spec fn proof_outcome(v: VerifierState, proof: ProofRecord, now: u64) -> ProofOutcome {
    if has_empty_field(proof) {
        ProofOutcome::EmptyField
    } else if position(challenge_ids(v.challenges), proof.challenge_id) >= v.challenges.len() {
        ProofOutcome::UnknownChallenge
    } else {
        outcome_against(proof, challenge_named(v, proof), now)
    }
}

/// The number of beacons above which a cleanup forgets all of them.
pub const BEACON_CLEANUP_THRESHOLD: usize = 5000;

/// Dropping the expired challenges leaves no more than there were.
pub proof fn lemma_unexpired_is_shorter(challenges: Seq<ChallengeRecord>, now: u64)
    ensures
        unexpired(challenges, now).len() <= challenges.len(),
{
    challenges.lemma_filter_len(|c: ChallengeRecord| now < c.expiry);
}

/// A copy of `challenge`.
pub fn copy_challenge(challenge: &StorageChallenge) -> (copy: StorageChallenge)
    ensures
        copy@ == challenge@,
{
    let mut challenge_data: Vec<u8> = Vec::new();
    append_bytes(&mut challenge_data, challenge.challenge_data.as_slice());
    StorageChallenge {
        id: challenge.id.clone(),
        file_id: challenge.file_id.clone(),
        provider: challenge.provider.clone(),
        nonce: challenge.nonce,
        timestamp: challenge.timestamp,
        expiry: challenge.expiry,
        beacon: challenge.beacon.clone(),
        difficulty: challenge.difficulty,
        expected_hash: challenge.expected_hash.clone(),
        challenge_data,
        sample_offset: challenge.sample_offset,
        sample_size: challenge.sample_size,
    }
}

/// Of `challenges`, those that are still open at `now`, in their order.
pub fn keep_unexpired(challenges: &Vec<StorageChallenge>, now: u64) -> (kept: Vec<StorageChallenge>)
    ensures
        Seq::new(kept@.len(), |i: int| kept@[i]@) == unexpired(
            Seq::new(challenges@.len(), |i: int| challenges@[i]@),
            now,
        ),
{
    let ghost records = Seq::new(challenges@.len(), |i: int| challenges@[i]@);
    let mut kept: Vec<StorageChallenge> = Vec::new();
    let mut i: usize = 0;
    while i < challenges.len()
        invariant
            i <= challenges@.len(),
            records == Seq::new(challenges@.len(), |i: int| challenges@[i]@),
            Seq::new(kept@.len(), |k: int| kept@[k]@) == unexpired(records.take(i as int), now),
        decreases challenges@.len() - i,
    {
        let ghost kept_before = Seq::new(kept@.len(), |k: int| kept@[k]@);
        proof {
            assert(records.take(i + 1).drop_last() =~= records.take(i as int));
            reveal(Seq::filter);
        }
        if now < challenges[i].expiry {
            kept.push(copy_challenge(&challenges[i]));
            proof {
                assert(Seq::new(kept@.len(), |k: int| kept@[k]@) =~= kept_before.push(
                    records[i as int],
                ));
            }
        } else {
            proof {
                assert(Seq::new(kept@.len(), |k: int| kept@[k]@) =~= kept_before);
            }
        }
        i += 1;
    }
    proof {
        assert(records.take(records.len() as int) =~= records);
    }
    kept
}

} // verus!
