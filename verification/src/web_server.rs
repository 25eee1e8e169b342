//! The rules of the verification service: which requests are well formed,
//! how often a caller may ask, and what sample stands for a file.

use vstd::prelude::*;
use vstd::string::{StringExecFns, StringSliceAdditionalSpecFns};
use std::time::Instant;
use crate::clock::{elapsed_since, monotonic_now};

use crate::encoding::same_text;

verus! {

/// The file size that a request has where it names none: one mebibyte.
pub const DEFAULT_FILE_SIZE: u64 = 0x10_0000;

/// The largest file: one gibibyte.
pub const MAX_FILE_SIZE: u64 = 0x4000_0000;

/// The largest sample, in bytes.
pub const MAX_SAMPLE_BYTES: usize = 1024;

/// A request to verify that a provider stores a file.
#[derive(Debug, Clone)]
pub struct VerifyRequest {
    pub file_id: String,
    pub provider: String,
    pub protocol: String,
    pub file_size: u64,
}

/// What is wrong with a request.
#[derive(Debug, Clone, Copy, PartialEq, Eq, Structural)]
pub enum RequestViolation {
    EmptyFileId,
    EmptyProvider,
    UnsupportedProtocol,
    InvalidFileSize,
}

/// `text` in lower case.
pub uninterp spec fn lowercase_model(text: Seq<char>) -> Seq<char>;

/// `text` in lower case, through `str::to_lowercase`. What that is for a given
/// text is decided by the Unicode tables of std; the contract names it.
#[verifier::external_body]
fn to_lowercase(text: &str) -> (lower: String)
    ensures
        lower@ == lowercase_model(text@),
{
    text.to_lowercase()
}

/// Whether `lowered`, a name in lower case, is one of the protocols that are
/// supported: `ipfs`, `arweave`, `filecoin` and `bitcoin`.
pub open spec fn is_supported_lowered(lowered: Seq<char>) -> bool {
    lowered == "ipfs"@ || lowered == "arweave"@ || lowered == "filecoin"@ || lowered
        == "bitcoin"@
}

/// Whether `name`, in whatever case, names a protocol that is supported.
pub open spec fn is_supported_protocol(name: Seq<char>) -> bool {
    is_supported_lowered(lowercase_model(name))
}

/// Whether `lowered`, a name that was brought to lower case, is one of the
/// protocols that are supported.
pub fn supports_lowered(lowered: &str) -> (supported: bool)
    ensures
        supported == is_supported_lowered(lowered@),
{
    same_text(lowered, "ipfs") || same_text(lowered, "arweave") || same_text(lowered, "filecoin")
        || same_text(lowered, "bitcoin")
}

/// What is wrong with a request, if anything: the file id comes first, then
/// the provider, the protocol and the file size.
pub open spec fn request_violation(
    file_id: Seq<char>,
    provider: Seq<char>,
    protocol: Seq<char>,
    file_size: u64,
) -> Option<RequestViolation> {
    if file_id.len() == 0 {
        Some(RequestViolation::EmptyFileId)
    } else if provider.len() == 0 {
        Some(RequestViolation::EmptyProvider)
    } else if !is_supported_protocol(protocol) {
        Some(RequestViolation::UnsupportedProtocol)
    } else if file_size == 0 || file_size > MAX_FILE_SIZE {
        Some(RequestViolation::InvalidFileSize)
    } else {
        None
    }
}

/// The words that report a violation.
pub open spec fn violation_text(violation: RequestViolation) -> Seq<char> {
    match violation {
        RequestViolation::EmptyFileId => "file_id cannot be empty"@,
        RequestViolation::EmptyProvider => "provider cannot be empty"@,
        RequestViolation::UnsupportedProtocol => "unsupported protocol"@,
        RequestViolation::InvalidFileSize => "invalid file size"@,
    }
}

/// The file size of a request that names none.
pub fn default_file_size() -> (size: u64)
    ensures
        size == DEFAULT_FILE_SIZE,
{
    DEFAULT_FILE_SIZE
}

/// Finds what is wrong with a request, if anything.
pub fn check_request(req: &VerifyRequest) -> (violation: Option<RequestViolation>)
    ensures
        violation == request_violation(
            req.file_id@,
            req.provider@,
            req.protocol@,
            req.file_size,
        ),
{
    if req.file_id.as_str().is_empty() {
        return Some(RequestViolation::EmptyFileId);
    }
    if req.provider.as_str().is_empty() {
        return Some(RequestViolation::EmptyProvider);
    }
    let lowered = to_lowercase(req.protocol.as_str());
    if !supports_lowered(lowered.as_str()) {
        return Some(RequestViolation::UnsupportedProtocol);
    }
    if req.file_size == 0 || req.file_size > MAX_FILE_SIZE {
        return Some(RequestViolation::InvalidFileSize);
    }
    None
}

/// Accepts a well-formed request and reports what is wrong with another.
pub fn validate_request(req: &VerifyRequest) -> (checked: Result<(), String>)
    ensures
        match request_violation(req.file_id@, req.provider@, req.protocol@, req.file_size) {
            None => checked is Ok,
            Some(violation) => checked is Err && checked->Err_0@ == violation_text(violation),
        },
{
    match check_request(req) {
        None => Ok(()),
        Some(RequestViolation::EmptyFileId) => Err(String::from_str("file_id cannot be empty")),
        Some(RequestViolation::EmptyProvider) => Err(String::from_str("provider cannot be empty")),
        Some(RequestViolation::UnsupportedProtocol) => Err(
            String::from_str("unsupported protocol"),
        ),
        Some(RequestViolation::InvalidFileSize) => Err(String::from_str("invalid file size")),
    }
}

/// The length of the sample that stands for a file of `file_size` bytes: the
/// size of the file, but no more than 1024.
pub open spec fn sample_length(file_size: u64) -> nat {
    if file_size < MAX_SAMPLE_BYTES {
        file_size as nat
    } else {
        MAX_SAMPLE_BYTES as nat
    }
}

/// The sample that stands for a file: the bytes of the file id, cut off or
/// padded with zeros to the sample's length.
pub open spec fn mock_sample(id_bytes: Seq<u8>, file_size: u64) -> Seq<u8> {
    Seq::new(
        sample_length(file_size),
        |i: int|
            if i < id_bytes.len() {
                id_bytes[i]
            } else {
                0u8
            },
    )
}

/// The sample that stands for the file `file_id` of `file_size` bytes.
pub fn generate_mock_samples(file_id: &str, file_size: u64) -> (sample: Vec<u8>)
    ensures
        sample@ == mock_sample(file_id.spec_bytes(), file_size),
{
    let sample_size: usize = if file_size < MAX_SAMPLE_BYTES as u64 {
        file_size as usize
    } else {
        MAX_SAMPLE_BYTES
    };
    let id_bytes = file_id.as_bytes();
    let mut sample: Vec<u8> = Vec::new();
    let mut i: usize = 0;
    while i < sample_size
        invariant
            i <= sample_size,
            sample_size == sample_length(file_size),
            id_bytes@ == file_id.spec_bytes(),
            sample@ == mock_sample(file_id.spec_bytes(), file_size).take(i as int),
        decreases sample_size - i,
    {
        let byte = if i < id_bytes.len() {
            id_bytes[i]
        } else {
            0
        };
        sample.push(byte);
        proof {
            assert(sample@ =~= mock_sample(file_id.spec_bytes(), file_size).take(i + 1));
        }
        i += 1;
    }
    proof {
        let whole = mock_sample(file_id.spec_bytes(), file_size);
        assert(whole.take(whole.len() as int) =~= whole);
    }
    sample
}

/// The requests of one caller in the current window.
pub struct RateLimitEntry {
    pub key: String,
    pub count: u32,
    /// When the window began, in milliseconds on the limiter's clock.
    pub window_start: u64,
    /// When the caller asked last, in milliseconds on the limiter's clock.
    pub last_request: u64,
}

/// What the limiter knows of one caller.
pub struct EntryState {
    pub key: Seq<char>,
    pub count: u32,
    pub window_start: u64,
    pub last_request: u64,
}

impl View for RateLimitEntry {
    type V = EntryState;

    open spec fn view(&self) -> EntryState {
        EntryState {
            key: self.key@,
            count: self.count,
            window_start: self.window_start,
            last_request: self.last_request,
        }
    }
}

/// What a limiter holds.
pub struct LimiterState {
    pub entries: Seq<EntryState>,
    pub max_requests: u32,
    /// The length of a window, in milliseconds.
    pub window_ms: u64,
}

/// The entries whose caller asked less than two windows before `now`.
pub open spec fn live_entries(entries: Seq<EntryState>, now: u64, window_ms: u64) -> Seq<EntryState> {
    entries.filter(|e: EntryState| now - e.last_request < 2 * window_ms)
}

/// The first place of the caller `key` among `entries`; their number where
/// the caller is not among them.
pub open spec fn entry_place(entries: Seq<EntryState>, key: Seq<char>) -> int
    decreases entries.len(),
{
    if entries.len() == 0 {
        0
    } else if entries[0].key == key {
        0
    } else {
        1 + entry_place(entries.drop_first(), key)
    }
}

/// The entry of a caller as a request at `now` finds it: the caller's own
/// among the live ones, or a new one, with the count set back where the
/// window is over.
pub open spec fn entry_found(s: LimiterState, key: Seq<char>, now: u64) -> EntryState {
    let live = live_entries(s.entries, now, s.window_ms);
    let place = entry_place(live, key);
    let kept = if place < live.len() {
        live[place]
    } else {
        EntryState { key, count: 0, window_start: now, last_request: now }
    };
    if now - kept.window_start >= s.window_ms {
        EntryState { count: 0, window_start: now, last_request: now, ..kept }
    } else {
        EntryState { last_request: now, ..kept }
    }
}

/// Whether the request of the caller `key` at `now` is within the limit.
pub open spec fn allows(s: LimiterState, key: Seq<char>, now: u64) -> bool {
    entry_found(s, key, now).count < s.max_requests
}

/// The limiter after the request of the caller `key` at `now`: stale entries
/// are gone, and the caller's entry counts the request where it was allowed.
pub open spec fn limiter_after(s: LimiterState, key: Seq<char>, now: u64) -> LimiterState {
    let live = live_entries(s.entries, now, s.window_ms);
    let place = entry_place(live, key);
    let found = entry_found(s, key, now);
    let left = if found.count < s.max_requests {
        EntryState { count: (found.count + 1) as u32, ..found }
    } else {
        found
    };
    LimiterState {
        entries: if place < live.len() {
            live.update(place, left)
        } else {
            live.push(left)
        },
        ..s
    }
}

/// Limits how often each caller may ask within a window of time.
pub struct RateLimiter {
    entries: Vec<RateLimitEntry>,
    max_requests: u32,
    window_ms: u64,
    started: Instant,
}

impl View for RateLimiter {
    type V = LimiterState;

    closed spec fn view(&self) -> LimiterState {
        LimiterState {
            entries: Seq::new(self.entries@.len(), |i: int| self.entries@[i]@),
            max_requests: self.max_requests,
            window_ms: self.window_ms,
        }
    }
}

/// The place of a caller is one of the places exactly where the caller is
/// among the entries, and the first such place.
pub proof fn lemma_entry_place(entries: Seq<EntryState>, key: Seq<char>)
    ensures
        0 <= entry_place(entries, key) <= entries.len(),
        entry_place(entries, key) < entries.len() ==> entries[entry_place(entries, key)].key
            == key,
        forall|i: int| 0 <= i < entry_place(entries, key) ==> entries[i].key != key,
    decreases entries.len(),
{
    if entries.len() > 0 && entries[0].key != key {
        lemma_entry_place(entries.drop_first(), key);
        let rest = entry_place(entries.drop_first(), key);
        assert forall|i: int| 0 <= i < 1 + rest implies entries[i].key != key by {
            if i > 0 {
                assert(entries.drop_first()[i - 1] == entries[i]);
            }
        }
    }
}

impl RateLimiter {
    /// A limiter that allows `max_requests` requests in every window of
    /// `window_seconds` seconds and knows no caller yet.
    pub fn new(max_requests: u32, window_seconds: u64) -> (limiter: Self)
        ensures
            limiter@ == (LimiterState {
                entries: Seq::empty(),
                max_requests,
                window_ms: if window_seconds * 1000 > u64::MAX {
                    u64::MAX
                } else {
                    (window_seconds * 1000) as u64
                },
            }),
    {
        let window_ms = match window_seconds.checked_mul(1000) {
            Some(ms) => ms,
            None => u64::MAX,
        };
        let limiter = RateLimiter {
            entries: Vec::new(),
            max_requests,
            window_ms,
            started: monotonic_now(),
        };
        assert(limiter@.entries =~= Seq::empty());
        limiter
    }

    /// Decides on the request of the caller `key` at `now`, milliseconds on
    /// the limiter's clock. Entries of callers that have not asked for two
    /// windows are dropped first.
    pub fn check_rate_limit_at(&mut self, key: &str, now: u64) -> (allowed: bool)
        ensures
            allowed == allows(old(self)@, key@, now),
            final(self)@ == limiter_after(old(self)@, key@, now),
    {
        let ghost before = self@;
        let ghost live = live_entries(before.entries, now, before.window_ms);
        let window_ms = self.window_ms;
        let mut kept: Vec<RateLimitEntry> = Vec::new();
        let mut place: usize = 0;
        let mut found = false;
        let mut i: usize = 0;
        while i < self.entries.len()
            invariant
                i <= self.entries@.len(),
                self@ == before,
                window_ms == before.window_ms,
                live == live_entries(before.entries, now, before.window_ms),
                Seq::new(kept@.len(), |k: int| kept@[k]@) == live_entries(
                    before.entries.take(i as int),
                    now,
                    window_ms,
                ),
                found ==> place < kept@.len() && kept@[place as int].key@ == key@,
                found ==> forall|k: int| 0 <= k < place ==> kept@[k].key@ != key@,
                !found ==> forall|k: int| 0 <= k < kept@.len() ==> kept@[k].key@ != key@,
            decreases self.entries@.len() - i,
        {
            let ghost kept_before = Seq::new(kept@.len(), |k: int| kept@[k]@);
            proof {
                assert(before.entries.take(i + 1).drop_last() =~= before.entries.take(i as int));
                reveal(Seq::filter);
            }
            let entry = &self.entries[i];
            let last = entry.last_request;
            if last > now || ((now - last) as u128) < 2 * (window_ms as u128) {
                if !found && same_text(entry.key.as_str(), key) {
                    found = true;
                    place = kept.len();
                }
                kept.push(
                    RateLimitEntry {
                        key: entry.key.clone(),
                        count: entry.count,
                        window_start: entry.window_start,
                        last_request: entry.last_request,
                    },
                );
                proof {
                    assert(Seq::new(kept@.len(), |k: int| kept@[k]@) =~= kept_before.push(
                        before.entries[i as int],
                    ));
                }
            } else {
                proof {
                    assert(Seq::new(kept@.len(), |k: int| kept@[k]@) =~= kept_before);
                }
            }
            i += 1;
        }
        proof {
            assert(before.entries.take(before.entries.len() as int) =~= before.entries);
            lemma_entry_place(live, key@);
            if found {
                assert(live[place as int].key == key@);
            }
        }
        if !found {
            place = kept.len();
            kept.push(
                RateLimitEntry {
                    key: String::from_str(key),
                    count: 0,
                    window_start: now,
                    last_request: now,
                },
            );
        }
        proof {
            assert(place == entry_place(live, key@));
        }
        let window_start = kept[place].window_start;
        if window_start <= now && now - window_start >= window_ms {
            kept[place].count = 0;
            kept[place].window_start = now;
        }
        kept[place].last_request = now;
        let allowed = kept[place].count < self.max_requests;
        if allowed {
            kept[place].count = kept[place].count + 1;
        }
        self.entries = kept;
        proof {
            assert(self@.entries =~= limiter_after(before, key@, now).entries);
        }
        allowed
    }

    /// Decides on the request of the caller `key` now.
    pub fn check_rate_limit(&mut self, key: &str) -> (allowed: bool)
        ensures
            exists|now: u64|
                allowed == allows(old(self)@, key@, now) && final(self)@ == limiter_after(
                    old(self)@,
                    key@,
                    now,
                ),
    {
        let reading = elapsed_since(&self.started);
        let millis: u128 = (reading.secs as u128) * 1000 + (reading.subsec_nanos as u128)
            / 1_000_000;
        let now: u64 = if millis > u64::MAX as u128 {
            u64::MAX
        } else {
            millis as u64
        };
        self.check_rate_limit_at(key, now)
    }
}

} // verus!
