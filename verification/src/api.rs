//! What the network service knows of its protocols: their names, the peers
//! it starts from, the ids it gives to peers, a cache whose entries expire,
//! and a window of latencies per chain.

use vstd::prelude::*;
use vstd::string::{StringExecFns, StringSliceAdditionalSpecFns};
use crate::encoding::{
    same_text,
    append_bytes, lower_hex, lower_hex_model, sha256, sha256_model, DIGEST_LENGTH,
};

verus! {

/// The number of latencies that are kept per chain.
pub const LATENCY_WINDOW: usize = 1000;

/// A network that the service speaks to.
#[derive(Debug, Clone, Copy, PartialEq, Eq, Hash, Structural)]
pub enum ProtocolType {
    Bitcoin,
    Ethereum,
    Solana,
}

/// The name of a protocol, in lower case.
pub open spec fn protocol_name(protocol: ProtocolType) -> Seq<char> {
    match protocol {
        ProtocolType::Bitcoin => "bitcoin"@,
        ProtocolType::Ethereum => "ethereum"@,
        ProtocolType::Solana => "solana"@,
    }
}

impl ProtocolType {
    /// The name of the protocol, in lower case.
    pub fn name(&self) -> (name: &'static str)
        ensures
            name@ == protocol_name(*self),
    {
        match self {
            ProtocolType::Bitcoin => "bitcoin",
            ProtocolType::Ethereum => "ethereum",
            ProtocolType::Solana => "solana",
        }
    }
}

/// The addresses from which a network is joined.
pub open spec fn default_seeds_model(protocol: ProtocolType) -> Seq<Seq<char>> {
    match protocol {
        ProtocolType::Bitcoin => seq![
            "seed.bitcoin.sipa.be:8333"@,
            "dnsseed.bluematt.me:8333"@,
            "dnsseed.bitcoin.dashjr.org:8333"@,
            "seed.bitcoinstats.com:8333"@,
            "seed.bitnodes.io:8333"@,
            "dnsseed.emzy.de:8333"@,
            "seed.bitcoin.jonasschnelli.ch:8333"@,
        ],
        ProtocolType::Ethereum => seq![
            "18.138.108.67:30303"@,
            "3.209.45.79:30303"@,
            "34.255.23.113:30303"@,
            "35.158.244.151:30303"@,
            "52.74.57.123:30303"@,
        ],
        ProtocolType::Solana => seq![
            "http://localhost:8899"@,
            "http://localhost:8901"@,
            "http://localhost:8903"@,
            "http://localhost:8904"@,
            "http://localhost:8905"@,
        ],
    }
}

/// The addresses from which the network of `protocol` is joined.
pub fn get_default_seeds(protocol: ProtocolType) -> (seeds: Vec<String>)
    ensures
        Seq::new(seeds@.len(), |i: int| seeds@[i]@) == default_seeds_model(protocol),
{
    let mut seeds: Vec<String> = Vec::new();
    match protocol {
        ProtocolType::Bitcoin => {
            seeds.push(String::from_str("seed.bitcoin.sipa.be:8333"));
            seeds.push(String::from_str("dnsseed.bluematt.me:8333"));
            seeds.push(String::from_str("dnsseed.bitcoin.dashjr.org:8333"));
            seeds.push(String::from_str("seed.bitcoinstats.com:8333"));
            seeds.push(String::from_str("seed.bitnodes.io:8333"));
            seeds.push(String::from_str("dnsseed.emzy.de:8333"));
            seeds.push(String::from_str("seed.bitcoin.jonasschnelli.ch:8333"));
        },
        ProtocolType::Ethereum => {
            seeds.push(String::from_str("18.138.108.67:30303"));
            seeds.push(String::from_str("3.209.45.79:30303"));
            seeds.push(String::from_str("34.255.23.113:30303"));
            seeds.push(String::from_str("35.158.244.151:30303"));
            seeds.push(String::from_str("52.74.57.123:30303"));
        },
        ProtocolType::Solana => {
            seeds.push(String::from_str("http://localhost:8899"));
            seeds.push(String::from_str("http://localhost:8901"));
            seeds.push(String::from_str("http://localhost:8903"));
            seeds.push(String::from_str("http://localhost:8904"));
            seeds.push(String::from_str("http://localhost:8905"));
        },
    }
    assert(Seq::new(seeds@.len(), |i: int| seeds@[i]@) =~= default_seeds_model(protocol));
    seeds
}

/// The number whose bytes, most significant first, are the first eight of
/// `bytes`.
pub open spec fn be_prefix(bytes: Seq<u8>) -> nat
    recommends
        bytes.len() >= 8,
{
    be_value(bytes.take(8))
}

/// The number whose bytes, most significant first, are `bytes`.
pub open spec fn be_value(bytes: Seq<u8>) -> nat
    decreases bytes.len(),
{
    if bytes.len() == 0 {
        0
    } else {
        256 * be_value(bytes.drop_last()) + bytes.last() as nat
    }
}

/// A number of `n` bytes is below 256 to the power `n`; for eight bytes, below
/// 2^64.
proof fn lemma_be_value_bound(bytes: Seq<u8>)
    requires
        bytes.len() <= 8,
    ensures
        bytes.len() == 0 ==> be_value(bytes) == 0,
        bytes.len() == 1 ==> be_value(bytes) < 0x100,
        bytes.len() == 2 ==> be_value(bytes) < 0x1_0000,
        bytes.len() == 3 ==> be_value(bytes) < 0x100_0000,
        bytes.len() == 4 ==> be_value(bytes) < 0x1_0000_0000,
        bytes.len() == 5 ==> be_value(bytes) < 0x100_0000_0000,
        bytes.len() == 6 ==> be_value(bytes) < 0x1_0000_0000_0000,
        bytes.len() == 7 ==> be_value(bytes) < 0x100_0000_0000_0000,
        bytes.len() == 8 ==> be_value(bytes) < 0x1_0000_0000_0000_0000,
    decreases bytes.len(),
{
    if bytes.len() > 0 {
        lemma_be_value_bound(bytes.drop_last());
    }
}

/// The id of the peer at `address` on the network of `protocol`: `peer_` and,
/// in hexadecimal, the first eight bytes of the SHA-256 digest of the address
/// followed by the protocol's name.
pub open spec fn peer_id_model(address: &str, protocol: ProtocolType) -> Seq<char> {
    "peer_"@ + lower_hex_model(
        be_prefix(
            sha256_model(address.spec_bytes() + vstd::utf8::encode_utf8(protocol_name(protocol))),
        ),
    )
}

/// The id of the peer at `address` on the network of `protocol`.
pub fn generate_peer_id(address: &str, protocol: ProtocolType) -> (id: String)
    ensures
        id@ == peer_id_model(address, protocol),
{
    let mut data: Vec<u8> = Vec::new();
    append_bytes(&mut data, address.as_bytes());
    append_bytes(&mut data, protocol.name().as_bytes());
    let digest = sha256(data.as_slice());
    let mut value: u64 = 0;
    let mut i: usize = 0;
    while i < 8
        invariant
            i <= 8,
            digest@.len() == DIGEST_LENGTH,
            value == be_value(digest@.take(i as int)),
        decreases 8 - i,
    {
        proof {
            lemma_be_value_bound(digest@.take(i as int));
            assert(digest@.take(i + 1).drop_last() =~= digest@.take(i as int));
        }
        value = value * 256 + (digest[i] as u64);
        i += 1;
    }
    let mut id = String::from_str("peer_");
    id.append(lower_hex(value).as_str());
    id
}

/// An entry of the cache.
pub struct CacheItem<T> {
    pub key: String,
    pub value: T,
    /// When the entry expires, in milliseconds since the Unix epoch.
    pub expires_at: u64,
}

/// What a cache entry holds.
pub struct CacheEntry<T> {
    pub key: Seq<char>,
    pub value: T,
    pub expires_at: u64,
}

impl<T> View for CacheItem<T> {
    type V = CacheEntry<T>;

    open spec fn view(&self) -> CacheEntry<T> {
        CacheEntry { key: self.key@, value: self.value, expires_at: self.expires_at }
    }
}

/// What a cache holds.
pub struct CacheState<T> {
    /// The entries, oldest first; no two have the same key.
    pub entries: Seq<CacheEntry<T>>,
    pub max_size: nat,
}

/// The first place of `key` among `entries`; their number where the key is not
/// among them.
pub open spec fn key_place<T>(entries: Seq<CacheEntry<T>>, key: Seq<char>) -> int
    decreases entries.len(),
{
    if entries.len() == 0 {
        0
    } else if entries[0].key == key {
        0
    } else {
        1 + key_place(entries.drop_first(), key)
    }
}

/// The cache after `value` was stored under `key`, to expire at `expires_at`:
/// a full cache first gives up its oldest entry, then the value takes the place
/// of the entry with the same key, or joins at the end.
pub open spec fn cache_after_set<T>(
    c: CacheState<T>,
    key: Seq<char>,
    value: T,
    expires_at: u64,
) -> CacheState<T> {
    let room = if c.entries.len() >= c.max_size && c.entries.len() > 0 {
        c.entries.drop_first()
    } else {
        c.entries
    };
    let place = key_place(room, key);
    let entry = CacheEntry { key, value, expires_at };
    CacheState {
        entries: if place < room.len() {
            room.update(place, entry)
        } else {
            room.push(entry)
        },
        ..c
    }
}

/// What a lookup of `key` at `now` finds: the value of the key's entry, unless
/// it has expired.
pub open spec fn cache_lookup<T>(c: CacheState<T>, key: Seq<char>, now: u64) -> Option<T> {
    let place = key_place(c.entries, key);
    if place < c.entries.len() && now <= c.entries[place].expires_at {
        Some(c.entries[place].value)
    } else {
        None
    }
}

/// The cache after a lookup of `key` at `now`: an expired entry of the key is
/// gone.
pub open spec fn cache_after_get<T>(c: CacheState<T>, key: Seq<char>, now: u64) -> CacheState<T> {
    let place = key_place(c.entries, key);
    if place < c.entries.len() && now > c.entries[place].expires_at {
        CacheState { entries: c.entries.remove(place), ..c }
    } else {
        c
    }
}

/// A cache of limited size whose entries expire.
pub struct Cache<T> {
    items: Vec<CacheItem<T>>,
    max_size: usize,
}

impl<T> View for Cache<T> {
    type V = CacheState<T>;

    closed spec fn view(&self) -> CacheState<T> {
        CacheState {
            entries: Seq::new(self.items@.len(), |i: int| self.items@[i]@),
            max_size: self.max_size as nat,
        }
    }
}

/// The place of a key is one of the places exactly where the key is among the
/// entries, and the first such place.
pub proof fn lemma_key_place<T>(entries: Seq<CacheEntry<T>>, key: Seq<char>)
    ensures
        0 <= key_place(entries, key) <= entries.len(),
        key_place(entries, key) < entries.len() ==> entries[key_place(entries, key)].key == key,
        forall|i: int| 0 <= i < key_place(entries, key) ==> entries[i].key != key,
    decreases entries.len(),
{
    if entries.len() > 0 && entries[0].key != key {
        lemma_key_place(entries.drop_first(), key);
        let rest = key_place(entries.drop_first(), key);
        assert forall|i: int| 0 <= i < 1 + rest implies entries[i].key != key by {
            if i > 0 {
                assert(entries.drop_first()[i - 1] == entries[i]);
            }
        }
    }
}

impl<T> Cache<T> {
    /// An empty cache for up to `max_size` entries.
    pub fn new(max_size: usize) -> (cache: Self)
        ensures
            cache@ == (CacheState::<T> { entries: Seq::empty(), max_size: max_size as nat }),
    {
        let cache = Cache { items: Vec::new(), max_size };
        assert(cache@.entries =~= Seq::empty());
        cache
    }

    /// The place of the entry of `key`.
    fn find(&self, key: &str) -> (place: usize)
        ensures
            place == key_place(self@.entries, key@),
            place <= self.items@.len(),
    {
        let mut i: usize = 0;
        while i < self.items.len()
            invariant
                i <= self.items@.len(),
                forall|j: int| 0 <= j < i ==> self@.entries[j].key != key@,
            decreases self.items@.len() - i,
        {
            if same_text(self.items[i].key.as_str(), key) {
                proof {
                    lemma_key_place(self@.entries, key@);
                    assert(self@.entries[i as int].key == key@);
                }
                return i;
            }
            i += 1;
        }
        proof {
            lemma_key_place(self@.entries, key@);
        }
        i
    }

    /// Stores `value` under `key` at `now`, milliseconds since the Unix epoch,
    /// to expire `ttl_ms` milliseconds later.
    pub fn set_at(&mut self, key: String, value: T, ttl_ms: u64, now: u64)
        ensures
            final(self)@ == cache_after_set(
                old(self)@,
                key@,
                value,
                if now + ttl_ms > u64::MAX {
                    u64::MAX
                } else {
                    (now + ttl_ms) as u64
                },
            ),
    {
        let ghost before = self@;
        if self.items.len() >= self.max_size && self.items.len() > 0 {
            let _ = self.items.remove(0);
            proof {
                assert(self@.entries =~= before.entries.drop_first());
            }
        }
        let ghost room = self@.entries;
        let place = self.find(key.as_str());
        let item = CacheItem { key, value, expires_at: now.saturating_add(ttl_ms) };
        let ghost entry = item@;
        if place < self.items.len() {
            self.items[place] = item;
            proof {
                assert(self@.entries =~= room.update(place as int, entry));
            }
        } else {
            self.items.push(item);
            proof {
                assert(self@.entries =~= room.push(entry));
            }
        }
    }

    /// Looks `key` up at `now`, milliseconds since the Unix epoch. An entry
    /// that has expired is dropped and not found.
    pub fn get_at(&mut self, key: &str, now: u64) -> (found: Option<&T>)
        ensures
            final(self)@ == cache_after_get(old(self)@, key@, now),
            match cache_lookup(old(self)@, key@, now) {
                Some(value) => found is Some && *found->0 == value,
                None => found is None,
            },
    {
        let ghost before = self@;
        let place = self.find(key);
        if place >= self.items.len() {
            return None;
        }
        if now > self.items[place].expires_at {
            let _ = self.items.remove(place);
            proof {
                assert(self@.entries =~= before.entries.remove(place as int));
            }
            return None;
        }
        Some(&self.items[place].value)
    }

    /// The number of entries.
    pub fn len(&self) -> (len: usize)
        ensures
            len == self@.entries.len(),
    {
        self.items.len()
    }
}

/// The latencies of one chain.
pub struct ChainLatencies {
    pub chain: String,
    /// The latest latencies in nanoseconds, oldest first.
    pub samples: Vec<u64>,
}

/// What is known of the latencies of the chains.
pub struct LatencyState {
    pub target_p99_ns: u64,
    pub chains: Seq<Seq<char>>,
    pub samples: Seq<Seq<u64>>,
}

/// The first place of `chain` among `chains`; their number where it is not
/// among them.
pub open spec fn chain_place(chains: Seq<Seq<char>>, chain: Seq<char>) -> int
    decreases chains.len(),
{
    if chains.len() == 0 {
        0
    } else if chains[0] == chain {
        0
    } else {
        1 + chain_place(chains.drop_first(), chain)
    }
}

/// The window after one more latency: beyond a thousand the oldest leaves.
pub open spec fn window_after(samples: Seq<u64>, latency_ns: u64) -> Seq<u64> {
    if samples.len() + 1 > LATENCY_WINDOW {
        samples.push(latency_ns).drop_first()
    } else {
        samples.push(latency_ns)
    }
}

/// What is known after a request on `chain` took `latency_ns` nanoseconds.
pub open spec fn latencies_after(s: LatencyState, chain: Seq<char>, latency_ns: u64) -> LatencyState {
    let place = chain_place(s.chains, chain);
    if place < s.chains.len() {
        LatencyState {
            samples: s.samples.update(place, window_after(s.samples[place], latency_ns)),
            ..s
        }
    } else {
        LatencyState {
            chains: s.chains.push(chain),
            samples: s.samples.push(window_after(Seq::empty(), latency_ns)),
            ..s
        }
    }
}

/// Keeps the latest latencies of every chain.
pub struct LatencyOptimizer {
    target_p99_ns: u64,
    chain_latencies: Vec<ChainLatencies>,
}

impl View for LatencyOptimizer {
    type V = LatencyState;

    closed spec fn view(&self) -> LatencyState {
        LatencyState {
            target_p99_ns: self.target_p99_ns,
            chains: Seq::new(
                self.chain_latencies@.len(),
                |i: int| self.chain_latencies@[i].chain@,
            ),
            samples: Seq::new(
                self.chain_latencies@.len(),
                |i: int| self.chain_latencies@[i].samples@,
            ),
        }
    }
}

/// The place of a chain is one of the places exactly where the chain is among
/// the chains, and the first such place.
pub proof fn lemma_chain_place(chains: Seq<Seq<char>>, chain: Seq<char>)
    ensures
        0 <= chain_place(chains, chain) <= chains.len(),
        chain_place(chains, chain) < chains.len() ==> chains[chain_place(chains, chain)]
            == chain,
        forall|i: int| 0 <= i < chain_place(chains, chain) ==> chains[i] != chain,
    decreases chains.len(),
{
    if chains.len() > 0 && chains[0] != chain {
        lemma_chain_place(chains.drop_first(), chain);
        let rest = chain_place(chains.drop_first(), chain);
        assert forall|i: int| 0 <= i < 1 + rest implies chains[i] != chain by {
            if i > 0 {
                assert(chains.drop_first()[i - 1] == chains[i]);
            }
        }
    }
}

impl LatencyOptimizer {
    /// An optimizer that aims at `target_p99_ns` nanoseconds and has seen no
    /// request.
    pub fn new(target_p99_ns: u64) -> (optimizer: Self)
        ensures
            optimizer@ == (LatencyState {
                target_p99_ns,
                chains: Seq::empty(),
                samples: Seq::empty(),
            }),
    {
        let optimizer = LatencyOptimizer { target_p99_ns, chain_latencies: Vec::new() };
        assert(optimizer@.chains =~= Seq::empty());
        assert(optimizer@.samples =~= Seq::empty());
        optimizer
    }

    /// Notes that a request on `chain` took `latency_ns` nanoseconds.
    pub fn track_request(&mut self, chain: &str, latency_ns: u64)
        ensures
            final(self)@ == latencies_after(old(self)@, chain@, latency_ns),
    {
        let ghost before = self@;
        let mut place: usize = 0;
        let mut found = false;
        while place < self.chain_latencies.len() && !found
            invariant
                place <= self.chain_latencies@.len(),
                self@ == before,
                forall|j: int| 0 <= j < place ==> before.chains[j] != chain@,
                found ==> place < self.chain_latencies@.len() && before.chains[place as int]
                    == chain@,
            decreases self.chain_latencies@.len() - place + (if found { 0int } else { 1int }),
        {
            if same_text(self.chain_latencies[place].chain.as_str(), chain) {
                found = true;
            } else {
                place += 1;
            }
        }
        proof {
            lemma_chain_place(before.chains, chain@);
            assert(place == chain_place(before.chains, chain@));
        }
        if !found {
            self.chain_latencies.push(
                ChainLatencies { chain: String::from_str(chain), samples: Vec::new() },
            );
        }
        self.chain_latencies[place].samples.push(latency_ns);
        if self.chain_latencies[place].samples.len() > LATENCY_WINDOW {
            let _ = self.chain_latencies[place].samples.remove(0);
        }
        proof {
            let after = latencies_after(before, chain@, latency_ns);
            assert(self@.chains =~= after.chains);
            assert(self@.samples =~= after.samples);
        }
    }

    /// The number of latencies that are kept for `chain`.
    pub fn sample_count(&self, chain: &str) -> (count: usize)
        ensures
            count == (if chain_place(self@.chains, chain@) < self@.chains.len() {
                self@.samples[chain_place(self@.chains, chain@)].len()
            } else {
                0
            }),
    {
        let mut i: usize = 0;
        while i < self.chain_latencies.len()
            invariant
                i <= self.chain_latencies@.len(),
                forall|j: int| 0 <= j < i ==> self@.chains[j] != chain@,
            decreases self.chain_latencies@.len() - i,
        {
            if same_text(self.chain_latencies[i].chain.as_str(), chain) {
                proof {
                    lemma_chain_place(self@.chains, chain@);
                    assert(self@.chains[i as int] == chain@);
                }
                return self.chain_latencies[i].samples.len();
            }
            i += 1;
        }
        proof {
            lemma_chain_place(self@.chains, chain@);
        }
        0
    }
}

} // verus!
