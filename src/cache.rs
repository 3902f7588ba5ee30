//! Response caching keyed by the fully resolved request URL.
use std::time::Duration;
use vstd::prelude::*;

verus! {

/// Default number of entries the cache holds.
pub const DEFAULT_MAX_CAPACITY: u64 = 1000;

/// Default time-to-live of an entry, in milliseconds.
pub const DEFAULT_TTL_MS: u64 = 60_000;

/// The longest time-to-live the store accepts: a thousand years, in milliseconds.
pub const MAX_TTL_MS: u64 = 31_536_000_000_000;

/// Configuration for the response cache.
#[derive(Debug, Clone, Copy, PartialEq, Eq)]
pub struct CacheConfig {
    /// Maximum number of entries in the cache.
    pub max_capacity: u64,
    /// Time-to-live of an entry, in milliseconds.
    pub ttl_ms: u64,
    /// Whether caching is enabled.
    pub enabled: bool,
}

/// The default policy: disabled, 1000 entries, 60 s time-to-live.
pub open spec fn default_cache_config() -> CacheConfig {
    CacheConfig { max_capacity: DEFAULT_MAX_CAPACITY, ttl_ms: DEFAULT_TTL_MS, enabled: false }
}

#[verifier::external_type_specification]
#[verifier::external_body]
#[verifier::reject_recursive_types(K)]
#[verifier::reject_recursive_types(V)]
#[verifier::reject_recursive_types(S)]
pub struct ExStore<K, V, S>(moka::sync::Cache<K, V, S>);

/// What the store may return: for each key, the last body inserted under it
/// since the store was made or last invalidated. The store itself drops
/// entries without notice when their time-to-live ends or the capacity bound
/// evicts them, so a key in this map may answer none; it never answers
/// anything but its body here, and a key outside the map never answers.
pub uninterp spec fn store_entries(c: moka::sync::Cache<String, String>) -> Map<Seq<char>, Seq<char>>;

/// Relies on moka's `CacheBuilder::max_capacity`, `time_to_live` and `build`:
/// a new cache holds nothing. `build` panics on a time-to-live over a thousand
/// years, which `requires` leaves out.
#[verifier::external_body]
fn new_store(max_capacity: u64, ttl_ms: u64) -> (r: moka::sync::Cache<String, String>)
    requires
        ttl_ms <= MAX_TTL_MS,
    ensures
        store_entries(r).dom() == Set::<Seq<char>>::empty(),
{
    moka::sync::Cache::builder()
        .max_capacity(max_capacity)
        .time_to_live(Duration::from_millis(ttl_ms))
        .build()
}

/// Relies on moka's `Cache::get`: it answers only with a value inserted under
/// that key and not invalidated since.
#[verifier::external_body]
fn store_get(c: &moka::sync::Cache<String, String>, key: &str) -> (r: Option<String>)
    ensures
        r matches Some(v) ==> store_entries(*c).contains_key(key@) && store_entries(*c)[key@] == v@,
{
    c.get(key)
}

/// Relies on moka's `Cache::insert`: the value replaces any earlier one under
/// the key, and other keys keep what was last inserted under them.
#[verifier::external_body]
fn store_insert(c: &mut moka::sync::Cache<String, String>, key: String, value: String)
    ensures
        store_entries(*final(c)) == store_entries(*old(c)).insert(key@, value@),
{
    c.insert(key, value)
}

/// Relies on moka's `Cache::invalidate_all`: retrieval never returns an entry
/// inserted before the call.
#[verifier::external_body]
fn store_invalidate_all(c: &mut moka::sync::Cache<String, String>)
    ensures
        store_entries(*final(c)).dom() == Set::<Seq<char>>::empty(),
{
    c.invalidate_all()
}

/// Relies on moka's `Cache::entry_count`: an approximate count.
#[verifier::external_body]
fn store_entry_count(c: &moka::sync::Cache<String, String>) -> u64 {
    c.entry_count()
}

/// A cache of response bodies keyed by request URL.
pub struct ResponseCache {
    store: moka::sync::Cache<String, String>,
    enabled: bool,
}

impl Default for CacheConfig {
    fn default() -> (r: Self)
        ensures
            r.max_capacity == DEFAULT_MAX_CAPACITY,
            r.ttl_ms == DEFAULT_TTL_MS,
            !r.enabled,
    {
        CacheConfig { max_capacity: DEFAULT_MAX_CAPACITY, ttl_ms: DEFAULT_TTL_MS, enabled: false }
    }
}

impl CacheConfig {
    /// The default configuration with caching switched on.
    pub fn enabled() -> (r: Self)
        ensures
            r.max_capacity == DEFAULT_MAX_CAPACITY,
            r.ttl_ms == DEFAULT_TTL_MS,
            r.enabled,
    {
        CacheConfig { max_capacity: DEFAULT_MAX_CAPACITY, ttl_ms: DEFAULT_TTL_MS, enabled: true }
    }

    /// Sets the maximum number of entries.
    pub fn with_max_capacity(self, capacity: u64) -> (r: Self)
        ensures
            r == (CacheConfig { max_capacity: capacity, ..self }),
    {
        CacheConfig { max_capacity: capacity, ..self }
    }

    /// Sets the time-to-live of entries.
    pub fn with_ttl(self, ttl_ms: u64) -> (r: Self)
        ensures
            r == (CacheConfig { ttl_ms: ttl_ms, ..self }),
    {
        CacheConfig { ttl_ms, ..self }
    }
}

impl ResponseCache {
    /// Whether lookups consult the store.
    pub closed spec fn is_on(&self) -> bool {
        self.enabled
    }

    /// The bodies a lookup may return, by URL: none when the cache is disabled.
    pub closed spec fn entries(&self) -> Map<Seq<char>, Seq<char>> {
        if self.enabled {
            store_entries(self.store)
        } else {
            Map::empty()
        }
    }

    /// A new, empty cache. A time-to-live over a thousand years is held as a
    /// thousand years.
    pub fn new(config: &CacheConfig) -> (r: Self)
        ensures
            r.is_on() == config.enabled,
            r.entries() == Map::<Seq<char>, Seq<char>>::empty(),
    {
        let ttl = if config.ttl_ms <= MAX_TTL_MS { config.ttl_ms } else { MAX_TTL_MS };
        ResponseCache { store: new_store(config.max_capacity, ttl), enabled: config.enabled }
    }

    /// The cached body for `url`, if any. A disabled cache always answers none.
    pub fn get(&self, url: &str) -> (r: Option<String>)
        ensures
            !self.is_on() ==> r is None,
            r matches Some(v) ==> self.entries().contains_key(url@) && self.entries()[url@] == v@,
    {
        if !self.enabled {
            return None;
        }
        store_get(&self.store, url)
    }

    /// Stores `response` under `url`. A disabled cache does nothing.
    pub fn insert(&mut self, url: String, response: String)
        ensures
            final(self).is_on() == old(self).is_on(),
            !old(self).is_on() ==> final(self).entries() == old(self).entries(),
            old(self).is_on() ==> final(self).entries() == old(self).entries().insert(url@, response@),
    {
        if self.enabled {
            store_insert(&mut self.store, url, response);
        }
    }

    /// Returns whether caching is enabled.
    pub fn is_enabled(&self) -> (r: bool)
        ensures
            r == self.is_on(),
    {
        self.enabled
    }

    /// An approximate number of entries held.
    pub fn entry_count(&self) -> u64 {
        store_entry_count(&self.store)
    }

    /// Discards every cached body.
    pub fn invalidate_all(&mut self)
        ensures
            final(self).is_on() == old(self).is_on(),
            final(self).entries() == Map::<Seq<char>, Seq<char>>::empty(),
    {
        store_invalidate_all(&mut self.store);
    }
}

/// Inserting into a fresh enabled cache: the key is the only one that may
/// answer, and it may answer only with the body (expiry or eviction can still
/// make it answer none); every other key answers none.
pub proof fn lemma_cache_round_trip(before: ResponseCache, after: ResponseCache, key: Seq<char>, body: Seq<char>, other: Seq<char>)
    requires
        before.is_on(),
        before.entries() == Map::<Seq<char>, Seq<char>>::empty(),
        after.entries() == before.entries().insert(key, body),
        other != key,
    ensures
        after.entries().contains_key(key),
        after.entries()[key] == body,
        !after.entries().contains_key(other),
{
}

/// A disabled cache stays empty whatever is inserted, so every read answers none.
pub proof fn lemma_cache_bypass(c: ResponseCache)
    requires
        !c.is_on(),
    ensures
        c.entries() == Map::<Seq<char>, Seq<char>>::empty(),
{
}

} // verus!
