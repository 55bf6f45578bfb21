use vstd::prelude::*;

verus! {

#[verifier::external_type_specification]
#[verifier::external_body]
#[verifier::reject_recursive_types(K)]
#[verifier::reject_recursive_types(V)]
#[verifier::reject_recursive_types(S)]
pub struct ExCache<K, V, S>(moka::sync::Cache<K, V, S>);

/// The result cache: a time-boxed, capacity-bounded store from request
/// fingerprints to serialized normalized-data snapshots, shared across
/// requests. Entries are only ever inserted or replaced wholesale,
/// never mutated in place; expiry is least-recently-used plus
/// time-to-live, whichever strikes first. The handle is reached only
/// through the contracted methods below.
pub struct ResultCache {
    cache: moka::sync::Cache<String, String, std::collections::hash_map::RandomState>,
}

/// Every key-value pair the cache is given over the process lifetime.
/// Time-to-live expiry and capacity eviction may hide any entry at any
/// moment, so nothing promises that a pair stays readable; but
/// whatever a read yields is one of these pairs.
pub uninterp spec fn cache_entries(c: ResultCache) -> Set<(Seq<char>, Seq<char>)>;

/// The longest time-to-live the underlying store accepts, in seconds:
/// a thousand years.
pub const MAX_CACHE_TTL_SECS: u64 = 31536000000;

impl ResultCache {
    /// Relies on moka's cache builder: builds a store that drops
    /// entries after ttl_secs and holds at most capacity of them.
    /// moka's build step rejects a time-to-live beyond a thousand
    /// years, so longer ones are left out here.
    #[verifier::external_body]
    pub fn new(ttl_secs: u64, capacity: u64) -> (r: ResultCache)
        requires
            ttl_secs <= MAX_CACHE_TTL_SECS,
    {
        ResultCache {
            cache: moka::sync::Cache::builder()
                .time_to_live(std::time::Duration::from_secs(ttl_secs))
                .max_capacity(capacity)
                .build(),
        }
    }

    /// Relies on moka's Cache::insert: the pair is handed to the
    /// underlying cache, where it replaces any entry of the same key.
    #[verifier::external_body]
    pub fn put(&mut self, key: String, value: String)
        ensures
            cache_entries(*final(self)) == cache_entries(*old(self)).insert((key@, value@)),
    {
        self.cache.insert(key, value);
    }

    /// Relies on moka's Cache::get: a hit returns a clone of a value
    /// that was stored under this key; an expired, evicted or absent
    /// key misses, so a miss is possible at any time.
    #[verifier::external_body]
    pub fn get(&self, key: &String) -> (r: Option<String>)
        ensures
            r matches Some(v) ==> cache_entries(*self).contains((key@, v@)),
    {
        self.cache.get(key)
    }
}

} // verus!
