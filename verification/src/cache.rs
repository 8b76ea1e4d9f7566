//! The metadata cache: shader records by identifier, filled on first fetch
//! and never changed afterwards.

use crate::records::Shader;
use vstd::hash_map::StringHashMap;
use vstd::prelude::*;

verus! {

/// The cache as a mathematical value.
pub type CacheMap = Map<Seq<char>, Shader>;

/// The cache after a fetched record was handed in: a record already held
/// for the identifier stays, otherwise the new one is kept.
pub open spec fn stored(cache: CacheMap, id: Seq<char>, record: Shader) -> CacheMap {
    if cache.contains_key(id) {
        cache
    } else {
        cache.insert(id, record)
    }
}

/// What one request for a shader comes to.
pub struct GetOutcome {
    /// The cache afterwards.
    pub cache: CacheMap,
    /// Whether the network was asked.
    pub fetched: bool,
    /// The record returned, or none where the fetch failed.
    pub record: Option<Shader>,
}

/// One request for `id` against `cache`. `answer` is what the network gives
/// if it is asked: a record, or nothing where the fetch fails. A cached
/// identifier is answered from the cache without asking. A fetched record
/// that carries another identifier than `id` is refused: the request fails
/// and the cache stays as it is.
pub open spec fn get_model(cache: CacheMap, id: Seq<char>, answer: Option<Shader>) -> GetOutcome {
    if cache.contains_key(id) {
        GetOutcome { cache, fetched: false, record: Some(cache[id]) }
    } else {
        match answer {
            Some(record) => if record.spec_id() == id {
                GetOutcome { cache: stored(cache, id, record), fetched: true, record: Some(record) }
            } else {
                GetOutcome { cache, fetched: true, record: None }
            },
            None => GetOutcome { cache, fetched: true, record: None },
        }
    }
}

/// How many times the network was asked.
pub open spec fn fetch_count(outcome: GetOutcome) -> nat {
    if outcome.fetched {
        1
    } else {
        0
    }
}

/// Every record is held under the identifier that it carries.
pub open spec fn keyed_by_id(cache: CacheMap) -> bool {
    forall|id: Seq<char>| #[trigger] cache.contains_key(id) ==> cache[id].spec_id() == id
}

/// Once a request for an identifier has returned a record, a second request
/// for it asks the network nothing and returns the same record, whatever the
/// network would answer by then: the two requests together fetch at most
/// once.
pub proof fn lemma_second_get_is_cached(
    cache: CacheMap,
    id: Seq<char>,
    first_answer: Option<Shader>,
    second_answer: Option<Shader>,
)
    requires
        get_model(cache, id, first_answer).record is Some,
    ensures
        ({
            let first = get_model(cache, id, first_answer);
            let second = get_model(first.cache, id, second_answer);
            &&& !second.fetched
            &&& second.record == first.record
            &&& second.cache == first.cache
            &&& fetch_count(first) + fetch_count(second) <= 1
        }),
{
}

/// A record once cached stays as it is through every later request, for its
/// own identifier or for another.
pub proof fn lemma_cached_record_stays(
    cache: CacheMap,
    id: Seq<char>,
    other: Seq<char>,
    answer: Option<Shader>,
)
    requires
        cache.contains_key(id),
    ensures
        get_model(cache, other, answer).cache.contains_key(id),
        get_model(cache, other, answer).cache[id] == cache[id],
{
}

/// Every record that a request returns carries the identifier that was
/// requested, and the cache keeps each record under its own identifier.
pub proof fn lemma_get_returns_requested_id(cache: CacheMap, id: Seq<char>, answer: Option<Shader>)
    requires
        keyed_by_id(cache),
    ensures
        keyed_by_id(get_model(cache, id, answer).cache),
        get_model(cache, id, answer).record matches Some(record) ==> record.spec_id() == id,
{
}

/// The in-memory cache of shader records. Each record is held under the
/// identifier that it carries.
pub struct MetadataCache {
    entries: StringHashMap<Shader>,
}

impl View for MetadataCache {
    type V = CacheMap;

    closed spec fn view(&self) -> CacheMap {
        self.entries@
    }
}

impl MetadataCache {
    #[verifier::type_invariant]
    spec fn well_formed(self) -> bool {
        keyed_by_id(self.entries@)
    }

    /// An empty cache.
    pub fn new() -> (cache: MetadataCache)
        ensures
            cache@ == Map::<Seq<char>, Shader>::empty(),
    {
        MetadataCache { entries: StringHashMap::new() }
    }

    /// Whether a record is held for `id`.
    pub fn contains(&self, id: &str) -> (held: bool)
        ensures
            held == self@.contains_key(id@),
    {
        self.entries.contains_key(id)
    }

    /// The record held for `id`, if any. It carries that identifier.
    pub fn get(&self, id: &str) -> (record: Option<&Shader>)
        ensures
            keyed_by_id(self@),
            match record {
                Some(shader) => self@.contains_key(id@) && *shader == self@[id@]
                    && shader.spec_id() == id@,
                None => !self@.contains_key(id@),
            },
    {
        proof {
            use_type_invariant(self);
        }
        self.entries.get(id)
    }

    /// Takes in a fetched record, under the identifier that it carries. A
    /// record already held for that identifier is kept and the new one
    /// dropped.
    pub fn store(&mut self, record: Shader)
        ensures
            final(self)@ == stored(old(self)@, record.spec_id(), record),
            keyed_by_id(final(self)@),
    {
        proof {
            use_type_invariant(&*self);
        }
        if !self.entries.contains_key(record.id()) {
            let id = record.info.id.clone();
            let mut entries: StringHashMap<Shader> = StringHashMap::new();
            core::mem::swap(&mut self.entries, &mut entries);
            entries.insert(id, record);
            self.entries = entries;
        }
    }
}

} // verus!
