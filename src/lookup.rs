//! The tiered lookup: process cache, then persistent store, then the remote
//! provider, with cache-aside population on every miss.
//!
//! The lookup is a state machine. `Lookup::start` consults the process cache
//! and names the next step; the caller performs each store read, remote call
//! and write-through that a step names and hands the outcome back.

use vstd::prelude::*;
use crate::cache::MemoryCache;
use crate::model::{QueryResult, QuerySource, RecordView};

verus! {

/// Why reading the persistent store failed.
#[derive(Debug, Clone, Copy, PartialEq, Eq, Structural)]
pub enum StoreReadError {
    /// The store could not be read.
    Unavailable,
    /// The stored value could not be decoded.
    CorruptRecord,
}

/// What the caller of a lookup does next.
#[derive(Debug)]
pub enum LookupStep {
    /// The lookup is answered with this record.
    Answer(QueryResult),
    /// Read the persistent store for the query, then call `on_store`.
    ReadStore,
    /// Call the remote provider for the query, then call `on_remote`.
    CallRemote,
    /// Write this record through to the persistent store under the query;
    /// once written, it is the answer. A failed write, such as one under the
    /// empty query that the store refuses, fails the lookup.
    Persist(QueryResult),
}

pub ghost enum StepView {
    Answer(RecordView),
    ReadStore,
    CallRemote,
    Persist(RecordView),
}

impl View for LookupStep {
    type V = StepView;

    open spec fn view(&self) -> StepView {
        match self {
            LookupStep::Answer(r) => StepView::Answer(r@),
            LookupStep::ReadStore => StepView::ReadStore,
            LookupStep::CallRemote => StepView::CallRemote,
            LookupStep::Persist(r) => StepView::Persist(r@),
        }
    }
}

/// One lookup of a query.
#[derive(Debug)]
pub struct Lookup {
    pub query: String,
    pub skip_cache: bool,
    pub force_long_text: bool,
}

/// The first step: a cache hit answers at once, relabelled as cached.
pub open spec fn first_step(entries: Map<Seq<char>, RecordView>, query: Seq<char>, skip_cache: bool) -> StepView {
    if skip_cache {
        StepView::CallRemote
    } else if entries.contains_key(query) {
        StepView::Answer(entries[query].with_source(QuerySource::LocalCache))
    } else {
        StepView::ReadStore
    }
}

/// The provenance shown for a record served from the store: a remote
/// provenance is kept, any other becomes the store's.
pub open spec fn store_label(source: QuerySource) -> QuerySource {
    match source {
        QuerySource::Online(p) => QuerySource::Online(p),
        _ => QuerySource::OfflineDb,
    }
}

/// The step after a store read: a hit answers, a miss or a failure goes on
/// to the remote provider.
pub open spec fn store_step(read: Result<Option<RecordView>, StoreReadError>) -> StepView {
    match read {
        Ok(Some(s)) => StepView::Answer(s.with_source(store_label(s.source))),
        _ => StepView::CallRemote,
    }
}

/// The cache after a store read: a hit is cached as it was stored.
pub open spec fn cache_after_store(
    entries: Map<Seq<char>, RecordView>,
    query: Seq<char>,
    read: Result<Option<RecordView>, StoreReadError>,
) -> Map<Seq<char>, RecordView> {
    match read {
        Ok(Some(s)) => entries.insert(query, s),
        _ => entries,
    }
}

/// The remote result, with the long-text flag forced when asked for.
pub open spec fn fetched_record(fetched: RecordView, force_long_text: bool) -> RecordView {
    if force_long_text {
        RecordView { is_long_text: true, ..fetched }
    } else {
        fetched
    }
}

/// The remote result as it is cached and written through: stamped with the
/// time of the fetch.
pub open spec fn persisted_record(fetched: RecordView, force_long_text: bool, now: i64) -> RecordView {
    RecordView { cached_at: Some(now), ..fetched_record(fetched, force_long_text) }
}

/// A remote result is kept when it was found and the cache is not skipped.
pub open spec fn keeps_remote(fetched: RecordView, skip_cache: bool) -> bool {
    !skip_cache && fetched.found
}

/// The step after the remote call.
pub open spec fn remote_step(fetched: RecordView, skip_cache: bool, force_long_text: bool, now: i64) -> StepView {
    if keeps_remote(fetched, skip_cache) {
        StepView::Persist(persisted_record(fetched, force_long_text, now))
    } else {
        StepView::Answer(fetched_record(fetched, force_long_text))
    }
}

/// The cache after the remote call.
pub open spec fn cache_after_remote(
    entries: Map<Seq<char>, RecordView>,
    query: Seq<char>,
    fetched: RecordView,
    skip_cache: bool,
    force_long_text: bool,
    now: i64,
) -> Map<Seq<char>, RecordView> {
    if keeps_remote(fetched, skip_cache) {
        entries.insert(query, persisted_record(fetched, force_long_text, now))
    } else {
        entries
    }
}

/// The view of a store read.
pub open spec fn read_view(read: Result<Option<QueryResult>, StoreReadError>) -> Result<Option<RecordView>, StoreReadError> {
    match read {
        Ok(Some(r)) => Ok(Some(r@)),
        Ok(None) => Ok(None),
        Err(e) => Err(e),
    }
}

impl Lookup {
    pub fn new(query: String, skip_cache: bool, force_long_text: bool) -> (r: Self)
        ensures
            r.query@ == query@,
            r.skip_cache == skip_cache,
            r.force_long_text == force_long_text,
    {
        Lookup { query, skip_cache, force_long_text }
    }

    /// Consults the process cache, unless it is skipped.
    pub fn start(&self, cache: &MemoryCache) -> (r: LookupStep)
        ensures
            r@ == first_step(cache@, self.query@, self.skip_cache),
    {
        if self.skip_cache {
            return LookupStep::CallRemote;
        }
        match cache.get(self.query.as_str()) {
            Some(cached) => {
                let mut res = cached;
                res.source = QuerySource::LocalCache;
                LookupStep::Answer(res)
            },
            None => LookupStep::ReadStore,
        }
    }

    /// Takes the outcome of the store read: a hit is cached as stored and
    /// answered; a miss or a failed read goes on to the remote provider.
    pub fn on_store(&self, cache: &mut MemoryCache, read: Result<Option<QueryResult>, StoreReadError>) -> (r: LookupStep)
        ensures
            r@ == store_step(read_view(read)),
            final(cache)@ == cache_after_store(old(cache)@, self.query@, read_view(read)),
    {
        match read {
            Ok(Some(stored)) => {
                cache.insert(self.query.clone(), stored.clone());
                let mut res = stored;
                res.source = match res.source {
                    QuerySource::Online(p) => QuerySource::Online(p),
                    _ => QuerySource::OfflineDb,
                };
                LookupStep::Answer(res)
            },
            _ => LookupStep::CallRemote,
        }
    }

    /// Takes the remote result: a found result is stamped, cached and
    /// written through, unless the cache is skipped; any other is answered
    /// as it is.
    pub fn on_remote(&self, cache: &mut MemoryCache, fetched: QueryResult, now: i64) -> (r: LookupStep)
        ensures
            r@ == remote_step(fetched@, self.skip_cache, self.force_long_text, now),
            final(cache)@ == cache_after_remote(
                old(cache)@,
                self.query@,
                fetched@,
                self.skip_cache,
                self.force_long_text,
                now,
            ),
    {
        let mut result = fetched;
        if self.force_long_text {
            result.is_long_text = true;
        }
        if !self.skip_cache && result.found {
            result.cached_at = Some(now);
            cache.insert(self.query.clone(), result.clone());
            LookupStep::Persist(result)
        } else {
            LookupStep::Answer(result)
        }
    }
}

/// After a lookup that reached the remote provider and found the query, a
/// second lookup of the same query that does not skip the cache is answered
/// by the process cache, with the content of the first answer.
pub proof fn lemma_second_lookup_hits_cache(
    entries: Map<Seq<char>, RecordView>,
    query: Seq<char>,
    fetched: RecordView,
    force_long_text: bool,
    now: i64,
)
    requires
        fetched.found,
    ensures
        ({
            let first = remote_step(fetched, false, force_long_text, now);
            let cached = cache_after_remote(entries, query, fetched, false, force_long_text, now);
            let second = first_step(cached, query, false);
            &&& first matches StepView::Persist(a)
            &&& second matches StepView::Answer(b)
            &&& b.source == QuerySource::LocalCache
            &&& b.same_content(a)
        }),
{
    let a = persisted_record(fetched, force_long_text, now);
    let cached = cache_after_remote(entries, query, fetched, false, force_long_text, now);
    assert(cached[query] == a);
    assert(a.with_source(QuerySource::LocalCache).with_source(QuerySource::LocalCache)
        == a.with_source(QuerySource::LocalCache));
}

/// A lookup that skips the cache goes to the remote provider first, whatever
/// the cache holds; it neither reads the store nor writes to it, and leaves
/// the cache as it was.
pub proof fn lemma_skip_cache_bypasses_tiers(
    entries: Map<Seq<char>, RecordView>,
    query: Seq<char>,
    fetched: RecordView,
    force_long_text: bool,
    now: i64,
)
    ensures
        first_step(entries, query, true) == StepView::CallRemote,
        remote_step(fetched, true, force_long_text, now) == StepView::Answer(fetched_record(fetched, force_long_text)),
        cache_after_remote(entries, query, fetched, true, force_long_text, now) == entries,
{
}

/// A not-found remote result is neither written to the store nor cached;
/// whatever a lookup writes to the store was found.
pub proof fn lemma_not_found_never_persisted(
    entries: Map<Seq<char>, RecordView>,
    query: Seq<char>,
    fetched: RecordView,
    skip_cache: bool,
    force_long_text: bool,
    now: i64,
)
    ensures
        remote_step(fetched, skip_cache, force_long_text, now) matches StepView::Persist(w) ==> w.found,
        !fetched.found ==> !(remote_step(fetched, skip_cache, force_long_text, now) is Persist),
        !fetched.found ==> cache_after_remote(entries, query, fetched, skip_cache, force_long_text, now) == entries,
{
}

} // verus!
