use std::collections::HashMap;

use kd::cache::MemoryCache;
use kd::lookup::{Lookup, LookupStep, StoreReadError};
use kd::model::{OnlineSource, QueryResult, QuerySource};

struct Tiers {
    cache: MemoryCache,
    store: HashMap<String, QueryResult>,
    store_reads: usize,
    remote_calls: usize,
}

impl Tiers {
    fn new() -> Self {
        Tiers { cache: MemoryCache::new(), store: HashMap::new(), store_reads: 0, remote_calls: 0 }
    }

    fn lookup(&mut self, query: &str, skip_cache: bool, force_long_text: bool, remote: fn(&str) -> QueryResult) -> QueryResult {
        let lookup = Lookup::new(query.to_string(), skip_cache, force_long_text);
        let mut step = lookup.start(&self.cache);
        loop {
            step = match step {
                LookupStep::Answer(r) => return r,
                LookupStep::ReadStore => {
                    self.store_reads += 1;
                    let read = Ok(self.store.get(query).cloned());
                    lookup.on_store(&mut self.cache, read)
                }
                LookupStep::CallRemote => {
                    self.remote_calls += 1;
                    lookup.on_remote(&mut self.cache, remote(query), 1_700_000_000)
                }
                LookupStep::Persist(r) => {
                    self.store.insert(query.to_string(), r.clone());
                    return r;
                }
            }
        }
    }
}

fn cat_provider(query: &str) -> QueryResult {
    let mut r = QueryResult::new(query.to_string(), false);
    if query == "cat" {
        r.found = true;
        r.translations = vec!["n. 猫".to_string()];
    }
    r
}

#[test]
fn end_to_end_cat_lookup() {
    let mut tiers = Tiers::new();
    let first = tiers.lookup("cat", false, false, cat_provider);
    assert_eq!(first.source, QuerySource::Online(OnlineSource::Youdao));
    assert_eq!(first.translations, vec!["n. 猫".to_string()]);
    assert_eq!(first.cached_at, Some(1_700_000_000));

    let second = tiers.lookup("cat", false, false, cat_provider);
    assert_eq!(second.source, QuerySource::LocalCache);
    assert_eq!(second.translations, first.translations);
    assert_eq!(tiers.remote_calls, 1);

    let stored = tiers.store.get("cat").expect("the found record is written through");
    assert_eq!(stored.translations, vec!["n. 猫".to_string()]);
}

#[test]
fn second_lookup_is_answered_by_the_cache_with_same_content() {
    let mut tiers = Tiers::new();
    let first = tiers.lookup("cat", false, true, cat_provider);
    assert!(first.is_long_text);
    let second = tiers.lookup("cat", false, false, cat_provider);
    assert_eq!(second.source, QuerySource::LocalCache);
    assert_eq!(second.query, first.query);
    assert_eq!(second.found, first.found);
    assert_eq!(second.is_long_text, first.is_long_text);
    assert_eq!(second.translations, first.translations);
    assert_eq!(second.cached_at, first.cached_at);
    assert_eq!(tiers.store_reads, 1);
}

#[test]
fn skipping_the_cache_always_calls_the_remote_provider() {
    let mut tiers = Tiers::new();
    tiers.lookup("cat", false, false, cat_provider);
    let reads = tiers.store_reads;
    let entries = tiers.cache.len();
    let r = tiers.lookup("cat", true, false, cat_provider);
    assert_eq!(r.source, QuerySource::Online(OnlineSource::Youdao));
    assert_eq!(r.cached_at, None);
    tiers.lookup("cat", true, false, cat_provider);
    assert_eq!(tiers.remote_calls, 3);
    assert_eq!(tiers.store_reads, reads);
    assert_eq!(tiers.cache.len(), entries);
}

#[test]
fn not_found_results_are_never_stored() {
    let mut tiers = Tiers::new();
    let r = tiers.lookup("zzzz", false, false, cat_provider);
    assert!(!r.found);
    assert!(tiers.store.get("zzzz").is_none());
    assert!(tiers.cache.get("zzzz").is_none());
    tiers.lookup("zzzz", false, false, cat_provider);
    assert_eq!(tiers.remote_calls, 2);
}

#[test]
fn store_hit_is_cached_and_relabelled() {
    let lookup = Lookup::new("dog".to_string(), false, false);
    let mut cache = MemoryCache::new();
    let mut migrated = QueryResult::new("dog".to_string(), false);
    migrated.found = true;
    migrated.source = QuerySource::LocalCache;
    match lookup.on_store(&mut cache, Ok(Some(migrated))) {
        LookupStep::Answer(r) => assert_eq!(r.source, QuerySource::OfflineDb),
        other => panic!("unexpected step {:?}", other),
    }
    assert_eq!(cache.get("dog").map(|r| r.source), Some(QuerySource::LocalCache));

    let mut fetched = QueryResult::new("dog".to_string(), false);
    fetched.source = QuerySource::Online(OnlineSource::Google);
    match lookup.on_store(&mut cache, Ok(Some(fetched))) {
        LookupStep::Answer(r) => assert_eq!(r.source, QuerySource::Online(OnlineSource::Google)),
        other => panic!("unexpected step {:?}", other),
    }
}

#[test]
fn store_failure_falls_through_to_remote() {
    let lookup = Lookup::new("dog".to_string(), false, false);
    let mut cache = MemoryCache::new();
    assert!(matches!(lookup.on_store(&mut cache, Err(StoreReadError::CorruptRecord)), LookupStep::CallRemote));
    assert!(matches!(lookup.on_store(&mut cache, Ok(None)), LookupStep::CallRemote));
    assert_eq!(cache.len(), 0);
}

#[test]
fn cache_insert_overwrites_and_clear_empties() {
    let mut cache = MemoryCache::default();
    cache.insert("a".to_string(), QueryResult::new("a".to_string(), false));
    cache.insert("a".to_string(), QueryResult::new("a".to_string(), true));
    assert_eq!(cache.len(), 1);
    assert!(cache.get("a").unwrap().is_long_text);
    cache.clear();
    assert_eq!(cache.len(), 0);
    assert!(cache.get("a").is_none());
}

#[test]
fn found_result_under_empty_query_is_written_through() {
    let lookup = Lookup::new(String::new(), false, false);
    let mut cache = MemoryCache::new();
    let mut fetched = QueryResult::new(String::new(), false);
    fetched.found = true;
    match lookup.on_remote(&mut cache, fetched, 5) {
        LookupStep::Persist(r) => assert_eq!(r.cached_at, Some(5)),
        other => panic!("unexpected step {:?}", other),
    }
    assert_eq!(cache.len(), 1);
    assert!(matches!(lookup.start(&cache), LookupStep::Answer(r) if r.source == QuerySource::LocalCache));
}
