//! The process-local cache: an unbounded concurrent map from query text to
//! record, kept for the lifetime of one process.

use vstd::prelude::*;
use dashmap::DashMap;
use crate::model::{QueryResult, RecordView};

verus! {

#[verifier::external_type_specification]
#[verifier::external_body]
#[verifier::reject_recursive_types(K)]
#[verifier::reject_recursive_types(V)]
#[verifier::reject_recursive_types(S)]
pub struct ExDashMap<K, V, S>(DashMap<K, V, S>);

/// The entries of a concurrent map of records, by query text.
pub uninterp spec fn dash_entries(m: DashMap<String, QueryResult>) -> Map<Seq<char>, RecordView>;

/// The map with no entry.
pub open spec fn no_entries() -> Map<Seq<char>, RecordView> {
    Map::empty()
}

/// Relies on DashMap::new: a new map holds no entry.
#[verifier::external_body]
fn dash_new() -> (r: DashMap<String, QueryResult>)
    ensures
        dash_entries(r) == no_entries(),
{
    DashMap::new()
}

/// Relies on DashMap::get: the entry stored under the key, if any; the copy
/// handed out is made by the record's own `clone`.
#[verifier::external_body]
fn dash_get(m: &DashMap<String, QueryResult>, key: &str) -> (r: Option<QueryResult>)
    ensures
        r is Some == dash_entries(*m).contains_key(key@),
        r matches Some(v) ==> v@ == dash_entries(*m)[key@],
{
    m.get(key).map(|e| e.value().clone())
}

/// Relies on DashMap::insert: the key maps to the new value afterwards,
/// whether or not it had one before; the other entries stay.
#[verifier::external_body]
fn dash_insert(m: &mut DashMap<String, QueryResult>, key: String, value: QueryResult)
    ensures
        dash_entries(*final(m)) == dash_entries(*old(m)).insert(key@, value@),
{
    m.insert(key, value);
}

/// Relies on DashMap::clear: no entry is left.
#[verifier::external_body]
fn dash_clear(m: &mut DashMap<String, QueryResult>)
    ensures
        dash_entries(*final(m)) == no_entries(),
{
    m.clear();
}

/// Relies on DashMap::len: the number of entries.
#[verifier::external_body]
fn dash_len(m: &DashMap<String, QueryResult>) -> (r: usize)
    ensures
        r == dash_entries(*m).len(),
{
    m.len()
}

/// The process-local cache of lookup records.
pub struct MemoryCache {
    map: DashMap<String, QueryResult>,
}

impl View for MemoryCache {
    type V = Map<Seq<char>, RecordView>;

    closed spec fn view(&self) -> Map<Seq<char>, RecordView> {
        dash_entries(self.map)
    }
}

impl MemoryCache {
    /// An empty cache.
    pub fn new() -> (r: Self)
        ensures
            r@ == Map::<Seq<char>, RecordView>::empty(),
    {
        MemoryCache { map: dash_new() }
    }

    /// A copy of the record cached under `key`, if any.
    pub fn get(&self, key: &str) -> (r: Option<QueryResult>)
        ensures
            r is Some == self@.contains_key(key@),
            r matches Some(v) ==> v@ == self@[key@],
    {
        dash_get(&self.map, key)
    }

    /// Caches `value` under `key`, replacing any earlier record.
    pub fn insert(&mut self, key: String, value: QueryResult)
        ensures
            final(self)@ == old(self)@.insert(key@, value@),
    {
        dash_insert(&mut self.map, key, value)
    }

    /// Drops every cached record.
    pub fn clear(&mut self)
        ensures
            final(self)@ == Map::<Seq<char>, RecordView>::empty(),
    {
        dash_clear(&mut self.map)
    }

    /// The number of cached records.
    pub fn len(&self) -> (r: usize)
        ensures
            r == self@.len(),
    {
        dash_len(&self.map)
    }
}

impl Default for MemoryCache {
    fn default() -> (r: Self)
        ensures
            r@ == Map::<Seq<char>, RecordView>::empty(),
    {
        MemoryCache::new()
    }
}

/// A cache of lookup records by query text.
pub trait Cache {
    /// A copy of the record cached under `key`, if any.
    fn get(&self, key: &str) -> Option<QueryResult>;

    /// Caches `value` under `key`, replacing any earlier record.
    fn insert(&mut self, key: String, value: QueryResult);
}

impl Cache for MemoryCache {
    fn get(&self, key: &str) -> Option<QueryResult> {
        MemoryCache::get(self, key)
    }

    fn insert(&mut self, key: String, value: QueryResult) {
        MemoryCache::insert(self, key, value)
    }
}

} // verus!
