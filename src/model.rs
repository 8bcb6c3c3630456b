//! The lookup record and its mathematical view.

use vstd::prelude::*;

verus! {

/// Which remote provider produced a record.
#[derive(Debug, Clone, Copy, PartialEq, Eq, Structural)]
pub enum OnlineSource {
    Youdao,
    Bing,
    Google,
}

/// Which tier answered a request.
#[derive(Debug, Clone, Copy, PartialEq, Eq, Structural)]
pub enum QuerySource {
    OfflineDb,
    LocalCache,
    Online(OnlineSource),
}

/// A structured dictionary entry nested in a record.
#[derive(Debug)]
pub struct CollinsDisplayItem {
    pub additional: Option<String>,
    pub major_trans: Option<String>,
    pub examples: Vec<(String, String)>,
}

/// The view of a dictionary entry.
pub ghost struct EntryView {
    pub additional: Option<Seq<char>>,
    pub major_trans: Option<Seq<char>>,
    pub examples: Seq<(Seq<char>, Seq<char>)>,
}

impl View for CollinsDisplayItem {
    type V = EntryView;

    open spec fn view(&self) -> EntryView {
        EntryView {
            additional: self.additional.deep_view(),
            major_trans: self.major_trans.deep_view(),
            examples: self.examples.deep_view(),
        }
    }
}

impl DeepView for CollinsDisplayItem {
    type V = EntryView;

    open spec fn deep_view(&self) -> EntryView {
        self@
    }
}

/// The result of one lookup.
#[derive(Debug)]
pub struct QueryResult {
    pub query: String,
    pub found: bool,
    pub is_long_text: bool,
    pub pronunciation: Option<String>,
    pub pronunciation_us: Option<String>,
    pub pronunciation_uk: Option<String>,
    pub translations: Vec<String>,
    pub examples: Vec<(String, String)>,
    pub collins_items: Vec<CollinsDisplayItem>,
    pub collins_rank: Option<String>,
    pub source: QuerySource,
    pub cached_at: Option<i64>,
}

/// The view of a record: every text as a sequence of characters.
pub ghost struct RecordView {
    pub query: Seq<char>,
    pub found: bool,
    pub is_long_text: bool,
    pub pronunciation: Option<Seq<char>>,
    pub pronunciation_us: Option<Seq<char>>,
    pub pronunciation_uk: Option<Seq<char>>,
    pub translations: Seq<Seq<char>>,
    pub examples: Seq<(Seq<char>, Seq<char>)>,
    pub collins_items: Seq<EntryView>,
    pub collins_rank: Option<Seq<char>>,
    pub source: QuerySource,
    pub cached_at: Option<i64>,
}

impl View for QueryResult {
    type V = RecordView;

    open spec fn view(&self) -> RecordView {
        RecordView {
            query: self.query@,
            found: self.found,
            is_long_text: self.is_long_text,
            pronunciation: self.pronunciation.deep_view(),
            pronunciation_us: self.pronunciation_us.deep_view(),
            pronunciation_uk: self.pronunciation_uk.deep_view(),
            translations: self.translations.deep_view(),
            examples: self.examples.deep_view(),
            collins_items: self.collins_items.deep_view(),
            collins_rank: self.collins_rank.deep_view(),
            source: self.source,
            cached_at: self.cached_at,
        }
    }
}

impl RecordView {
    /// The same record, labelled with another provenance.
    pub open spec fn with_source(self, source: QuerySource) -> RecordView {
        RecordView { source, ..self }
    }

    /// Two records agree on everything but their provenance.
    pub open spec fn same_content(self, other: RecordView) -> bool {
        self.with_source(QuerySource::LocalCache) == other.with_source(QuerySource::LocalCache)
    }
}

/// The view of a fresh, empty record for `query`.
pub open spec fn empty_record(query: Seq<char>, is_long_text: bool) -> RecordView {
    RecordView {
        query,
        found: false,
        is_long_text,
        pronunciation: None,
        pronunciation_us: None,
        pronunciation_uk: None,
        translations: Seq::empty(),
        examples: Seq::empty(),
        collins_items: Seq::empty(),
        collins_rank: None,
        source: QuerySource::Online(OnlineSource::Youdao),
        cached_at: None,
    }
}

/// A copy of an optional text.
pub fn copy_text(o: &Option<String>) -> (r: Option<String>)
    ensures
        r.deep_view() == o.deep_view(),
{
    match o {
        Some(s) => Some(s.clone()),
        None => None,
    }
}

/// A copy of a list of texts.
pub fn copy_texts(v: &Vec<String>) -> (r: Vec<String>)
    ensures
        r.deep_view() == v.deep_view(),
{
    let mut r: Vec<String> = Vec::new();
    let mut i: usize = 0;
    while i < v.len()
        invariant
            i <= v.len(),
            r@.len() == i,
            forall|k: int| 0 <= k < i ==> #[trigger] r@[k].deep_view() == v@[k].deep_view(),
        decreases v.len() - i,
    {
        r.push(v[i].clone());
        i = i + 1;
    }
    assert(r.deep_view() =~= v.deep_view());
    r
}

/// A copy of a list of text pairs.
pub fn copy_pairs(v: &Vec<(String, String)>) -> (r: Vec<(String, String)>)
    ensures
        r.deep_view() == v.deep_view(),
{
    let mut r: Vec<(String, String)> = Vec::new();
    let mut i: usize = 0;
    while i < v.len()
        invariant
            i <= v.len(),
            r@.len() == i,
            forall|k: int| 0 <= k < i ==> #[trigger] r@[k].deep_view() == v@[k].deep_view(),
        decreases v.len() - i,
    {
        let pair = (v[i].0.clone(), v[i].1.clone());
        r.push(pair);
        i = i + 1;
    }
    assert(r.deep_view() =~= v.deep_view());
    r
}

impl Clone for CollinsDisplayItem {
    fn clone(&self) -> (r: Self)
        ensures
            r@ == self@,
    {
        CollinsDisplayItem {
            additional: copy_text(&self.additional),
            major_trans: copy_text(&self.major_trans),
            examples: copy_pairs(&self.examples),
        }
    }
}

/// A copy of a list of dictionary entries.
pub fn copy_items(v: &Vec<CollinsDisplayItem>) -> (r: Vec<CollinsDisplayItem>)
    ensures
        r.deep_view() == v.deep_view(),
{
    let mut r: Vec<CollinsDisplayItem> = Vec::new();
    let mut i: usize = 0;
    while i < v.len()
        invariant
            i <= v.len(),
            r@.len() == i,
            forall|k: int| 0 <= k < i ==> #[trigger] r@[k].deep_view() == v@[k].deep_view(),
        decreases v.len() - i,
    {
        r.push(v[i].clone());
        i = i + 1;
    }
    assert(r.deep_view() =~= v.deep_view());
    r
}

impl Clone for QueryResult {
    fn clone(&self) -> (r: Self)
        ensures
            r@ == self@,
    {
        QueryResult {
            query: self.query.clone(),
            found: self.found,
            is_long_text: self.is_long_text,
            pronunciation: copy_text(&self.pronunciation),
            pronunciation_us: copy_text(&self.pronunciation_us),
            pronunciation_uk: copy_text(&self.pronunciation_uk),
            translations: copy_texts(&self.translations),
            examples: copy_pairs(&self.examples),
            collins_items: copy_items(&self.collins_items),
            collins_rank: copy_text(&self.collins_rank),
            source: self.source,
            cached_at: self.cached_at,
        }
    }
}

impl QueryResult {
    /// An empty, not-found record for `query`, labelled as coming from the
    /// default remote provider.
    pub fn new(query: String, is_long_text: bool) -> (r: Self)
        ensures
            r@ == empty_record(query@, is_long_text),
    {
        let r = QueryResult {
            query,
            found: false,
            is_long_text,
            pronunciation: None,
            pronunciation_us: None,
            pronunciation_uk: None,
            translations: Vec::new(),
            examples: Vec::new(),
            collins_items: Vec::new(),
            collins_rank: None,
            source: QuerySource::Online(OnlineSource::Youdao),
            cached_at: None,
        };
        assert(r.translations.deep_view() =~= Seq::<Seq<char>>::empty());
        assert(r.examples.deep_view() =~= Seq::<(Seq<char>, Seq<char>)>::empty());
        assert(r.collins_items.deep_view() =~= Seq::<EntryView>::empty());
        r
    }
}

/// The persisted form of a record: the compressed payload and the sizes of
/// the payload before and after compression.
#[derive(Debug)]
pub struct CompressedCache {
    pub data: Vec<u8>,
    pub compressed_size: usize,
    pub original_size: usize,
}

} // verus!
