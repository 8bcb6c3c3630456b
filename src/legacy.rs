//! Legacy dictionary records and their conversion into lookup records.

use vstd::prelude::*;
use crate::model::{CollinsDisplayItem, EntryView, QueryResult, QuerySource, RecordView, empty_record};

verus! {

/// One entry of a legacy structured-dictionary block.
#[derive(Debug)]
pub struct CollinsItem {
    pub additional: Option<String>,
    pub major_trans: Option<String>,
    pub examples: Option<Vec<Vec<String>>>,
}

/// A legacy structured-dictionary block.
#[derive(Debug)]
pub struct CollinsData {
    pub items: Option<Vec<CollinsItem>>,
    pub star: Option<i32>,
    pub rank: Option<String>,
    pub additional_pattern: Option<String>,
}

/// A record in the legacy schema. The pronunciation map and the example map
/// are held as lists of (key, value) entries, one per key.
#[derive(Debug)]
pub struct LegacyResult {
    pub keyword: Option<String>,
    pub pronounce: Option<Vec<(String, String)>>,
    pub paraphrase: Option<Vec<String>>,
    pub examples: Option<Vec<(String, Vec<Vec<String>>)>>,
    pub collins: Option<CollinsData>,
}

pub ghost struct ItemView {
    pub additional: Option<Seq<char>>,
    pub major_trans: Option<Seq<char>>,
    pub examples: Option<Seq<Seq<Seq<char>>>>,
}

pub ghost struct CollinsView {
    pub items: Option<Seq<ItemView>>,
    pub star: Option<i32>,
    pub rank: Option<Seq<char>>,
    pub additional_pattern: Option<Seq<char>>,
}

pub ghost struct LegacyView {
    pub keyword: Option<Seq<char>>,
    pub pronounce: Option<Seq<(Seq<char>, Seq<char>)>>,
    pub paraphrase: Option<Seq<Seq<char>>>,
    pub examples: Option<Seq<(Seq<char>, Seq<Seq<Seq<char>>>)>>,
    pub collins: Option<CollinsView>,
}

impl DeepView for CollinsItem {
    type V = ItemView;

    open spec fn deep_view(&self) -> ItemView {
        ItemView {
            additional: self.additional.deep_view(),
            major_trans: self.major_trans.deep_view(),
            examples: self.examples.deep_view(),
        }
    }
}

impl DeepView for CollinsData {
    type V = CollinsView;

    open spec fn deep_view(&self) -> CollinsView {
        CollinsView {
            items: self.items.deep_view(),
            star: self.star,
            rank: self.rank.deep_view(),
            additional_pattern: self.additional_pattern.deep_view(),
        }
    }
}

impl View for LegacyResult {
    type V = LegacyView;

    open spec fn view(&self) -> LegacyView {
        LegacyView {
            keyword: self.keyword.deep_view(),
            pronounce: self.pronounce.deep_view(),
            paraphrase: self.paraphrase.deep_view(),
            examples: self.examples.deep_view(),
            collins: self.collins.deep_view(),
        }
    }
}

/// No key occurs twice in a list of (key, value) entries.
pub open spec fn unique_keys<V>(pairs: Seq<(Seq<char>, V)>) -> bool {
    forall|i: int, j: int| 0 <= i < j < pairs.len() ==> #[trigger] pairs[i].0 != #[trigger] pairs[j].0
}

/// Lexicographic order of texts by character, the order of `String`'s `Ord`.
pub open spec fn key_less(a: Seq<char>, b: Seq<char>) -> bool
    decreases a.len(),
{
    if a.len() == 0 {
        b.len() > 0
    } else if b.len() == 0 {
        false
    } else if a[0] != b[0] {
        a[0] < b[0]
    } else {
        key_less(a.drop_first(), b.drop_first())
    }
}

/// The keys of a list of (key, value) entries are in strictly ascending order.
pub open spec fn ascending_keys<V>(pairs: Seq<(Seq<char>, V)>) -> bool {
    forall|i: int, j: int| 0 <= i < j < pairs.len() ==> key_less(#[trigger] pairs[i].0, #[trigger] pairs[j].0)
}

impl LegacyView {
    /// The pronunciation map holds each label once; the example map lists its
    /// categories once each, in ascending order, so that a map has one list.
    pub open spec fn wf(self) -> bool {
        &&& (self.pronounce matches Some(p) ==> unique_keys(p))
        &&& (self.examples matches Some(e) ==> ascending_keys(e))
    }
}

proof fn lemma_key_less_asymmetric(a: Seq<char>, b: Seq<char>)
    ensures
        !(key_less(a, b) && key_less(b, a)),
    decreases a.len(),
{
    if a.len() > 0 && b.len() > 0 && a[0] == b[0] {
        lemma_key_less_asymmetric(a.drop_first(), b.drop_first());
    }
}

/// Two entry lists in ascending key order that hold the same entries are the
/// same list: such a list is determined by its map.
pub proof fn lemma_ascending_lists_equal<V>(e1: Seq<(Seq<char>, V)>, e2: Seq<(Seq<char>, V)>)
    requires
        ascending_keys(e1),
        ascending_keys(e2),
        forall|x: (Seq<char>, V)| e1.contains(x) <==> e2.contains(x),
    ensures
        e1 == e2,
    decreases e1.len(),
{
    if e1.len() == 0 {
        if e2.len() > 0 {
            assert(e2.contains(e2[0]));
        }
        assert(e1 =~= e2);
    } else if e2.len() == 0 {
        assert(e1.contains(e1[0]));
    } else {
        assert(e1.contains(e1[0]));
        assert(e2.contains(e2[0]));
        let k = choose|k: int| 0 <= k < e2.len() && e2[k] == e1[0];
        let m = choose|m: int| 0 <= m < e1.len() && e1[m] == e2[0];
        if k > 0 {
            assert(key_less(e2[0].0, e2[k].0));
            if m > 0 {
                assert(key_less(e1[0].0, e1[m].0));
                lemma_key_less_asymmetric(e1[0].0, e2[0].0);
            } else {
                lemma_key_less_asymmetric(e1[0].0, e1[0].0);
            }
            assert(false);
        }
        let t1 = e1.drop_first();
        let t2 = e2.drop_first();
        assert(ascending_keys(t1)) by {
            assert forall|i: int, j: int| 0 <= i < j < t1.len() implies key_less(#[trigger] t1[i].0, #[trigger] t1[j].0) by {
                assert(t1[i] == e1[i + 1] && t1[j] == e1[j + 1]);
            }
        }
        assert(ascending_keys(t2)) by {
            assert forall|i: int, j: int| 0 <= i < j < t2.len() implies key_less(#[trigger] t2[i].0, #[trigger] t2[j].0) by {
                assert(t2[i] == e2[i + 1] && t2[j] == e2[j + 1]);
            }
        }
        assert forall|x: (Seq<char>, V)| t1.contains(x) <==> t2.contains(x) by {
            if t1.contains(x) {
                let i = choose|i: int| 0 <= i < t1.len() && t1[i] == x;
                assert(e1[i + 1] == x);
                assert(e1.contains(x));
                let j = choose|j: int| 0 <= j < e2.len() && e2[j] == x;
                if j == 0 {
                    assert(key_less(e1[0].0, e1[i + 1].0));
                    lemma_key_less_asymmetric(x.0, x.0);
                }
                assert(t2[j - 1] == x);
            }
            if t2.contains(x) {
                let i = choose|i: int| 0 <= i < t2.len() && t2[i] == x;
                assert(e2[i + 1] == x);
                assert(e2.contains(x));
                let j = choose|j: int| 0 <= j < e1.len() && e1[j] == x;
                if j == 0 {
                    assert(key_less(e2[0].0, e2[i + 1].0));
                    lemma_key_less_asymmetric(x.0, x.0);
                }
                assert(t1[j - 1] == x);
            }
        }
        lemma_ascending_lists_equal(t1, t2);
        assert(e1 =~= seq![e1[0]] + t1);
        assert(e2 =~= seq![e2[0]] + t2);
    }
}

/// The examples of a converted record depend on the example map alone: two
/// well-formed example lists that hold the same entries convert alike.
pub proof fn lemma_examples_depend_on_map(
    l: LegacyView,
    e1: Seq<(Seq<char>, Seq<Seq<Seq<char>>>)>,
    e2: Seq<(Seq<char>, Seq<Seq<Seq<char>>>)>,
)
    requires
        ascending_keys(e1),
        ascending_keys(e2),
        forall|x: (Seq<char>, Seq<Seq<Seq<char>>>)| e1.contains(x) <==> e2.contains(x),
    ensures
        converted(LegacyView { examples: Some(e1), ..l }) == converted(LegacyView { examples: Some(e2), ..l }),
{
    lemma_ascending_lists_equal(e1, e2);
}

/// Whether `a` comes before `b` in lexicographic order.
fn text_less(a: &str, b: &str) -> (r: bool)
    ensures
        r == key_less(a@, b@),
{
    let n = a.unicode_len();
    let m = b.unicode_len();
    let mut i: usize = 0;
    assert(a@.subrange(0, n as int) =~= a@);
    assert(b@.subrange(0, m as int) =~= b@);
    while i < n && i < m
        invariant
            i <= n,
            i <= m,
            n == a@.len(),
            m == b@.len(),
            key_less(a@, b@) == key_less(a@.subrange(i as int, n as int), b@.subrange(i as int, m as int)),
        decreases n - i,
    {
        let x = a.get_char(i);
        let y = b.get_char(i);
        let ghost sa = a@.subrange(i as int, n as int);
        let ghost sb = b@.subrange(i as int, m as int);
        assert(sa[0] == x && sb[0] == y);
        if x != y {
            return x < y;
        }
        assert(sa.drop_first() =~= a@.subrange(i + 1, n as int));
        assert(sb.drop_first() =~= b@.subrange(i + 1, m as int));
        i = i + 1;
    }
    i == n && i < m
}

/// Whether the keys of a list of entries are in strictly ascending order.
fn keys_ascending<V: DeepView>(pairs: &Vec<(String, V)>) -> (r: bool)
    ensures
        r == ascending_keys(pairs.deep_view()),
{
    let n = pairs.len();
    let mut i: usize = 0;
    while i < n
        invariant
            i <= n,
            n == pairs.len(),
            forall|a: int, b: int| 0 <= a < i && a < b < n ==> key_less(#[trigger] pairs.deep_view()[a].0, #[trigger] pairs.deep_view()[b].0),
        decreases n - i,
    {
        let mut j: usize = i + 1;
        while j < n
            invariant
                i < n,
                i + 1 <= j <= n,
                n == pairs.len(),
                forall|a: int, b: int| 0 <= a < i && a < b < n ==> key_less(#[trigger] pairs.deep_view()[a].0, #[trigger] pairs.deep_view()[b].0),
                forall|b: int| i < b < j ==> key_less(pairs.deep_view()[i as int].0, #[trigger] pairs.deep_view()[b].0),
            decreases n - j,
        {
            if !text_less(pairs[i].0.as_str(), pairs[j].0.as_str()) {
                assert(!key_less(pairs.deep_view()[i as int].0, pairs.deep_view()[j as int].0));
                return false;
            }
            j = j + 1;
        }
        i = i + 1;
    }
    true
}

/// Whether no key occurs twice in a list of (key, value) entries.
fn keys_unique<V: DeepView>(pairs: &Vec<(String, V)>) -> (r: bool)
    ensures
        r == unique_keys(pairs.deep_view()),
{
    let n = pairs.len();
    let mut i: usize = 0;
    while i < n
        invariant
            i <= n,
            n == pairs.len(),
            forall|a: int, b: int| 0 <= a < i && a < b < n ==> #[trigger] pairs.deep_view()[a].0 != #[trigger] pairs.deep_view()[b].0,
        decreases n - i,
    {
        let mut j: usize = i + 1;
        while j < n
            invariant
                i < n,
                i + 1 <= j <= n,
                n == pairs.len(),
                forall|a: int, b: int| 0 <= a < i && a < b < n ==> #[trigger] pairs.deep_view()[a].0 != #[trigger] pairs.deep_view()[b].0,
                forall|b: int| i < b < j ==> pairs.deep_view()[i as int].0 != #[trigger] pairs.deep_view()[b].0,
            decreases n - j,
        {
            if pairs[i].0 == pairs[j].0 {
                assert(pairs.deep_view()[i as int].0 == pairs.deep_view()[j as int].0);
                return false;
            }
            j = j + 1;
        }
        i = i + 1;
    }
    true
}

impl LegacyResult {
    /// Whether the pronunciation map holds each label once and the example
    /// categories are in ascending order.
    pub fn is_well_formed(&self) -> (r: bool)
        ensures
            r == self@.wf(),
    {
        let p = match &self.pronounce {
            Some(p) => keys_unique(p),
            None => true,
        };
        let e = match &self.examples {
            Some(e) => keys_ascending(e),
            None => true,
        };
        p && e
    }
}

/// The label of the first pronunciation slot, in the primary convention.
pub open spec fn us_primary() -> Seq<char> {
    seq!['美']
}

/// The label of the first pronunciation slot, in the alternate convention.
pub open spec fn us_alternate() -> Seq<char> {
    seq!['u', 's']
}

/// The label of the second pronunciation slot, in the primary convention.
pub open spec fn uk_primary() -> Seq<char> {
    seq!['英']
}

/// The label of the second pronunciation slot, in the alternate convention.
pub open spec fn uk_alternate() -> Seq<char> {
    seq!['u', 'k']
}

/// The keyword that stands in for a missing one.
pub open spec fn placeholder_keyword() -> Seq<char> {
    seq!['u', 'n', 'k', 'n', 'o', 'w', 'n']
}

/// The value of the first entry labelled `label`.
pub open spec fn label_value(pron: Seq<(Seq<char>, Seq<char>)>, label: Seq<char>) -> Option<Seq<char>>
    decreases pron.len(),
{
    if pron.len() == 0 {
        None
    } else if pron[0].0 == label {
        Some(pron[0].1)
    } else {
        label_value(pron.drop_first(), label)
    }
}

/// A pronunciation slot: the primary label if present, else the alternate one.
pub open spec fn slot_value(
    pron: Option<Seq<(Seq<char>, Seq<char>)>>,
    primary: Seq<char>,
    alternate: Seq<char>,
) -> Option<Seq<char>> {
    match pron {
        None => None,
        Some(p) => match label_value(p, primary) {
            Some(v) => Some(v),
            None => label_value(p, alternate),
        },
    }
}

/// The (source, target) pairs of a list of legacy examples: each list of at
/// least two texts gives its first two, shorter lists are dropped.
pub open spec fn example_pairs(egs: Seq<Seq<Seq<char>>>) -> Seq<(Seq<char>, Seq<char>)>
    decreases egs.len(),
{
    if egs.len() == 0 {
        Seq::empty()
    } else {
        let rest = example_pairs(egs.drop_last());
        let p = egs.last();
        if p.len() >= 2 {
            rest.push((p[0], p[1]))
        } else {
            rest
        }
    }
}

/// The example pairs of all categories, in category order.
pub open spec fn category_pairs(cats: Seq<(Seq<char>, Seq<Seq<Seq<char>>>)>) -> Seq<(Seq<char>, Seq<char>)>
    decreases cats.len(),
{
    if cats.len() == 0 {
        Seq::empty()
    } else {
        category_pairs(cats.drop_last()) + example_pairs(cats.last().1)
    }
}

/// The display entry converted from a legacy entry.
pub open spec fn entry_of(item: ItemView) -> EntryView {
    EntryView {
        additional: item.additional,
        major_trans: item.major_trans,
        examples: match item.examples {
            Some(egs) => example_pairs(egs),
            None => Seq::empty(),
        },
    }
}

/// An entry is kept when it has a primary translation or an example.
pub open spec fn keeps_entry(e: EntryView) -> bool {
    e.major_trans is Some || e.examples.len() > 0
}

/// The converted entries that are kept, in order.
pub open spec fn entries_of(items: Seq<ItemView>) -> Seq<EntryView>
    decreases items.len(),
{
    if items.len() == 0 {
        Seq::empty()
    } else {
        let rest = entries_of(items.drop_last());
        let e = entry_of(items.last());
        if keeps_entry(e) {
            rest.push(e)
        } else {
            rest
        }
    }
}

/// The lookup record that a legacy record converts to.
pub open spec fn converted(l: LegacyView) -> RecordView {
    let us = slot_value(l.pronounce, us_primary(), us_alternate());
    let uk = slot_value(l.pronounce, uk_primary(), uk_alternate());
    RecordView {
        query: match l.keyword {
            Some(k) => k,
            None => placeholder_keyword(),
        },
        found: true,
        is_long_text: false,
        pronunciation: if us is Some { us } else { uk },
        pronunciation_us: us,
        pronunciation_uk: uk,
        translations: match l.paraphrase {
            Some(p) => p,
            None => Seq::empty(),
        },
        examples: match l.examples {
            Some(cats) => category_pairs(cats),
            None => Seq::empty(),
        },
        collins_items: match l.collins {
            Some(c) => match c.items {
                Some(items) => entries_of(items),
                None => Seq::empty(),
            },
            None => Seq::empty(),
        },
        collins_rank: match l.collins {
            Some(c) => c.rank,
            None => None,
        },
        source: QuerySource::OfflineDb,
        cached_at: None,
    }
}

/// The alternate form of a primary pronunciation label; other labels stay.
pub open spec fn alternate_label(label: Seq<char>) -> Seq<char> {
    if label == us_primary() {
        us_alternate()
    } else if label == uk_primary() {
        uk_alternate()
    } else {
        label
    }
}

/// A pronunciation map with every label renamed to its alternate form.
pub open spec fn to_alternate_labels(pron: Seq<(Seq<char>, Seq<char>)>) -> Seq<(Seq<char>, Seq<char>)> {
    pron.map_values(|e: (Seq<char>, Seq<char>)| (alternate_label(e.0), e.1))
}

/// No label of the map is in the alternate convention.
pub open spec fn no_alternate_labels(pron: Seq<(Seq<char>, Seq<char>)>) -> bool {
    forall|i: int| 0 <= i < pron.len() ==> #[trigger] pron[i].0 != us_alternate() && pron[i].0 != uk_alternate()
}

proof fn lemma_label_absent(pron: Seq<(Seq<char>, Seq<char>)>, label: Seq<char>)
    requires
        forall|i: int| 0 <= i < pron.len() ==> #[trigger] pron[i].0 != label,
    ensures
        label_value(pron, label) is None,
    decreases pron.len(),
{
    if pron.len() > 0 {
        assert(pron[0].0 != label);
        lemma_label_absent(pron.drop_first(), label);
    }
}

proof fn lemma_renamed_lookup(pron: Seq<(Seq<char>, Seq<char>)>, label: Seq<char>)
    requires
        no_alternate_labels(pron),
        label == us_primary() || label == uk_primary(),
    ensures
        label_value(to_alternate_labels(pron), alternate_label(label)) == label_value(pron, label),
    decreases pron.len(),
{
    assert(us_alternate()[1] != uk_alternate()[1]);
    if pron.len() > 0 {
        assert(to_alternate_labels(pron).drop_first() =~= to_alternate_labels(pron.drop_first()));
        assert(no_alternate_labels(pron.drop_first())) by {
            assert forall|i: int| 0 <= i < pron.drop_first().len() implies
                #[trigger] pron.drop_first()[i].0 != us_alternate() && pron.drop_first()[i].0 != uk_alternate() by {
                assert(pron.drop_first()[i] == pron[i + 1]);
            }
        }
        assert(pron[0].0 != us_alternate() && pron[0].0 != uk_alternate());
        lemma_renamed_lookup(pron.drop_first(), label);
    }
}

/// Convention independence: a legacy record whose pronunciation map uses
/// the alternate labels converts to the same lookup record as the same record
/// with the primary labels. The map with primary labels holds no alternate
/// label; labels of neither convention stay as they are.
pub proof fn lemma_label_convention_independent(l: LegacyView, pron: Seq<(Seq<char>, Seq<char>)>)
    requires
        no_alternate_labels(pron),
    ensures
        converted(LegacyView { pronounce: Some(pron), ..l })
            == converted(LegacyView { pronounce: Some(to_alternate_labels(pron)), ..l }),
{
    let alt = to_alternate_labels(pron);
    assert(us_alternate()[1] != uk_alternate()[1]);
    assert(us_primary() != uk_primary()) by {
        assert(us_primary()[0] != uk_primary()[0]);
    }
    lemma_renamed_lookup(pron, us_primary());
    lemma_renamed_lookup(pron, uk_primary());
    lemma_label_absent(pron, us_alternate());
    lemma_label_absent(pron, uk_alternate());
    assert forall|i: int| 0 <= i < alt.len() implies #[trigger] alt[i].0 != us_primary() by {
        assert(pron[i].0 != us_alternate() && pron[i].0 != uk_alternate());
    }
    assert forall|i: int| 0 <= i < alt.len() implies #[trigger] alt[i].0 != uk_primary() by {
        assert(pron[i].0 != us_alternate() && pron[i].0 != uk_alternate());
    }
    lemma_label_absent(alt, us_primary());
    lemma_label_absent(alt, uk_primary());
}

/// The value of the first entry of `pron` labelled `label`.
fn find_label(pron: &Vec<(String, String)>, label: &str) -> (r: Option<String>)
    ensures
        r.deep_view() == label_value(pron.deep_view(), label@),
{
    let wanted = label.to_owned();
    let mut i: usize = 0;
    assert(pron.deep_view().subrange(0, pron.len() as int) =~= pron.deep_view());
    while i < pron.len()
        invariant
            i <= pron.len(),
            wanted@ == label@,
            label_value(pron.deep_view(), label@)
                == label_value(pron.deep_view().subrange(i as int, pron.len() as int), label@),
        decreases pron.len() - i,
    {
        let ghost rest = pron.deep_view().subrange(i as int, pron.len() as int);
        assert(rest[0] == pron.deep_view()[i as int]);
        if pron[i].0 == wanted {
            return Some(pron[i].1.clone());
        }
        assert(rest.drop_first() =~= pron.deep_view().subrange(i + 1, pron.len() as int));
        i = i + 1;
    }
    None
}

/// Appends the example pairs of `egs` to `out`.
fn push_pairs(egs: &Vec<Vec<String>>, out: &mut Vec<(String, String)>)
    ensures
        final(out).deep_view() == old(out).deep_view() + example_pairs(egs.deep_view()),
{
    let ghost start = out.deep_view();
    let mut i: usize = 0;
    while i < egs.len()
        invariant
            i <= egs.len(),
            out.deep_view() == start + example_pairs(egs.deep_view().subrange(0, i as int)),
        decreases egs.len() - i,
    {
        let ghost before = out.deep_view();
        let pair = &egs[i];
        if pair.len() >= 2 {
            out.push((pair[0].clone(), pair[1].clone()));
            assert(out.deep_view() =~= before.push((pair.deep_view()[0], pair.deep_view()[1])));
        }
        assert(egs.deep_view().subrange(0, i + 1).drop_last() =~= egs.deep_view().subrange(0, i as int));
        i = i + 1;
        assert(out.deep_view() =~= start + example_pairs(egs.deep_view().subrange(0, i as int)));
    }
    assert(egs.deep_view().subrange(0, egs.len() as int) =~= egs.deep_view());
}

/// The display entry converted from one legacy entry.
fn convert_item(item: &CollinsItem) -> (r: CollinsDisplayItem)
    ensures
        r@ == entry_of(item.deep_view()),
{
    let mut examples: Vec<(String, String)> = Vec::new();
    if let Some(egs) = &item.examples {
        push_pairs(egs, &mut examples);
    }
    assert(examples.deep_view() =~= entry_of(item.deep_view()).examples);
    CollinsDisplayItem {
        additional: crate::model::copy_text(&item.additional),
        major_trans: crate::model::copy_text(&item.major_trans),
        examples,
    }
}

/// The kept display entries of a legacy entry list.
fn convert_items(items: &Vec<CollinsItem>) -> (r: Vec<CollinsDisplayItem>)
    ensures
        r.deep_view() == entries_of(items.deep_view()),
{
    let mut out: Vec<CollinsDisplayItem> = Vec::new();
    let mut i: usize = 0;
    while i < items.len()
        invariant
            i <= items.len(),
            out.deep_view() == entries_of(items.deep_view().subrange(0, i as int)),
        decreases items.len() - i,
    {
        let ghost before = out.deep_view();
        let entry = convert_item(&items[i]);
        if entry.major_trans.is_some() || entry.examples.len() > 0 {
            out.push(entry);
            assert(out.deep_view() =~= before.push(entry@));
        }
        assert(items.deep_view().subrange(0, i + 1).drop_last() =~= items.deep_view().subrange(0, i as int));
        i = i + 1;
    }
    assert(items.deep_view().subrange(0, items.len() as int) =~= items.deep_view());
    out
}

/// Converts a legacy record into a found lookup record labelled as coming
/// from the durable store.
pub fn convert_legacy(legacy: LegacyResult) -> (r: QueryResult)
    requires
        legacy@.wf(),
    ensures
        r@ == converted(legacy@),
{
    let keyword = match legacy.keyword {
        Some(k) => k,
        None => "unknown".to_owned(),
    };
    proof {
        reveal_strlit("unknown");
        reveal_strlit("美");
        reveal_strlit("us");
        reveal_strlit("英");
        reveal_strlit("uk");
    }
    assert("unknown"@ =~= placeholder_keyword());
    assert("美"@ =~= us_primary());
    assert("us"@ =~= us_alternate());
    assert("英"@ =~= uk_primary());
    assert("uk"@ =~= uk_alternate());
    let mut result = QueryResult::new(keyword, false);
    result.found = true;

    if let Some(pron) = &legacy.pronounce {
        let us = match find_label(pron, "美") {
            Some(v) => Some(v),
            None => find_label(pron, "us"),
        };
        if let Some(v) = &us {
            result.pronunciation = Some(v.clone());
        }
        result.pronunciation_us = us;
        let uk = match find_label(pron, "英") {
            Some(v) => Some(v),
            None => find_label(pron, "uk"),
        };
        if result.pronunciation.is_none() {
            result.pronunciation = crate::model::copy_text(&uk);
        }
        result.pronunciation_uk = uk;
    }

    if let Some(para) = legacy.paraphrase {
        result.translations = para;
    }

    if let Some(cats) = &legacy.examples {
        let mut examples: Vec<(String, String)> = Vec::new();
        let mut i: usize = 0;
        while i < cats.len()
            invariant
                i <= cats.len(),
                examples.deep_view() == category_pairs(cats.deep_view().subrange(0, i as int)),
            decreases cats.len() - i,
        {
            push_pairs(&cats[i].1, &mut examples);
            assert(cats.deep_view().subrange(0, i + 1).drop_last() =~= cats.deep_view().subrange(0, i as int));
            i = i + 1;
        }
        assert(cats.deep_view().subrange(0, cats.len() as int) =~= cats.deep_view());
        result.examples = examples;
    }

    if let Some(collins) = &legacy.collins {
        result.collins_rank = crate::model::copy_text(&collins.rank);
        if let Some(items) = &collins.items {
            result.collins_items = convert_items(items);
        }
    }

    result.source = QuerySource::OfflineDb;
    result
}

} // verus!
