//! The text layout of a record for the terminal: which texts are shown, in
//! which order and in which style. The output is a list of styled segments;
//! the terminal layer paints each one and joins them.

use vstd::prelude::*;
use crate::model::{EntryView, QueryResult, QuerySource, RecordView};
use crate::text::{ascii_alnum, ascii_letter, decimal_of, is_white, trim, trimmed, usize_text};
use crate::theme::{Color, Style, Theme, style_of};

verus! {

/// A piece of output text with its style; `None` is plain text.
#[derive(Debug)]
pub struct Segment {
    pub style: Option<Style>,
    pub text: String,
}

impl DeepView for Segment {
    type V = (Option<Style>, Seq<char>);

    open spec fn deep_view(&self) -> (Option<Style>, Seq<char>) {
        (self.style, self.text@)
    }
}

pub open spec fn plain(t: Seq<char>) -> (Option<Style>, Seq<char>) {
    (None, t)
}

pub open spec fn styled(s: Style, t: Seq<char>) -> (Option<Style>, Seq<char>) {
    (Some(s), t)
}

/// The style of the source indicator and the pronunciation labels.
pub open spec fn accent() -> Style {
    style_of(Some(Color::Cyan), false, false, false, false)
}

/// A character an English query may hold.
pub open spec fn query_char(c: char) -> bool {
    ascii_alnum(c) || c == ' ' || c == '-' || c == '.' || c == '?'
}

/// A non-empty query of ASCII letters, digits, spaces, hyphens, dots and
/// question marks.
pub open spec fn english_query(q: Seq<char>) -> bool {
    q.len() > 0 && forall|i: int| 0 <= i < q.len() ==> #[trigger] query_char(q[i])
}

/// Whether a query is English.
pub fn is_english_query(query: &str) -> (r: bool)
    ensures
        r == english_query(query@),
{
    let n = query.unicode_len();
    let mut i: usize = 0;
    while i < n
        invariant
            i <= n,
            n == query@.len(),
            forall|k: int| 0 <= k < i ==> #[trigger] query_char(query@[k]),
        decreases n - i,
    {
        let c = query.get_char(i);
        let ok = ('a' <= c && c <= 'z') || ('A' <= c && c <= 'Z') || ('0' <= c && c <= '9') || c == ' '
            || c == '-' || c == '.' || c == '?';
        if !ok {
            assert(!query_char(query@[i as int]));
            return false;
        }
        i = i + 1;
    }
    n > 0
}

/// A translation that begins, after white space, with an ASCII letter.
pub open spec fn english_translation(t: Seq<char>) -> bool {
    trimmed(t).len() > 0 && ascii_letter(trimmed(t)[0])
}

/// The English translations, in order.
pub open spec fn english_translations(ts: Seq<Seq<char>>) -> Seq<Seq<char>>
    decreases ts.len(),
{
    if ts.len() == 0 {
        Seq::empty()
    } else if english_translation(ts.last()) {
        english_translations(ts.drop_last()).push(ts.last())
    } else {
        english_translations(ts.drop_last())
    }
}

fn is_english_translation(t: &String) -> (r: bool)
    ensures
        r == english_translation(t@),
{
    let tt = trim(t.as_str());
    if tt.as_str().unicode_len() == 0 {
        return false;
    }
    let c = tt.as_str().get_char(0);
    ('a' <= c && c <= 'z') || ('A' <= c && c <= 'Z')
}

/// Keeps the English translations, in order.
pub fn filter_english_translations(translations: &Vec<String>) -> (r: Vec<String>)
    ensures
        r.deep_view() == english_translations(translations.deep_view()),
{
    let mut out: Vec<String> = Vec::new();
    let mut i: usize = 0;
    while i < translations.len()
        invariant
            i <= translations.len(),
            out.deep_view() == english_translations(translations.deep_view().subrange(0, i as int)),
        decreases translations.len() - i,
    {
        let ghost before = out.deep_view();
        assert(translations.deep_view().subrange(0, i + 1).drop_last()
            =~= translations.deep_view().subrange(0, i as int));
        if is_english_translation(&translations[i]) {
            out.push(translations[i].clone());
            assert(out.deep_view() =~= before.push(translations.deep_view()[i as int]));
        }
        i = i + 1;
    }
    assert(translations.deep_view().subrange(0, translations.len() as int) =~= translations.deep_view());
    out
}

/// A CJK unified ideograph.
pub open spec fn cjk(c: char) -> bool {
    '\u{4e00}' <= c && c <= '\u{9fff}'
}

fn is_cjk(c: char) -> (r: bool)
    ensures
        r == cjk(c),
{
    '\u{4e00}' <= c && c <= '\u{9fff}'
}

/// The number of characters before the first CJK ideograph.
pub open spec fn latin_prefix_len(s: Seq<char>) -> nat
    decreases s.len(),
{
    if s.len() == 0 || cjk(s[0]) {
        0
    } else {
        1 + latin_prefix_len(s.drop_first())
    }
}

/// The English part of a translation that continues in Chinese: the trimmed
/// text before the first ideograph, when some text precedes it; otherwise
/// the translation as it is.
pub open spec fn english_part(s: Seq<char>) -> Seq<char> {
    let k = latin_prefix_len(s);
    if 0 < k && k < s.len() {
        trimmed(s.subrange(0, k as int))
    } else {
        s
    }
}

proof fn lemma_latin_prefix_len(s: Seq<char>, i: int)
    requires
        0 <= i <= s.len(),
        forall|k: int| 0 <= k < i ==> !#[trigger] cjk(s[k]),
    ensures
        latin_prefix_len(s) == i + latin_prefix_len(s.subrange(i, s.len() as int)),
    decreases i,
{
    if i > 0 {
        assert(!cjk(s[0]));
        assert(s.drop_first().subrange(i - 1, s.drop_first().len() as int) =~= s.subrange(i, s.len() as int));
        assert forall|k: int| 0 <= k < i - 1 implies !#[trigger] cjk(s.drop_first()[k]) by {
            assert(s.drop_first()[k] == s[k + 1]);
        }
        lemma_latin_prefix_len(s.drop_first(), i - 1);
    } else {
        assert(s.subrange(0, s.len() as int) =~= s);
    }
}

/// The English part of a translation.
pub fn english_part_of(s: &String) -> (r: String)
    ensures
        r@ == english_part(s@),
{
    let n = s.as_str().unicode_len();
    let mut k: usize = 0;
    while k < n && !is_cjk(s.as_str().get_char(k))
        invariant
            k <= n,
            n == s@.len(),
            forall|j: int| 0 <= j < k ==> !#[trigger] cjk(s@[j]),
        decreases n - k,
    {
        k = k + 1;
    }
    proof {
        lemma_latin_prefix_len(s@, k as int);
        if k < n {
            assert(s@.subrange(k as int, n as int)[0] == s@[k as int]);
        }
    }
    if 0 < k && k < n {
        trim(s.as_str().substring_char(0, k))
    } else {
        s.clone()
    }
}

/// The source indicator shown after the query.
pub open spec fn source_indicator(source: QuerySource, emoji: bool) -> Seq<char> {
    match source {
        QuerySource::OfflineDb => if emoji { "📚 [离线]"@ } else { "[离线]"@ },
        QuerySource::LocalCache => if emoji { "💾 [缓存]"@ } else { "[缓存]"@ },
        QuerySource::Online(_) => if emoji { "🌐 [在线]"@ } else { "[在线]"@ },
    }
}

/// The source indicator shown after the query.
pub fn source_indicator_text(source: QuerySource, emoji: bool) -> (r: &'static str)
    ensures
        r@ == source_indicator(source, emoji),
{
    match source {
        QuerySource::OfflineDb => if emoji { "📚 [离线]" } else { "[离线]" },
        QuerySource::LocalCache => if emoji { "💾 [缓存]" } else { "[缓存]" },
        QuerySource::Online(_) => if emoji { "🌐 [在线]" } else { "[在线]" },
    }
}

/// The marker before each example.
pub open spec fn example_prefix(emoji: bool) -> Seq<char> {
    if emoji { "≫"@ } else { ">"@ }
}

/// The marker before each example.
pub fn example_prefix_text(emoji: bool) -> (r: &'static str)
    ensures
        r@ == example_prefix(emoji),
{
    if emoji { "≫" } else { ">" }
}

/// The rule drawn above the entries or examples.
pub open spec fn cutoff() -> Seq<char> {
    Seq::new(40, |i: int| '⸺')
}

/// An entry's annotation as shown: bracketed ones as they are, others in
/// parentheses.
pub open spec fn additional_text(a: Seq<char>) -> Seq<char> {
    if a.len() > 0 && a[0] == '[' && a.last() == ']' {
        a
    } else {
        "("@ + a + ")"@
    }
}

pub open spec fn header_part(r: RecordView, t: Theme, emoji: bool) -> Seq<(Option<Style>, Seq<char>)> {
    seq![styled(t.title, r.query), plain(" "@), styled(accent(), source_indicator(r.source, emoji)), plain("\n"@)]
}

pub open spec fn pron_line(label: Seq<char>, p: Seq<char>, t: Theme) -> Seq<(Option<Style>, Seq<char>)> {
    seq![plain("  "@), styled(accent(), label), plain(" "@), styled(t.pron, p), plain("\n"@)]
}

pub open spec fn pron_part(r: RecordView, t: Theme, e: bool) -> Seq<(Option<Style>, Seq<char>)> {
    let us = match r.pronunciation_us {
        Some(p) => pron_line(if e { "US"@ } else { "美"@ }, p, t),
        None => Seq::empty(),
    };
    let uk = match r.pronunciation_uk {
        Some(p) => pron_line(if e { "EN"@ } else { "英"@ }, p, t),
        None => Seq::empty(),
    };
    let single = if r.pronunciation_us is None && r.pronunciation_uk is None {
        match r.pronunciation {
            Some(p) => seq![plain("  "@), styled(t.pron, p), plain("\n"@)],
            None => Seq::empty(),
        }
    } else {
        Seq::empty()
    };
    us + uk + single
}

pub open spec fn text_lines(ts: Seq<Seq<char>>, s: Style) -> Seq<(Option<Style>, Seq<char>)>
    decreases ts.len(),
{
    if ts.len() == 0 {
        Seq::empty()
    } else {
        text_lines(ts.drop_last(), s) + seq![plain("  "@), styled(s, ts.last()), plain("\n"@)]
    }
}

pub open spec fn translation_part(r: RecordView, t: Theme, e: bool) -> Seq<(Option<Style>, Seq<char>)> {
    let shown = if e { english_translations(r.translations) } else { r.translations };
    if r.translations.len() > 0 && shown.len() > 0 {
        seq![plain("\n"@)] + text_lines(shown, t.para)
    } else {
        Seq::empty()
    }
}

pub open spec fn rank_part(r: RecordView, t: Theme) -> Seq<(Option<Style>, Seq<char>)> {
    match r.collins_rank {
        Some(k) => seq![plain("  "@), styled(t.rank, k), plain("\n"@)],
        None => Seq::empty(),
    }
}

pub open spec fn rule_part(t: Theme) -> Seq<(Option<Style>, Seq<char>)> {
    seq![plain("\n"@), plain("  "@), styled(t.line, cutoff()), plain("\n"@)]
}

pub open spec fn entry_example_lines(
    egs: Seq<(Seq<char>, Seq<char>)>,
    t: Theme,
    e: bool,
    emoji: bool,
) -> Seq<(Option<Style>, Seq<char>)>
    decreases egs.len(),
{
    if egs.len() == 0 {
        Seq::empty()
    } else {
        let (orig, trans) = egs.last();
        let lead = "    "@ + example_prefix(emoji) + "   "@ + orig;
        entry_example_lines(egs.drop_last(), t, e, emoji) + if e {
            seq![plain(lead + "\n"@)]
        } else {
            seq![plain(lead + "  "@), styled(t.eg, trans), plain("\n"@)]
        }
    }
}

pub open spec fn entry_lines(n: nat, item: EntryView, t: Theme, e: bool, emoji: bool) -> Seq<(Option<Style>, Seq<char>)> {
    seq![plain("  "@), styled(t.idx, decimal_of(n)), plain(". "@)] + match item.additional {
        Some(a) => seq![styled(t.addi, additional_text(a)), plain(" "@)],
        None => Seq::empty(),
    } + match item.major_trans {
        Some(m) => seq![styled(t.collins_para, if e { english_part(m) } else { m })],
        None => Seq::empty(),
    } + seq![plain("\n"@)] + entry_example_lines(item.examples, t, e, emoji)
}

pub open spec fn entries_lines(items: Seq<EntryView>, t: Theme, e: bool, emoji: bool) -> Seq<(Option<Style>, Seq<char>)>
    decreases items.len(),
{
    if items.len() == 0 {
        Seq::empty()
    } else {
        entries_lines(items.drop_last(), t, e, emoji) + entry_lines(items.len(), items.last(), t, e, emoji)
    }
}

pub open spec fn example_lines(
    egs: Seq<(Seq<char>, Seq<char>)>,
    t: Theme,
    e: bool,
    emoji: bool,
) -> Seq<(Option<Style>, Seq<char>)>
    decreases egs.len(),
{
    if egs.len() == 0 {
        Seq::empty()
    } else {
        let (orig, trans) = egs.last();
        let lead = ". "@ + example_prefix(emoji) + "   "@ + orig;
        example_lines(egs.drop_last(), t, e, emoji) + seq![plain("  "@), styled(t.idx, decimal_of(egs.len()))] + if e {
            seq![plain(lead + "\n"@)]
        } else {
            seq![plain(lead + "  "@), styled(t.eg, trans), plain("\n"@)]
        }
    }
}

pub open spec fn body_part(r: RecordView, t: Theme, e: bool, emoji: bool) -> Seq<(Option<Style>, Seq<char>)> {
    if r.collins_items.len() > 0 {
        rule_part(t) + entries_lines(r.collins_items, t, e, emoji)
    } else if r.examples.len() > 0 {
        rule_part(t) + example_lines(r.examples, t, e, emoji)
    } else {
        Seq::empty()
    }
}

/// The layout of a record. English-only mode takes effect for English
/// queries only: it labels pronunciations US and EN, keeps the English
/// translations, shortens entry translations to their English part, and
/// leaves out the translations of examples.
pub open spec fn layout(r: RecordView, t: Theme, english_only: bool, emoji: bool) -> Seq<(Option<Style>, Seq<char>)> {
    let e = english_only && english_query(r.query);
    header_part(r, t, emoji) + pron_part(r, t, e) + translation_part(r, t, e) + rank_part(r, t) + body_part(r, t, e, emoji)
        + seq![plain("\n"@)]
}

fn push_seg(out: &mut Vec<Segment>, style: Option<Style>, text: String)
    ensures
        final(out).deep_view() == old(out).deep_view().push((style, text@)),
{
    let ghost before = out.deep_view();
    out.push(Segment { style, text });
    assert(out.deep_view() =~= before.push((style, text@)));
}

fn accent_style() -> (r: Style)
    ensures
        r == accent(),
{
    Style::new(Some(Color::Cyan), false, false, false, false)
}

fn push_pron_line(out: &mut Vec<Segment>, label: &str, p: &String, t: &Theme)
    ensures
        final(out).deep_view() == old(out).deep_view() + pron_line(label@, p@, *t),
{
    let ghost before = out.deep_view();
    push_seg(out, None, "  ".to_owned());
    push_seg(out, Some(accent_style()), label.to_owned());
    push_seg(out, None, " ".to_owned());
    push_seg(out, Some(t.pron), p.clone());
    push_seg(out, None, "\n".to_owned());
    assert(out.deep_view() =~= before + pron_line(label@, p@, *t));
}

fn push_text_lines(out: &mut Vec<Segment>, ts: &Vec<String>, s: Style)
    ensures
        final(out).deep_view() == old(out).deep_view() + text_lines(ts.deep_view(), s),
{
    let ghost before = out.deep_view();
    let mut i: usize = 0;
    while i < ts.len()
        invariant
            i <= ts.len(),
            out.deep_view() == before + text_lines(ts.deep_view().subrange(0, i as int), s),
        decreases ts.len() - i,
    {
        let ghost mid = out.deep_view();
        assert(ts.deep_view().subrange(0, i + 1).drop_last() =~= ts.deep_view().subrange(0, i as int));
        push_seg(out, None, "  ".to_owned());
        push_seg(out, Some(s), ts[i].clone());
        push_seg(out, None, "\n".to_owned());
        assert(out.deep_view() =~= mid + seq![plain("  "@), styled(s, ts.deep_view()[i as int]), plain("\n"@)]);
        i = i + 1;
    }
    assert(ts.deep_view().subrange(0, ts.len() as int) =~= ts.deep_view());
}

fn cutoff_text() -> (r: String)
    ensures
        r@ == cutoff(),
{
    proof { reveal_strlit("⸺"); }
    assert("⸺"@ =~= seq!['⸺']);
    let mut s = String::new();
    let mut i: usize = 0;
    assert(s@ =~= Seq::new(0, |k: int| '⸺'));
    while i < 40
        invariant
            i <= 40,
            "⸺"@ == seq!['⸺'],
            s@ == Seq::new(i as nat, |k: int| '⸺'),
        decreases 40 - i,
    {
        s = s.concat("⸺");
        assert(s@ =~= Seq::new((i + 1) as nat, |k: int| '⸺'));
        i = i + 1;
    }
    assert(s@ =~= cutoff());
    s
}

fn additional_of(a: &String) -> (r: String)
    ensures
        r@ == additional_text(a@),
{
    let n = a.as_str().unicode_len();
    if n > 0 && a.as_str().get_char(0) == '[' && a.as_str().get_char(n - 1) == ']' {
        a.clone()
    } else {
        "(".to_owned().concat(a.as_str()).concat(")")
    }
}

fn push_rule(out: &mut Vec<Segment>, t: &Theme)
    ensures
        final(out).deep_view() == old(out).deep_view() + rule_part(*t),
{
    let ghost before = out.deep_view();
    push_seg(out, None, "\n".to_owned());
    push_seg(out, None, "  ".to_owned());
    push_seg(out, Some(t.line), cutoff_text());
    push_seg(out, None, "\n".to_owned());
    assert(out.deep_view() =~= before + rule_part(*t));
}

fn push_entry_examples(out: &mut Vec<Segment>, egs: &Vec<(String, String)>, t: &Theme, e: bool, emoji: bool)
    ensures
        final(out).deep_view() == old(out).deep_view() + entry_example_lines(egs.deep_view(), *t, e, emoji),
{
    let ghost before = out.deep_view();
    let prefix = example_prefix_text(emoji);
    let mut i: usize = 0;
    while i < egs.len()
        invariant
            i <= egs.len(),
            prefix@ == example_prefix(emoji),
            out.deep_view() == before + entry_example_lines(egs.deep_view().subrange(0, i as int), *t, e, emoji),
        decreases egs.len() - i,
    {
        let ghost mid = out.deep_view();
        assert(egs.deep_view().subrange(0, i + 1).drop_last() =~= egs.deep_view().subrange(0, i as int));
        let lead = "    ".to_owned().concat(prefix).concat("   ").concat(egs[i].0.as_str());
        if e {
            push_seg(out, None, lead.concat("\n"));
        } else {
            push_seg(out, None, lead.concat("  "));
            push_seg(out, Some(t.eg), egs[i].1.clone());
            push_seg(out, None, "\n".to_owned());
        }
        assert(out.deep_view() =~= before + entry_example_lines(egs.deep_view().subrange(0, i + 1), *t, e, emoji));
        i = i + 1;
    }
    assert(egs.deep_view().subrange(0, egs.len() as int) =~= egs.deep_view());
}

fn push_entry(out: &mut Vec<Segment>, n: usize, item: &crate::model::CollinsDisplayItem, t: &Theme, e: bool, emoji: bool)
    ensures
        final(out).deep_view() == old(out).deep_view() + entry_lines(n as nat, item@, *t, e, emoji),
{
    let ghost before = out.deep_view();
    push_seg(out, None, "  ".to_owned());
    push_seg(out, Some(t.idx), usize_text(n));
    push_seg(out, None, ". ".to_owned());
    let ghost after_idx = out.deep_view();
    if let Some(a) = &item.additional {
        push_seg(out, Some(t.addi), additional_of(a));
        push_seg(out, None, " ".to_owned());
    }
    let ghost after_add = out.deep_view();
    if let Some(m) = &item.major_trans {
        let shown = if e { english_part_of(m) } else { m.clone() };
        push_seg(out, Some(t.collins_para), shown);
    }
    let ghost after_trans = out.deep_view();
    push_seg(out, None, "\n".to_owned());
    push_entry_examples(out, &item.examples, t, e, emoji);
    assert(out.deep_view() =~= before + entry_lines(n as nat, item@, *t, e, emoji));
}

fn push_example_lines(out: &mut Vec<Segment>, egs: &Vec<(String, String)>, t: &Theme, e: bool, emoji: bool)
    ensures
        final(out).deep_view() == old(out).deep_view() + example_lines(egs.deep_view(), *t, e, emoji),
{
    let ghost before = out.deep_view();
    let prefix = example_prefix_text(emoji);
    let mut i: usize = 0;
    while i < egs.len()
        invariant
            i <= egs.len(),
            prefix@ == example_prefix(emoji),
            out.deep_view() == before + example_lines(egs.deep_view().subrange(0, i as int), *t, e, emoji),
        decreases egs.len() - i,
    {
        assert(egs.deep_view().subrange(0, i + 1).drop_last() =~= egs.deep_view().subrange(0, i as int));
        push_seg(out, None, "  ".to_owned());
        push_seg(out, Some(t.idx), usize_text(i + 1));
        let lead = ". ".to_owned().concat(prefix).concat("   ").concat(egs[i].0.as_str());
        if e {
            push_seg(out, None, lead.concat("\n"));
        } else {
            push_seg(out, None, lead.concat("  "));
            push_seg(out, Some(t.eg), egs[i].1.clone());
            push_seg(out, None, "\n".to_owned());
        }
        assert(out.deep_view() =~= before + example_lines(egs.deep_view().subrange(0, i + 1), *t, e, emoji));
        i = i + 1;
    }
    assert(egs.deep_view().subrange(0, egs.len() as int) =~= egs.deep_view());
}

fn push_entries(out: &mut Vec<Segment>, items: &Vec<crate::model::CollinsDisplayItem>, t: &Theme, e: bool, emoji: bool)
    ensures
        final(out).deep_view() == old(out).deep_view() + entries_lines(items.deep_view(), *t, e, emoji),
{
    let ghost before = out.deep_view();
    let mut i: usize = 0;
    while i < items.len()
        invariant
            i <= items.len(),
            out.deep_view() == before + entries_lines(items.deep_view().subrange(0, i as int), *t, e, emoji),
        decreases items.len() - i,
    {
        assert(items.deep_view().subrange(0, i + 1).drop_last() =~= items.deep_view().subrange(0, i as int));
        push_entry(out, i + 1, &items[i], t, e, emoji);
        assert(out.deep_view() =~= before + entries_lines(items.deep_view().subrange(0, i + 1), *t, e, emoji));
        i = i + 1;
    }
    assert(items.deep_view().subrange(0, items.len() as int) =~= items.deep_view());
}

fn push_header(out: &mut Vec<Segment>, result: &QueryResult, t: &Theme, emoji: bool)
    ensures
        final(out).deep_view() == old(out).deep_view() + header_part(result@, *t, emoji),
{
    let ghost before = out.deep_view();
    push_seg(out, Some(t.title), result.query.clone());
    push_seg(out, None, " ".to_owned());
    push_seg(out, Some(accent_style()), source_indicator_text(result.source, emoji).to_owned());
    push_seg(out, None, "\n".to_owned());
    assert(out.deep_view() =~= before + header_part(result@, *t, emoji));
}

fn push_prons(out: &mut Vec<Segment>, result: &QueryResult, t: &Theme, e: bool)
    ensures
        final(out).deep_view() == old(out).deep_view() + pron_part(result@, *t, e),
{
    let ghost before = out.deep_view();
    if let Some(p) = &result.pronunciation_us {
        push_pron_line(out, if e { "US" } else { "美" }, p, t);
    }
    let ghost mid = out.deep_view();
    if let Some(p) = &result.pronunciation_uk {
        push_pron_line(out, if e { "EN" } else { "英" }, p, t);
    }
    let ghost mid2 = out.deep_view();
    if result.pronunciation_us.is_none() && result.pronunciation_uk.is_none() {
        if let Some(p) = &result.pronunciation {
            push_seg(out, None, "  ".to_owned());
            push_seg(out, Some(t.pron), p.clone());
            push_seg(out, None, "\n".to_owned());
        }
    }
    assert(out.deep_view() =~= before + pron_part(result@, *t, e));
}

fn push_translations(out: &mut Vec<Segment>, result: &QueryResult, t: &Theme, e: bool)
    ensures
        final(out).deep_view() == old(out).deep_view() + translation_part(result@, *t, e),
{
    let ghost before = out.deep_view();
    if result.translations.len() > 0 {
        let shown = if e {
            filter_english_translations(&result.translations)
        } else {
            crate::model::copy_texts(&result.translations)
        };
        if shown.len() > 0 {
            push_seg(out, None, "\n".to_owned());
            push_text_lines(out, &shown, t.para);
        }
    }
    assert(out.deep_view() =~= before + translation_part(result@, *t, e));
}

fn push_rank(out: &mut Vec<Segment>, result: &QueryResult, t: &Theme)
    ensures
        final(out).deep_view() == old(out).deep_view() + rank_part(result@, *t),
{
    let ghost before = out.deep_view();
    if let Some(k) = &result.collins_rank {
        push_seg(out, None, "  ".to_owned());
        push_seg(out, Some(t.rank), k.clone());
        push_seg(out, None, "\n".to_owned());
    }
    assert(out.deep_view() =~= before + rank_part(result@, *t));
}

fn push_body(out: &mut Vec<Segment>, result: &QueryResult, t: &Theme, e: bool, emoji: bool)
    ensures
        final(out).deep_view() == old(out).deep_view() + body_part(result@, *t, e, emoji),
{
    let ghost before = out.deep_view();
    if result.collins_items.len() > 0 {
        push_rule(out, t);
        push_entries(out, &result.collins_items, t, e, emoji);
    } else if result.examples.len() > 0 {
        push_rule(out, t);
        push_example_lines(out, &result.examples, t, e, emoji);
    }
    assert(out.deep_view() =~= before + body_part(result@, *t, e, emoji));
}

/// Lays out a record for the terminal.
pub fn format_result(result: &QueryResult, theme: &Theme, english_only: bool, enable_emoji: bool) -> (r: Vec<Segment>)
    ensures
        r.deep_view() == layout(result@, *theme, english_only, enable_emoji),
{
    let e = english_only && is_english_query(result.query.as_str());
    let mut out: Vec<Segment> = Vec::new();
    let ghost r = result@;
    let ghost s0 = out.deep_view();
    push_header(&mut out, result, theme, enable_emoji);
    push_prons(&mut out, result, theme, e);
    push_translations(&mut out, result, theme, e);
    push_rank(&mut out, result, theme);
    push_body(&mut out, result, theme, e, enable_emoji);
    push_seg(&mut out, None, "\n".to_owned());
    assert(s0 =~= Seq::<(Option<Style>, Seq<char>)>::empty());
    assert(out.deep_view() =~= layout(r, *theme, english_only, enable_emoji));
    out
}

/// The terminal sequence that clears the screen and moves the cursor to the
/// top left corner.
pub fn clear_screen_sequence() -> (r: &'static str)
    ensures
        r@ == "\x1B[2J\x1B[1;1H"@,
{
    "\x1B[2J\x1B[1;1H"
}

} // verus!
