use kd::legacy::{convert_legacy, CollinsData, CollinsItem, LegacyResult};
use kd::model::QuerySource;

fn s(x: &str) -> String {
    x.to_string()
}

fn legacy_with_pron(pron: Vec<(String, String)>) -> LegacyResult {
    LegacyResult {
        keyword: Some(s("hello")),
        pronounce: Some(pron),
        paraphrase: Some(vec![s("int. 喂")]),
        examples: None,
        collins: None,
    }
}

#[test]
fn pronunciation_label_conventions_convert_alike() {
    let primary = convert_legacy(legacy_with_pron(vec![(s("美"), s("həˈloʊ")), (s("英"), s("həˈləʊ"))]));
    let alternate = convert_legacy(legacy_with_pron(vec![(s("us"), s("həˈloʊ")), (s("uk"), s("həˈləʊ"))]));
    for r in [&primary, &alternate] {
        assert_eq!(r.pronunciation_us.as_deref(), Some("həˈloʊ"));
        assert_eq!(r.pronunciation_uk.as_deref(), Some("həˈləʊ"));
        assert_eq!(r.pronunciation.as_deref(), Some("həˈloʊ"));
    }
    assert_eq!(format!("{:?}", primary), format!("{:?}", alternate));
}

#[test]
fn primary_label_wins_and_uk_seeds_missing_pronunciation() {
    let r = convert_legacy(legacy_with_pron(vec![(s("us"), s("alt")), (s("美"), s("main"))]));
    assert_eq!(r.pronunciation_us.as_deref(), Some("main"));
    let r = convert_legacy(legacy_with_pron(vec![(s("uk"), s("brit"))]));
    assert_eq!(r.pronunciation_us, None);
    assert_eq!(r.pronunciation_uk.as_deref(), Some("brit"));
    assert_eq!(r.pronunciation.as_deref(), Some("brit"));
}

#[test]
fn missing_keyword_becomes_unknown() {
    let r = convert_legacy(LegacyResult { keyword: None, pronounce: None, paraphrase: None, examples: None, collins: None });
    assert_eq!(r.query, "unknown");
    assert!(r.found);
    assert_eq!(r.source, QuerySource::OfflineDb);
    assert!(r.translations.is_empty());
    assert!(r.examples.is_empty());
    assert_eq!(r.cached_at, None);
}

#[test]
fn examples_are_flattened_and_short_pairs_dropped() {
    let r = convert_legacy(LegacyResult {
        keyword: Some(s("run")),
        pronounce: None,
        paraphrase: Some(vec![s("v. 跑"), s("n. 跑步")]),
        examples: Some(vec![
            (s("a"), vec![vec![s("I run."), s("我跑。")], vec![s("lonely")]]),
            (s("b"), vec![vec![s("Run!"), s("跑！"), s("extra")]]),
        ]),
        collins: None,
    });
    assert_eq!(r.translations, vec![s("v. 跑"), s("n. 跑步")]);
    assert_eq!(r.examples, vec![(s("I run."), s("我跑。")), (s("Run!"), s("跑！"))]);
}

#[test]
fn empty_dictionary_entries_are_dropped() {
    let r = convert_legacy(LegacyResult {
        keyword: Some(s("go")),
        pronounce: None,
        paraphrase: None,
        examples: None,
        collins: Some(CollinsData {
            items: Some(vec![
                CollinsItem { additional: Some(s("[V]")), major_trans: None, examples: Some(vec![vec![s("x")]]) },
                CollinsItem { additional: None, major_trans: Some(s("to move 走")), examples: None },
                CollinsItem { additional: None, major_trans: None, examples: Some(vec![vec![s("Go."), s("走。")]]) },
            ]),
            star: Some(5),
            rank: Some(s("CET4")),
            additional_pattern: None,
        }),
    });
    assert_eq!(r.collins_rank.as_deref(), Some("CET4"));
    assert_eq!(r.collins_items.len(), 2);
    assert_eq!(r.collins_items[0].major_trans.as_deref(), Some("to move 走"));
    assert_eq!(r.collins_items[1].examples, vec![(s("Go."), s("走。"))]);
}

#[test]
fn labels_of_neither_convention_do_not_matter() {
    let primary = convert_legacy(legacy_with_pron(vec![(s("日"), s("x")), (s("英"), s("b")), (s("美"), s("a"))]));
    let alternate = convert_legacy(legacy_with_pron(vec![(s("日"), s("x")), (s("uk"), s("b")), (s("us"), s("a"))]));
    assert_eq!(primary.pronunciation_us.as_deref(), Some("a"));
    assert_eq!(primary.pronunciation_uk.as_deref(), Some("b"));
    assert_eq!(format!("{:?}", primary), format!("{:?}", alternate));
}

#[test]
fn duplicate_keys_are_not_well_formed() {
    assert!(legacy_with_pron(vec![(s("美"), s("a")), (s("英"), s("b"))]).is_well_formed());
    assert!(!legacy_with_pron(vec![(s("美"), s("a")), (s("美"), s("b"))]).is_well_formed());
    let examples = LegacyResult {
        keyword: None,
        pronounce: None,
        paraphrase: None,
        examples: Some(vec![(s("a"), Vec::new()), (s("b"), Vec::new()), (s("a"), Vec::new())]),
        collins: None,
    };
    assert!(!examples.is_well_formed());
}

#[test]
fn example_categories_must_be_in_ascending_order() {
    let with = |cats: Vec<&str>| LegacyResult {
        keyword: None,
        pronounce: None,
        paraphrase: None,
        examples: Some(cats.into_iter().map(|c| (s(c), Vec::new())).collect()),
        collins: None,
    };
    assert!(with(vec!["a", "ab", "b", "例"]).is_well_formed());
    assert!(!with(vec!["b", "a"]).is_well_formed());
    assert!(!with(vec!["ab", "a"]).is_well_formed());
}
