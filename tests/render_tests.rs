use kd::cli::Cli;
use kd::model::{CollinsDisplayItem, QueryResult, QuerySource};
use kd::render::{english_part_of, filter_english_translations, format_result, is_english_query, Segment};
use kd::theme::{Color, Theme};

fn s(x: &str) -> String {
    x.to_string()
}

fn text(segments: &[Segment]) -> String {
    segments.iter().map(|seg| seg.text.as_str()).collect()
}

#[test]
fn english_queries() {
    assert!(is_english_query("hello world"));
    assert!(is_english_query("e.g. what?"));
    assert!(is_english_query("x-ray 2"));
    assert!(!is_english_query(""));
    assert!(!is_english_query("你好"));
    assert!(!is_english_query("hello!"));
}

#[test]
fn english_translations_are_kept_in_order() {
    let ts = vec![s("n. word"), s("  v. to do"), s("单词"), s("   "), s("1. one")];
    assert_eq!(filter_english_translations(&ts), vec![s("n. word"), s("  v. to do")]);
}

#[test]
fn english_part_stops_before_chinese() {
    assert_eq!(english_part_of(&s("a small animal  小动物")), "a small animal");
    assert_eq!(english_part_of(&s("小动物")), "小动物");
    assert_eq!(english_part_of(&s("only english")), "only english");
}

#[test]
fn layout_of_a_cached_record() {
    let mut r = QueryResult::new(s("cat"), false);
    r.found = true;
    r.source = QuerySource::LocalCache;
    r.pronunciation_us = Some(s("kæt"));
    r.translations = vec![s("n. 猫")];
    r.examples = vec![(s("a cat"), s("一只猫"))];
    let out = format_result(&r, &Theme::temp(), false, true);
    assert_eq!(
        text(&out),
        format!("cat 💾 [缓存]\n  美 kæt\n\n  n. 猫\n\n  {}\n  1. ≫   a cat  一只猫\n\n", "⸺".repeat(40))
    );
    assert_eq!(out[0].style, Some(Theme::temp().title));
    assert_eq!(out[2].style.and_then(|st| st.color), Some(Color::Cyan));
}

#[test]
fn english_only_layout_of_entries() {
    let mut r = QueryResult::new(s("run"), false);
    r.source = QuerySource::OfflineDb;
    r.pronunciation_uk = Some(s("rʌn"));
    r.translations = vec![s("v. 跑"), s("to move fast")];
    r.collins_rank = Some(s("CET4"));
    r.collins_items = vec![CollinsDisplayItem {
        additional: Some(s("VERB")),
        major_trans: Some(s("to move quickly 快跑")),
        examples: vec![(s("He ran."), s("他跑了。"))],
    }];
    let out = format_result(&r, &Theme::wudao(), true, false);
    assert_eq!(
        text(&out),
        format!(
            "run [离线]\n  EN rʌn\n\n  v. 跑\n  to move fast\n  CET4\n\n  {}\n  1. (VERB) to move quickly\n    >   He ran.\n\n",
            "⸺".repeat(40)
        )
    );
}

#[test]
fn themes_by_name() {
    assert_eq!(Theme::from_name("wudao"), Theme::wudao());
    assert_eq!(Theme::from_name("canvas"), Theme::canvas());
    assert_eq!(Theme::from_name(""), Theme::temp());
    assert_eq!(Theme::from_name("neon"), Theme::temp());
    assert!(Theme::is_known("temp"));
    assert!(!Theme::is_known("neon"));
    assert_eq!(Color::BrightMagenta.name(), "bright magenta");
}

#[test]
fn query_words_are_joined() {
    let cli = Cli {
        text: false,
        nocache: false,
        json: false,
        theme: None,
        update_dict: false,
        generate_config: false,
        edit_config: false,
        status: false,
        query: vec![s("give"), s("up")],
    };
    assert_eq!(cli.query_text(), "give up");
}
