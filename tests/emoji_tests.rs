use kd::model::{OnlineSource, QuerySource};
use kd::render::{example_prefix_text, source_indicator_text};

#[test]
fn test_emoji_detection() {
    let emoji_text = source_indicator_text(QuerySource::OfflineDb, true);
    let plain_text = source_indicator_text(QuerySource::OfflineDb, false);
    assert_eq!(emoji_text, "📚 [离线]");
    assert_eq!(plain_text, "[离线]");
    assert!(emoji_text.contains('📚'));
    assert!(!plain_text.contains('📚'));
}

#[test]
fn test_emoji_replacement() {
    let with_emoji = "≫";
    let without_emoji = ">";
    assert_eq!(example_prefix_text(true), with_emoji);
    assert_eq!(example_prefix_text(false), without_emoji);
}

#[test]
fn test_source_indicator_emoji() {
    let offline = source_indicator_text(QuerySource::OfflineDb, true);
    let cache = source_indicator_text(QuerySource::LocalCache, true);
    let online = source_indicator_text(QuerySource::Online(OnlineSource::Youdao), true);
    assert_eq!(offline, "📚 [离线]");
    assert_eq!(cache, "💾 [缓存]");
    assert_eq!(online, "🌐 [在线]");
    assert!(offline.contains("📚"));
    assert!(cache.contains("💾"));
    assert!(online.contains("🌐"));

    let offline = source_indicator_text(QuerySource::OfflineDb, false);
    let cache = source_indicator_text(QuerySource::LocalCache, false);
    let online = source_indicator_text(QuerySource::Online(OnlineSource::Bing), false);
    assert_eq!(offline, "[离线]");
    assert_eq!(cache, "[缓存]");
    assert_eq!(online, "[在线]");
    assert!(!offline.contains("📚"));
    assert!(!cache.contains("💾"));
    assert!(!online.contains("🌐"));
}
