use kd::config::YoudaoConfig;
use kd::model::{OnlineSource, QuerySource};
use kd::provider::{
    credentials, error_message, interpret_response, join, sign, sign_input, BasicInfo, ProviderError, WebTranslation,
    YoudaoResponse,
};

fn s(x: &str) -> String {
    x.to_string()
}

#[test]
fn missing_credentials_are_named() {
    let none = YoudaoConfig { api_id: None, api_key: Some(s("k")) };
    assert!(matches!(credentials(&none), Err(ProviderError::NotConfigured(m)) if m == "Youdao API ID not configured"));
    let empty_key = YoudaoConfig { api_id: Some(s("id")), api_key: Some(String::new()) };
    assert!(matches!(credentials(&empty_key), Err(ProviderError::NotConfigured(m)) if m == "Youdao API Key not configured"));
    let ok = YoudaoConfig { api_id: Some(s("id")), api_key: Some(s("key")) };
    assert!(matches!(credentials(&ok), Ok((a, b)) if a == "id" && b == "key"));
}

#[test]
fn long_queries_are_shortened_for_the_signature() {
    assert_eq!(sign_input("hello"), "hello");
    assert_eq!(sign_input("abcdefghijklmnopqrst"), "abcdefghijklmnopqrst");
    assert_eq!(sign_input("abcdefghijklmnopqrstuvwxyz"), "abcdefghij26qrstuvwxyz");
    assert_eq!(sign_input("一二三四五六七八九十甲乙丙丁戊己庚辛壬癸子"), "一二三四五六七八九十21乙丙丁戊己庚辛壬癸子");
}

#[test]
fn signature_is_hex_sha256() {
    assert_eq!(sign("a", "b", "c", "", ""), "ba7816bf8f01cfea414140de5dae2223b00361a396177a9cb410ff61f20015ad");
    assert_eq!(sign("id", "q", "salt", "1", "key").len(), 64);
}

#[test]
fn error_codes_have_messages() {
    assert_eq!(error_message("108"), "Invalid appKey or signature error (check api_key)");
    assert_eq!(error_message("411"), "Access frequency limited");
    assert_eq!(error_message("999"), "Unknown error");
    let resp = YoudaoResponse { translations: None, basic: None, web_translations: None, error_code: s("202") };
    assert!(matches!(interpret_response("cat", resp), Err(ProviderError::Api(m)) if m == "Youdao API Error 202: Missing signature"));
}

#[test]
fn response_becomes_a_record() {
    let resp = YoudaoResponse {
        translations: Some(vec![s("猫")]),
        basic: Some(BasicInfo { pronunciation: Some(s("kæt")), explains: Some(vec![s("n. 猫"), s("n. 猫科动物")]) }),
        web_translations: Some(vec![WebTranslation { key: s("cat"), value: vec![s("猫"), s("猫科")] }]),
        error_code: s("0"),
    };
    let r = interpret_response("cat", resp).unwrap();
    assert!(r.found);
    assert_eq!(r.query, "cat");
    assert_eq!(r.source, QuerySource::Online(OnlineSource::Youdao));
    assert_eq!(r.pronunciation.as_deref(), Some("kæt"));
    assert_eq!(r.translations, vec![s("猫"), s("n. 猫"), s("n. 猫科动物")]);
    assert_eq!(r.examples, vec![(s("cat"), s("猫; 猫科"))]);
}

#[test]
fn empty_response_is_not_found() {
    let resp = YoudaoResponse { translations: None, basic: None, web_translations: Some(Vec::new()), error_code: s("0") };
    let r = interpret_response("xyz", resp).unwrap();
    assert!(!r.found);
}

#[test]
fn join_puts_separator_between_parts() {
    assert_eq!(join(&vec![s("a"), s("b"), s("c")], ", "), "a, b, c");
    assert_eq!(join(&vec![s("a")], ", "), "a");
    assert_eq!(join(&Vec::new(), ", "), "");
}
