use kd::update::{download_url, is_legacy_db_name, IPInfo, DATA_ZIP_URL_CN, DATA_ZIP_URL_GLOBAL};

#[test]
fn mirror_follows_the_location() {
    assert_eq!(download_url(&None), DATA_ZIP_URL_CN);
    assert_eq!(download_url(&Some(IPInfo { country: "cn".to_string() })), DATA_ZIP_URL_CN);
    assert_eq!(download_url(&Some(IPInfo { country: "US".to_string() })), DATA_ZIP_URL_GLOBAL);
    assert!(IPInfo { country: "Cn".to_string() }.is_cn());
}

#[test]
fn legacy_database_file_names() {
    assert!(is_legacy_db_name("kd_data.db"));
    assert!(!is_legacy_db_name("kd.db"));
    assert!(!is_legacy_db_name(".db"));
    assert!(!is_legacy_db_name("kd_data.zip"));
    assert!(!is_legacy_db_name("db"));
}
