use bookbase::config::{
    default_check_interval, default_enable_auto_check, default_language, default_log_level,
    default_theme, AppConfig, BookSource, ConfigState, DatabaseConnection,
};

#[test]
fn test_default_config() {
    let config = AppConfig::new();
    assert_eq!(config.book_source, None);
    assert_eq!(config.database, None);
    assert_eq!(config.system.language, "en");
    assert_eq!(config.system.theme, "system");
}

#[test]
fn config_test_default_config() {
    let config = AppConfig::new();
    assert_eq!(config.book_source, None);
    assert_eq!(config.database, None);
    assert_eq!(config.system.language, "en");
    assert_eq!(config.system.theme, "system");
    assert_eq!(config.system.log_level, "info");
}

#[test]
fn default_field_values() {
    assert_eq!(default_language(), "en");
    assert_eq!(default_theme(), "system");
    assert_eq!(default_log_level(), "info");
    assert!(default_enable_auto_check());
    assert_eq!(default_check_interval(), 5);
    let d = AppConfig::default();
    assert!(d.system.enable_auto_check);
    assert_eq!(d.system.check_interval_mins, 5);
}

#[test]
fn config_state_holds_and_swaps() {
    let mut state = ConfigState::new(AppConfig::new());
    assert_eq!(state.snapshot(), AppConfig::new());

    let mut updated = AppConfig::new();
    updated.book_source = Some(BookSource::Local { path: "/tmp/books".to_string() });
    updated.database = Some(DatabaseConnection::SQLite { path: "/tmp/test.db".to_string() });
    state.set(updated.clone());
    assert_eq!(state.snapshot(), updated);
}

#[test]
fn descriptors_clone_faithfully() {
    let r2 = BookSource::CloudflareR2 {
        account_id: "acc_id".to_string(),
        bucket_name: "my-bucket".to_string(),
        access_key_id: "key".to_string(),
        secret_access_key: "secret".to_string(),
        public_url: Some("https://pub.url".to_string()),
    };
    assert_eq!(r2.clone(), r2);
    let d1 = DatabaseConnection::CloudflareD1 {
        account_id: "acc_id".to_string(),
        database_id: "db_id".to_string(),
        api_token: "token".to_string(),
    };
    assert_eq!(d1.clone(), d1);
}
