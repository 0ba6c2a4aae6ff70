use bookbase::d1::{
    d1_api_error_message, d1_count_of, d1_database_url, d1_envelope_outcome, d1_query_url,
    d1_version_of, marker_update_sql_inline, D1Error, D1Response, D1Result,
};
use bookbase::errors::MigrateError;
use bookbase::local::{
    get_app_cache_dir, get_app_data_dir, get_default_sqlite_path, init_app_cache_dir,
    init_app_data_dir, init_flag_path, join_under, safe_key, AppDirs,
};
use bookbase::sqlite::{
    connect_error_message, marker_read_sql, marker_table_probe_sql, marker_text_of_row,
    marker_update_sql, sqlite_uri, SqliteAffinity,
};
use bookbase::status::{
    connection_test_outcome, monitor_wait_secs, run_check_outcome, wants_periodic_check,
    ConnectionStatus, ServiceStatus,
};
use bookbase::config::{AppConfig, BookSource, DatabaseConnection};
use bookbase::store::{Row, Scalar};
use bookbase::text::{i64_to_string, parse_u64, str_eq, u64_to_string};

#[test]
fn affinity_follows_declared_type_fragments() {
    assert_eq!(SqliteAffinity::from_type_name("INTEGER"), SqliteAffinity::Integer);
    assert_eq!(SqliteAffinity::from_type_name("bigint"), SqliteAffinity::Integer);
    assert_eq!(SqliteAffinity::from_type_name("VARCHAR(20)"), SqliteAffinity::Text);
    assert_eq!(SqliteAffinity::from_type_name("text"), SqliteAffinity::Text);
    assert_eq!(SqliteAffinity::from_type_name("clob"), SqliteAffinity::Text);
    assert_eq!(SqliteAffinity::from_type_name("REAL"), SqliteAffinity::Real);
    assert_eq!(SqliteAffinity::from_type_name("float"), SqliteAffinity::Real);
    assert_eq!(SqliteAffinity::from_type_name("DOUBLE PRECISION"), SqliteAffinity::Real);
    assert_eq!(SqliteAffinity::from_type_name("boolean"), SqliteAffinity::Boolean);
    assert_eq!(SqliteAffinity::from_type_name("BLOB"), SqliteAffinity::Blob);
    assert_eq!(SqliteAffinity::from_type_name(""), SqliteAffinity::Blob);
    // INT wins over BOOL inside one name, as the declared precedence says.
    assert_eq!(SqliteAffinity::from_type_name("bool_int"), SqliteAffinity::Integer);
}

#[test]
fn sqlite_marker_plumbing_is_fixed() {
    assert_eq!(sqlite_uri("/tmp/a.db"), "sqlite:/tmp/a.db?mode=rwc");
    assert_eq!(
        marker_table_probe_sql(),
        "SELECT count(*) FROM sqlite_master WHERE type='table' AND name='_app_meta'"
    );
    assert_eq!(marker_read_sql(), "SELECT version FROM _app_meta LIMIT 1");
    assert_eq!(marker_update_sql(), "UPDATE _app_meta SET version = ?");
    assert_eq!(connect_error_message("boom"), "SQLite connection failed: boom");
}

#[test]
fn sqlite_marker_row_reads_text_int_or_default() {
    let row = Row { columns: vec![("version".to_string(), Scalar::Text("0.2.0".to_string()))] };
    assert_eq!(marker_text_of_row(&row), "0.2.0");
    let row = Row { columns: vec![("version".to_string(), Scalar::Int(3))] };
    assert_eq!(marker_text_of_row(&row), "3");
    let row = Row { columns: vec![("version".to_string(), Scalar::Null)] };
    assert_eq!(marker_text_of_row(&row), "0.0.0");
    let row = Row { columns: vec![] };
    assert_eq!(marker_text_of_row(&row), "0.0.0");
    // The local engine never reads a real-typed marker.
    let row = Row { columns: vec![("version".to_string(), Scalar::Real("1.5".to_string()))] };
    assert_eq!(marker_text_of_row(&row), "0.0.0");
}

fn envelope(success: bool, rows: Vec<Row>, errors: Option<Vec<D1Error>>) -> D1Response {
    D1Response { result: Some(vec![D1Result { results: rows }]), success, errors }
}

#[test]
fn d1_urls_are_fixed() {
    assert_eq!(
        d1_query_url("acc", "db"),
        "https://api.cloudflare.com/client/v4/accounts/acc/d1/database/db/query"
    );
    assert_eq!(
        d1_database_url("acc", "db"),
        "https://api.cloudflare.com/client/v4/accounts/acc/d1/database/db"
    );
    assert_eq!(marker_update_sql_inline("0.1.0"), "UPDATE _app_meta SET version = '0.1.0'");
    assert_eq!(d1_api_error_message("500", "oops"), "D1 API Error (500): oops");
}

#[test]
fn d1_envelope_failures_carry_the_first_error() {
    let ok = envelope(true, vec![], None);
    assert!(d1_envelope_outcome(ok).is_ok());

    let failed = envelope(
        false,
        vec![],
        Some(vec![D1Error { message: "table missing".to_string() }]),
    );
    assert_eq!(d1_envelope_outcome(failed).unwrap_err(), "D1 Query Failed: table missing");

    let silent = envelope(false, vec![], None);
    assert_eq!(d1_envelope_outcome(silent).unwrap_err(), "D1 Query Failed: Unknown D1 error");
    let empty = envelope(false, vec![], Some(vec![]));
    assert_eq!(d1_envelope_outcome(empty).unwrap_err(), "D1 Query Failed: Unknown D1 error");
}

#[test]
fn d1_marker_reads_mirror_the_local_engine() {
    let probe = envelope(
        true,
        vec![Row { columns: vec![("count".to_string(), Scalar::Int(1))] }],
        None,
    );
    assert_eq!(d1_count_of(&probe), 1);
    let negative = envelope(
        true,
        vec![Row { columns: vec![("count".to_string(), Scalar::Int(-4))] }],
        None,
    );
    assert_eq!(d1_count_of(&negative), 0);
    let missing = D1Response { result: None, success: true, errors: None };
    assert_eq!(d1_count_of(&missing), 0);

    let text_row = envelope(
        true,
        vec![Row { columns: vec![("version".to_string(), Scalar::Text("0.1.0".to_string()))] }],
        None,
    );
    assert_eq!(d1_version_of(&text_row), "0.1.0");
    let int_row = envelope(
        true,
        vec![Row { columns: vec![("version".to_string(), Scalar::Int(2))] }],
        None,
    );
    assert_eq!(d1_version_of(&int_row), "2");
    // The remote envelope passes any numeric marker on as text.
    let real_row = envelope(
        true,
        vec![Row { columns: vec![("version".to_string(), Scalar::Real("1.5".to_string()))] }],
        None,
    );
    assert_eq!(d1_version_of(&real_row), "1.5");
    let empty = envelope(true, vec![], None);
    assert_eq!(d1_version_of(&empty), "0.0.0");
}

#[test]
fn app_dirs_set_once_and_answer_paths() {
    let mut dirs = AppDirs::new();
    assert!(get_app_data_dir(&dirs).is_err());
    assert!(get_app_cache_dir(&dirs).is_err());
    assert!(get_default_sqlite_path(&dirs).is_err());

    init_app_data_dir(&mut dirs, "/data".to_string());
    init_app_cache_dir(&mut dirs, "/cache".to_string());
    // A second initialization changes nothing.
    init_app_data_dir(&mut dirs, "/other".to_string());
    assert_eq!(get_app_data_dir(&dirs).unwrap(), "/data");
    assert_eq!(get_app_cache_dir(&dirs).unwrap(), "/cache");
    assert_eq!(get_default_sqlite_path(&dirs).unwrap(), "/data/english-in-use.db");
    assert_eq!(init_flag_path("/data"), "/data/.db_initialized");
}

#[test]
fn keys_are_made_safe_before_joining() {
    assert_eq!(safe_key("///a/b.txt"), "a/b.txt");
    assert_eq!(safe_key("a/b.txt"), "a/b.txt");
    assert_eq!(join_under("/base", "/sub/f.txt"), "/base/sub/f.txt");
}

#[test]
fn status_report_marks_unconfigured_services() {
    let r = run_check_outcome(None, None);
    assert_eq!(r.r2, ServiceStatus::NotConfigured);
    assert_eq!(r.d1, ServiceStatus::NotConfigured);

    let r = run_check_outcome(
        Some(ServiceStatus::Connected),
        Some(ServiceStatus::Disconnected("Error".to_string())),
    );
    assert_eq!(r.r2, ServiceStatus::Connected);
    assert_eq!(r.d1, ServiceStatus::Disconnected("Error".to_string()));
    let _ = ConnectionStatus { r2: r.r2.clone(), d1: r.d1.clone() };
}

#[test]
fn poller_decisions_follow_the_config() {
    let mut config = AppConfig::new();
    assert!(!wants_periodic_check(&config));
    assert_eq!(monitor_wait_secs(&config), 60);

    config.database = Some(DatabaseConnection::CloudflareD1 {
        account_id: "a".to_string(),
        database_id: "d".to_string(),
        api_token: "t".to_string(),
    });
    assert!(wants_periodic_check(&config));
    assert_eq!(monitor_wait_secs(&config), 300);

    config.system.enable_auto_check = false;
    assert!(!wants_periodic_check(&config));
    assert_eq!(monitor_wait_secs(&config), 60);

    config.system.enable_auto_check = true;
    config.database = None;
    config.book_source = Some(BookSource::Local { path: "/tmp".to_string() });
    assert!(!wants_periodic_check(&config));
}

#[test]
fn connection_test_reports_like_the_shell_expects() {
    assert_eq!(
        connection_test_outcome(ServiceStatus::Connected).unwrap(),
        "Connection successful"
    );
    assert_eq!(
        connection_test_outcome(ServiceStatus::Disconnected("boom".to_string())).unwrap_err(),
        "boom"
    );
    assert_eq!(
        connection_test_outcome(ServiceStatus::NotConfigured).unwrap_err(),
        "Database not configured"
    );
    assert!(connection_test_outcome(ServiceStatus::Testing).is_ok());
}

#[test]
fn error_messages_are_exact() {
    assert_eq!(
        MigrateError::Parse("x.y".to_string()).message(),
        "malformed version string: x.y"
    );
    assert_eq!(MigrateError::Backend("down".to_string()).message(), "backend error: down");
    assert_eq!(
        MigrateError::Catalog("unsorted".to_string()).message(),
        "invalid migration catalog: unsorted"
    );
    assert_eq!(MigrateError::NotInitialized.message(), "database not initialized");
    assert_eq!(MigrateError::NotConfigured.message(), "database not configured");
}

#[test]
fn decimal_rendering_and_reading() {
    assert_eq!(u64_to_string(0), "0");
    assert_eq!(u64_to_string(42), "42");
    assert_eq!(u64_to_string(u64::MAX), "18446744073709551615");
    assert_eq!(i64_to_string(-7), "-7");
    assert_eq!(i64_to_string(i64::MIN), "-9223372036854775808");
    assert_eq!(parse_u64("42"), Some(42));
    assert_eq!(parse_u64(""), None);
    assert_eq!(parse_u64("4x2"), None);
    assert!(str_eq("abc", "abc"));
    assert!(!str_eq("abc", "abd"));
}
