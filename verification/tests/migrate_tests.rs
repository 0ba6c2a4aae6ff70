use bookbase::catalog::{check_catalog, known_versions, migration_catalog, Migration};
use bookbase::store::Backend;
use bookbase::errors::MigrateError;
use bookbase::memory::MemoryBackend;
use bookbase::runner::{initialize, migrate_down, migrate_up};
use bookbase::state::{DbState, Direction};

fn two_step_catalog() -> Vec<Migration> {
    vec![
        Migration { version: "0.1.0", up: "CREATE TABLE t1 (id INTEGER);", down: "DROP TABLE t1;" },
        Migration { version: "0.2.0", up: "CREATE TABLE t2 (id INTEGER);", down: "DROP TABLE t2;" },
    ]
}

fn three_step_catalog() -> Vec<Migration> {
    vec![
        Migration { version: "0.1.0", up: "CREATE TABLE t1 (id INTEGER);", down: "DROP TABLE t1;" },
        Migration { version: "0.2.0", up: "CREATE TABLE t2 (id INTEGER);", down: "DROP TABLE t2;" },
        Migration { version: "0.3.0", up: "CREATE TABLE t3 (id INTEGER);", down: "DROP TABLE t3;" },
    ]
}

#[test]
fn up_then_down_scenario() {
    let cat = two_step_catalog();
    let mut db = MemoryBackend::new();
    assert_eq!(db.version_text(), "0.0.0");

    // Up with no target applies both records in ascending order.
    migrate_up(&mut db, None, &cat).unwrap();
    assert_eq!(db.version_text(), "0.2.0");
    assert_eq!(
        db.statements().as_slice(),
        &["CREATE TABLE t1 (id INTEGER);".to_string(), "CREATE TABLE t2 (id INTEGER);".to_string()]
    );

    // Down to 0.1.0 unwinds only the top record.
    migrate_down(&mut db, Some("0.1.0"), &cat).unwrap();
    assert_eq!(db.version_text(), "0.1.0");
    assert_eq!(db.statements().last().unwrap(), "DROP TABLE t2;");

    // Down to the base target unwinds the rest.
    migrate_down(&mut db, Some("0.0.0"), &cat).unwrap();
    assert_eq!(db.version_text(), "0.0.0");
    assert_eq!(db.statements().last().unwrap(), "DROP TABLE t1;");
    assert_eq!(db.statements().len(), 4);
}

#[test]
fn up_to_explicit_target_stops_there() {
    let cat = two_step_catalog();
    let mut db = MemoryBackend::new();
    migrate_up(&mut db, Some("0.1.0"), &cat).unwrap();
    assert_eq!(db.version_text(), "0.1.0");
    assert_eq!(db.statements().len(), 1);
    // A target above every record applies everything, like no target.
    migrate_up(&mut db, Some("9.9.9"), &cat).unwrap();
    assert_eq!(db.version_text(), "0.2.0");
    assert_eq!(db.statements().len(), 2);
}

#[test]
fn up_to_current_version_applies_nothing() {
    let cat = two_step_catalog();
    let mut db = MemoryBackend::new();
    migrate_up(&mut db, None, &cat).unwrap();
    let executed = db.statements().len();
    // Target equal to the current version: a no-op that succeeds.
    migrate_up(&mut db, Some("0.2.0"), &cat).unwrap();
    assert_eq!(db.version_text(), "0.2.0");
    assert_eq!(db.statements().len(), executed);
}

#[test]
fn up_twice_applies_nothing_new() {
    let cat = two_step_catalog();
    let mut db = MemoryBackend::new();
    migrate_up(&mut db, None, &cat).unwrap();
    let first_version = db.version_text().clone();
    let executed = db.statements().len();
    migrate_up(&mut db, None, &cat).unwrap();
    assert_eq!(db.version_text(), &first_version);
    assert_eq!(db.statements().len(), executed);
}

#[test]
fn failing_step_keeps_marker_at_last_success() {
    let cat = three_step_catalog();
    // The second execute call (position 1 in the log) fails.
    let mut db = MemoryBackend::failing_at(1);
    let r = migrate_up(&mut db, None, &cat);
    assert!(matches!(r, Err(MigrateError::Backend(_))));
    // The marker names the first record's version; the third record's
    // statement never ran.
    assert_eq!(db.version_text(), "0.1.0");
    assert_eq!(db.statements().len(), 1);
    assert!(!db.statements().iter().any(|s| s.contains("t3")));
}

#[test]
fn down_with_no_target_steps_one_back() {
    let cat = three_step_catalog();
    let mut db = MemoryBackend::new();
    migrate_up(&mut db, None, &cat).unwrap();
    migrate_down(&mut db, None, &cat).unwrap();
    assert_eq!(db.version_text(), "0.2.0");
    migrate_down(&mut db, None, &cat).unwrap();
    assert_eq!(db.version_text(), "0.1.0");
}

#[test]
fn unsorted_catalog_is_refused() {
    let cat = vec![
        Migration { version: "0.2.0", up: "b", down: "" },
        Migration { version: "0.1.0", up: "a", down: "" },
    ];
    assert!(matches!(check_catalog(&cat), Err(MigrateError::Catalog(_))));
    let mut db = MemoryBackend::new();
    let r = migrate_up(&mut db, None, &cat);
    assert!(matches!(r, Err(MigrateError::Catalog(_))));
    assert_eq!(db.statements().len(), 0);
}

#[test]
fn unreadable_record_version_is_refused() {
    let cat = vec![Migration { version: "first", up: "a", down: "" }];
    assert!(matches!(check_catalog(&cat), Err(MigrateError::Catalog(_))));
}

#[test]
fn corrupted_marker_is_a_parse_error() {
    let cat = two_step_catalog();
    let mut db = MemoryBackend::new();
    db.set_version("garbled").unwrap();
    // A stored marker that does not read as a version is fatal in both
    // directions: nothing is planned from 0.0.0, nothing executes.
    let r = migrate_up(&mut db, None, &cat);
    assert!(matches!(r, Err(MigrateError::Parse(_))));
    let r = migrate_down(&mut db, Some("0.0.0"), &cat);
    assert!(matches!(r, Err(MigrateError::Parse(_))));
    assert_eq!(db.statements().len(), 0);
    assert_eq!(db.version_text(), "garbled");
}

#[test]
fn unreadable_target_is_a_parse_error() {
    let cat = two_step_catalog();
    let mut db = MemoryBackend::new();
    let r = migrate_up(&mut db, Some("not-a-version"), &cat);
    assert!(matches!(r, Err(MigrateError::Parse(_))));
    assert_eq!(db.statements().len(), 0);
    let r = migrate_down(&mut db, Some("no.good"), &cat);
    assert!(matches!(r, Err(MigrateError::Parse(_))));
}

#[test]
fn empty_down_step_still_moves_the_marker() {
    let cat = vec![
        Migration { version: "0.1.0", up: "CREATE TABLE t1 (id INTEGER);", down: "" },
    ];
    let mut db = MemoryBackend::new();
    migrate_up(&mut db, None, &cat).unwrap();
    migrate_down(&mut db, Some("0.0.0"), &cat).unwrap();
    assert_eq!(db.version_text(), "0.0.0");
    // Only the up statement ever ran: the empty down step was skipped.
    assert_eq!(db.statements().len(), 1);
}

#[test]
fn initialize_runs_once_and_reports_freshness() {
    let cat = two_step_catalog();
    let mut db = MemoryBackend::new();
    let fresh = initialize(&mut db, false, &cat).unwrap();
    assert!(fresh);
    assert_eq!(db.version_text(), "0.2.0");
    // A later start that finds the flag in place does nothing.
    let fresh = initialize(&mut db, true, &cat).unwrap();
    assert!(!fresh);
    assert_eq!(db.statements().len(), 2);
}

#[test]
fn initialize_failure_leaves_gate_retryable() {
    let cat = two_step_catalog();
    let mut db = MemoryBackend::failing_at(0);
    let r = initialize(&mut db, false, &cat);
    assert!(r.is_err());
    assert_eq!(db.version_text(), "0.0.0");
}

#[test]
fn db_state_guards_against_missing_backend() {
    let mut slot: DbState<MemoryBackend> = DbState::new();
    assert!(!slot.is_attached());
    assert!(matches!(slot.current_version(), Err(MigrateError::NotInitialized)));
    let cat = two_step_catalog();
    assert!(matches!(
        slot.migrate_to(Direction::Up, None, &cat),
        Err(MigrateError::NotInitialized)
    ));
}

#[test]
fn db_state_runs_migrations_once_attached() {
    let cat = two_step_catalog();
    let mut slot: DbState<MemoryBackend> = DbState::new();
    slot.attach(MemoryBackend::new());
    assert!(slot.is_attached());
    slot.migrate_to(Direction::Up, None, &cat).unwrap();
    assert_eq!(slot.current_version().unwrap(), "0.2.0");
    slot.migrate_to(Direction::Down, Some("0.0.0"), &cat).unwrap();
    assert_eq!(slot.current_version().unwrap(), "0.0.0");
}

#[test]
fn built_in_catalog_is_well_formed() {
    let cat = migration_catalog();
    assert!(check_catalog(&cat).is_ok());
    assert_eq!(known_versions(&cat), vec!["0.1.0".to_string()]);
    let mut db = MemoryBackend::new();
    migrate_up(&mut db, None, &cat).unwrap();
    assert_eq!(db.version_text(), "0.1.0");
    migrate_down(&mut db, Some("0.0.0"), &cat).unwrap();
    assert_eq!(db.version_text(), "0.0.0");
}
