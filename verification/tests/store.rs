use klcool::adapter::{convert_raw_at, RawActionEvent};
use klcool::codec::load_migrations;
use klcool::errors::{MigrationError, PersistenceError};
use klcool::store::{
    classify_ledger_count, ensure_process, last_executed_migration_timestamp, record_event,
    run_pending_migrations, store_url, version_of_row, StoreLocation,
};

fn field(s: &str) -> String {
    format!("\"{}\"", s.replace('"', "\"\""))
}

fn record(timestamp: u64, name: &str, up: &str, down: &str) -> String {
    format!(
        "{}~{}~{}~{}\n",
        field(&timestamp.to_string()),
        field(name),
        field(up),
        field(down)
    )
}

const LEDGER_SQL: &str = "CREATE TABLE migration (id INTEGER PRIMARY KEY AUTOINCREMENT, \
    direction TEXT NOT NULL, migration_version_timestamp INTEGER NOT NULL);";

fn schema_blob() -> String {
    let schema = format!(
        "{LEDGER_SQL}\n\
         CREATE TABLE processes (id INTEGER PRIMARY KEY AUTOINCREMENT, name TEXT NOT NULL UNIQUE);\n\
         CREATE TABLE staged_inputs (id INTEGER PRIMARY KEY AUTOINCREMENT, time_down_ms INTEGER, \
         type INTEGER NOT NULL, key_code INTEGER, mouse_x INTEGER, mouse_y INTEGER, \
         dragged_distance_px INTEGER, is_builtin_display INTEGER NOT NULL, \
         is_main_display INTEGER NOT NULL, process_id INTEGER NOT NULL, \
         execution_time_us INTEGER NOT NULL);"
    );
    record(100, "baseline schema", &schema, "DROP TABLE staged_inputs;")
}

fn open_store() -> rusqlite::Connection {
    rusqlite::Connection::open(store_url(StoreLocation::InMemory)).unwrap()
}

fn keyboard_raw() -> RawActionEvent {
    RawActionEvent {
        type_code: 10,
        time_down_ms: 82,
        key_code: 53,
        key_char: b"q".to_vec(),
        keyboard_layout: b"en-GB".to_vec(),
        process_name: b"Terminal".to_vec(),
        process_path: b"/Applications/Utilities/Terminal.app".to_vec(),
        click_x: 0,
        click_y: 0,
        dragged_distance_px: 0,
        dragged_distance_mm: 0,
        drag_angle: 0,
        drag_speed_kph: 0,
        mouse_distance_px: 0,
        mouse_distance_mm: 0,
        mouse_angle: 0,
        mouse_speed_kph: 0,
        scroll_delta_x: 0,
        scroll_delta_y: 0,
        scroll_angle: 0,
        scroll_speed_kph: 0,
        is_builtin_display: true,
        is_main_display: true,
        start_sec: 100,
        start_nsec: 0,
    }
}

#[test]
fn db_init() {
    let conn = open_store();
    let compiled = load_migrations(schema_blob().as_bytes()).unwrap();
    run_pending_migrations(&conn, compiled).unwrap();
}

#[test]
fn store_urls_are_fixed() {
    assert_eq!(store_url(StoreLocation::InMemory), ":memory:");
    assert_eq!(store_url(StoreLocation::Development), "./aggregate-debug.sqlite3");
    assert_eq!(store_url(StoreLocation::Production), "~/.klcool/aggregate.sqlite3");
}

#[test]
fn migrations_apply_in_timestamp_order() {
    let blob = format!(
        "{}{}{}",
        record(300, "third", "CREATE TABLE t300 (x INTEGER);", "DROP TABLE t300;"),
        record(
            100,
            "first",
            &format!("{LEDGER_SQL} CREATE TABLE t100 (x INTEGER);"),
            "DROP TABLE t100;"
        ),
        record(200, "second", "CREATE TABLE t200 (x INTEGER);", "DROP TABLE t200;"),
    );
    let conn = open_store();
    let compiled = load_migrations(blob.as_bytes()).unwrap();
    let applied = run_pending_migrations(&conn, compiled).unwrap();
    assert_eq!(applied, 3);
    let mut stmt = conn
        .prepare("SELECT migration_version_timestamp FROM migration ORDER BY id")
        .unwrap();
    let rows: Vec<i64> = stmt
        .query_map([], |row| row.get(0))
        .unwrap()
        .map(|r| r.unwrap())
        .collect();
    assert_eq!(rows, vec![100, 200, 300]);
    assert_eq!(last_executed_migration_timestamp(&conn).unwrap(), 300);
}

#[test]
fn second_run_applies_nothing() {
    let blob = format!(
        "{}{}",
        record(100, "first", &format!("{LEDGER_SQL} CREATE TABLE a (x INTEGER);"), "DROP TABLE a;"),
        record(200, "second", "CREATE TABLE b (x INTEGER);", "DROP TABLE b;"),
    );
    let conn = open_store();
    let first = run_pending_migrations(&conn, load_migrations(blob.as_bytes()).unwrap()).unwrap();
    assert_eq!(first, 2);
    let second = run_pending_migrations(&conn, load_migrations(blob.as_bytes()).unwrap()).unwrap();
    assert_eq!(second, 0);
    let ledger_rows: i64 = conn
        .query_row("SELECT count(*) FROM migration", [], |row| row.get(0))
        .unwrap();
    assert_eq!(ledger_rows, 2);
}

#[test]
fn failing_script_stops_the_run_at_the_last_recorded_version() {
    let blob = format!(
        "{}{}{}",
        record(100, "first", LEDGER_SQL, "SELECT 1;"),
        record(200, "broken", "THIS IS NOT SQL;", "SELECT 1;"),
        record(300, "third", "CREATE TABLE t300 (x INTEGER);", "DROP TABLE t300;"),
    );
    let conn = open_store();
    let r = run_pending_migrations(&conn, load_migrations(blob.as_bytes()).unwrap());
    assert_eq!(r.unwrap_err(), MigrationError::Script);
    assert_eq!(last_executed_migration_timestamp(&conn).unwrap(), 100);
    let t300: i64 = conn
        .query_row(
            "SELECT count(*) FROM sqlite_master WHERE type='table' AND name='t300'",
            [],
            |row| row.get(0),
        )
        .unwrap();
    assert_eq!(t300, 0);
}

#[test]
fn missing_ledger_means_version_zero() {
    let conn = open_store();
    assert_eq!(last_executed_migration_timestamp(&conn).unwrap(), 0);
}

#[test]
fn keyboard_event_reaches_the_store_under_its_process() {
    let conn = open_store();
    let compiled = load_migrations(schema_blob().as_bytes()).unwrap();
    run_pending_migrations(&conn, compiled).unwrap();

    let event = convert_raw_at(&keyboard_raw(), 101, 0).unwrap();
    record_event(&conn, &event).unwrap();

    let (id, name): (i64, String) = conn
        .query_row("SELECT id, name FROM processes", [], |row| {
            Ok((row.get(0)?, row.get(1)?))
        })
        .unwrap();
    assert_eq!(name, "Terminal");

    let (row_type, key_code, process_id): (i64, i64, i64) = conn
        .query_row(
            "SELECT type, key_code, process_id FROM staged_inputs",
            [],
            |row| Ok((row.get(0)?, row.get(1)?, row.get(2)?)),
        )
        .unwrap();
    assert_eq!(row_type, 10);
    assert_eq!(key_code, 53);
    assert_eq!(process_id, id);

    // A second event from the same process reuses the dimension row.
    let event2 = convert_raw_at(&keyboard_raw(), 102, 0).unwrap();
    record_event(&conn, &event2).unwrap();
    let processes: i64 = conn
        .query_row("SELECT count(*) FROM processes", [], |row| row.get(0))
        .unwrap();
    assert_eq!(processes, 1);
    let facts: i64 = conn
        .query_row("SELECT count(*) FROM staged_inputs", [], |row| row.get(0))
        .unwrap();
    assert_eq!(facts, 2);
}

#[test]
fn ensure_process_reuses_the_existing_row() {
    let conn = open_store();
    conn.execute_batch(
        "CREATE TABLE processes (id INTEGER PRIMARY KEY AUTOINCREMENT, name TEXT NOT NULL UNIQUE);",
    )
    .unwrap();
    let first = ensure_process(&conn, "Terminal").unwrap();
    let again = ensure_process(&conn, "Terminal").unwrap();
    assert_eq!(first, again);
    let other = ensure_process(&conn, "Finder").unwrap();
    assert_ne!(first, other);
}

#[test]
fn process_failure_is_isolated_to_the_event() {
    // No schema at all: resolving the process dimension fails.
    let conn = open_store();
    let event = convert_raw_at(&keyboard_raw(), 101, 0).unwrap();
    assert_eq!(
        record_event(&conn, &event).unwrap_err(),
        PersistenceError::Process
    );
}

#[test]
fn fact_failure_leaves_no_partial_write() {
    // A store with the dimension table but no fact table: the fact insert
    // fails, and the new dimension row is rolled back with it.
    let conn = open_store();
    conn.execute_batch(
        "CREATE TABLE processes (id INTEGER PRIMARY KEY AUTOINCREMENT, name TEXT NOT NULL UNIQUE);",
    )
    .unwrap();
    let event = convert_raw_at(&keyboard_raw(), 101, 0).unwrap();
    assert_eq!(
        record_event(&conn, &event).unwrap_err(),
        PersistenceError::Fact
    );
    let processes: i64 = conn
        .query_row("SELECT count(*) FROM processes", [], |row| row.get(0))
        .unwrap();
    assert_eq!(processes, 0);
}

#[test]
fn fact_row_parameters_follow_the_column_order() {
    let event = convert_raw_at(&keyboard_raw(), 101, 0).unwrap();
    let params = klcool::store::fact_row_params(&event, 7);
    assert_eq!(
        params,
        vec![
            Some(82),        // time_down_ms
            Some(10),        // type code of KeyDown
            Some(53),        // key_code
            None,            // mouse_x
            None,            // mouse_y
            None,            // dragged_distance_px
            Some(1),         // is_builtin_display
            Some(1),         // is_main_display
            Some(7),         // process_id
            Some(1_000_000), // execution_time_us
        ]
    );
}

#[test]
fn ledger_count_readings_classify_exactly() {
    assert_eq!(classify_ledger_count(Some(0)), Ok(false));
    assert_eq!(classify_ledger_count(Some(1)), Ok(true));
    assert_eq!(classify_ledger_count(Some(2)), Err(MigrationError::DuplicateLedger));
    assert_eq!(classify_ledger_count(Some(9)), Err(MigrationError::DuplicateLedger));
    assert_eq!(classify_ledger_count(None), Err(MigrationError::Ledger));
}

#[test]
fn ledger_row_readings_denote_a_version() {
    assert_eq!(version_of_row(Some(300)), 300);
    assert_eq!(version_of_row(Some(0)), 0);
    assert_eq!(version_of_row(Some(-5)), 0);
    assert_eq!(version_of_row(None), 0);
}
