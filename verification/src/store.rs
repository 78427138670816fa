//! The persistent store: the embedded migration engine that brings the
//! schema to the correct version before any write, and the persistence
//! layer that files each event as a fact row under its process's
//! dimension row.
//!
//! The store itself lives behind `rusqlite`; each call the logic makes
//! goes through one trusted wrapper, and everything around the calls is
//! verified. The caller owns the serialization discipline: one logical
//! writer at a time, and the migration run completed before any write.
use vstd::prelude::*;

use crate::errors::MigrationError;
use crate::errors::PersistenceError;
use crate::event::Event;
use crate::event::EventDetail;
use crate::event::event_code;
use crate::migrations::Migration;
use crate::migrations::migrations_wf;
use rusqlite::OptionalExtension;

verus! {

#[verifier::external_type_specification]
#[verifier::external_body]
pub struct ExConnection(rusqlite::Connection);

#[verifier::external_type_specification]
#[verifier::external_body]
pub struct ExSqlError(rusqlite::Error);

/// Relies on `rusqlite::Connection::execute_batch`: runs the statements
/// of `sql` against the store; the outcome depends on the store.
#[verifier::external_body]
fn exec_batch(conn: &rusqlite::Connection, sql: &str) -> (r: Result<(), rusqlite::Error>) {
    conn.execute_batch(sql)
}

/// Relies on `rusqlite::Connection::execute`: runs one statement with
/// one integer parameter; the outcome depends on the store.
#[verifier::external_body]
fn exec_with_i64(conn: &rusqlite::Connection, sql: &str, v: i64) -> (r: Result<
    usize,
    rusqlite::Error,
>) {
    conn.execute(sql, [v])
}

/// Relies on `rusqlite::Connection::execute`: runs one statement with
/// one text parameter; the outcome depends on the store.
#[verifier::external_body]
fn exec_with_str(conn: &rusqlite::Connection, sql: &str, v: &str) -> (r: Result<
    usize,
    rusqlite::Error,
>) {
    conn.execute(sql, [v])
}

/// Relies on `rusqlite::Connection::execute` with
/// `rusqlite::params_from_iter`: runs one statement binding the given
/// nullable integers positionally; the outcome depends on the store.
#[verifier::external_body]
fn exec_with_opt_i64s(conn: &rusqlite::Connection, sql: &str, params: &Vec<Option<i64>>) -> (r:
    Result<usize, rusqlite::Error>) {
    conn.execute(sql, rusqlite::params_from_iter(params.iter()))
}

/// Relies on `rusqlite::Connection::query_row` and
/// `OptionalExtension::optional`: the first column of the first result
/// row as an integer, `None` where the query returns no row; what comes
/// back depends on the store.
#[verifier::external_body]
fn query_opt_i64(conn: &rusqlite::Connection, sql: &str) -> (r: Result<
    Option<i64>,
    rusqlite::Error,
>) {
    conn.query_row(sql, [], |row| row.get(0)).optional()
}

/// Relies on `rusqlite::Connection::query_row` and
/// `OptionalExtension::optional`, with one text parameter bound: the
/// first column of the first result row as an integer, `None` where the
/// query returns no row; what comes back depends on the store.
#[verifier::external_body]
fn query_opt_i64_with_str(conn: &rusqlite::Connection, sql: &str, v: &str) -> (r: Result<
    Option<i64>,
    rusqlite::Error,
>) {
    conn.query_row(sql, [v], |row| row.get(0)).optional()
}

/// Relies on `rusqlite::Connection::last_insert_rowid`: the rowid of the
/// most recent successful insert on this connection.
#[verifier::external_body]
fn last_rowid(conn: &rusqlite::Connection) -> (r: i64) {
    conn.last_insert_rowid()
}

/// Where the store lives: in memory for tests, a local file during
/// development, a file under the user's data directory in production.
#[derive(Clone, Copy, Debug, PartialEq, Eq, Structural)]
pub enum StoreLocation {
    InMemory,
    Development,
    Production,
}

/// The store-location selector: the one configuration point of this
/// core.
pub fn store_url(loc: StoreLocation) -> (r: &'static str)
    ensures
        loc is InMemory ==> r@ == ":memory:"@,
        loc is Development ==> r@ == "./aggregate-debug.sqlite3"@,
        loc is Production ==> r@ == "~/.klcool/aggregate.sqlite3"@,
{
    match loc {
        StoreLocation::InMemory => ":memory:",
        StoreLocation::Development => "./aggregate-debug.sqlite3",
        StoreLocation::Production => "~/.klcool/aggregate.sqlite3",
    }
}

/// What a catalog reading of ledger-table count means: a reading that
/// never arrived is a ledger error, no table is a store with no ledger
/// yet, exactly one is the ledger, and anything else is the fatal
/// duplicate-ledger inconsistency, never a guess.
pub fn classify_ledger_count(reading: Option<i64>) -> (r: Result<bool, MigrationError>)
    ensures
        r == match reading {
            None => Err::<bool, MigrationError>(MigrationError::Ledger),
            Some(c) => if c == 0 {
                Ok::<bool, MigrationError>(false)
            } else if c == 1 {
                Ok::<bool, MigrationError>(true)
            } else {
                Err::<bool, MigrationError>(MigrationError::DuplicateLedger)
            },
        },
{
    match reading {
        None => Err(MigrationError::Ledger),
        Some(c) => {
            if c == 0 {
                Ok(false)
            } else if c == 1 {
                Ok(true)
            } else {
                Err(MigrationError::DuplicateLedger)
            }
        },
    }
}

/// The schema version a ledger-row reading denotes: the timestamp
/// itself, or 0 for an empty ledger; a row below zero never comes from
/// the engine, and counts as the empty ledger too.
pub fn version_of_row(reading: Option<i64>) -> (r: u64)
    ensures
        r == match reading {
            Some(v) => if v >= 0 {
                v as u64
            } else {
                0u64
            },
            None => 0u64,
        },
{
    match reading {
        Some(v) => {
            if v >= 0 {
                v as u64
            } else {
                0
            }
        },
        None => 0,
    }
}

/// The ledger's high-water mark: the highest applied migration
/// timestamp, 0 when the ledger is empty or absent. The two store
/// readings are interpreted by `classify_ledger_count` and
/// `version_of_row`, whose contracts fix the meaning of every value the
/// store can return; whatever it returns, an error here is only ever
/// the ledger-read error or the fatal duplicate-ledger inconsistency.
pub fn last_executed_migration_timestamp(conn: &rusqlite::Connection) -> (r: Result<
    u64,
    MigrationError,
>)
    ensures
        r is Err ==> r == Err::<u64, MigrationError>(MigrationError::Ledger) || r == Err::<
            u64,
            MigrationError,
        >(MigrationError::DuplicateLedger),
{
    let count_reading = match query_opt_i64(
        conn,
        "SELECT count(*) FROM sqlite_master WHERE type='table' AND name='migration'",
    ) {
        Ok(reading) => reading,
        Err(_) => None,
    };
    let ledger_present = match classify_ledger_count(count_reading) {
        Ok(present) => present,
        Err(e) => {
            return Err(e);
        },
    };
    if !ledger_present {
        return Ok(0);
    }
    match query_opt_i64(
        conn,
        "SELECT migration_version_timestamp FROM migration ORDER BY migration_version_timestamp DESC LIMIT 1",
    ) {
        Ok(reading) => Ok(version_of_row(reading)),
        Err(_) => Err(MigrationError::Ledger),
    }
}

/// Applies one migration as one logical unit of work: the whole up
/// script, then its ledger row, committed together; on any failure the
/// unit is rolled back and nothing is recorded.
fn apply_one(conn: &rusqlite::Connection, m: &Migration) -> (r: Result<(), MigrationError>) {
    if let Err(_) = exec_batch(conn, "BEGIN") {
        return Err(MigrationError::Script);
    }
    if let Err(_) = exec_batch(conn, m.up.as_str()) {
        let _ = exec_batch(conn, "ROLLBACK");
        return Err(MigrationError::Script);
    }
    let ts: i64 = #[verifier::truncate] (m.timestamp as i64);
    if let Err(_) = exec_with_i64(
        conn,
        "INSERT INTO migration (direction, migration_version_timestamp) VALUES ('U', ?)",
        ts,
    ) {
        let _ = exec_batch(conn, "ROLLBACK");
        return Err(MigrationError::Script);
    }
    if let Err(_) = exec_batch(conn, "COMMIT") {
        let _ = exec_batch(conn, "ROLLBACK");
        return Err(MigrationError::Script);
    }
    Ok(())
}

/// Brings the store to the current schema version: reads the ledger's
/// high-water mark, plans the pending migrations in ascending timestamp
/// order, and applies each exactly once, recording it in the ledger in
/// the same unit of work. Returns how many were applied; a failure stops
/// the run with the ledger at the last version recorded.
pub fn run_pending_migrations(conn: &rusqlite::Connection, compiled: Vec<Migration>) -> (r: Result<
    usize,
    MigrationError,
>)
    requires
        migrations_wf(compiled@),
    ensures
        r matches Ok(n) ==> n <= compiled@.len(),
{
    let high_water = match last_executed_migration_timestamp(conn) {
        Ok(v) => v,
        Err(e) => {
            return Err(e);
        },
    };
    let pending = crate::migrations::plan_run(compiled, high_water);
    let n = pending.len();
    for i in 0..n
        invariant
            n == pending@.len(),
    {
        if let Err(e) = apply_one(conn, &pending[i]) {
            return Err(e);
        }
    }
    Ok(n)
}

/// The fact row's parameter list for one event, in the fact table's
/// column order; a column a kind does not carry is null.
pub open spec fn fact_params_spec(e: Event, pid: i64) -> Seq<Option<i64>> {
    let time_down: Option<i64> = match e.detail {
        EventDetail::Keyboard { time_down_ms, .. } => Some(time_down_ms as i64),
        EventDetail::MouseClick { time_down_ms, .. } => Some(time_down_ms as i64),
        _ => None,
    };
    let key_code: Option<i64> = match e.detail {
        EventDetail::Keyboard { key_code, .. } => Some(key_code as i64),
        _ => None,
    };
    let mouse_x: Option<i64> = match e.detail {
        EventDetail::MouseClick { normalised_click_point_x, .. } => Some(
            normalised_click_point_x as i64,
        ),
        _ => None,
    };
    let mouse_y: Option<i64> = match e.detail {
        EventDetail::MouseClick { normalised_click_point_y, .. } => Some(
            normalised_click_point_y as i64,
        ),
        _ => None,
    };
    let dragged: Option<i64> = match e.detail {
        EventDetail::MouseClick { dragged_distance_px, .. } => Some(dragged_distance_px as i64),
        EventDetail::MouseMove { distance_px, .. } => Some(distance_px as i64),
        _ => None,
    };
    seq![
        time_down,
        Some(event_code(e.base.event_type) as i64),
        key_code,
        mouse_x,
        mouse_y,
        dragged,
        Some(if e.base.is_builtin_display { 1 } else { 0 }),
        Some(if e.base.is_main_display { 1 } else { 0 }),
        Some(pid),
        Some(e.base.execution_time_us as i64),
    ]
}

/// Builds the fact row's parameters for one well-formed event.
pub fn fact_row_params(event: &Event, process_id: i64) -> (r: Vec<Option<i64>>)
    requires
        event.wf(),
    ensures
        r@ == fact_params_spec(*event, process_id),
{
    let mut time_down: Option<i64> = None;
    let mut key_code: Option<i64> = None;
    let mut mouse_x: Option<i64> = None;
    let mut mouse_y: Option<i64> = None;
    let mut dragged: Option<i64> = None;
    match &event.detail {
        EventDetail::Keyboard { time_down_ms, key_code: kc, .. } => {
            time_down = Some(*time_down_ms as i64);
            key_code = Some(*kc as i64);
        },
        EventDetail::MouseClick {
            time_down_ms,
            normalised_click_point_x,
            normalised_click_point_y,
            dragged_distance_px,
            ..
        } => {
            time_down = Some(*time_down_ms as i64);
            mouse_x = Some(*normalised_click_point_x as i64);
            mouse_y = Some(*normalised_click_point_y as i64);
            dragged = Some(*dragged_distance_px as i64);
        },
        EventDetail::MouseMove { distance_px, .. } => {
            dragged = Some(*distance_px as i64);
        },
        EventDetail::Scroll { .. } => {},
    }
    let mut r: Vec<Option<i64>> = Vec::new();
    r.push(time_down);
    r.push(Some(event.base.event_type.code() as i64));
    r.push(key_code);
    r.push(mouse_x);
    r.push(mouse_y);
    r.push(dragged);
    r.push(Some(if event.base.is_builtin_display { 1 } else { 0 }));
    r.push(Some(if event.base.is_main_display { 1 } else { 0 }));
    r.push(Some(process_id));
    r.push(Some(event.base.execution_time_us as i64));
    proof {
        assert(r@ =~= fact_params_spec(*event, process_id));
    }
    r
}

/// The process dimension: looks a process up by exact name and returns
/// its row id, inserting the row first if the name was never seen. The
/// caller's single-writer discipline keeps the lookup and the insert
/// race-free.
pub fn ensure_process(conn: &rusqlite::Connection, name: &str) -> (r: Result<
    i64,
    PersistenceError,
>) {
    match query_opt_i64_with_str(conn, "SELECT id FROM processes WHERE name = ?1", name) {
        Ok(Some(id)) => Ok(id),
        Ok(None) => {
            match exec_with_str(conn, "INSERT INTO processes (name) VALUES (?1)", name) {
                Ok(_) => Ok(last_rowid(conn)),
                Err(_) => Err(PersistenceError::Process),
            }
        },
        Err(_) => Err(PersistenceError::Process),
    }
}

/// Writes one fact row for a well-formed event, resolving its process
/// dimension row in the same unit of work: on success both are durably
/// committed together, on failure the store keeps its prior state.
pub fn record_event(conn: &rusqlite::Connection, event: &Event) -> (r: Result<
    (),
    PersistenceError,
>)
    requires
        event.wf(),
{
    if let Err(_) = exec_batch(conn, "BEGIN") {
        return Err(PersistenceError::Fact);
    }
    let process_id = match ensure_process(conn, event.base.process_name.as_str()) {
        Ok(id) => id,
        Err(e) => {
            let _ = exec_batch(conn, "ROLLBACK");
            return Err(e);
        },
    };
    let params = fact_row_params(event, process_id);
    let insert = exec_with_opt_i64s(
        conn,
        "INSERT INTO staged_inputs (time_down_ms, type, key_code, mouse_x, mouse_y, \
         dragged_distance_px, is_builtin_display, is_main_display, process_id, \
         execution_time_us) VALUES (?, ?, ?, ?, ?, ?, ?, ?, ?, ?)",
        &params,
    );
    if let Err(_) = insert {
        let _ = exec_batch(conn, "ROLLBACK");
        return Err(PersistenceError::Fact);
    }
    if let Err(_) = exec_batch(conn, "COMMIT") {
        let _ = exec_batch(conn, "ROLLBACK");
        return Err(PersistenceError::Fact);
    }
    Ok(())
}

} // verus!
