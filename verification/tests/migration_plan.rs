use klcool::codec::{load_migrations, parse_migrations, parse_u64};
use klcool::errors::MigrationError;
use klcool::migrations::{plan_run, validate_migrations, Migration};

fn migration(timestamp: u64, name: &str) -> Migration {
    Migration {
        timestamp,
        name: name.to_string(),
        up: format!("CREATE TABLE t{timestamp} (id INTEGER);"),
        down: format!("DROP TABLE t{timestamp};"),
    }
}

fn field(s: &str) -> String {
    format!("\"{}\"", s.replace('"', "\"\""))
}

fn record(timestamp: u64, name: &str, up: &str, down: &str) -> String {
    format!(
        "{}~{}~{}~{}\n",
        field(&timestamp.to_string()),
        field(name),
        field(up),
        field(down)
    )
}

#[test]
fn plan_sorts_by_timestamp_whatever_the_input_order() {
    let compiled = vec![
        migration(300, "third"),
        migration(100, "first"),
        migration(200, "second"),
    ];
    let plan = plan_run(compiled, 0);
    let order: Vec<u64> = plan.iter().map(|m| m.timestamp).collect();
    assert_eq!(order, vec![100, 200, 300]);
}

#[test]
fn plan_keeps_only_timestamps_above_the_high_water_mark() {
    let compiled = vec![
        migration(300, "third"),
        migration(100, "first"),
        migration(200, "second"),
    ];
    let plan = plan_run(compiled, 150);
    let order: Vec<u64> = plan.iter().map(|m| m.timestamp).collect();
    assert_eq!(order, vec![200, 300]);
}

#[test]
fn plan_from_a_caught_up_ledger_is_empty() {
    let compiled = vec![migration(300, "third"), migration(100, "first")];
    let plan = plan_run(compiled, 300);
    assert!(plan.is_empty());
}

#[test]
fn validation_refuses_repeated_timestamps_and_empty_scripts() {
    let good = vec![migration(100, "a"), migration(200, "b")];
    assert!(validate_migrations(&good));

    let repeated = vec![migration(100, "a"), migration(100, "b")];
    assert!(!validate_migrations(&repeated));

    let mut empty_up = vec![migration(100, "a")];
    empty_up[0].up = String::new();
    assert!(!validate_migrations(&empty_up));

    let mut empty_down = vec![migration(100, "a")];
    empty_down[0].down = String::new();
    assert!(!validate_migrations(&empty_down));
}

#[test]
fn parse_decodes_one_record_exactly() {
    let blob = record(
        1700000001,
        "create \"events\"",
        "CREATE TABLE a (x INTEGER);\nCREATE TABLE b (y INTEGER);",
        "DROP TABLE a; -- tilde: ~",
    );
    let ms = parse_migrations(blob.as_bytes()).unwrap();
    assert_eq!(ms.len(), 1);
    assert_eq!(ms[0].timestamp, 1700000001);
    assert_eq!(ms[0].name, "create \"events\"");
    assert_eq!(
        ms[0].up,
        "CREATE TABLE a (x INTEGER);\nCREATE TABLE b (y INTEGER);"
    );
    assert_eq!(ms[0].down, "DROP TABLE a; -- tilde: ~");
}

#[test]
fn parse_decodes_records_in_table_order() {
    let blob = format!(
        "{}{}{}",
        record(300, "third", "up three", "down three"),
        record(100, "first", "up one", "down one"),
        record(200, "second", "up two", "down two"),
    );
    let ms = parse_migrations(blob.as_bytes()).unwrap();
    let order: Vec<u64> = ms.iter().map(|m| m.timestamp).collect();
    assert_eq!(order, vec![300, 100, 200]);
}

#[test]
fn empty_table_holds_no_migrations() {
    assert_eq!(parse_migrations(b"").unwrap().len(), 0);
}

#[test]
fn malformed_tables_are_parse_errors() {
    // An unquoted field.
    let unquoted = "100~\"a\"~\"up\"~\"down\"\n";
    assert_eq!(
        parse_migrations(unquoted.as_bytes()).unwrap_err(),
        MigrationError::Parse
    );
    // A truncated record.
    let truncated = "\"100\"~\"a\"~\"up\"";
    assert_eq!(
        parse_migrations(truncated.as_bytes()).unwrap_err(),
        MigrationError::Parse
    );
    // A timestamp that is not a number.
    let bad_timestamp = record(100, "a", "up", "down").replace("\"100\"", "\"x00\"");
    assert_eq!(
        parse_migrations(bad_timestamp.as_bytes()).unwrap_err(),
        MigrationError::Parse
    );
}

#[test]
fn decodable_but_broken_sets_are_invalid() {
    let repeated = format!(
        "{}{}",
        record(100, "a", "up", "down"),
        record(100, "b", "up", "down"),
    );
    assert_eq!(
        load_migrations(repeated.as_bytes()).unwrap_err(),
        MigrationError::Invalid
    );
    let empty_script = record(100, "a", "", "down");
    assert_eq!(
        load_migrations(empty_script.as_bytes()).unwrap_err(),
        MigrationError::Invalid
    );
    let fine = format!(
        "{}{}",
        record(100, "a", "up", "down"),
        record(200, "b", "up", "down"),
    );
    assert_eq!(load_migrations(fine.as_bytes()).unwrap().len(), 2);
}

#[test]
fn digit_runs_parse_to_the_exact_value() {
    assert_eq!(parse_u64(b"0"), Some(0));
    assert_eq!(parse_u64(b"1700000001"), Some(1_700_000_001));
    assert_eq!(parse_u64(b"18446744073709551615"), Some(u64::MAX));
    assert_eq!(parse_u64(b"18446744073709551616"), None);
    assert_eq!(parse_u64(b"12a"), None);
    assert_eq!(parse_u64(b""), None);
}

#[test]
fn plan_is_the_same_from_every_compilation_order() {
    let a = vec![migration(100, "a"), migration(200, "b"), migration(300, "c")];
    let b = vec![migration(300, "c"), migration(100, "a"), migration(200, "b")];
    let c = vec![migration(200, "b"), migration(300, "c"), migration(100, "a")];
    let plan_a = plan_run(a, 0);
    let plan_b = plan_run(b, 0);
    let plan_c = plan_run(c, 0);
    assert_eq!(plan_a, plan_b);
    assert_eq!(plan_b, plan_c);
}
