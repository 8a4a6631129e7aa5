use std::collections::HashMap;

use vibedb::engine::{EngineEvent, Row, Step};
use vibedb::error::VibeError;
use vibedb::guard::{ColumnInfo, SchemaGuard, TableStats};
use vibedb::json::{JsonNumber, JsonObject, JsonValue};

// ---------------------------------------------------------------------------
// A stand-in for the storage engine: tables with their columns and row counts.
// ---------------------------------------------------------------------------

struct Engine {
    tables: HashMap<String, Vec<(String, String, bool)>>,
    rows: HashMap<String, i64>,
    statements: Vec<String>,
}

impl Engine {
    fn new() -> Engine {
        Engine { tables: HashMap::new(), rows: HashMap::new(), statements: Vec::new() }
    }

    fn with_columns(table: &str, count: usize) -> Engine {
        let mut engine = Engine::new();
        let columns = (0..count)
            .map(|i| (format!("c{}", i), "TEXT".to_string(), false))
            .collect();
        engine.tables.insert(table.to_string(), columns);
        engine
    }

    fn describe(&mut self, statement: &str) -> Vec<Row> {
        self.statements.push(statement.to_string());
        let table = statement
            .strip_prefix("PRAGMA table_info(")
            .and_then(|s| s.strip_suffix(")"))
            .unwrap();
        let mut rows = Vec::new();
        if let Some(columns) = self.tables.get(table) {
            for (i, (name, ty, pk)) in columns.iter().enumerate() {
                rows.push(vec![
                    ("cid".to_string(), integer(i as i64)),
                    ("name".to_string(), JsonValue::String(name.clone())),
                    ("type".to_string(), JsonValue::String(ty.clone())),
                    ("notnull".to_string(), integer(0)),
                    ("dflt_value".to_string(), JsonValue::Null),
                    ("pk".to_string(), integer(if *pk { 1 } else { 0 })),
                ]);
            }
        }
        rows
    }

    fn count(&mut self, statement: &str) -> Vec<Row> {
        self.statements.push(statement.to_string());
        let table = statement.strip_prefix("SELECT COUNT(*) as count FROM ").unwrap();
        let n = *self.rows.get(table).unwrap_or(&0);
        vec![vec![("count".to_string(), integer(n))]]
    }

    /// Applies the statements all or none.
    fn apply(&mut self, statements: &[String]) -> Result<(), String> {
        let mut tables = self.tables.clone();
        for statement in statements {
            self.statements.push(statement.clone());
            if let Some(rest) = statement.strip_prefix("CREATE TABLE IF NOT EXISTS ") {
                let table = rest.split(' ').next().unwrap().to_string();
                tables.entry(table).or_insert_with(|| {
                    vec![
                        ("id".to_string(), "INTEGER".to_string(), true),
                        ("created_at".to_string(), "DATETIME".to_string(), false),
                        ("updated_at".to_string(), "DATETIME".to_string(), false),
                    ]
                });
            } else if let Some(rest) = statement.strip_prefix("ALTER TABLE ") {
                let words: Vec<&str> = rest.split(' ').collect();
                assert_eq!(words.len(), 7, "{}", statement);
                assert_eq!(&words[1..3], &["ADD", "COLUMN"]);
                assert_eq!(&words[5..7], &["DEFAULT", "NULL"]);
                let columns = match tables.get_mut(words[0]) {
                    Some(columns) => columns,
                    None => return Err(format!("no such table: {}", words[0])),
                };
                if columns.iter().any(|c| c.0 == words[3]) {
                    return Err(format!("duplicate column name: {}", words[3]));
                }
                columns.push((words[3].to_string(), words[4].to_string(), false));
            } else {
                panic!("unexpected statement: {}", statement);
            }
        }
        self.tables = tables;
        Ok(())
    }

    fn columns(&self, table: &str) -> Vec<(String, String)> {
        self.tables
            .get(table)
            .map(|c| c.iter().map(|c| (c.0.clone(), c.1.clone())).collect())
            .unwrap_or_default()
    }
}

fn answer<T>(engine: &mut Engine, step: Step<T>) -> Result<EngineEvent, Result<T, VibeError>> {
    match step {
        Step::Describe(statement) => Ok(EngineEvent::Described(engine.describe(&statement))),
        Step::Apply(statements) => Ok(match engine.apply(&statements) {
            Ok(()) => EngineEvent::Applied,
            Err(message) => EngineEvent::ApplyFailed(message),
        }),
        Step::Count(statement, columns) => {
            Ok(EngineEvent::Counted(columns, engine.count(&statement)))
        }
        Step::Done(result) => Err(result),
    }
}

fn ensure_table(guard: &mut SchemaGuard, engine: &mut Engine, table: &str) -> Result<(), VibeError> {
    let mut event = EngineEvent::Begin;
    loop {
        match answer(engine, guard.ensure_table(table, event)) {
            Ok(next) => event = next,
            Err(result) => return result,
        }
    }
}

fn ensure_columns(
    guard: &mut SchemaGuard,
    engine: &mut Engine,
    table: &str,
    payload: &JsonValue,
) -> Result<Vec<String>, VibeError> {
    let mut event = EngineEvent::Begin;
    loop {
        match answer(engine, guard.ensure_columns(table, payload, event)) {
            Ok(next) => event = next,
            Err(result) => return result,
        }
    }
}

fn get_table_stats(
    guard: &mut SchemaGuard,
    engine: &mut Engine,
    table: &str,
) -> Result<TableStats, VibeError> {
    let mut event = EngineEvent::Begin;
    loop {
        match answer(engine, guard.get_table_stats(table, event)) {
            Ok(next) => event = next,
            Err(result) => return result,
        }
    }
}

fn integer(v: i64) -> JsonValue {
    if v < 0 {
        JsonValue::Number(JsonNumber::NegInt(v))
    } else {
        JsonValue::Number(JsonNumber::PosInt(v as u64))
    }
}

fn fraction(v: f64) -> JsonValue {
    JsonValue::Number(JsonNumber::Float(v.to_bits()))
}

fn object(members: Vec<(&str, JsonValue)>) -> JsonValue {
    let mut o = JsonObject::new();
    for (k, v) in members {
        o.insert(k.to_string(), v);
    }
    JsonValue::Object(o)
}

fn names(columns: &[ColumnInfo]) -> Vec<String> {
    columns.iter().map(|c| c.name.clone()).collect()
}

// ---------------------------------------------------------------------------
// Identifiers
// ---------------------------------------------------------------------------

#[test]
fn test_validate_identifier() {
    // Valid identifiers
    assert!(SchemaGuard::validate_identifier("users").is_ok());
    assert!(SchemaGuard::validate_identifier("_private").is_ok());
    assert!(SchemaGuard::validate_identifier("user_123").is_ok());
    assert!(SchemaGuard::validate_identifier("CamelCase").is_ok());

    // Invalid identifiers
    assert!(SchemaGuard::validate_identifier("123abc").is_err()); // Starts with number
    assert!(SchemaGuard::validate_identifier("user-name").is_err()); // Contains hyphen
    assert!(SchemaGuard::validate_identifier("user name").is_err()); // Contains space
    assert!(SchemaGuard::validate_identifier("SELECT").is_err()); // Reserved keyword
    assert!(SchemaGuard::validate_identifier("").is_err()); // Empty
}

#[test]
fn test_sanitize_identifier() {
    assert_eq!(SchemaGuard::sanitize_identifier("valid_name"), "valid_name");
    assert_eq!(SchemaGuard::sanitize_identifier("123abc"), "_23abc");
    assert_eq!(SchemaGuard::sanitize_identifier("user-name"), "user_name");
    assert_eq!(SchemaGuard::sanitize_identifier("user name"), "user_name");
}

#[test]
fn identifier_rejection() {
    for bad in ["SELECT", "1abc", "a-b", ""] {
        assert!(
            matches!(SchemaGuard::validate_identifier(bad), Err(VibeError::InvalidIdentifier(_))),
            "{:?}",
            bad
        );
    }
    assert!(SchemaGuard::validate_identifier("user_1").is_ok());
}

#[test]
fn identifier_messages_name_the_first_broken_rule() {
    let fault = |name: &str| match SchemaGuard::validate_identifier(name) {
        Err(VibeError::InvalidIdentifier(m)) => m,
        other => panic!("{:?}", other),
    };
    assert_eq!(fault(""), "Identifier '' must be 1-128 characters");
    let long = "a".repeat(129);
    assert_eq!(fault(&long), format!("Identifier '{}' must be 1-128 characters", long));
    assert_eq!(
        fault("a-b"),
        "Identifier 'a-b' contains invalid characters. Use only alphanumeric and underscores, starting with a letter or underscore"
    );
    assert_eq!(fault("select"), "Identifier 'select' is a SQL reserved keyword");
    assert_eq!(fault("Intersect"), "Identifier 'Intersect' is a SQL reserved keyword");
}

#[test]
fn identifier_length_limits() {
    assert!(SchemaGuard::validate_identifier(&"a".repeat(128)).is_ok());
    assert!(SchemaGuard::validate_identifier(&"a".repeat(129)).is_err());
    assert!(SchemaGuard::validate_identifier("a").is_ok());
    assert!(SchemaGuard::validate_identifier("_").is_ok());
    // No Unicode, whatever its length in characters.
    assert!(SchemaGuard::validate_identifier("caf\u{e9}").is_err());
    assert!(SchemaGuard::validate_identifier("selects").is_ok());
}

#[test]
fn sanitize_is_idempotent_and_truncates() {
    for raw in ["", "9 lives!", "d\u{e9}j\u{e0} vu", "a.b.c", "__ok__", "SELECT"] {
        let once = SchemaGuard::sanitize_identifier(raw);
        assert_eq!(SchemaGuard::sanitize_identifier(&once), once);
    }
    let long = "x-".repeat(100);
    let cut = SchemaGuard::sanitize_identifier(&long);
    assert_eq!(cut.chars().count(), 128);
    assert_eq!(cut, "x_".repeat(64));
    assert_eq!(SchemaGuard::sanitize_identifier("d\u{e9}j\u{e0} vu"), "d_j__vu");
    assert_eq!(SchemaGuard::sanitize_identifier(""), "");
}

// ---------------------------------------------------------------------------
// Tables and columns
// ---------------------------------------------------------------------------

#[test]
fn test_ensure_table() {
    let mut engine = Engine::new();
    let mut guard = SchemaGuard::new();

    // Create table
    ensure_table(&mut guard, &mut engine, "test_users").unwrap();

    // Verify table exists
    assert!(engine.tables.contains_key("test_users"));

    // Verify base columns
    let stats = get_table_stats(&mut guard, &mut engine, "test_users").unwrap();
    assert_eq!(stats.column_count, 3); // id, created_at, updated_at
    assert_eq!(names(&stats.columns), vec!["id", "created_at", "updated_at"]);
    assert!(stats.columns[0].pk);
    assert_eq!(stats.name, "test_users");
}

#[test]
fn test_ensure_columns() {
    let mut engine = Engine::new();
    let mut guard = SchemaGuard::new();

    ensure_table(&mut guard, &mut engine, "products").unwrap();

    let payload = object(vec![
        ("name", JsonValue::String("Widget".to_string())),
        ("price", fraction(9.99)),
        ("quantity", integer(100)),
    ]);

    let columns = ensure_columns(&mut guard, &mut engine, "products", &payload).unwrap();
    assert_eq!(columns.len(), 3);
    assert_eq!(columns, vec!["name", "price", "quantity"]);

    // Verify columns were added
    let stats = get_table_stats(&mut guard, &mut engine, "products").unwrap();
    assert_eq!(stats.column_count, 6); // 3 base + 3 new
    assert_eq!(
        engine.columns("products")[3..],
        [
            ("name".to_string(), "TEXT".to_string()),
            ("price".to_string(), "REAL".to_string()),
            ("quantity".to_string(), "INTEGER".to_string()),
        ]
    );
}

#[test]
fn statements_have_the_exact_text() {
    let mut guard = SchemaGuard::new();
    match guard.ensure_table("t1", EngineEvent::Begin) {
        Step::Describe(q) => assert_eq!(q, "PRAGMA table_info(t1)"),
        other => panic!("{:?}", other),
    }
    match guard.ensure_table("t1", EngineEvent::Described(vec![])) {
        Step::Apply(s) => assert_eq!(
            s,
            vec![
                "CREATE TABLE IF NOT EXISTS t1 (\n                id INTEGER PRIMARY KEY AUTOINCREMENT,\n                created_at DATETIME DEFAULT CURRENT_TIMESTAMP,\n                updated_at DATETIME DEFAULT CURRENT_TIMESTAMP\n            )"
            ]
        ),
        other => panic!("{:?}", other),
    }
    let base = vec![vec![
        ("name".to_string(), JsonValue::String("id".to_string())),
        ("type".to_string(), JsonValue::String("INTEGER".to_string())),
        ("pk".to_string(), integer(1)),
    ]];
    let payload = object(vec![("tags", JsonValue::Array(vec![])), ("n", integer(-4))]);
    match guard.ensure_columns("t1", &payload, EngineEvent::Described(base)) {
        Step::Apply(s) => assert_eq!(
            s,
            vec![
                "ALTER TABLE t1 ADD COLUMN tags TEXT DEFAULT NULL",
                "ALTER TABLE t1 ADD COLUMN n INTEGER DEFAULT NULL"
            ]
        ),
        other => panic!("{:?}", other),
    }
    match guard.get_table_stats("t1", EngineEvent::Begin) {
        Step::Count(q, columns) => {
            assert_eq!(q, "SELECT COUNT(*) as count FROM t1");
            assert_eq!(names(&columns), vec!["id"]);
        }
        other => panic!("{:?}", other),
    }
}

#[test]
fn ensure_table_twice_changes_nothing() {
    let mut engine = Engine::new();
    let mut guard = SchemaGuard::new();
    ensure_table(&mut guard, &mut engine, "events").unwrap();
    let once = engine.columns("events");
    ensure_table(&mut guard, &mut engine, "events").unwrap();
    assert_eq!(engine.columns("events"), once);
    assert_eq!(once.len(), 3);
    // The second call asked for no change.
    let creates = engine.statements.iter().filter(|s| s.starts_with("CREATE")).count();
    assert_eq!(creates, 1);
}

#[test]
fn ensure_table_rejects_bad_names_before_asking() {
    let mut engine = Engine::new();
    let mut guard = SchemaGuard::new();
    let r = ensure_table(&mut guard, &mut engine, "drop table x");
    assert!(matches!(r, Err(VibeError::InvalidIdentifier(_))));
    assert!(engine.statements.is_empty());
}

#[test]
fn null_values_create_no_columns() {
    let mut engine = Engine::new();
    let mut guard = SchemaGuard::new();
    let payload = object(vec![("a", JsonValue::Null)]);
    let columns = ensure_columns(&mut guard, &mut engine, "fresh", &payload).unwrap();
    assert!(columns.is_empty());
    assert!(engine.columns("fresh").is_empty());
    assert!(engine.statements.iter().all(|s| s.starts_with("PRAGMA")));
}

#[test]
fn column_limit_is_enforced() {
    let three = object(vec![("x", integer(1)), ("y", integer(2)), ("z", integer(3))]);
    let mut engine = Engine::with_columns("wide", 998);
    let mut guard = SchemaGuard::new();
    match ensure_columns(&mut guard, &mut engine, "wide", &three) {
        Err(VibeError::ColumnLimitExceeded { message }) => assert_eq!(
            message,
            "Table 'wide' would exceed 1000 column limit (998 existing + 3 new = 1001)"
        ),
        other => panic!("{:?}", other),
    }
    assert_eq!(engine.columns("wide").len(), 998);

    let two = object(vec![("x", integer(1)), ("y", integer(2))]);
    let columns = ensure_columns(&mut guard, &mut engine, "wide", &two).unwrap();
    assert_eq!(columns, vec!["x", "y"]);
    assert_eq!(engine.columns("wide").len(), 1000);
}

#[test]
fn racing_writers_all_succeed() {
    let mut engine = Engine::new();
    let payload = object(vec![("x", integer(1))]);
    let mut first = SchemaGuard::new();
    ensure_table(&mut first, &mut engine, "race").unwrap();

    // Every writer reads the catalog before any of them has changed it.
    let mut writers: Vec<(SchemaGuard, Vec<String>)> = Vec::new();
    for _ in 0..4 {
        let mut guard = SchemaGuard::new();
        let rows = match guard.ensure_columns("race", &payload, EngineEvent::Begin) {
            Step::Describe(q) => engine.describe(&q),
            other => panic!("{:?}", other),
        };
        match guard.ensure_columns("race", &payload, EngineEvent::Described(rows)) {
            Step::Apply(statements) => writers.push((guard, statements)),
            other => panic!("{:?}", other),
        }
    }
    let mut failed = 0;
    for (mut guard, statements) in writers {
        let event = match engine.apply(&statements) {
            Ok(()) => EngineEvent::Applied,
            Err(message) => {
                failed += 1;
                EngineEvent::ApplyFailed(message)
            }
        };
        match guard.ensure_columns("race", &payload, event) {
            Step::Done(Ok(columns)) => assert_eq!(columns, vec!["x"]),
            other => panic!("{:?}", other),
        }
        assert!(guard.cached_tables().is_empty());
    }
    assert_eq!(failed, 3);
    let columns = engine.columns("race");
    assert_eq!(columns.len(), 4);
    assert_eq!(columns[3], ("x".to_string(), "INTEGER".to_string()));
}

#[test]
fn other_migration_failures_are_surfaced() {
    let mut engine = Engine::new();
    let mut guard = SchemaGuard::new();
    let payload = object(vec![("x", integer(1))]);
    match ensure_columns(&mut guard, &mut engine, "missing", &payload) {
        Err(VibeError::MigrationFailed(m)) => assert_eq!(m, "no such table: missing"),
        other => panic!("{:?}", other),
    }
    match guard.ensure_columns("t", &payload, EngineEvent::QueryFailed("disk I/O error".into())) {
        Step::Done(Err(VibeError::Database(m))) => assert_eq!(m, "disk I/O error"),
        other => panic!("{:?}", other),
    }
}

#[test]
fn events_out_of_turn_end_the_operation() {
    let mut guard = SchemaGuard::new();
    let payload = object(vec![("x", integer(1))]);
    let counted = || EngineEvent::Counted(vec![], vec![]);
    let unexpected = "Unexpected storage engine event";
    match guard.ensure_table("t", counted()) {
        Step::Done(Err(VibeError::Internal(m))) => assert_eq!(m, unexpected),
        other => panic!("{:?}", other),
    }
    match guard.ensure_columns("t", &payload, counted()) {
        Step::Done(Err(VibeError::Internal(m))) => assert_eq!(m, unexpected),
        other => panic!("{:?}", other),
    }
    match guard.get_table_stats("t", EngineEvent::Applied) {
        Step::Done(Err(VibeError::Internal(m))) => assert_eq!(m, unexpected),
        other => panic!("{:?}", other),
    }
    match guard.get_table_stats("t", EngineEvent::ApplyFailed("x".into())) {
        Step::Done(Err(VibeError::Internal(m))) => assert_eq!(m, unexpected),
        other => panic!("{:?}", other),
    }
    match guard.ensure_table("t", EngineEvent::ApplyFailed("disk full".into())) {
        Step::Done(Err(VibeError::Database(m))) => assert_eq!(m, "disk full"),
        other => panic!("{:?}", other),
    }
    match guard.get_table_stats("no such table", EngineEvent::Begin) {
        Step::Done(Err(VibeError::InvalidIdentifier(_))) => {}
        other => panic!("{:?}", other),
    }
    assert!(guard.cached_tables().is_empty());
}

#[test]
fn stats_reflect_added_columns_without_clearing_the_cache() {
    let mut engine = Engine::new();
    let mut guard = SchemaGuard::new();
    ensure_table(&mut guard, &mut engine, "notes").unwrap();
    let before = get_table_stats(&mut guard, &mut engine, "notes").unwrap();
    assert_eq!(before.column_count, 3);
    assert_eq!(guard.cached_tables(), vec!["notes"]);

    let payload = object(vec![("title", JsonValue::String("hi".into()))]);
    ensure_columns(&mut guard, &mut engine, "notes", &payload).unwrap();
    engine.rows.insert("notes".to_string(), 7);
    let after = get_table_stats(&mut guard, &mut engine, "notes").unwrap();
    assert_eq!(after.column_count, 4);
    assert_eq!(names(&after.columns), vec!["id", "created_at", "updated_at", "title"]);
    assert_eq!(after.row_count, 7);
}

#[test]
fn stats_on_absent_table() {
    let mut engine = Engine::new();
    let mut guard = SchemaGuard::new();
    match get_table_stats(&mut guard, &mut engine, "nonexistent") {
        Err(VibeError::TableNotFound(t)) => assert_eq!(t, "nonexistent"),
        other => panic!("{:?}", other),
    }
    assert!(guard.cached_tables().is_empty());
}

#[test]
fn invalid_documents_are_rejected_whole() {
    let mut engine = Engine::new();
    let mut guard = SchemaGuard::new();
    ensure_table(&mut guard, &mut engine, "docs").unwrap();
    let asked = engine.statements.len();

    let payload = object(vec![("fine", integer(1)), ("not ok", integer(2)), ("1bad", integer(3))]);
    match ensure_columns(&mut guard, &mut engine, "docs", &payload) {
        Err(VibeError::InvalidIdentifier(m)) => assert!(m.starts_with("Identifier 'not ok'")),
        other => panic!("{:?}", other),
    }
    match ensure_columns(&mut guard, &mut engine, "docs", &JsonValue::Array(vec![])) {
        Err(VibeError::InvalidPayload(m)) => assert_eq!(m, "Payload must be a JSON object"),
        other => panic!("{:?}", other),
    }
    assert_eq!(engine.statements.len(), asked);
    assert_eq!(engine.columns("docs").len(), 3);
}

#[test]
fn insertable_columns_skip_nulls_and_system_columns() {
    let mut engine = Engine::new();
    let mut guard = SchemaGuard::new();
    ensure_table(&mut guard, &mut engine, "items").unwrap();
    let payload = object(vec![
        ("id", integer(5)),
        ("b", integer(1)),
        ("gone", JsonValue::Null),
        ("created_at", JsonValue::String("now".into())),
        ("a", JsonValue::Bool(true)),
        ("updated_at", JsonValue::String("now".into())),
    ]);
    let columns = ensure_columns(&mut guard, &mut engine, "items", &payload).unwrap();
    assert_eq!(columns, vec!["b", "a"]);
    assert_eq!(engine.columns("items").len(), 5);
}

#[test]
fn cache_is_cleared_and_listed() {
    let mut engine = Engine::new();
    let mut guard = SchemaGuard::new();
    for table in ["one", "two"] {
        ensure_table(&mut guard, &mut engine, table).unwrap();
        get_table_stats(&mut guard, &mut engine, table).unwrap();
    }
    let mut cached = guard.cached_tables();
    cached.sort();
    assert_eq!(cached, vec!["one", "two"]);
    assert_eq!(names(&guard.get_table_schema("one").unwrap()).len(), 3);
    guard.clear_cache();
    assert!(guard.cached_tables().is_empty());
    assert!(guard.get_table_schema("one").is_none());
}

#[test]
fn catalog_rows_are_read_leniently() {
    let rows = vec![
        vec![
            ("name".to_string(), JsonValue::String("a".into())),
            ("type".to_string(), JsonValue::String("TEXT".into())),
            ("notnull".to_string(), integer(1)),
            ("pk".to_string(), integer(0)),
        ],
        vec![("type".to_string(), JsonValue::String("TEXT".into()))],
        vec![("name".to_string(), integer(3))],
        vec![("name".to_string(), JsonValue::String("b".into()))],
    ];
    let columns = SchemaGuard::fetch_table_info(&rows);
    assert_eq!(names(&columns), vec!["a", "b"]);
    assert!(columns[0].notnull && !columns[0].pk);
    assert_eq!(columns[1].col_type, "");
    assert!(!columns[1].notnull && !columns[1].pk);
}
