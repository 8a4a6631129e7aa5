use vibedb::cache::SchemaCache;
use vibedb::cli::{parse_port, Args, Environment, Invocation};
use vibedb::db::{is_in_memory, list_tables, looks_like_json, optional_int, required_text};
use vibedb::engine::{read_count, Row};
use vibedb::error::VibeError;
use vibedb::explorer::{
    fallback_explorer_html, serve_file, serve_guessed, serve_index, EntryPage, Served,
};
use vibedb::guard::ColumnInfo;
use vibedb::inference::{infer_batch_schema, infer_type, InferredColumn, SqliteType};
use vibedb::json::{JsonNumber, JsonObject, JsonValue};
use vibedb::text::{
    contains_text, decimal_text, join_text, signed_decimal_text, starts_with_text,
};

fn word(s: &str) -> JsonValue {
    JsonValue::String(s.to_string())
}

fn number(v: i64) -> JsonValue {
    if v < 0 {
        JsonValue::Number(JsonNumber::NegInt(v))
    } else {
        JsonValue::Number(JsonNumber::PosInt(v as u64))
    }
}

fn object(members: Vec<(&str, JsonValue)>) -> JsonValue {
    let mut o = JsonObject::new();
    for (k, v) in members {
        o.insert(k.to_string(), v);
    }
    JsonValue::Object(o)
}

fn row(cells: Vec<(&str, JsonValue)>) -> Row {
    cells.into_iter().map(|(k, v)| (k.to_string(), v)).collect()
}

fn column(name: &str) -> ColumnInfo {
    ColumnInfo { name: name.into(), col_type: "TEXT".into(), notnull: false, pk: false }
}

fn summary(columns: &[InferredColumn]) -> Vec<(String, SqliteType, bool)> {
    let mut all: Vec<(String, SqliteType, bool)> =
        columns.iter().map(|c| (c.name.clone(), c.sqlite_type, c.is_nested)).collect();
    all.sort_by(|a, b| a.0.cmp(&b.0));
    all
}

// ---------------------------------------------------------------------------
// Errors
// ---------------------------------------------------------------------------

#[test]
fn errors_have_codes_statuses_and_messages() {
    let all = vec![
        (VibeError::Database("d".into()), "DATABASE_ERROR", 503, "Database error: d"),
        (VibeError::Json("j".into()), "JSON_ERROR", 400, "JSON error: j"),
        (
            VibeError::InvalidIdentifier("i".into()),
            "INVALID_IDENTIFIER",
            400,
            "Invalid identifier: i",
        ),
        (VibeError::Schema("s".into()), "SCHEMA_ERROR", 422, "Schema error: s"),
        (
            VibeError::ColumnLimitExceeded { message: "c".into() },
            "COLUMN_LIMIT_EXCEEDED",
            400,
            "Column limit exceeded: c",
        ),
        (VibeError::TableNotFound("t".into()), "TABLE_NOT_FOUND", 404, "Table not found: t"),
        (VibeError::InvalidPayload("p".into()), "INVALID_PAYLOAD", 400, "Invalid payload: p"),
        (VibeError::MigrationFailed("m".into()), "MIGRATION_FAILED", 500, "Migration failed: m"),
        (VibeError::Internal("x".into()), "INTERNAL_ERROR", 500, "Internal error: x"),
        (VibeError::unauthorized("u".into()), "UNAUTHORIZED", 401, "Unauthorized: u"),
        (VibeError::conflict("k".into()), "CONFLICT", 409, "Conflict: k"),
        (VibeError::not_found("n".into()), "NOT_FOUND", 404, "Not found: n"),
        (VibeError::Storage("f".into()), "STORAGE_ERROR", 500, "Storage error: f"),
    ];
    for (error, code, status, message) in all {
        assert_eq!(error.error_code(), code);
        assert_eq!(error.status_code(), status);
        assert_eq!(error.message(), message);
    }
}

// ---------------------------------------------------------------------------
// Inference
// ---------------------------------------------------------------------------

#[test]
fn numbers_outside_the_integer_range_are_real() {
    assert_eq!(infer_type(&number(i64::MIN)), SqliteType::Integer);
    let most = JsonValue::Number(JsonNumber::PosInt(i64::MAX as u64));
    assert_eq!(infer_type(&most), SqliteType::Integer);
    let beyond = JsonValue::Number(JsonNumber::PosInt(i64::MAX as u64 + 1));
    assert_eq!(infer_type(&beyond), SqliteType::Real);
    assert_eq!(infer_type(&JsonValue::Number(JsonNumber::PosInt(u64::MAX))), SqliteType::Real);
    let whole = JsonValue::Number(JsonNumber::Float(2.0f64.to_bits()));
    assert_eq!(infer_type(&whole), SqliteType::Real);
}

#[test]
fn type_names_and_common_types() {
    let (integer, real, text, blob, null) = (
        SqliteType::Integer,
        SqliteType::Real,
        SqliteType::Text,
        SqliteType::Blob,
        SqliteType::Null,
    );
    assert_eq!(integer.as_sql(), "INTEGER");
    assert_eq!(real.as_sql(), "REAL");
    assert_eq!(text.as_sql(), "TEXT");
    assert_eq!(blob.as_sql(), "BLOB");
    assert_eq!(null.as_sql(), "NULL");
    let all = [integer, real, text, blob, null];
    for a in all {
        assert_eq!(SqliteType::common_type(&a, &a), a);
        assert_eq!(SqliteType::common_type(&a, &null), a);
        assert_eq!(SqliteType::common_type(&a, &text), text);
        for b in all {
            let joined = SqliteType::common_type(&a, &b);
            assert_eq!(joined, SqliteType::common_type(&b, &a));
            assert!(a.can_promote_to(&joined) && b.can_promote_to(&joined));
            assert_eq!(a.can_promote_to(&b), joined == b);
            for c in all {
                assert_eq!(
                    SqliteType::common_type(&joined, &c),
                    SqliteType::common_type(&a, &SqliteType::common_type(&b, &c))
                );
            }
        }
    }
    assert_eq!(SqliteType::common_type(&integer, &real), real);
    assert_eq!(SqliteType::common_type(&blob, &integer), text);
    assert_eq!(SqliteType::common_type(&blob, &real), text);
    assert!(!blob.can_promote_to(&integer) && !real.can_promote_to(&integer));
}

#[test]
fn batch_schema_does_not_depend_on_the_order() {
    let docs = || {
        vec![
            object(vec![("a", number(1)), ("b", word("x")), ("n", JsonValue::Null)]),
            object(vec![("a", JsonValue::Number(JsonNumber::Float(1.5f64.to_bits())))]),
            object(vec![("c", JsonValue::Array(vec![])), ("b", JsonValue::Null)]),
            object(vec![("c", number(3)), ("d", JsonValue::Bool(false))]),
        ]
    };
    let expected = vec![
        ("a".to_string(), SqliteType::Real, false),
        ("b".to_string(), SqliteType::Text, false),
        ("c".to_string(), SqliteType::Text, true),
        ("d".to_string(), SqliteType::Integer, false),
    ];
    let orders: [[usize; 4]; 5] =
        [[0, 1, 2, 3], [3, 2, 1, 0], [1, 0, 3, 2], [2, 3, 0, 1], [1, 3, 0, 2]];
    for order in orders {
        let mut pool: Vec<Option<JsonValue>> = docs().into_iter().map(Some).collect();
        let batch: Vec<JsonValue> = order.iter().map(|&i| pool[i].take().unwrap()).collect();
        let schema = infer_batch_schema(&batch).unwrap();
        assert!(schema.iter().all(|c| c.is_nullable));
        assert_eq!(summary(&schema), expected);
    }
    assert!(infer_batch_schema(&[]).unwrap().is_empty());
    let mixed = vec![object(vec![("a", number(1))]), JsonValue::Array(vec![])];
    match infer_batch_schema(&mixed) {
        Err(VibeError::InvalidPayload(m)) => assert_eq!(m, "Payload must be a JSON object"),
        other => panic!("{:?}", other),
    }
}

// ---------------------------------------------------------------------------
// Documents
// ---------------------------------------------------------------------------

#[test]
fn objects_keep_one_value_for_each_key() {
    let mut o = JsonObject::new();
    assert!(o.insert("a".into(), number(1)).is_none());
    assert!(o.insert("b".into(), number(2)).is_none());
    assert!(matches!(o.insert("a".into(), word("again")), Some(v) if v.as_i64() == Some(1)));
    assert_eq!(o.len(), 2);
    assert_eq!(o.fields[0].key, "a");
    assert_eq!(o.get("a").unwrap().as_str(), Some("again"));
    assert_eq!(o.get("b").unwrap().as_i64(), Some(2));
    assert!(o.get("c").is_none());
    assert_eq!(o.find("b"), Some(1));
    assert_eq!(o.find("z"), None);
}

#[test]
fn values_are_read_by_shape() {
    assert!(JsonValue::Null.is_null() && !number(0).is_null());
    assert_eq!(number(-5).as_i64(), Some(-5));
    assert_eq!(JsonValue::Number(JsonNumber::PosInt(u64::MAX)).as_i64(), None);
    assert_eq!(JsonValue::Number(JsonNumber::Float(0)).as_i64(), None);
    assert_eq!(word("7").as_i64(), None);
    assert_eq!(word("7").as_str(), Some("7"));
    assert!(number(7).as_str().is_none());
    assert!(object(vec![]).as_object().is_some() && word("x").as_object().is_none());
}

// ---------------------------------------------------------------------------
// Rows
// ---------------------------------------------------------------------------

#[test]
fn rows_are_read_by_the_first_cell_of_a_name() {
    let r = row(vec![("n", word("first")), ("n", word("second")), ("k", number(4))]);
    assert_eq!(required_text(&r, "n").unwrap(), "first");
    assert_eq!(optional_int(&r, "k"), Some(4));
    assert_eq!(optional_int(&r, "n"), None);
    assert_eq!(optional_int(&r, "missing"), None);
    match required_text(&r, "k") {
        Err(VibeError::Internal(m)) => assert_eq!(m, "Missing field: k"),
        other => panic!("{:?}", other),
    }
}

#[test]
fn test_in_memory_db() {
    assert!(is_in_memory(":memory:"));

    // A store without tables lists none.
    let tables = list_tables(&vec![]);
    assert!(tables.is_empty());
}

#[test]
fn table_names_and_counts_are_read_from_rows() {
    let rows = vec![
        row(vec![("name", word("users"))]),
        row(vec![]),
        row(vec![("name", number(3))]),
        row(vec![("name", word("posts")), ("other", word("x"))]),
    ];
    assert_eq!(list_tables(&rows), vec!["users", "posts"]);
    assert_eq!(read_count(&vec![row(vec![("count", number(12))])]), 12);
    assert_eq!(read_count(&vec![row(vec![("count", word("12"))])]), 0);
    assert_eq!(read_count(&vec![]), 0);
    assert_eq!(read_count(&vec![row(vec![])]), 0);
    assert_eq!(read_count(&vec![row(vec![("count", number(-1))])]), u64::MAX);
    assert!(is_in_memory(":memory:") && !is_in_memory("vibedb.db"));
    assert!(looks_like_json("{\"a\":1}") && looks_like_json("[1]"));
    assert!(!looks_like_json("plain") && !looks_like_json("") && !looks_like_json(" {"));
}

// ---------------------------------------------------------------------------
// Cache
// ---------------------------------------------------------------------------

#[test]
fn cache_gets_what_was_put() {
    let mut cache = SchemaCache::new();
    assert!(cache.get("users").is_none());
    assert!(cache.tables().is_empty());
    cache.put("users", vec![column("id"), column("name")]);
    cache.put("posts", vec![column("id")]);
    let users = cache.get("users").unwrap();
    assert_eq!(users.len(), 2);
    assert_eq!(users[1].name, "name");
    assert_eq!(cache.get("posts").unwrap().len(), 1);
    let mut tables = cache.tables();
    tables.sort();
    assert_eq!(tables, vec!["posts", "users"]);
}

#[test]
fn cache_put_and_invalidate_are_idempotent() {
    let mut cache = SchemaCache::new();
    cache.put("t", vec![column("a")]);
    cache.put("t", vec![column("b"), column("c")]);
    cache.put("t", vec![column("b"), column("c")]);
    assert_eq!(cache.get("t").unwrap().len(), 2);
    assert_eq!(cache.tables(), vec!["t"]);
    cache.invalidate("t");
    assert!(cache.get("t").is_none());
    cache.invalidate("t");
    cache.invalidate("never");
    assert!(cache.tables().is_empty());
    cache.put("x", vec![column("a")]);
    cache.put("y", vec![column("a")]);
    cache.clear();
    assert!(cache.get("x").is_none() && cache.get("y").is_none());
    cache.clear();
    assert!(cache.tables().is_empty());
}

// ---------------------------------------------------------------------------
// Text
// ---------------------------------------------------------------------------

#[test]
fn numbers_are_written_in_decimal() {
    assert_eq!(decimal_text(0), "0");
    assert_eq!(decimal_text(9), "9");
    assert_eq!(decimal_text(10), "10");
    assert_eq!(decimal_text(1001), "1001");
    assert_eq!(decimal_text(u128::MAX), u128::MAX.to_string());
    assert_eq!(signed_decimal_text(0), "0");
    assert_eq!(signed_decimal_text(-120), "-120");
    assert_eq!(signed_decimal_text(i64::MAX), i64::MAX.to_string());
}

#[test]
fn texts_are_joined_and_searched() {
    let items: Vec<String> = vec!["a".into(), "".into(), "c".into()];
    assert_eq!(join_text(&items, ", "), "a, , c");
    assert_eq!(join_text(&vec![], ", "), "");
    assert_eq!(join_text(&vec!["solo".to_string()], ", "), "solo");
    assert!(contains_text("duplicate column name: x", "duplicate column name"));
    assert!(contains_text("abc", "") && contains_text("", ""));
    assert!(contains_text("aab", "ab") && contains_text("xxab", "ab"));
    assert!(!contains_text("ab", "abc") && !contains_text("abd", "abc"));
    assert!(starts_with_text("Bearer x", "Bearer ") && !starts_with_text("x Bearer ", "Bearer "));
}

// ---------------------------------------------------------------------------
// Command line
// ---------------------------------------------------------------------------

fn no_environment() -> Environment {
    Environment {
        port: None,
        path: None,
        host: None,
        memory: false,
        jwt_secret: None,
        storage_path: None,
    }
}

fn run(args: &[&str], env: Environment) -> Args {
    let args: Vec<String> = args.iter().map(|s| s.to_string()).collect();
    match Args::from_env(&args, env) {
        Invocation::Run(settings) => settings,
        Invocation::Help => panic!("help"),
    }
}

#[test]
fn ports_are_parsed_strictly() {
    assert_eq!(parse_port("8080"), Some(8080));
    assert_eq!(parse_port("0"), Some(0));
    assert_eq!(parse_port("65535"), Some(65535));
    assert_eq!(parse_port("65536"), None);
    assert_eq!(parse_port("+80"), Some(80));
    assert_eq!(parse_port("0080"), Some(80));
    assert_eq!(parse_port("99999999999999999999"), None);
    for bad in ["", "+", "-1", " 80", "80 ", "8o", "++1", "1+", "\u{661}"] {
        assert_eq!(parse_port(bad), None, "{:?}", bad);
        assert_eq!(bad.parse::<u16>().ok(), None);
    }
}

#[test]
fn settings_default_and_follow_the_arguments() {
    let plain = run(&["vibedb"], no_environment());
    assert_eq!(plain.db_path, "vibedb.db");
    assert_eq!(plain.port, 3000);
    assert_eq!(plain.host, "0.0.0.0");
    assert!(!plain.in_memory && plain.jwt_secret.is_none() && plain.storage_path.is_none());
    let same = Args::default();
    assert_eq!((same.db_path.as_str(), same.port, same.host.as_str()), ("vibedb.db", 3000, "0.0.0.0"));

    let set = run(
        &["vibedb", "--db", "my.db", "-p", "8080", "stray", "-h", "127.0.0.1", "-m"],
        no_environment(),
    );
    assert_eq!(set.db_path, "my.db");
    assert_eq!(set.port, 8080);
    assert_eq!(set.host, "127.0.0.1");
    assert!(set.in_memory);

    // A port that cannot be read falls back to 3000; a switch at the end has no value.
    let odd = run(&["vibedb", "-p", "9000", "--port", "http", "--db"], no_environment());
    assert_eq!(odd.port, 3000);
    assert_eq!(odd.db_path, "vibedb.db");
    // A value is never read as a switch.
    let taken = run(&["vibedb", "--db", "--help", "--host", "-m"], no_environment());
    assert_eq!(taken.db_path, "--help");
    assert_eq!(taken.host, "-m");
    assert!(!taken.in_memory);
    assert!(run(&[], no_environment()).port == 3000);
}

#[test]
fn help_and_environment() {
    let args: Vec<String> = vec!["vibedb".into(), "-m".into(), "--help".into(), "-p".into()];
    assert!(matches!(Args::from_env(&args, no_environment()), Invocation::Help));

    let env = Environment {
        port: Some("8123".into()),
        path: Some("env.db".into()),
        host: Some("::1".into()),
        memory: true,
        jwt_secret: Some("s3cret".into()),
        storage_path: Some("/srv/files".into()),
    };
    let set = run(&["vibedb", "--db", "arg.db", "--port", "9000"], env);
    assert_eq!(set.port, 8123);
    assert_eq!(set.db_path, "env.db");
    assert_eq!(set.host, "::1");
    assert!(set.in_memory);
    assert_eq!(set.jwt_secret.as_deref(), Some("s3cret"));
    assert_eq!(set.storage_path.as_deref(), Some("/srv/files"));

    let mut bad_port = no_environment();
    bad_port.port = Some("eighty".into());
    assert_eq!(run(&["vibedb", "--port", "9000"], bad_port).port, 9000);
}

// ---------------------------------------------------------------------------
// Explorer
// ---------------------------------------------------------------------------

#[test]
fn embedded_files_are_served_under_their_type() {
    match serve_file("assets/app.js", Some(vec![1, 2]), Some(vec![9])) {
        Served::Asset { content_type, body } => {
            assert!(content_type.contains("javascript"), "{}", content_type);
            assert_eq!(body, vec![1, 2]);
        }
        other => panic!("{:?}", other),
    }
    match serve_file("logo.png", Some(vec![]), None) {
        Served::Asset { content_type, .. } => assert_eq!(content_type, "image/png"),
        other => panic!("{:?}", other),
    }
    match serve_file("README", Some(vec![]), None) {
        Served::Asset { content_type, .. } => assert_eq!(content_type, "application/octet-stream"),
        other => panic!("{:?}", other),
    }
    match serve_guessed("x.bin", Some(vec![7]), None, "text/x-given".to_string()) {
        Served::Asset { content_type, body } => {
            assert_eq!(content_type, "text/x-given");
            assert_eq!(body, vec![7]);
        }
        other => panic!("{:?}", other),
    }
}

#[test]
fn routes_fall_back_to_the_index_page() {
    assert!(matches!(
        serve_file("tables/users", None, Some(vec![5])),
        Served::Index { body } if body == vec![5]
    ));
    assert!(matches!(serve_file("missing.css", None, Some(vec![5])), Served::NotFound));
    assert!(matches!(serve_file("tables/users", None, None), Served::NotFound));
    match serve_index(Some(vec![3])) {
        EntryPage::Built(Served::Asset { content_type, body }) => {
            assert_eq!(content_type, "text/html");
            assert_eq!(body, vec![3]);
        }
        other => panic!("{:?}", other),
    }
    match serve_index(None) {
        EntryPage::Fallback(page) => assert_eq!(page, fallback_explorer_html()),
        other => panic!("{:?}", other),
    }
    let page = fallback_explorer_html();
    assert!(page.starts_with("<!DOCTYPE html>"));
    assert!(page.trim_end().ends_with("</html>"));
    assert!(page.contains("Vibe-Explorer"));
}
