use vibedb::api::{
    build_delete_statement, build_insert_statement, build_query, build_select_by_id_statement,
    build_update_statement, check_batch, document_not_found, merge_batch_columns,
    table_stats_response, ApiResponse, BatchPushResponse, PushResponse, QueryParams, SqlRequest,
};
use vibedb::db::SqlValue;
use vibedb::error::VibeError;
use vibedb::guard::{ColumnInfo, TableStats};

fn strings(items: &[&str]) -> Vec<String> {
    items.iter().map(|s| s.to_string()).collect()
}

fn params(filters: &[(&str, &str)]) -> QueryParams {
    QueryParams {
        limit: None,
        offset: None,
        order_by: None,
        order_dir: None,
        filters: filters.iter().map(|(k, v)| (k.to_string(), v.to_string())).collect(),
    }
}

fn texts(values: &[SqlValue]) -> Vec<String> {
    values
        .iter()
        .map(|v| match v {
            SqlValue::Text(s) => s.clone(),
            other => panic!("{:?}", other),
        })
        .collect()
}

#[test]
fn insert_statements() {
    assert_eq!(build_insert_statement("users", &vec![]), "INSERT INTO users DEFAULT VALUES");
    assert_eq!(
        build_insert_statement("users", &strings(&["name"])),
        "INSERT INTO users (name) VALUES (?)"
    );
    assert_eq!(
        build_insert_statement("users", &strings(&["name", "age", "tags"])),
        "INSERT INTO users (name, age, tags) VALUES (?, ?, ?)"
    );
}

#[test]
fn update_delete_and_select_statements() {
    assert_eq!(
        build_update_statement("users", &strings(&["name", "age"])),
        "UPDATE users SET name = ?, age = ?, updated_at = CURRENT_TIMESTAMP WHERE id = ?"
    );
    assert_eq!(
        build_update_statement("users", &strings(&["name"])),
        "UPDATE users SET name = ?, updated_at = CURRENT_TIMESTAMP WHERE id = ?"
    );
    assert_eq!(build_delete_statement("users"), "DELETE FROM users WHERE id = ?");
    assert_eq!(build_select_by_id_statement("users"), "SELECT * FROM users WHERE id = ?");
}

#[test]
fn query_without_parameters_uses_the_default_limit() {
    let q = build_query("users", &params(&[])).unwrap();
    assert_eq!(q.sql, "SELECT * FROM users LIMIT 100");
    assert!(q.params.is_empty());
}

#[test]
fn query_with_filters_order_and_paging() {
    let mut p = params(&[("limit", "5"), ("city", "Oslo"), ("order_by", "age"), ("age", "30")]);
    p.limit = Some(5);
    p.offset = Some(20);
    p.order_by = Some("age".to_string());
    p.order_dir = Some("desc".to_string());
    let q = build_query("users", &p).unwrap();
    assert_eq!(
        q.sql,
        "SELECT * FROM users WHERE city = ? AND age = ? ORDER BY age DESC LIMIT 5 OFFSET 20"
    );
    assert_eq!(texts(&q.params), vec!["Oslo", "30"]);
}

#[test]
fn query_limit_is_capped() {
    let mut p = params(&[]);
    p.limit = Some(5000);
    assert_eq!(build_query("t", &p).unwrap().sql, "SELECT * FROM t LIMIT 1000");
    p.limit = Some(1000);
    assert_eq!(build_query("t", &p).unwrap().sql, "SELECT * FROM t LIMIT 1000");
    p.limit = Some(0);
    p.offset = Some(0);
    assert_eq!(build_query("t", &p).unwrap().sql, "SELECT * FROM t LIMIT 0 OFFSET 0");
    p.limit = Some(4294967295);
    p.offset = Some(4294967295);
    assert_eq!(
        build_query("t", &p).unwrap().sql,
        "SELECT * FROM t LIMIT 1000 OFFSET 4294967295"
    );
}

#[test]
fn query_order_defaults_to_ascending() {
    let mut p = params(&[]);
    p.order_by = Some("name".to_string());
    assert_eq!(build_query("t", &p).unwrap().sql, "SELECT * FROM t ORDER BY name ASC LIMIT 100");
    p.order_dir = Some("Asc".to_string());
    assert_eq!(build_query("t", &p).unwrap().sql, "SELECT * FROM t ORDER BY name ASC LIMIT 100");
}

#[test]
fn query_faults() {
    let mut p = params(&[]);
    p.order_by = Some("name".to_string());
    p.order_dir = Some("sideways".to_string());
    match build_query("t", &p) {
        Err(VibeError::InvalidPayload(m)) => assert_eq!(m, "order_dir must be ASC or DESC"),
        other => panic!("{:?}", other),
    }
    p.order_by = Some("name; DROP TABLE t".to_string());
    assert!(matches!(build_query("t", &p), Err(VibeError::InvalidIdentifier(_))));
    // The direction is not looked at without a column to sort by.
    p.order_by = None;
    assert!(build_query("t", &p).is_ok());

    let bad = params(&[("ok", "1"), ("1=1 OR x", "2"), ("also bad", "3")]);
    match build_query("t", &bad) {
        Err(VibeError::InvalidIdentifier(m)) => assert!(m.starts_with("Identifier '1=1 OR x'")),
        other => panic!("{:?}", other),
    }
}

#[test]
fn batch_columns_are_merged_once_each() {
    let mut all = strings(&["a", "b"]);
    merge_batch_columns(&mut all, &strings(&["b", "c", "a", "d", "c"]));
    assert_eq!(all, strings(&["a", "b", "c", "d"]));
    merge_batch_columns(&mut all, &vec![]);
    assert_eq!(all, strings(&["a", "b", "c", "d"]));
    let mut empty: Vec<String> = vec![];
    merge_batch_columns(&mut empty, &strings(&["x"]));
    assert_eq!(empty, strings(&["x"]));
}

#[test]
fn empty_batches_are_refused() {
    match check_batch(0) {
        Err(VibeError::InvalidPayload(m)) => assert_eq!(m, "Empty batch"),
        other => panic!("{:?}", other),
    }
    assert!(check_batch(1).is_ok());
}

#[test]
fn missing_documents_are_named() {
    match document_not_found(42, "users") {
        VibeError::TableNotFound(m) => assert_eq!(m, "Document with id 42 not found in users"),
        other => panic!("{:?}", other),
    }
    match document_not_found(-7, "t") {
        VibeError::TableNotFound(m) => assert_eq!(m, "Document with id -7 not found in t"),
        other => panic!("{:?}", other),
    }
    match document_not_found(i64::MIN, "t") {
        VibeError::TableNotFound(m) => {
            assert_eq!(m, "Document with id -9223372036854775808 not found in t")
        }
        other => panic!("{:?}", other),
    }
}

#[test]
fn table_stats_are_shown() {
    let stats = TableStats {
        name: "users".to_string(),
        column_count: 2,
        row_count: 9,
        columns: vec![
            ColumnInfo { name: "id".into(), col_type: "INTEGER".into(), notnull: true, pk: true },
            ColumnInfo { name: "bio".into(), col_type: "TEXT".into(), notnull: false, pk: false },
        ],
    };
    let shown = table_stats_response(&stats);
    assert_eq!(shown.name, "users");
    assert_eq!(shown.column_count, 2);
    assert_eq!(shown.row_count, 9);
    assert_eq!(shown.columns.len(), 2);
    assert_eq!(shown.columns[0].name, "id");
    assert_eq!(shown.columns[0].col_type, "INTEGER");
    assert!(!shown.columns[0].nullable && shown.columns[0].primary_key);
    assert!(shown.columns[1].nullable && !shown.columns[1].primary_key);
}

#[test]
fn responses_carry_what_they_are_given() {
    let plain = ApiResponse::success(3);
    assert!(plain.success);
    assert_eq!(plain.data, Some(3));
    assert_eq!(plain.message, None);
    let push = PushResponse { id: 1, collection: "c".into(), columns_added: strings(&["a"]) };
    let told = ApiResponse::success_with_message(push, "Data pushed successfully".to_string());
    assert!(told.success);
    assert_eq!(told.data.unwrap().columns_added, strings(&["a"]));
    assert_eq!(told.message.as_deref(), Some("Data pushed successfully"));
    let batch = BatchPushResponse { inserted: 2, collection: "c".into(), columns_added: vec![] };
    assert_eq!(batch.inserted, 2);
    assert_eq!(SqlRequest { query: "SELECT 1".into() }.query, "SELECT 1");
}
