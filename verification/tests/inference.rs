use vibedb::inference::{infer_batch_schema, infer_schema, infer_type, InferredColumn, SqliteType};
use vibedb::json::{JsonField, JsonNumber, JsonObject, JsonValue};

fn integer(v: i64) -> JsonValue {
    if v < 0 {
        JsonValue::Number(JsonNumber::NegInt(v))
    } else {
        JsonValue::Number(JsonNumber::PosInt(v as u64))
    }
}

fn fraction(v: f64) -> JsonValue {
    JsonValue::Number(JsonNumber::Float(v.to_bits()))
}

fn text_value(s: &str) -> JsonValue {
    JsonValue::String(s.to_string())
}

fn object(members: Vec<(&str, JsonValue)>) -> JsonValue {
    let mut o = JsonObject::new();
    for (k, v) in members {
        o.insert(k.to_string(), v);
    }
    JsonValue::Object(o)
}

fn column<'a>(columns: &'a [InferredColumn], name: &str) -> &'a InferredColumn {
    let found: Vec<&InferredColumn> = columns.iter().filter(|c| c.name == name).collect();
    assert_eq!(found.len(), 1);
    found[0]
}

#[test]
fn test_type_inference() {
    assert_eq!(infer_type(&integer(42)), SqliteType::Integer);
    assert_eq!(infer_type(&fraction(3.14)), SqliteType::Real);
    assert_eq!(infer_type(&text_value("hello")), SqliteType::Text);
    assert_eq!(infer_type(&JsonValue::Bool(true)), SqliteType::Integer);
    assert_eq!(infer_type(&JsonValue::Null), SqliteType::Null);
    assert_eq!(infer_type(&object(vec![("nested", text_value("object"))])), SqliteType::Text);
    assert_eq!(
        infer_type(&JsonValue::Array(vec![integer(1), integer(2), integer(3)])),
        SqliteType::Text
    );
}

#[test]
fn test_schema_inference() {
    let payload = object(vec![
        ("name", text_value("VibeDB")),
        ("version", integer(1)),
        ("rating", fraction(9.5)),
        ("is_awesome", JsonValue::Bool(true)),
        ("metadata", object(vec![("key", text_value("value"))])),
    ]);

    let schema = infer_schema(&payload).unwrap();
    assert_eq!(schema.len(), 5);
}

#[test]
fn test_type_promotion() {
    assert!(SqliteType::Integer.can_promote_to(&SqliteType::Real));
    assert!(SqliteType::Integer.can_promote_to(&SqliteType::Text));
    assert!(!SqliteType::Text.can_promote_to(&SqliteType::Integer));
    assert!(SqliteType::Null.can_promote_to(&SqliteType::Integer));
}

#[test]
fn batch_widens_integer_to_real() {
    let docs = vec![object(vec![("a", integer(1))]), object(vec![("a", fraction(1.5))])];
    let schema = infer_batch_schema(&docs).unwrap();
    assert_eq!(schema.len(), 1);
    assert_eq!(column(&schema, "a").sqlite_type, SqliteType::Real);
}

#[test]
fn batch_falls_back_to_text() {
    let docs = vec![object(vec![("a", integer(1))]), object(vec![("a", text_value("x"))])];
    let schema = infer_batch_schema(&docs).unwrap();
    assert_eq!(schema.len(), 1);
    assert_eq!(column(&schema, "a").sqlite_type, SqliteType::Text);
}
