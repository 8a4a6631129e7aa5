//! Values and rows as they cross the boundary to the storage engine.

use vstd::prelude::*;
use vstd::string::*;
use crate::engine::{cell, find_cell, Row};
use crate::error::{ErrorKind, Fault, VibeError, VibeResult};
use crate::json::JsonValue;
use crate::text::{begins_with, starts_with_text, string_views};

verus! {

/// A value bound to a statement's parameter.
#[derive(Debug, Clone)]
pub enum SqlValue {
    Null,
    Integer(i64),
    /// A floating-point number, as the bits of an `f64`.
    Real(u64),
    Text(String),
    Blob(Vec<u8>),
}

/// What a [`SqlValue`] holds, with its text as a sequence of characters.
pub ghost enum SqlValueSpec {
    Null,
    Integer(i64),
    Real(u64),
    Text(Seq<char>),
    Blob(Seq<u8>),
}

impl View for SqlValue {
    type V = SqlValueSpec;

    open spec fn view(&self) -> SqlValueSpec {
        match *self {
            SqlValue::Null => SqlValueSpec::Null,
            SqlValue::Integer(v) => SqlValueSpec::Integer(v),
            SqlValue::Real(bits) => SqlValueSpec::Real(bits),
            SqlValue::Text(s) => SqlValueSpec::Text(s@),
            SqlValue::Blob(b) => SqlValueSpec::Blob(b@),
        }
    }
}

/// What a sequence of parameters holds.
pub open spec fn sql_values(params: Seq<SqlValue>) -> Seq<SqlValueSpec> {
    params.map_values(|p: SqlValue| p@)
}

/// The path that stands for a database kept in memory.
pub open spec fn memory_path() -> Seq<char> {
    ":memory:"@
}

/// Tells whether a database path stands for a database kept in memory.
pub fn is_in_memory(path: &str) -> (r: bool)
    ensures
        r == (path@ == memory_path()),
{
    *path == *":memory:"
}

/// The text in the first cell of each row that holds one there, in the rows' order.
pub open spec fn first_texts(rows: Seq<Row>) -> Seq<Seq<char>>
    decreases rows.len(),
{
    if rows.len() == 0 {
        Seq::empty()
    } else {
        let row = rows.last()@;
        if row.len() > 0 && row[0].1.text() is Some {
            first_texts(rows.drop_last()).push(row[0].1.text()->0)
        } else {
            first_texts(rows.drop_last())
        }
    }
}

/// Reads the table names from the rows of the query that lists the tables:
/// the text in each row's first cell; rows without one are passed over.
pub fn list_tables(rows: &Vec<Row>) -> (r: Vec<String>)
    ensures
        string_views(r@) == first_texts(rows@),
{
    let mut tables: Vec<String> = Vec::new();
    let mut i: usize = 0;
    while i < rows.len()
        invariant
            0 <= i <= rows@.len(),
            string_views(tables@) == first_texts(rows@.take(i as int)),
        decreases rows@.len() - i,
    {
        proof {
            let next = rows@.take(i + 1);
            assert(next.drop_last() =~= rows@.take(i as int));
            assert(next.last() == rows@[i as int]);
        }
        if rows[i].len() > 0 {
            match rows[i][0].1.as_str() {
                Some(name) => {
                    let ghost before = tables@;
                    tables.push(String::from_str(name));
                    proof {
                        assert(string_views(tables@) =~= string_views(before).push(name@));
                    }
                },
                None => {},
            }
        }
        i = i + 1;
    }
    proof {
        assert(rows@.take(i as int) =~= rows@);
    }
    tables
}

/// The text in the cell of `row` under `key`, where the cell holds one.
pub open spec fn field_text(row: Seq<(String, JsonValue)>, key: Seq<char>) -> Option<Seq<char>> {
    match cell(row, key) {
        Some(v) => v.text(),
        None => None,
    }
}

/// The integer in the cell of `row` under `key`, where the cell holds one.
pub open spec fn field_int(row: Seq<(String, JsonValue)>, key: Seq<char>) -> Option<i64> {
    match cell(row, key) {
        Some(v) => v.int_value(),
        None => None,
    }
}

/// The fault for a row that lacks the field `key`.
pub open spec fn missing_field(key: Seq<char>) -> Fault {
    Fault { kind: ErrorKind::Internal, detail: "Missing field: "@ + key }
}

/// The integer under `key`, if the row holds one there.
pub fn optional_int(row: &Row, key: &str) -> (r: Option<i64>)
    ensures
        r == field_int(row@, key@),
{
    match find_cell(row, key) {
        Some(v) => v.as_i64(),
        None => None,
    }
}

/// The text under `key`; a row without it is faulty.
pub fn required_text(row: &Row, key: &str) -> (r: VibeResult<String>)
    ensures
        match r {
            Ok(text) => field_text(row@, key@) == Some(text@),
            Err(e) => field_text(row@, key@) is None && e@ == missing_field(key@),
        },
{
    let found = match find_cell(row, key) {
        Some(v) => v.as_str(),
        None => None,
    };
    match found {
        Some(text) => Ok(String::from_str(text)),
        None => Err(VibeError::Internal(String::from_str("Missing field: ").concat(key))),
    }
}

/// The integer under `key`; a row without it is faulty.
pub fn required_int(row: &Row, key: &str) -> (r: VibeResult<i64>)
    ensures
        match r {
            Ok(v) => field_int(row@, key@) == Some(v),
            Err(e) => field_int(row@, key@) is None && e@ == missing_field(key@),
        },
{
    match optional_int(row, key) {
        Some(v) => Ok(v),
        None => Err(VibeError::Internal(String::from_str("Missing field: ").concat(key))),
    }
}

/// A stored text may be serialized JSON: it opens with a brace or a bracket.
pub open spec fn may_be_json(text: Seq<char>) -> bool {
    begins_with("{"@, text) || begins_with("["@, text)
}

/// Tells whether a text read from a row is worth parsing as JSON.
pub fn looks_like_json(text: &str) -> (r: bool)
    ensures
        r == may_be_json(text@),
{
    starts_with_text(text, "{") || starts_with_text(text, "[")
}

} // verus!
