//! The guard's side of the storage engine: what it asks for, what it is
//! told, and how it reads the rows that come back.
//!
//! The guard never runs a statement itself. Each of its operations is a step
//! from an event to the next thing to do; the caller runs the statement and
//! comes back with the engine's answer.

use vstd::prelude::*;
use vstd::string::*;
use crate::error::VibeResult;
use crate::guard::{column_specs, ColumnInfo, ColumnSpec, SchemaGuard};
use crate::inference::SqliteType;
use crate::json::{position_of, JsonValue};

verus! {

/// One row of a query result: each column's name with its value.
pub type Row = Vec<(String, JsonValue)>;

/// What the caller reports to the guard.
#[derive(Debug)]
pub enum EngineEvent {
    /// Nothing has been asked of the engine yet.
    Begin,
    /// The catalog query returned these rows.
    Described(Vec<Row>),
    /// The statements were applied, all of them.
    Applied,
    /// The row count query returned these rows; with it come back the columns
    /// that were handed out with the query.
    Counted(Vec<ColumnInfo>, Vec<Row>),
    /// A query failed, with the engine's message.
    QueryFailed(String),
    /// The statements failed, with the engine's message; none was applied.
    ApplyFailed(String),
}

/// What the guard wants done next.
#[derive(Debug)]
pub enum Step<T> {
    /// Run this catalog query and report `Described`.
    Describe(String),
    /// Run these statements as one atomic unit and report `Applied`.
    Apply(Vec<String>),
    /// Run this row count query and report `Counted` with these columns.
    Count(String, Vec<ColumnInfo>),
    /// The operation has ended with this result.
    Done(VibeResult<T>),
}

/// The statement that asks the catalog for the columns of `table`.
pub open spec fn describe_statement(table: Seq<char>) -> Seq<char> {
    "PRAGMA table_info("@ + table + ")"@
}

/// The statement that creates `table` with the base columns, unless it exists.
pub open spec fn create_statement(table: Seq<char>) -> Seq<char> {
    "CREATE TABLE IF NOT EXISTS "@ + table
        + " (\n                id INTEGER PRIMARY KEY AUTOINCREMENT,\n                created_at DATETIME DEFAULT CURRENT_TIMESTAMP,\n                updated_at DATETIME DEFAULT CURRENT_TIMESTAMP\n            )"@
}

/// The statement that adds the nullable column `column` of type `ty` to `table`.
pub open spec fn alter_statement(table: Seq<char>, column: Seq<char>, ty: SqliteType) -> Seq<char> {
    "ALTER TABLE "@ + table + " ADD COLUMN "@ + column + " "@ + ty.sql_name() + " DEFAULT NULL"@
}

/// The statement that counts the rows of `table`.
pub open spec fn count_statement(table: Seq<char>) -> Seq<char> {
    "SELECT COUNT(*) as count FROM "@ + table
}

pub fn build_describe_statement(table: &str) -> (r: String)
    ensures
        r@ == describe_statement(table@),
{
    String::from_str("PRAGMA table_info(").concat(table).concat(")")
}

pub fn build_create_statement(table: &str) -> (r: String)
    ensures
        r@ == create_statement(table@),
{
    String::from_str("CREATE TABLE IF NOT EXISTS ").concat(table).concat(
        " (\n                id INTEGER PRIMARY KEY AUTOINCREMENT,\n                created_at DATETIME DEFAULT CURRENT_TIMESTAMP,\n                updated_at DATETIME DEFAULT CURRENT_TIMESTAMP\n            )",
    )
}

pub fn build_alter_statement(table: &str, column: &str, ty: SqliteType) -> (r: String)
    ensures
        r@ == alter_statement(table@, column@, ty),
{
    String::from_str("ALTER TABLE ").concat(table).concat(" ADD COLUMN ").concat(column).concat(
        " ",
    ).concat(ty.as_sql()).concat(" DEFAULT NULL")
}

pub fn build_count_statement(table: &str) -> (r: String)
    ensures
        r@ == count_statement(table@),
{
    String::from_str("SELECT COUNT(*) as count FROM ").concat(table)
}

/// The column names of a row, in order.
pub open spec fn row_keys(row: Seq<(String, JsonValue)>) -> Seq<Seq<char>> {
    row.map_values(|e: (String, JsonValue)| e.0@)
}

/// The value of the first cell of `row` under the column `key`.
pub open spec fn cell(row: Seq<(String, JsonValue)>, key: Seq<char>) -> Option<JsonValue> {
    let p = position_of(row_keys(row), key);
    if p < row.len() {
        Some(row[p].1)
    } else {
        None
    }
}

/// The text in the cell under `key`; empty where the cell is missing or holds no text.
pub open spec fn cell_text(row: Seq<(String, JsonValue)>, key: Seq<char>) -> Seq<char> {
    match cell(row, key) {
        Some(v) => match v.text() {
            Some(t) => t,
            None => Seq::empty(),
        },
        None => Seq::empty(),
    }
}

/// The cell under `key` holds an integer other than zero.
pub open spec fn cell_flag(row: Seq<(String, JsonValue)>, key: Seq<char>) -> bool {
    match cell(row, key) {
        Some(v) => match v.int_value() {
            Some(i) => i != 0,
            None => false,
        },
        None => false,
    }
}

/// The column that one row of the catalog query describes.
pub open spec fn described_column(row: Seq<(String, JsonValue)>) -> ColumnSpec {
    ColumnSpec {
        name: cell_text(row, "name"@),
        col_type: cell_text(row, "type"@),
        notnull: cell_flag(row, "notnull"@),
        pk: cell_flag(row, "pk"@),
    }
}

/// The columns that the rows of the catalog query describe: one for each row
/// that names its column, in the rows' order.
pub open spec fn described_columns(rows: Seq<Row>) -> Seq<ColumnSpec>
    decreases rows.len(),
{
    if rows.len() == 0 {
        Seq::empty()
    } else if described_column(rows.last()@).name.len() == 0 {
        described_columns(rows.drop_last())
    } else {
        described_columns(rows.drop_last()).push(described_column(rows.last()@))
    }
}

/// The count that the rows of the row count query hold: the integer in the
/// first cell of the first row, read as unsigned; zero where there is none.
pub open spec fn counted_rows(rows: Seq<Row>) -> u64 {
    if rows.len() == 0 || rows[0]@.len() == 0 {
        0
    } else {
        match rows[0]@[0].1.int_value() {
            Some(v) => v as u64,
            None => 0,
        }
    }
}

/// The first cell of `row` under the column `key`.
pub fn find_cell<'a>(row: &'a Row, key: &str) -> (r: Option<&'a JsonValue>)
    ensures
        match r {
            Some(v) => cell(row@, key@) == Some(*v),
            None => cell(row@, key@) is None,
        },
{
    let mut i: usize = 0;
    while i < row.len()
        invariant
            0 <= i <= row@.len(),
            forall|j: int| 0 <= j < i ==> row_keys(row@)[j] != key@,
        decreases row@.len() - i,
    {
        if *row[i].0.as_str() == *key {
            proof {
                assert(row_keys(row@)[i as int] == key@);
                crate::json::lemma_position_unique(row_keys(row@), key@, i as int);
            }
            return Some(&row[i].1);
        }
        proof {
            assert(row_keys(row@)[i as int] != key@);
        }
        i = i + 1;
    }
    proof {
        crate::json::lemma_position_unique(row_keys(row@), key@, row@.len() as int);
    }
    None
}

/// The text in the cell under `key`.
fn read_text(row: &Row, key: &str) -> (r: String)
    ensures
        r@ == cell_text(row@, key@),
{
    match find_cell(row, key) {
        Some(v) => match v.as_str() {
            Some(t) => String::from_str(t),
            None => String::new(),
        },
        None => String::new(),
    }
}

/// Whether the cell under `key` holds an integer other than zero.
fn read_flag(row: &Row, key: &str) -> (r: bool)
    ensures
        r == cell_flag(row@, key@),
{
    match find_cell(row, key) {
        Some(v) => match v.as_i64() {
            Some(i) => i != 0,
            None => false,
        },
        None => false,
    }
}

impl SchemaGuard {
    /// Reads the columns of a table from the rows of the catalog query: the
    /// texts under `name` and `type`, the flags under `notnull` and `pk`. A row
    /// that names no column is passed over.
    pub fn fetch_table_info(rows: &Vec<Row>) -> (r: Vec<ColumnInfo>)
        ensures
            column_specs(r@) == described_columns(rows@),
    {
        let mut columns: Vec<ColumnInfo> = Vec::new();
        let mut i: usize = 0;
        while i < rows.len()
            invariant
                0 <= i <= rows@.len(),
                column_specs(columns@) == described_columns(rows@.take(i as int)),
            decreases rows@.len() - i,
        {
            let row = &rows[i];
            let name = read_text(row, "name");
            let col_type = read_text(row, "type");
            let notnull = read_flag(row, "notnull");
            let pk = read_flag(row, "pk");
            proof {
                let next = rows@.take(i + 1);
                assert(next.drop_last() =~= rows@.take(i as int));
                assert(next.last() == rows@[i as int]);
            }
            if name.as_str().unicode_len() != 0 {
                let ghost before = columns@;
                let column = ColumnInfo { name, col_type, notnull, pk };
                columns.push(column);
                proof {
                    assert(column_specs(columns@) =~= column_specs(before).push(column@));
                }
            }
            i = i + 1;
        }
        proof {
            assert(rows@.take(i as int) =~= rows@);
        }
        columns
    }
}

/// Reads the row count from the rows of the row count query.
pub fn read_count(rows: &Vec<Row>) -> (r: u64)
    ensures
        r == counted_rows(rows@),
{
    if rows.len() == 0 || rows[0].len() == 0 {
        return 0;
    }
    match rows[0][0].1.as_i64() {
        Some(v) => #[verifier::truncate]
        (v as u64),
        None => 0,
    }
}

} // verus!
