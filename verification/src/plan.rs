//! What the guard decides: for each operation, the plan that follows from
//! the cache, the request and the event, as a mathematical function.
//!
//! The executable steps of the guard are proved to follow these plans, and
//! the laws of the guard are stated over them.

use vstd::prelude::*;
use crate::engine::{
    alter_statement, count_statement, counted_rows, create_statement, describe_statement,
    described_columns, EngineEvent, Step,
};
use crate::error::{ErrorKind, Fault};
use crate::guard::{column_names, column_specs, ColumnSpec, TableStatsSpec};
use crate::identifier::{identifier_fault, is_valid_identifier};
use crate::inference::{not_an_object, shape_of, ColumnShape};
use crate::json::{JsonField, JsonValue};
use crate::text::{decimal, string_views};

verus! {

/// The most columns a table may have.
pub const MAX_COLUMNS_PER_TABLE: usize = 1000;

/// The cached schemas: each table's name with its columns.
pub type Schemas = Map<Seq<char>, Seq<ColumnSpec>>;

/// What an [`EngineEvent`] says, with the rows read.
pub ghost enum EventSpec {
    Begin,
    Described(Seq<ColumnSpec>),
    Applied,
    Counted(Seq<ColumnSpec>, u64),
    QueryFailed(Seq<char>),
    ApplyFailed(Seq<char>),
}

impl View for EngineEvent {
    type V = EventSpec;

    open spec fn view(&self) -> EventSpec {
        match *self {
            EngineEvent::Begin => EventSpec::Begin,
            EngineEvent::Described(rows) => EventSpec::Described(described_columns(rows@)),
            EngineEvent::Applied => EventSpec::Applied,
            EngineEvent::Counted(columns, rows) => EventSpec::Counted(
                column_specs(columns@),
                counted_rows(rows@),
            ),
            EngineEvent::QueryFailed(m) => EventSpec::QueryFailed(m@),
            EngineEvent::ApplyFailed(m) => EventSpec::ApplyFailed(m@),
        }
    }
}

/// What the guard decides to do next; `R` is what the operation returns.
pub ghost enum Plan<R> {
    /// Ask the catalog for the columns of the table.
    Describe(Seq<char>),
    /// Create the table with the base columns.
    Create(Seq<char>),
    /// Add these columns to the table, all or none.
    AddColumns(Seq<char>, Seq<ColumnShape>),
    /// Count the rows of the table, whose columns are these.
    Count(Seq<char>, Seq<ColumnSpec>),
    /// End with this result.
    Done(Result<R, Fault>),
}

/// The statements that add `columns` to `table`, one for each column.
pub open spec fn alter_statements(table: Seq<char>, columns: Seq<ColumnShape>) -> Seq<Seq<char>> {
    columns.map_values(|c: ColumnShape| alter_statement(table, c.name, c.sqlite_type))
}

/// `step` asks for what `plan` decides; where the plan ends well, the step
/// ends well too, with a value that the operation's own contract describes.
pub open spec fn follows<T, R>(step: Step<T>, plan: Plan<R>) -> bool {
    match plan {
        Plan::Describe(t) => step matches Step::Describe(q) && q@ == describe_statement(t),
        Plan::Create(t) => step matches Step::Apply(s) && string_views(s@) == seq![create_statement(t)],
        Plan::AddColumns(t, columns) => step matches Step::Apply(s) && string_views(s@)
            == alter_statements(t, columns),
        Plan::Count(t, columns) => step matches Step::Count(q, c) && q@ == count_statement(t)
            && column_specs(c@) == columns,
        Plan::Done(Err(fault)) => step matches Step::Done(Err(e)) && e@ == fault,
        Plan::Done(Ok(_)) => step matches Step::Done(Ok(_)),
    }
}

/// The cache knows `table`: it holds at least one column for it.
pub open spec fn knows(cache: Schemas, table: Seq<char>) -> bool {
    cache.contains_key(table) && cache[table].len() > 0
}

/// The cache after it has learned what the catalog says of `table`:
/// columns are kept, an empty answer is not.
pub open spec fn learned(cache: Schemas, table: Seq<char>, columns: Seq<ColumnSpec>) -> Schemas {
    if columns.len() > 0 {
        cache.insert(table, columns)
    } else {
        cache
    }
}

/// The fault for an event that the operation never asked for.
pub open spec fn out_of_turn() -> Fault {
    Fault { kind: ErrorKind::Internal, detail: "Unexpected storage engine event"@ }
}

/// The fault for a name that is no valid identifier.
pub open spec fn bad_identifier(name: Seq<char>) -> Fault {
    Fault { kind: ErrorKind::InvalidIdentifier, detail: identifier_fault(name) }
}

/// The engine's message says that a column to add exists already.
pub open spec fn tells_duplicate_column(message: Seq<char>) -> bool {
    crate::text::occurs_in("duplicate column name"@, message)
}

// ---------------------------------------------------------------------------
// ensure_table
// ---------------------------------------------------------------------------

/// What `ensure_table` decides.
pub open spec fn table_plan(cache: Schemas, table: Seq<char>, event: EventSpec) -> Plan<()> {
    if !is_valid_identifier(table) {
        Plan::Done(Err(bad_identifier(table)))
    } else {
        match event {
            EventSpec::Begin => if knows(cache, table) {
                Plan::Done(Ok(()))
            } else {
                Plan::Describe(table)
            },
            EventSpec::Described(columns) => if columns.len() > 0 {
                Plan::Done(Ok(()))
            } else {
                Plan::Create(table)
            },
            EventSpec::Applied => Plan::Done(Ok(())),
            EventSpec::QueryFailed(m) => Plan::Done(
                Err(Fault { kind: ErrorKind::Database, detail: m }),
            ),
            EventSpec::ApplyFailed(m) => Plan::Done(
                Err(Fault { kind: ErrorKind::Database, detail: m }),
            ),
            EventSpec::Counted(_, _) => Plan::Done(Err(out_of_turn())),
        }
    }
}

/// The cache after a step of `ensure_table`.
pub open spec fn table_cache(cache: Schemas, table: Seq<char>, event: EventSpec) -> Schemas {
    if !is_valid_identifier(table) {
        cache
    } else {
        match event {
            EventSpec::Described(columns) => learned(cache, table, columns),
            EventSpec::Applied => cache.remove(table),
            _ => cache,
        }
    }
}

// ---------------------------------------------------------------------------
// ensure_columns
// ---------------------------------------------------------------------------

/// How many members at the start of `fields` have a valid key.
pub open spec fn leading_valid_keys(fields: Seq<JsonField>) -> int
    decreases fields.len(),
{
    if fields.len() == 0 {
        0
    } else if !is_valid_identifier(fields[0].key@) {
        0
    } else {
        1 + leading_valid_keys(fields.drop_first())
    }
}

/// The members before `leading_valid_keys` have valid keys, and the member
/// at it, if there is one, has not.
pub proof fn lemma_leading_valid_keys(fields: Seq<JsonField>)
    ensures
        0 <= leading_valid_keys(fields) <= fields.len(),
        forall|i: int|
            0 <= i < leading_valid_keys(fields) ==> is_valid_identifier(#[trigger] fields[i].key@),
        leading_valid_keys(fields) < fields.len() ==> !is_valid_identifier(
            fields[leading_valid_keys(fields)].key@,
        ),
        leading_valid_keys(fields) == fields.len() <==> all_keys_valid(fields),
    decreases fields.len(),
{
    if fields.len() == 0 {
    } else if !is_valid_identifier(fields[0].key@) {
    } else {
        let rest = fields.drop_first();
        lemma_leading_valid_keys(rest);
        let p = leading_valid_keys(rest);
        assert forall|i: int| 0 <= i < 1 + p implies is_valid_identifier(
            #[trigger] fields[i].key@,
        ) by {
            if i > 0 {
                assert(fields[i] == rest[i - 1]);
            }
        }
        if p < rest.len() {
            assert(fields[1 + p] == rest[p]);
        }
        if all_keys_valid(fields) {
            assert forall|i: int| 0 <= i < rest.len() implies is_valid_identifier(
                #[trigger] rest[i].key@,
            ) by {
                assert(rest[i] == fields[i + 1]);
            }
        }
    }
}

/// The count of leading valid keys is the only index with valid keys before
/// it and none at it.
pub proof fn lemma_leading_valid_keys_unique(fields: Seq<JsonField>, p: int)
    requires
        0 <= p <= fields.len(),
        forall|i: int| 0 <= i < p ==> is_valid_identifier(#[trigger] fields[i].key@),
        p < fields.len() ==> !is_valid_identifier(fields[p].key@),
    ensures
        leading_valid_keys(fields) == p,
{
    lemma_leading_valid_keys(fields);
    let q = leading_valid_keys(fields);
    if q < p {
        assert(is_valid_identifier(fields[q].key@));
    } else if p < q {
        assert(is_valid_identifier(fields[p].key@));
    }
}

/// Every key of `fields` is a valid identifier.
pub open spec fn all_keys_valid(fields: Seq<JsonField>) -> bool {
    forall|i: int| 0 <= i < fields.len() ==> is_valid_identifier(#[trigger] fields[i].key@)
}

/// The columns that `fields` asks for and the table does not have: one for
/// each member whose value is not null and whose key is not among `existing`.
pub open spec fn missing_columns(existing: Seq<Seq<char>>, fields: Seq<JsonField>) -> Seq<
    ColumnShape,
>
    decreases fields.len(),
{
    if fields.len() == 0 {
        Seq::empty()
    } else if fields.last().value is Null || existing.contains(fields.last().key@) {
        missing_columns(existing, fields.drop_last())
    } else {
        missing_columns(existing, fields.drop_last()).push(shape_of(fields.last()))
    }
}

/// The name belongs to a column that the store fills in itself.
pub open spec fn is_system_column(name: Seq<char>) -> bool {
    name == "id"@ || name == "created_at"@ || name == "updated_at"@
}

/// The columns to write a row of `fields` into: the keys whose value is not
/// null, without the system columns, in the members' order.
pub open spec fn insertable_columns(fields: Seq<JsonField>) -> Seq<Seq<char>>
    decreases fields.len(),
{
    if fields.len() == 0 {
        Seq::empty()
    } else if fields.last().value is Null || is_system_column(fields.last().key@) {
        insertable_columns(fields.drop_last())
    } else {
        insertable_columns(fields.drop_last()).push(fields.last().key@)
    }
}

/// The text of the error for a table that would grow past the limit.
pub open spec fn limit_fault(table: Seq<char>, existing: nat, new: nat) -> Seq<char> {
    "Table '"@ + table + "' would exceed "@ + decimal(MAX_COLUMNS_PER_TABLE as nat)
        + " column limit ("@ + decimal(existing) + " existing + "@ + decimal(new) + " new = "@
        + decimal(existing + new) + ")"@
}

/// The fault that rejects the request before anything is asked of the
/// engine: a payload that is no object, a table name or a key that is no
/// valid identifier. The first key that is not valid is the one named.
pub open spec fn request_fault(table: Seq<char>, payload: JsonValue) -> Option<Fault> {
    match payload {
        JsonValue::Object(o) => {
            let fields = o.fields@;
            let first_bad = leading_valid_keys(fields);
            if !is_valid_identifier(table) {
                Some(bad_identifier(table))
            } else if first_bad < fields.len() {
                Some(bad_identifier(fields[first_bad].key@))
            } else {
                None
            }
        },
        _ => Some(Fault { kind: ErrorKind::InvalidPayload, detail: not_an_object() }),
    }
}

/// What `ensure_columns` decides once it knows the table's `current` columns.
pub open spec fn migration_plan(
    table: Seq<char>,
    current: Seq<ColumnSpec>,
    fields: Seq<JsonField>,
) -> Plan<Seq<Seq<char>>> {
    let new = missing_columns(column_names(current), fields);
    if current.len() + new.len() > MAX_COLUMNS_PER_TABLE {
        Plan::Done(
            Err(
                Fault {
                    kind: ErrorKind::ColumnLimitExceeded,
                    detail: limit_fault(table, current.len(), new.len()),
                },
            ),
        )
    } else if new.len() > 0 {
        Plan::AddColumns(table, new)
    } else {
        Plan::Done(Ok(insertable_columns(fields)))
    }
}

/// What `ensure_columns` decides.
pub open spec fn columns_plan(
    cache: Schemas,
    table: Seq<char>,
    payload: JsonValue,
    event: EventSpec,
) -> Plan<Seq<Seq<char>>> {
    match request_fault(table, payload) {
        Some(fault) => Plan::Done(Err(fault)),
        None => {
            let fields = payload->Object_0.fields@;
            match event {
                EventSpec::Begin => if knows(cache, table) {
                    migration_plan(table, cache[table], fields)
                } else {
                    Plan::Describe(table)
                },
                EventSpec::Described(columns) => migration_plan(table, columns, fields),
                EventSpec::Applied => Plan::Done(Ok(insertable_columns(fields))),
                EventSpec::ApplyFailed(m) => if tells_duplicate_column(m) {
                    Plan::Done(Ok(insertable_columns(fields)))
                } else {
                    Plan::Done(Err(Fault { kind: ErrorKind::MigrationFailed, detail: m }))
                },
                EventSpec::QueryFailed(m) => Plan::Done(
                    Err(Fault { kind: ErrorKind::Database, detail: m }),
                ),
                EventSpec::Counted(_, _) => Plan::Done(Err(out_of_turn())),
            }
        },
    }
}

/// The cache after a step of `ensure_columns`.
pub open spec fn columns_cache(
    cache: Schemas,
    table: Seq<char>,
    payload: JsonValue,
    event: EventSpec,
) -> Schemas {
    if request_fault(table, payload) is Some {
        cache
    } else {
        match event {
            EventSpec::Described(columns) => learned(cache, table, columns),
            EventSpec::Applied => cache.remove(table),
            EventSpec::ApplyFailed(m) => if tells_duplicate_column(m) {
                cache.remove(table)
            } else {
                cache
            },
            _ => cache,
        }
    }
}

// ---------------------------------------------------------------------------
// get_table_stats
// ---------------------------------------------------------------------------

/// What `get_table_stats` decides.
pub open spec fn stats_plan(cache: Schemas, table: Seq<char>, event: EventSpec) -> Plan<
    TableStatsSpec,
> {
    if !is_valid_identifier(table) {
        Plan::Done(Err(bad_identifier(table)))
    } else {
        match event {
            EventSpec::Begin => if knows(cache, table) {
                Plan::Count(table, cache[table])
            } else {
                Plan::Describe(table)
            },
            EventSpec::Described(columns) => if columns.len() > 0 {
                Plan::Count(table, columns)
            } else {
                Plan::Done(Err(Fault { kind: ErrorKind::TableNotFound, detail: table }))
            },
            EventSpec::Counted(columns, rows) => Plan::Done(
                Ok(
                    TableStatsSpec {
                        name: table,
                        column_count: columns.len(),
                        row_count: rows,
                        columns: columns,
                    },
                ),
            ),
            EventSpec::QueryFailed(m) => Plan::Done(
                Err(Fault { kind: ErrorKind::Database, detail: m }),
            ),
            EventSpec::Applied => Plan::Done(Err(out_of_turn())),
            EventSpec::ApplyFailed(_) => Plan::Done(Err(out_of_turn())),
        }
    }
}

/// The cache after a step of `get_table_stats`.
pub open spec fn stats_cache(cache: Schemas, table: Seq<char>, event: EventSpec) -> Schemas {
    if !is_valid_identifier(table) {
        cache
    } else {
        match event {
            EventSpec::Described(columns) => learned(cache, table, columns),
            _ => cache,
        }
    }
}

} // verus!
