//! A model of the storage engine, and what the guard's operations come to
//! when they run against it.
//!
//! The model is the catalog alone: each table's name with its columns. It
//! answers a catalog query with the table's columns, creates a table with
//! the base columns unless the table has columns already, and adds columns
//! all or none: a batch that names a column twice, or one that the table
//! has, fails and changes nothing.

use vstd::prelude::*;
use crate::error::{ErrorKind, Fault};
use crate::guard::{column_names, ColumnSpec, TableStatsSpec};
use crate::identifier::is_valid_identifier;
use crate::inference::{shape_names, ColumnShape};
use crate::json::{distinct_keys, field_keys, JsonField, JsonValue};
use crate::plan::{
    all_keys_valid, columns_cache, columns_plan, insertable_columns, knows,
    lemma_leading_valid_keys, limit_fault, migration_plan, missing_columns, request_fault,
    stats_cache, stats_plan, table_cache, table_plan, tells_duplicate_column, EventSpec, Plan,
    Schemas, MAX_COLUMNS_PER_TABLE,
};
use crate::text::occurs_at;

verus! {

/// The engine's catalog: each table's name with its columns.
pub type Catalog = Map<Seq<char>, Seq<ColumnSpec>>;

/// The columns of `table`; none where the catalog has no such table.
pub open spec fn catalog_columns(catalog: Catalog, table: Seq<char>) -> Seq<ColumnSpec> {
    if catalog.contains_key(table) {
        catalog[table]
    } else {
        Seq::empty()
    }
}

/// The columns of a table that was just created.
pub open spec fn base_columns() -> Seq<ColumnSpec> {
    seq![
        ColumnSpec { name: "id"@, col_type: "INTEGER"@, notnull: false, pk: true },
        ColumnSpec { name: "created_at"@, col_type: "DATETIME"@, notnull: false, pk: false },
        ColumnSpec { name: "updated_at"@, col_type: "DATETIME"@, notnull: false, pk: false },
    ]
}

/// The catalog's description of a column that was added on demand.
pub open spec fn added_column(shape: ColumnShape) -> ColumnSpec {
    ColumnSpec {
        name: shape.name,
        col_type: shape.sqlite_type.sql_name(),
        notnull: false,
        pk: false,
    }
}

/// The catalog's descriptions of columns that were added on demand.
pub open spec fn added_columns(shapes: Seq<ColumnShape>) -> Seq<ColumnSpec> {
    shapes.map_values(|c: ColumnShape| added_column(c))
}

/// The engine can add `columns` to `table`: the table exists, no column is
/// named twice, and none has the name of a column that the table has.
pub open spec fn can_add(catalog: Catalog, table: Seq<char>, columns: Seq<ColumnShape>) -> bool {
    &&& catalog_columns(catalog, table).len() > 0
    &&& distinct_keys(shape_names(columns))
    &&& forall|i: int|
        0 <= i < columns.len() ==> !column_names(catalog_columns(catalog, table)).contains(
            #[trigger] shape_names(columns)[i],
        )
}

/// The engine's message for a column that exists already.
pub open spec fn duplicate_column_message() -> Seq<char> {
    "duplicate column name"@
}

/// The engine's message for a table that does not exist.
pub open spec fn no_such_table_message() -> Seq<char> {
    "no such table"@
}

/// The catalog after the engine has done what `plan` asks for.
pub open spec fn engine_catalog<R>(catalog: Catalog, plan: Plan<R>) -> Catalog {
    match plan {
        Plan::Create(t) => if catalog_columns(catalog, t).len() > 0 {
            catalog
        } else {
            catalog.insert(t, base_columns())
        },
        Plan::AddColumns(t, columns) => if can_add(catalog, t, columns) {
            catalog.insert(t, catalog_columns(catalog, t) + added_columns(columns))
        } else {
            catalog
        },
        _ => catalog,
    }
}

/// The engine's answer to what `plan` asks for; `rows` is the row count of
/// the table asked about.
pub open spec fn engine_event<R>(catalog: Catalog, rows: u64, plan: Plan<R>) -> EventSpec {
    match plan {
        Plan::Describe(t) => EventSpec::Described(catalog_columns(catalog, t)),
        Plan::Create(_) => EventSpec::Applied,
        Plan::AddColumns(t, columns) => if can_add(catalog, t, columns) {
            EventSpec::Applied
        } else if catalog_columns(catalog, t).len() == 0 {
            EventSpec::ApplyFailed(no_such_table_message())
        } else {
            EventSpec::ApplyFailed(duplicate_column_message())
        },
        Plan::Count(_, columns) => EventSpec::Counted(columns, rows),
        Plan::Done(_) => EventSpec::Begin,
    }
}

/// How a run ended: the cache, the catalog, and the operation's result.
/// The result is `None` where the run was cut short.
pub ghost struct Outcome<R> {
    pub cache: Schemas,
    pub catalog: Catalog,
    pub result: Option<Result<R, Fault>>,
}

/// The cache agrees with the catalog: what it holds for a table is what the
/// catalog holds.
pub open spec fn coherent(cache: Schemas, catalog: Catalog) -> bool {
    forall|t: Seq<char>| #[trigger]
        cache.contains_key(t) ==> cache[t] == catalog_columns(catalog, t)
}

/// `ensure_table` run to its end against the model engine.
pub open spec fn ensure_table_run(cache: Schemas, catalog: Catalog, table: Seq<char>) -> Outcome<
    (),
> {
    let p0 = table_plan(cache, table, EventSpec::Begin);
    let c0 = table_cache(cache, table, EventSpec::Begin);
    match p0 {
        Plan::Done(r) => Outcome { cache: c0, catalog: catalog, result: Some(r) },
        _ => {
            let e1 = engine_event(catalog, 0, p0);
            let k1 = engine_catalog(catalog, p0);
            let p1 = table_plan(c0, table, e1);
            let c1 = table_cache(c0, table, e1);
            match p1 {
                Plan::Done(r) => Outcome { cache: c1, catalog: k1, result: Some(r) },
                _ => {
                    let e2 = engine_event(k1, 0, p1);
                    let k2 = engine_catalog(k1, p1);
                    let p2 = table_plan(c1, table, e2);
                    let c2 = table_cache(c1, table, e2);
                    match p2 {
                        Plan::Done(r) => Outcome { cache: c2, catalog: k2, result: Some(r) },
                        _ => Outcome { cache: c2, catalog: k2, result: None },
                    }
                },
            }
        },
    }
}

/// `ensure_columns` run to its end against the model engine.
pub open spec fn ensure_columns_run(
    cache: Schemas,
    catalog: Catalog,
    table: Seq<char>,
    payload: JsonValue,
) -> Outcome<Seq<Seq<char>>> {
    let p0 = columns_plan(cache, table, payload, EventSpec::Begin);
    let c0 = columns_cache(cache, table, payload, EventSpec::Begin);
    match p0 {
        Plan::Done(r) => Outcome { cache: c0, catalog: catalog, result: Some(r) },
        _ => {
            let e1 = engine_event(catalog, 0, p0);
            let k1 = engine_catalog(catalog, p0);
            let p1 = columns_plan(c0, table, payload, e1);
            let c1 = columns_cache(c0, table, payload, e1);
            match p1 {
                Plan::Done(r) => Outcome { cache: c1, catalog: k1, result: Some(r) },
                _ => {
                    let e2 = engine_event(k1, 0, p1);
                    let k2 = engine_catalog(k1, p1);
                    let p2 = columns_plan(c1, table, payload, e2);
                    let c2 = columns_cache(c1, table, payload, e2);
                    match p2 {
                        Plan::Done(r) => Outcome { cache: c2, catalog: k2, result: Some(r) },
                        _ => Outcome { cache: c2, catalog: k2, result: None },
                    }
                },
            }
        },
    }
}

/// `get_table_stats` run to its end against the model engine, for a table
/// that holds `rows` rows.
pub open spec fn table_stats_run(cache: Schemas, catalog: Catalog, table: Seq<char>, rows: u64)
    -> Outcome<TableStatsSpec> {
    let p0 = stats_plan(cache, table, EventSpec::Begin);
    let c0 = stats_cache(cache, table, EventSpec::Begin);
    match p0 {
        Plan::Done(r) => Outcome { cache: c0, catalog: catalog, result: Some(r) },
        _ => {
            let e1 = engine_event(catalog, rows, p0);
            let p1 = stats_plan(c0, table, e1);
            let c1 = stats_cache(c0, table, e1);
            match p1 {
                Plan::Done(r) => Outcome { cache: c1, catalog: catalog, result: Some(r) },
                _ => {
                    let e2 = engine_event(catalog, rows, p1);
                    let p2 = stats_plan(c1, table, e2);
                    let c2 = stats_cache(c1, table, e2);
                    match p2 {
                        Plan::Done(r) => Outcome { cache: c2, catalog: catalog, result: Some(r) },
                        _ => Outcome { cache: c2, catalog: catalog, result: None },
                    }
                },
            }
        },
    }
}

/// `ensure_table` always comes to an end. With a valid name it ends well,
/// and the table then has columns; it keeps the cache in agreement with the
/// catalog and touches no other table.
pub proof fn lemma_ensure_table_run(cache: Schemas, catalog: Catalog, table: Seq<char>)
    requires
        coherent(cache, catalog),
    ensures
        ensure_table_run(cache, catalog, table).result is Some,
        is_valid_identifier(table) <==> ensure_table_run(cache, catalog, table).result == Some(
            Ok::<(), Fault>(()),
        ),
        is_valid_identifier(table) ==> catalog_columns(
            ensure_table_run(cache, catalog, table).catalog,
            table,
        ).len() > 0,
        catalog_columns(catalog, table).len() > 0 || !is_valid_identifier(table)
            ==> ensure_table_run(cache, catalog, table).catalog == catalog,
        catalog_columns(catalog, table).len() == 0 && is_valid_identifier(table)
            ==> ensure_table_run(cache, catalog, table).catalog == catalog.insert(
            table,
            base_columns(),
        ),
        coherent(
            ensure_table_run(cache, catalog, table).cache,
            ensure_table_run(cache, catalog, table).catalog,
        ),
{
    let out = ensure_table_run(cache, catalog, table);
    assert(base_columns().len() == 3);
    if is_valid_identifier(table) {
        if knows(cache, table) {
            assert(cache.contains_key(table));
        } else {
            let columns = catalog_columns(catalog, table);
            if columns.len() > 0 {
                assert(out.cache == cache.insert(table, columns));
            } else {
                assert(out.catalog == catalog.insert(table, base_columns()));
                assert(out.cache == cache.remove(table));
                assert forall|t: Seq<char>| #[trigger]
                    out.cache.contains_key(t) implies out.cache[t] == catalog_columns(
                    out.catalog,
                    t,
                ) by {
                    assert(cache.contains_key(t));
                }
            }
        }
    }
}

/// Idempotence: calling `ensure_table` twice leaves the table, and the whole
/// catalog, as calling it once does; the second call ends as the first did.
pub proof fn lemma_ensure_table_idempotent(cache: Schemas, catalog: Catalog, table: Seq<char>)
    requires
        coherent(cache, catalog),
    ensures
        ({
            let once = ensure_table_run(cache, catalog, table);
            let twice = ensure_table_run(once.cache, once.catalog, table);
            &&& twice.catalog == once.catalog
            &&& twice.result == once.result
        }),
{
    let once = ensure_table_run(cache, catalog, table);
    lemma_ensure_table_run(cache, catalog, table);
    lemma_ensure_table_run(once.cache, once.catalog, table);
}

/// The engine's two messages are told apart: only the one for a column
/// that exists already tells of a duplicate column.
pub proof fn lemma_engine_messages()
    ensures
        tells_duplicate_column(duplicate_column_message()),
        !tells_duplicate_column(no_such_table_message()),
{
    reveal_strlit("duplicate column name");
    reveal_strlit("no such table");
    let needle = "duplicate column name"@;
    assert(needle.subrange(0, needle.len() as int) =~= needle);
    assert(occurs_at(needle, duplicate_column_message(), 0));
    assert forall|at: int| !occurs_at(needle, no_such_table_message(), at) by {}
}

/// What the missing columns are: each is asked for by a member that is not
/// null, none is among the existing names, and every member that is not
/// null either has its column already or is among them. Distinct keys give
/// distinct columns, and valid keys give valid names.
pub proof fn lemma_missing_columns(existing: Seq<Seq<char>>, fields: Seq<JsonField>)
    ensures
        forall|i: int|
            0 <= i < missing_columns(existing, fields).len() ==> {
                let name = #[trigger] shape_names(missing_columns(existing, fields))[i];
                &&& !existing.contains(name)
                &&& field_keys(fields).contains(name)
            },
        forall|i: int|
            0 <= i < fields.len() && !(fields[i].value is Null) ==> existing.contains(
                #[trigger] fields[i].key@,
            ) || shape_names(missing_columns(existing, fields)).contains(fields[i].key@),
        distinct_keys(field_keys(fields)) ==> distinct_keys(
            shape_names(missing_columns(existing, fields)),
        ),
        all_keys_valid(fields) ==> forall|i: int|
            0 <= i < missing_columns(existing, fields).len() ==> is_valid_identifier(
                #[trigger] shape_names(missing_columns(existing, fields))[i],
            ),
        missing_columns(existing, fields).len() <= fields.len(),
    decreases fields.len(),
{
    if fields.len() > 0 {
        let init = fields.drop_last();
        let last = fields.last();
        lemma_missing_columns(existing, init);
        let before = missing_columns(existing, init);
        let now = missing_columns(existing, fields);
        let names = shape_names(now);
        let keys = field_keys(fields);
        assert(keys[fields.len() - 1] == last.key@);
        assert forall|i: int| 0 <= i < now.len() implies {
            let name = #[trigger] names[i];
            &&& !existing.contains(name)
            &&& keys.contains(name)
        } by {
            if i < before.len() {
                let name = shape_names(before)[i];
                assert(names[i] == name);
                let k = choose|k: int| 0 <= k < init.len() && field_keys(init)[k] == name;
                assert(keys[k] == name);
            }
        }
        assert forall|i: int| 0 <= i < fields.len() && !(fields[i].value is Null) implies (
        existing.contains(#[trigger] fields[i].key@) || names.contains(fields[i].key@)) by {
            if i < init.len() {
                assert(init[i] == fields[i]);
                if !existing.contains(fields[i].key@) {
                    let k = choose|k: int|
                        0 <= k < before.len() && shape_names(before)[k] == init[i].key@;
                    assert(names[k] == fields[i].key@);
                }
            } else if !existing.contains(last.key@) {
                assert(names[now.len() - 1] == last.key@);
            }
        }
        if distinct_keys(keys) {
            assert(distinct_keys(field_keys(init))) by {
                assert forall|a: int, b: int| 0 <= a < b < init.len() implies field_keys(init)[a]
                    != field_keys(init)[b] by {
                    assert(keys[a] == field_keys(init)[a]);
                    assert(keys[b] == field_keys(init)[b]);
                }
            }
            assert forall|a: int, b: int| 0 <= a < b < names.len() implies names[a] != names[b] by {
                if b < before.len() {
                    assert(names[a] == shape_names(before)[a]);
                    assert(names[b] == shape_names(before)[b]);
                } else {
                    let name = shape_names(before)[a];
                    assert(names[a] == name);
                    let k = choose|k: int| 0 <= k < init.len() && field_keys(init)[k] == name;
                    assert(keys[k] == name);
                }
            }
        }
        if all_keys_valid(fields) {
            assert(all_keys_valid(init)) by {
                assert forall|i: int| 0 <= i < init.len() implies is_valid_identifier(
                    #[trigger] init[i].key@,
                ) by {
                    assert(init[i] == fields[i]);
                }
            }
            assert forall|i: int| 0 <= i < now.len() implies is_valid_identifier(
                #[trigger] names[i],
            ) by {
                if i < before.len() {
                    assert(names[i] == shape_names(before)[i]);
                }
            }
        }
    }
}

/// A document whose values are all null asks for no column and has nothing
/// to insert.
pub proof fn lemma_null_document(existing: Seq<Seq<char>>, fields: Seq<JsonField>)
    requires
        forall|i: int| 0 <= i < fields.len() ==> (#[trigger] fields[i]).value is Null,
    ensures
        missing_columns(existing, fields) == Seq::<ColumnShape>::empty(),
        insertable_columns(fields) == Seq::<Seq<char>>::empty(),
    decreases fields.len(),
{
    if fields.len() > 0 {
        let init = fields.drop_last();
        assert forall|i: int| 0 <= i < init.len() implies (#[trigger] init[i]).value is Null by {
            assert(init[i] == fields[i]);
        }
        lemma_null_document(existing, init);
        assert(fields.last() == fields[fields.len() - 1]);
    }
}

/// The columns of `table` once the columns that `fields` asks for have been
/// added to the catalog's.
pub open spec fn widened_columns(catalog: Catalog, table: Seq<char>, fields: Seq<JsonField>) -> Seq<
    ColumnSpec,
> {
    let current = catalog_columns(catalog, table);
    current + added_columns(missing_columns(column_names(current), fields))
}

/// `ensure_columns` on an existing table, for a request that passes the
/// checks: it always comes to an end. Where the table would pass the limit
/// it is refused and nothing changes. Otherwise it ends well with the
/// insertable columns, the table holds its old columns followed by the
/// missing ones, no other table is touched, and the cache agrees with the
/// catalog.
pub proof fn lemma_ensure_columns_run(
    cache: Schemas,
    catalog: Catalog,
    table: Seq<char>,
    payload: JsonValue,
)
    requires
        coherent(cache, catalog),
        request_fault(table, payload) is None,
        payload->Object_0.wf(),
        catalog_columns(catalog, table).len() > 0,
    ensures
        ({
            let fields = payload->Object_0.fields@;
            let current = catalog_columns(catalog, table);
            let new = missing_columns(column_names(current), fields);
            let out = ensure_columns_run(cache, catalog, table, payload);
            &&& coherent(out.cache, out.catalog)
            &&& if current.len() + new.len() > MAX_COLUMNS_PER_TABLE {
                &&& out.catalog == catalog
                &&& out.result == Some(
                    Err::<Seq<Seq<char>>, Fault>(
                        Fault {
                            kind: ErrorKind::ColumnLimitExceeded,
                            detail: limit_fault(table, current.len(), new.len()),
                        },
                    ),
                )
            } else {
                &&& out.result == Some(Ok::<Seq<Seq<char>>, Fault>(insertable_columns(fields)))
                &&& out.catalog == if new.len() > 0 {
                    catalog.insert(table, widened_columns(catalog, table, fields))
                } else {
                    catalog
                }
                &&& new.len() > 0 ==> !out.cache.contains_key(table)
            }
        }),
{
    let fields = payload->Object_0.fields@;
    let current = catalog_columns(catalog, table);
    let new = missing_columns(column_names(current), fields);
    let out = ensure_columns_run(cache, catalog, table, payload);
    lemma_missing_columns(column_names(current), fields);
    lemma_engine_messages();
    assert(can_add(catalog, table, new));
    if knows(cache, table) {
        assert(cache.contains_key(table));
        assert(cache[table] == current);
    } else {
        assert(coherent(cache.insert(table, current), catalog));
    }
    if current.len() + new.len() <= MAX_COLUMNS_PER_TABLE && new.len() > 0 {
        let k = catalog.insert(table, widened_columns(catalog, table, fields));
        assert(out.catalog == k);
        assert forall|t: Seq<char>| #[trigger] out.cache.contains_key(t) implies out.cache[t]
            == catalog_columns(out.catalog, t) by {
            assert(t != table);
            assert(cache.contains_key(t));
        }
    }
}

/// Null handling: a document whose values are all null adds no column to
/// a table, fresh or not, and has no column to insert into. (A table that
/// is past the limit already is refused whatever the document holds.)
pub proof fn lemma_null_document_changes_nothing(
    cache: Schemas,
    catalog: Catalog,
    table: Seq<char>,
    payload: JsonValue,
)
    requires
        coherent(cache, catalog),
        request_fault(table, payload) is None,
        catalog_columns(catalog, table).len() <= MAX_COLUMNS_PER_TABLE,
        forall|i: int|
            0 <= i < payload->Object_0.fields@.len() ==> (
            #[trigger] payload->Object_0.fields@[i]).value is Null,
    ensures
        ensure_columns_run(cache, catalog, table, payload).catalog == catalog,
        ensure_columns_run(cache, catalog, table, payload).result == Some(
            Ok::<Seq<Seq<char>>, Fault>(Seq::empty()),
        ),
{
    let fields = payload->Object_0.fields@;
    let current = catalog_columns(catalog, table);
    lemma_null_document(column_names(current), fields);
    if knows(cache, table) {
        assert(cache.contains_key(table));
        lemma_null_document(column_names(cache[table]), fields);
    }
}

/// `get_table_stats` against the model engine: for a table with columns it
/// tells exactly the catalog's columns, their number and the row count; a
/// table without columns is not found. The catalog is never changed.
pub proof fn lemma_table_stats_run(cache: Schemas, catalog: Catalog, table: Seq<char>, rows: u64)
    requires
        coherent(cache, catalog),
        is_valid_identifier(table),
    ensures
        ({
            let out = table_stats_run(cache, catalog, table, rows);
            let columns = catalog_columns(catalog, table);
            &&& out.catalog == catalog
            &&& coherent(out.cache, out.catalog)
            &&& columns.len() > 0 ==> out.result == Some(
                Ok::<TableStatsSpec, Fault>(
                    TableStatsSpec {
                        name: table,
                        column_count: columns.len(),
                        row_count: rows,
                        columns: columns,
                    },
                ),
            )
            &&& columns.len() == 0 ==> out.result == Some(
                Err::<TableStatsSpec, Fault>(
                    Fault { kind: ErrorKind::TableNotFound, detail: table },
                ),
            )
        }),
{
    if knows(cache, table) {
        assert(cache.contains_key(table));
    }
}

/// Cache correctness: once `ensure_columns` has ended well, `get_table_stats`
/// tells the table's columns as the catalog now has them, the added ones
/// included, though nobody cleared the cache in between.
pub proof fn lemma_stats_follow_migration(
    cache: Schemas,
    catalog: Catalog,
    table: Seq<char>,
    payload: JsonValue,
    rows: u64,
)
    requires
        coherent(cache, catalog),
        request_fault(table, payload) is None,
        payload->Object_0.wf(),
        catalog_columns(catalog, table).len() > 0,
        ensure_columns_run(cache, catalog, table, payload).result matches Some(Ok(_)),
    ensures
        ({
            let fields = payload->Object_0.fields@;
            let after = ensure_columns_run(cache, catalog, table, payload);
            let stats = table_stats_run(after.cache, after.catalog, table, rows);
            &&& stats.result matches Some(Ok(found)) && found.columns == widened_columns(
                catalog,
                table,
                fields,
            )
            &&& forall|i: int|
                0 <= i < fields.len() && !(fields[i].value is Null) ==> column_names(
                    widened_columns(catalog, table, fields),
                ).contains(#[trigger] fields[i].key@)
        }),
{
    let fields = payload->Object_0.fields@;
    let current = catalog_columns(catalog, table);
    let new = missing_columns(column_names(current), fields);
    let after = ensure_columns_run(cache, catalog, table, payload);
    let wide = widened_columns(catalog, table, fields);
    lemma_ensure_columns_run(cache, catalog, table, payload);
    lemma_leading_valid_keys(fields);
    lemma_table_stats_run(after.cache, after.catalog, table, rows);
    lemma_missing_columns(column_names(current), fields);
    if new.len() == 0 {
        assert(wide =~= current);
    }
    assert(catalog_columns(after.catalog, table) == wide);
    assert forall|i: int| 0 <= i < fields.len() && !(fields[i].value is Null) implies column_names(
        wide,
    ).contains(#[trigger] fields[i].key@) by {
        let key = fields[i].key@;
        if column_names(current).contains(key) {
            let k = choose|k: int| 0 <= k < current.len() && column_names(current)[k] == key;
            assert(column_names(wide)[k] == key);
        } else {
            let k = choose|k: int| 0 <= k < new.len() && shape_names(new)[k] == key;
            assert(column_names(wide)[current.len() + k] == key);
        }
    }
}

/// The insertable columns are keys of members that are not null, and none
/// is a column that the store fills in itself.
pub proof fn lemma_insertable_columns(fields: Seq<JsonField>)
    ensures
        forall|i: int|
            0 <= i < insertable_columns(fields).len() ==> {
                let name = #[trigger] insertable_columns(fields)[i];
                &&& !crate::plan::is_system_column(name)
                &&& exists|k: int|
                    0 <= k < fields.len() && fields[k].key@ == name && !(fields[k].value is Null)
            },
    decreases fields.len(),
{
    if fields.len() > 0 {
        let init = fields.drop_last();
        lemma_insertable_columns(init);
        let before = insertable_columns(init);
        let now = insertable_columns(fields);
        assert forall|i: int| 0 <= i < now.len() implies {
            let name = #[trigger] now[i];
            &&& !crate::plan::is_system_column(name)
            &&& exists|k: int|
                0 <= k < fields.len() && fields[k].key@ == name && !(fields[k].value is Null)
        } by {
            if i < before.len() {
                let name = before[i];
                let k = choose|k: int|
                    0 <= k < init.len() && init[k].key@ == name && !(init[k].value is Null);
                assert(fields[k] == init[k]);
            } else {
                assert(fields[fields.len() - 1] == fields.last());
            }
        }
    }
}

/// The row can be written: once `ensure_columns` has ended well, the table
/// has a column for every name that it handed out.
pub proof fn lemma_insertable_columns_exist(
    cache: Schemas,
    catalog: Catalog,
    table: Seq<char>,
    payload: JsonValue,
)
    requires
        coherent(cache, catalog),
        request_fault(table, payload) is None,
        payload->Object_0.wf(),
        catalog_columns(catalog, table).len() > 0,
    ensures
        ({
            let after = ensure_columns_run(cache, catalog, table, payload);
            after.result matches Some(Ok(names)) ==> forall|i: int|
                0 <= i < names.len() ==> column_names(
                    catalog_columns(after.catalog, table),
                ).contains(#[trigger] names[i])
        }),
{
    let fields = payload->Object_0.fields@;
    let after = ensure_columns_run(cache, catalog, table, payload);
    lemma_ensure_columns_run(cache, catalog, table, payload);
    if after.result matches Some(Ok(_)) {
        let names = after.result->0->Ok_0;
        lemma_stats_follow_migration(cache, catalog, table, payload, 0);
        lemma_insertable_columns(fields);
        let wide = widened_columns(catalog, table, fields);
        let new = missing_columns(column_names(catalog_columns(catalog, table)), fields);
        if new.len() == 0 {
            assert(wide =~= catalog_columns(catalog, table));
        }
        assert(catalog_columns(after.catalog, table) == wide);
        assert forall|i: int| 0 <= i < names.len() implies column_names(wide).contains(
            #[trigger] names[i],
        ) by {
            let k = choose|k: int|
                0 <= k < fields.len() && fields[k].key@ == names[i] && !(fields[k].value is Null);
            assert(column_names(wide).contains(fields[k].key@));
        }
    }
}

/// Column names stay unique: where no name occurs twice among a table's
/// columns, none does after the missing columns of a document were added.
pub proof fn lemma_widened_columns_distinct(
    catalog: Catalog,
    table: Seq<char>,
    fields: Seq<JsonField>,
)
    requires
        distinct_keys(column_names(catalog_columns(catalog, table))),
        distinct_keys(field_keys(fields)),
    ensures
        distinct_keys(column_names(widened_columns(catalog, table, fields))),
{
    let current = catalog_columns(catalog, table);
    let new = missing_columns(column_names(current), fields);
    let wide = widened_columns(catalog, table, fields);
    let names = column_names(wide);
    lemma_missing_columns(column_names(current), fields);
    assert forall|a: int, b: int| 0 <= a < b < names.len() implies names[a] != names[b] by {
        if b < current.len() {
            assert(names[a] == column_names(current)[a]);
            assert(names[b] == column_names(current)[b]);
        } else if a < current.len() {
            assert(names[a] == column_names(current)[a]);
            assert(names[b] == shape_names(new)[b - current.len()]);
        } else {
            assert(names[a] == shape_names(new)[a - current.len()]);
            assert(names[b] == shape_names(new)[b - current.len()]);
        }
    }
}

/// Idempotence under a race: two requests with the same document both see
/// the table before either has changed it, and both ask for the same
/// columns. The first batch is applied. The second then fails in the
/// engine, which adds nothing twice; the guard takes that failure for
/// success, hands out the insertable columns and drops the cache entry, so
/// that the next reader sees the settled table.
pub proof fn lemma_race_loser_succeeds(
    cache: Schemas,
    catalog: Catalog,
    table: Seq<char>,
    payload: JsonValue,
)
    requires
        request_fault(table, payload) is None,
        payload->Object_0.wf(),
        catalog_columns(catalog, table).len() > 0,
        migration_plan(table, catalog_columns(catalog, table), payload->Object_0.fields@)
            is AddColumns,
    ensures
        ({
            let fields = payload->Object_0.fields@;
            let batch = migration_plan(table, catalog_columns(catalog, table), fields);
            let settled = engine_catalog(catalog, batch);
            let answer = engine_event(settled, 0, batch);
            &&& settled == catalog.insert(table, widened_columns(catalog, table, fields))
            &&& engine_catalog(settled, batch) == settled
            &&& answer == EventSpec::ApplyFailed(duplicate_column_message())
            &&& columns_plan(cache, table, payload, answer) == Plan::Done(
                Ok::<Seq<Seq<char>>, Fault>(insertable_columns(fields)),
            )
            &&& columns_cache(cache, table, payload, answer) == cache.remove(table)
        }),
{
    let fields = payload->Object_0.fields@;
    let current = catalog_columns(catalog, table);
    let new = missing_columns(column_names(current), fields);
    let batch = migration_plan(table, current, fields);
    let settled = engine_catalog(catalog, batch);
    let wide = widened_columns(catalog, table, fields);
    lemma_missing_columns(column_names(current), fields);
    lemma_engine_messages();
    assert(can_add(catalog, table, new));
    assert(catalog_columns(settled, table) == wide);
    assert(column_names(wide)[current.len() as int] == shape_names(new)[0]);
    assert(!can_add(settled, table, new));
}

/// The plan asks the engine only about valid identifiers: the table's name,
/// and the name of every column to add.
pub open spec fn names_are_valid<R>(plan: Plan<R>) -> bool {
    match plan {
        Plan::Describe(t) => is_valid_identifier(t),
        Plan::Create(t) => is_valid_identifier(t),
        Plan::AddColumns(t, columns) => is_valid_identifier(t) && forall|i: int|
            0 <= i < columns.len() ==> is_valid_identifier(#[trigger] shape_names(columns)[i]),
        Plan::Count(t, _) => is_valid_identifier(t),
        Plan::Done(_) => true,
    }
}

/// No statement is built from a name that was not validated: whatever the
/// cache holds and whatever the engine answered, every operation asks the
/// engine only about valid identifiers.
pub proof fn lemma_only_valid_names_reach_the_engine(
    cache: Schemas,
    table: Seq<char>,
    payload: JsonValue,
    event: EventSpec,
)
    ensures
        names_are_valid(table_plan(cache, table, event)),
        names_are_valid(columns_plan(cache, table, payload, event)),
        names_are_valid(stats_plan(cache, table, event)),
{
    if request_fault(table, payload) is None {
        let fields = payload->Object_0.fields@;
        lemma_leading_valid_keys(fields);
        match event {
            EventSpec::Begin => {
                if knows(cache, table) {
                    lemma_missing_columns(column_names(cache[table]), fields);
                }
            },
            EventSpec::Described(columns) => {
                lemma_missing_columns(column_names(columns), fields);
            },
            _ => {},
        }
    }
}

/// Bounded growth: `ensure_columns` never asks to add columns that would
/// take a table past the limit, counting the columns it was told the table
/// has.
pub proof fn lemma_growth_is_bounded(
    cache: Schemas,
    table: Seq<char>,
    payload: JsonValue,
    event: EventSpec,
)
    ensures
        columns_plan(cache, table, payload, event) matches Plan::AddColumns(_, new) ==> {
            let known = match event {
                EventSpec::Described(columns) => columns,
                _ => cache[table],
            };
            known.len() + new.len() <= MAX_COLUMNS_PER_TABLE
        },
{
}

} // verus!
