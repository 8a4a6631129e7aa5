//! The schema guard: keeps each table's known columns and decides which
//! schema changes a document needs.

use vstd::prelude::*;
use vstd::string::*;
use crate::cache::{no_schemas, SchemaCache};
use crate::engine::{
    alter_statement, build_alter_statement, build_count_statement, build_create_statement,
    build_describe_statement, read_count, EngineEvent, Step,
};
use crate::error::VibeError;
use crate::inference::{infer_type, shape_of, shapes, InferredColumn};
use crate::json::{JsonField, JsonObject, JsonValue};
use crate::plan::{
    alter_statements, columns_cache, columns_plan, follows, insertable_columns,
    is_system_column, lemma_leading_valid_keys_unique, limit_fault, migration_plan,
    missing_columns, request_fault, stats_cache, stats_plan, table_cache, table_plan, Plan,
    Schemas, MAX_COLUMNS_PER_TABLE,
};
use crate::text::{contains_text, decimal_text, string_views};

verus! {

/// One column of a table, as the storage engine's catalog describes it.
#[derive(Debug, Clone)]
pub struct ColumnInfo {
    pub name: String,
    pub col_type: String,
    pub notnull: bool,
    pub pk: bool,
}

/// What a [`ColumnInfo`] says, with its texts as sequences of characters.
pub ghost struct ColumnSpec {
    pub name: Seq<char>,
    pub col_type: Seq<char>,
    pub notnull: bool,
    pub pk: bool,
}

impl View for ColumnInfo {
    type V = ColumnSpec;

    open spec fn view(&self) -> ColumnSpec {
        ColumnSpec {
            name: self.name@,
            col_type: self.col_type@,
            notnull: self.notnull,
            pk: self.pk,
        }
    }
}

/// The columns of a table as specifications, in order.
pub open spec fn column_specs(columns: Seq<ColumnInfo>) -> Seq<ColumnSpec> {
    columns.map_values(|c: ColumnInfo| c@)
}

/// The names of a table's columns, in order.
pub open spec fn column_names(columns: Seq<ColumnSpec>) -> Seq<Seq<char>> {
    columns.map_values(|c: ColumnSpec| c.name)
}

impl ColumnInfo {
    /// A copy of the column.
    pub fn duplicate(&self) -> (r: ColumnInfo)
        ensures
            r@ == self@,
    {
        ColumnInfo {
            name: self.name.clone(),
            col_type: self.col_type.clone(),
            notnull: self.notnull,
            pk: self.pk,
        }
    }
}

/// A copy of a table's columns.
pub fn duplicate_columns(columns: &Vec<ColumnInfo>) -> (r: Vec<ColumnInfo>)
    ensures
        column_specs(r@) == column_specs(columns@),
{
    let mut out: Vec<ColumnInfo> = Vec::new();
    let mut i: usize = 0;
    while i < columns.len()
        invariant
            0 <= i <= columns@.len(),
            column_specs(out@) == column_specs(columns@.take(i as int)),
        decreases columns@.len() - i,
    {
        let ghost before = out@;
        let copy = columns[i].duplicate();
        out.push(copy);
        proof {
            let next = columns@.take(i + 1);
            assert(column_specs(out@) =~= column_specs(before).push(copy@));
            assert(column_specs(next) =~= column_specs(columns@.take(i as int)).push(
                columns@[i as int]@,
            ));
        }
        i = i + 1;
    }
    proof {
        assert(columns@.take(i as int) =~= columns@);
    }
    out
}

/// What is known of a table: its columns and how many rows it holds.
#[derive(Debug)]
pub struct TableStats {
    pub name: String,
    pub column_count: usize,
    pub row_count: u64,
    pub columns: Vec<ColumnInfo>,
}

/// What a [`TableStats`] says, with its texts as sequences of characters.
pub ghost struct TableStatsSpec {
    pub name: Seq<char>,
    pub column_count: nat,
    pub row_count: u64,
    pub columns: Seq<ColumnSpec>,
}

impl View for TableStats {
    type V = TableStatsSpec;

    open spec fn view(&self) -> TableStatsSpec {
        TableStatsSpec {
            name: self.name@,
            column_count: self.column_count as nat,
            row_count: self.row_count,
            columns: column_specs(self.columns@),
        }
    }
}

/// The schema guard: the schema cache, and the decisions taken in front of
/// the storage engine.
pub struct SchemaGuard {
    pub schema_cache: SchemaCache,
}

/// Tells whether `columns` holds a column named `name`.
fn has_column_named(columns: &Vec<ColumnInfo>, name: &str) -> (b: bool)
    ensures
        b == column_names(column_specs(columns@)).contains(name@),
{
    let ghost names = column_names(column_specs(columns@));
    let mut i: usize = 0;
    while i < columns.len()
        invariant
            0 <= i <= columns@.len(),
            names == column_names(column_specs(columns@)),
            forall|j: int| 0 <= j < i ==> names[j] != name@,
        decreases columns@.len() - i,
    {
        if *columns[i].name.as_str() == *name {
            proof {
                assert(names[i as int] == name@);
            }
            return true;
        }
        proof {
            assert(names[i as int] != name@);
        }
        i = i + 1;
    }
    false
}

/// Tells whether `name` is a column that the store fills in itself.
fn system_column(name: &str) -> (b: bool)
    ensures
        b == is_system_column(name@),
{
    *name == *"id" || *name == *"created_at" || *name == *"updated_at"
}

/// The columns that `fields` asks for and `current` does not have.
fn find_missing_columns(current: &Vec<ColumnInfo>, fields: &Vec<JsonField>) -> (r: Vec<
    InferredColumn,
>)
    ensures
        shapes(r@) == missing_columns(column_names(column_specs(current@)), fields@),
{
    let ghost existing = column_names(column_specs(current@));
    let mut new: Vec<InferredColumn> = Vec::new();
    let mut i: usize = 0;
    while i < fields.len()
        invariant
            0 <= i <= fields@.len(),
            existing == column_names(column_specs(current@)),
            shapes(new@) == missing_columns(existing, fields@.take(i as int)),
        decreases fields@.len() - i,
    {
        let field = &fields[i];
        proof {
            let next = fields@.take(i + 1);
            assert(next.drop_last() =~= fields@.take(i as int));
            assert(next.last() == *field);
        }
        if !field.value.is_null() && !has_column_named(current, field.key.as_str()) {
            let is_nested = match &field.value {
                JsonValue::Object(_) => true,
                JsonValue::Array(_) => true,
                _ => false,
            };
            let ghost before = new@;
            let column = InferredColumn::new(field.key.clone(), infer_type(&field.value), is_nested);
            new.push(column);
            proof {
                assert(shapes(new@) =~= shapes(before).push(shape_of(*field)));
            }
        }
        i = i + 1;
    }
    proof {
        assert(fields@.take(i as int) =~= fields@);
    }
    new
}

/// The columns to write a row of `fields` into.
fn find_insertable_columns(fields: &Vec<JsonField>) -> (r: Vec<String>)
    ensures
        string_views(r@) == insertable_columns(fields@),
{
    let mut names: Vec<String> = Vec::new();
    let mut i: usize = 0;
    while i < fields.len()
        invariant
            0 <= i <= fields@.len(),
            string_views(names@) == insertable_columns(fields@.take(i as int)),
        decreases fields@.len() - i,
    {
        let field = &fields[i];
        proof {
            let next = fields@.take(i + 1);
            assert(next.drop_last() =~= fields@.take(i as int));
            assert(next.last() == *field);
        }
        if !field.value.is_null() && !system_column(field.key.as_str()) {
            let ghost before = names@;
            names.push(field.key.clone());
            proof {
                assert(string_views(names@) =~= string_views(before).push(field.key@));
            }
        }
        i = i + 1;
    }
    proof {
        assert(fields@.take(i as int) =~= fields@);
    }
    names
}

/// The message of the error for a table that would grow past the limit.
fn limit_message(table: &str, existing: usize, new: usize) -> (r: String)
    ensures
        r@ == limit_fault(table@, existing as nat, new as nat),
{
    let total: u128 = existing as u128 + new as u128;
    String::from_str("Table '").concat(table).concat("' would exceed ").concat(
        decimal_text(MAX_COLUMNS_PER_TABLE as u128).as_str(),
    ).concat(" column limit (").concat(decimal_text(existing as u128).as_str()).concat(
        " existing + ",
    ).concat(decimal_text(new as u128).as_str()).concat(" new = ").concat(
        decimal_text(total).as_str(),
    ).concat(")")
}

impl SchemaGuard {
    /// The cached schemas by table name.
    pub open spec fn cached(&self) -> Schemas {
        self.schema_cache.entries()
    }

    /// A guard that knows no table yet.
    pub fn new() -> (r: SchemaGuard)
        ensures
            r.cached() == no_schemas(),
    {
        SchemaGuard { schema_cache: SchemaCache::new() }
    }

    /// The columns of `table` as far as the cache knows them: `None` where
    /// the catalog has to be asked.
    pub fn get_table_schema(&self, table: &str) -> (r: Option<Vec<ColumnInfo>>)
        ensures
            match r {
                Some(columns) => crate::plan::knows(self.cached(), table@) && column_specs(
                    columns@,
                ) == self.cached()[table@],
                None => !crate::plan::knows(self.cached(), table@),
            },
    {
        match self.schema_cache.get(table) {
            Some(columns) => if columns.len() > 0 {
                Some(columns)
            } else {
                None
            },
            None => None,
        }
    }

    /// Keeps what the catalog said of `table`, unless it said nothing.
    fn learn(&mut self, table: &str, columns: &Vec<ColumnInfo>)
        ensures
            final(self).cached() == crate::plan::learned(
                old(self).cached(),
                table@,
                column_specs(columns@),
            ),
    {
        if columns.len() > 0 {
            self.schema_cache.put(table, duplicate_columns(columns));
        }
    }

    /// The statements that add `columns` to `table`: one for each column,
    /// nullable and without a default value.
    pub fn add_columns(table: &str, columns: &Vec<InferredColumn>) -> (r: Vec<String>)
        ensures
            string_views(r@) == alter_statements(table@, shapes(columns@)),
    {
        let mut statements: Vec<String> = Vec::new();
        let mut i: usize = 0;
        while i < columns.len()
            invariant
                0 <= i <= columns@.len(),
                string_views(statements@) == alter_statements(table@, shapes(columns@).take(i as int)),
            decreases columns@.len() - i,
        {
            let ghost before = statements@;
            let statement = build_alter_statement(
                table,
                columns[i].name.as_str(),
                columns[i].sqlite_type,
            );
            statements.push(statement);
            proof {
                let all = shapes(columns@);
                assert(all[i as int] == columns@[i as int]@);
                assert(string_views(statements@) =~= string_views(before).push(statement@));
                assert(alter_statements(table@, all.take(i + 1)) =~= alter_statements(
                    table@,
                    all.take(i as int),
                ).push(alter_statement(table@, all[i as int].name, all[i as int].sqlite_type)));
            }
            i = i + 1;
        }
        proof {
            assert(shapes(columns@).take(i as int) =~= shapes(columns@));
        }
        statements
    }

    /// Decides what a document needs of a table whose columns are `current`.
    fn plan_migration(table: &str, current: &Vec<ColumnInfo>, document: &JsonObject) -> (step:
        Step<Vec<String>>)
        ensures
            follows(step, migration_plan(table@, column_specs(current@), document.fields@)),
            step matches Step::Done(Ok(names)) ==> string_views(names@) == insertable_columns(
                document.fields@,
            ),
    {
        let new = find_missing_columns(current, &document.fields);
        let total: u128 = current.len() as u128 + new.len() as u128;
        if total > MAX_COLUMNS_PER_TABLE as u128 {
            let message = limit_message(table, current.len(), new.len());
            return Step::Done(Err(VibeError::ColumnLimitExceeded { message }));
        }
        if new.len() > 0 {
            return Step::Apply(Self::add_columns(table, &new));
        }
        Step::Done(Ok(find_insertable_columns(&document.fields)))
    }

    /// Checks a request before anything is asked of the engine.
    fn check_request<'a>(table: &str, payload: &'a JsonValue) -> (r: Result<
        &'a JsonObject,
        VibeError,
    >)
        ensures
            match r {
                Ok(document) => request_fault(table@, *payload) is None && *payload
                    == JsonValue::Object(*document),
                Err(e) => request_fault(table@, *payload) == Some(e@),
            },
    {
        let document = match payload.as_object() {
            Some(o) => o,
            None => {
                return Err(VibeError::InvalidPayload("Payload must be a JSON object".to_string()));
            },
        };
        match Self::validate_identifier(table) {
            Ok(_) => {},
            Err(e) => {
                return Err(e);
            },
        }
        let mut i: usize = 0;
        while i < document.fields.len()
            invariant
                0 <= i <= document.fields@.len(),
                crate::identifier::is_valid_identifier(table@),
                *payload == JsonValue::Object(*document),
                forall|j: int|
                    0 <= j < i ==> crate::identifier::is_valid_identifier(
                        #[trigger] document.fields@[j].key@,
                    ),
            decreases document.fields@.len() - i,
        {
            match Self::validate_identifier(document.fields[i].key.as_str()) {
                Ok(_) => {},
                Err(e) => {
                    proof {
                        lemma_leading_valid_keys_unique(document.fields@, i as int);
                    }
                    return Err(e);
                },
            }
            i = i + 1;
        }
        proof {
            lemma_leading_valid_keys_unique(document.fields@, i as int);
        }
        Ok(document)
    }

    /// Makes sure that `table` exists with the base columns `id`,
    /// `created_at` and `updated_at`: one step, from what the engine has
    /// answered so far to what is to be done next.
    ///
    /// The name is validated first. A table that the cache or the catalog
    /// knows is left alone; one without columns is created, and its cache
    /// entry dropped so that the base columns are read afresh.
    pub fn ensure_table(&mut self, table: &str, event: EngineEvent) -> (step: Step<()>)
        ensures
            follows(step, table_plan(old(self).cached(), table@, event@)),
            final(self).cached() == table_cache(old(self).cached(), table@, event@),
    {
        match Self::validate_identifier(table) {
            Ok(_) => {},
            Err(e) => {
                return Step::Done(Err(e));
            },
        }
        match event {
            EngineEvent::Begin => match self.get_table_schema(table) {
                Some(_) => Step::Done(Ok(())),
                None => Step::Describe(build_describe_statement(table)),
            },
            EngineEvent::Described(rows) => {
                let columns = Self::fetch_table_info(&rows);
                self.learn(table, &columns);
                if columns.len() > 0 {
                    Step::Done(Ok(()))
                } else {
                    let mut statements: Vec<String> = Vec::new();
                    statements.push(build_create_statement(table));
                    proof {
                        assert(string_views(statements@) =~= seq![
                            crate::engine::create_statement(table@),
                        ]);
                    }
                    Step::Apply(statements)
                }
            },
            EngineEvent::Applied => {
                self.schema_cache.invalidate(table);
                Step::Done(Ok(()))
            },
            EngineEvent::QueryFailed(message) => Step::Done(Err(VibeError::Database(message))),
            EngineEvent::ApplyFailed(message) => Step::Done(Err(VibeError::Database(message))),
            EngineEvent::Counted(_, _) => Step::Done(
                Err(VibeError::Internal("Unexpected storage engine event".to_string())),
            ),
        }
    }

    /// Makes sure that `table` has a column for every member of the document
    /// whose value is not null, and names the columns to write the row into:
    /// one step, from what the engine has answered so far to what is to be
    /// done next.
    ///
    /// The payload, the table name and every key are checked before anything
    /// is asked of the engine. Missing columns are added as one atomic unit;
    /// a table that would pass 1000 columns is refused. A unit that fails
    /// because a column exists already counts as applied. After either, the
    /// table's cache entry is dropped.
    pub fn ensure_columns(&mut self, table: &str, payload: &JsonValue, event: EngineEvent) -> (step:
        Step<Vec<String>>)
        ensures
            follows(step, columns_plan(old(self).cached(), table@, *payload, event@)),
            step matches Step::Done(Ok(names)) ==> string_views(names@) == insertable_columns(
                payload->Object_0.fields@,
            ),
            final(self).cached() == columns_cache(old(self).cached(), table@, *payload, event@),
    {
        let document = match Self::check_request(table, payload) {
            Ok(document) => document,
            Err(e) => {
                return Step::Done(Err(e));
            },
        };
        match event {
            EngineEvent::Begin => match self.get_table_schema(table) {
                Some(current) => Self::plan_migration(table, &current, document),
                None => Step::Describe(build_describe_statement(table)),
            },
            EngineEvent::Described(rows) => {
                let current = Self::fetch_table_info(&rows);
                self.learn(table, &current);
                Self::plan_migration(table, &current, document)
            },
            EngineEvent::Applied => {
                self.schema_cache.invalidate(table);
                Step::Done(Ok(find_insertable_columns(&document.fields)))
            },
            EngineEvent::ApplyFailed(message) => {
                if contains_text(message.as_str(), "duplicate column name") {
                    self.schema_cache.invalidate(table);
                    Step::Done(Ok(find_insertable_columns(&document.fields)))
                } else {
                    Step::Done(Err(VibeError::MigrationFailed(message)))
                }
            },
            EngineEvent::QueryFailed(message) => Step::Done(Err(VibeError::Database(message))),
            EngineEvent::Counted(_, _) => Step::Done(
                Err(VibeError::Internal("Unexpected storage engine event".to_string())),
            ),
        }
    }

    /// Tells the columns of `table` and how many rows it holds: one step,
    /// from what the engine has answered so far to what is to be done next.
    ///
    /// A table without a known column is not found.
    pub fn get_table_stats(&mut self, table: &str, event: EngineEvent) -> (step: Step<TableStats>)
        ensures
            follows(step, stats_plan(old(self).cached(), table@, event@)),
            stats_plan(old(self).cached(), table@, event@) matches Plan::Done(Ok(stats))
                ==> step matches Step::Done(Ok(found)) && found@ == stats,
            final(self).cached() == stats_cache(old(self).cached(), table@, event@),
    {
        match Self::validate_identifier(table) {
            Ok(_) => {},
            Err(e) => {
                return Step::Done(Err(e));
            },
        }
        match event {
            EngineEvent::Begin => match self.get_table_schema(table) {
                Some(columns) => Step::Count(build_count_statement(table), columns),
                None => Step::Describe(build_describe_statement(table)),
            },
            EngineEvent::Described(rows) => {
                let columns = Self::fetch_table_info(&rows);
                self.learn(table, &columns);
                if columns.len() > 0 {
                    Step::Count(build_count_statement(table), columns)
                } else {
                    Step::Done(Err(VibeError::TableNotFound(table.to_string())))
                }
            },
            EngineEvent::Counted(columns, rows) => {
                let row_count = read_count(&rows);
                Step::Done(
                    Ok(
                        TableStats {
                            name: table.to_string(),
                            column_count: columns.len(),
                            row_count,
                            columns,
                        },
                    ),
                )
            },
            EngineEvent::QueryFailed(message) => Step::Done(Err(VibeError::Database(message))),
            EngineEvent::Applied => Step::Done(
                Err(VibeError::Internal("Unexpected storage engine event".to_string())),
            ),
            EngineEvent::ApplyFailed(_) => Step::Done(
                Err(VibeError::Internal("Unexpected storage engine event".to_string())),
            ),
        }
    }

    /// Drops every cached schema.
    pub fn clear_cache(&mut self)
        ensures
            final(self).cached() == no_schemas(),
    {
        self.schema_cache.clear();
    }

    /// The names of the tables with a cached schema, each once, in no set order.
    pub fn cached_tables(&self) -> (r: Vec<String>)
        ensures
            string_views(r@).no_duplicates(),
            string_views(r@).to_set() == self.cached().dom(),
    {
        self.schema_cache.tables()
    }
}

} // verus!
