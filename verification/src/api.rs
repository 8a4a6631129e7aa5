//! The request layer's own decisions: which statement answers a request,
//! with which parameters, and what the response holds.

use vstd::prelude::*;
use vstd::string::*;
use crate::db::{sql_values, SqlValue, SqlValueSpec};
use crate::error::{ErrorKind, Fault, VibeError, VibeResult};
use crate::guard::{column_specs, ColumnSpec, SchemaGuard, TableStats};
use crate::identifier::{identifier_fault, is_valid_identifier};
use crate::text::{
    decimal, decimal_text, join_text, joined, signed_decimal, signed_decimal_text, string_views,
    to_upper_case, unicode_upper,
};

verus! {

/// The envelope of every response.
#[derive(Debug)]
pub struct ApiResponse<T> {
    pub success: bool,
    pub data: Option<T>,
    pub message: Option<String>,
}

impl<T> ApiResponse<T> {
    pub fn success(data: T) -> (r: Self)
        ensures
            r.success,
            r.data == Some(data),
            r.message is None,
    {
        ApiResponse { success: true, data: Some(data), message: None }
    }

    pub fn success_with_message(data: T, message: String) -> (r: Self)
        ensures
            r.success,
            r.data == Some(data),
            r.message == Some(message),
    {
        ApiResponse { success: true, data: Some(data), message: Some(message) }
    }
}

/// What answers the insertion of one document.
#[derive(Debug)]
pub struct PushResponse {
    pub id: i64,
    pub collection: String,
    pub columns_added: Vec<String>,
}

/// What answers the insertion of a batch.
#[derive(Debug)]
pub struct BatchPushResponse {
    pub inserted: u64,
    pub collection: String,
    pub columns_added: Vec<String>,
}

/// The parameters of a query request. `filters` holds every parameter of
/// the request by name, the paging parameters included.
#[derive(Debug)]
pub struct QueryParams {
    pub limit: Option<u32>,
    pub offset: Option<u32>,
    pub order_by: Option<String>,
    pub order_dir: Option<String>,
    pub filters: Vec<(String, String)>,
}

/// What answers a request for a table's statistics.
#[derive(Debug)]
pub struct TableStatsResponse {
    pub name: String,
    pub column_count: usize,
    pub row_count: u64,
    pub columns: Vec<ColumnResponse>,
}

/// One column in a [`TableStatsResponse`].
#[derive(Debug)]
pub struct ColumnResponse {
    pub name: String,
    pub col_type: String,
    pub nullable: bool,
    pub primary_key: bool,
}

/// A request that carries raw SQL.
#[derive(Debug)]
pub struct SqlRequest {
    pub query: String,
}

/// A statement with the values bound to its parameters.
#[derive(Debug)]
pub struct BoundStatement {
    pub sql: String,
    pub params: Vec<SqlValue>,
}

/// The rows a query returns where the request names no limit.
pub const DEFAULT_QUERY_LIMIT: u32 = 100;

/// The most rows a query returns, whatever the request asks for.
pub const MAX_QUERY_LIMIT: u32 = 1000;

// ---------------------------------------------------------------------------
// Writing rows
// ---------------------------------------------------------------------------

/// `n` parameter marks.
pub open spec fn placeholders(n: nat) -> Seq<Seq<char>> {
    Seq::new(n, |i: int| "?"@)
}

/// Each column followed by ` = ?`.
pub open spec fn assignments(columns: Seq<Seq<char>>) -> Seq<Seq<char>> {
    columns.map_values(|c: Seq<char>| c + " = ?"@)
}

/// The statement that inserts a row with a value for each of `columns`;
/// without columns, a row of default values.
pub open spec fn insert_statement(collection: Seq<char>, columns: Seq<Seq<char>>) -> Seq<char> {
    if columns.len() == 0 {
        "INSERT INTO "@ + collection + " DEFAULT VALUES"@
    } else {
        "INSERT INTO "@ + collection + " ("@ + joined(columns, ", "@) + ") VALUES ("@ + joined(
            placeholders(columns.len()),
            ", "@,
        ) + ")"@
    }
}

/// The statement that sets `columns` in the row of a given id.
pub open spec fn update_statement(collection: Seq<char>, columns: Seq<Seq<char>>) -> Seq<char> {
    "UPDATE "@ + collection + " SET "@ + joined(assignments(columns), ", "@)
        + ", updated_at = CURRENT_TIMESTAMP WHERE id = ?"@
}

/// The statement that deletes the row of a given id.
pub open spec fn delete_statement(collection: Seq<char>) -> Seq<char> {
    "DELETE FROM "@ + collection + " WHERE id = ?"@
}

/// The statement that reads the row of a given id.
pub open spec fn select_by_id_statement(collection: Seq<char>) -> Seq<char> {
    "SELECT * FROM "@ + collection + " WHERE id = ?"@
}

/// Builds the statement that inserts one row into `collection`.
pub fn build_insert_statement(collection: &str, columns: &Vec<String>) -> (r: String)
    ensures
        r@ == insert_statement(collection@, string_views(columns@)),
{
    if columns.len() == 0 {
        return String::from_str("INSERT INTO ").concat(collection).concat(" DEFAULT VALUES");
    }
    let mut marks: Vec<String> = Vec::new();
    let mut i: usize = 0;
    while i < columns.len()
        invariant
            0 <= i <= columns@.len(),
            string_views(marks@) == placeholders(i as nat),
        decreases columns@.len() - i,
    {
        let ghost before = marks@;
        let mark = String::from_str("?");
        marks.push(mark);
        proof {
            assert(string_views(marks@) =~= string_views(before).push(mark@));
            assert(placeholders((i + 1) as nat) =~= placeholders(i as nat).push("?"@));
        }
        i = i + 1;
    }
    String::from_str("INSERT INTO ").concat(collection).concat(" (").concat(
        join_text(columns, ", ").as_str(),
    ).concat(") VALUES (").concat(join_text(&marks, ", ").as_str()).concat(")")
}

/// Builds the statement that updates `columns` of one row of `collection`.
pub fn build_update_statement(collection: &str, columns: &Vec<String>) -> (r: String)
    ensures
        r@ == update_statement(collection@, string_views(columns@)),
{
    let mut clauses: Vec<String> = Vec::new();
    let mut i: usize = 0;
    while i < columns.len()
        invariant
            0 <= i <= columns@.len(),
            string_views(clauses@) == assignments(string_views(columns@).take(i as int)),
        decreases columns@.len() - i,
    {
        let ghost before = clauses@;
        let clause = String::from_str(columns[i].as_str()).concat(" = ?");
        clauses.push(clause);
        proof {
            let all = string_views(columns@);
            assert(string_views(clauses@) =~= string_views(before).push(clause@));
            assert(assignments(all.take(i + 1)) =~= assignments(all.take(i as int)).push(
                all[i as int] + " = ?"@,
            ));
        }
        i = i + 1;
    }
    proof {
        assert(string_views(columns@).take(i as int) =~= string_views(columns@));
    }
    String::from_str("UPDATE ").concat(collection).concat(" SET ").concat(
        join_text(&clauses, ", ").as_str(),
    ).concat(", updated_at = CURRENT_TIMESTAMP WHERE id = ?")
}

/// Builds the statement that deletes one row of `collection`.
pub fn build_delete_statement(collection: &str) -> (r: String)
    ensures
        r@ == delete_statement(collection@),
{
    String::from_str("DELETE FROM ").concat(collection).concat(" WHERE id = ?")
}

/// Builds the statement that reads one row of `collection`.
pub fn build_select_by_id_statement(collection: &str) -> (r: String)
    ensures
        r@ == select_by_id_statement(collection@),
{
    String::from_str("SELECT * FROM ").concat(collection).concat(" WHERE id = ?")
}

/// The text of the error for a row that does not exist.
pub open spec fn document_missing(id: i64, collection: Seq<char>) -> Seq<char> {
    "Document with id "@ + signed_decimal(id as int) + " not found in "@ + collection
}

/// The error for a row that does not exist.
pub fn document_not_found(id: i64, collection: &str) -> (e: VibeError)
    ensures
        e@ == (Fault { kind: ErrorKind::TableNotFound, detail: document_missing(id, collection@) }),
{
    VibeError::TableNotFound(
        String::from_str("Document with id ").concat(signed_decimal_text(id).as_str()).concat(
            " not found in ",
        ).concat(collection),
    )
}

/// Refuses a batch without documents.
pub fn check_batch(documents: usize) -> (r: VibeResult<()>)
    ensures
        match r {
            Ok(_) => documents > 0,
            Err(e) => documents == 0 && e@ == (Fault {
                kind: ErrorKind::InvalidPayload,
                detail: "Empty batch"@,
            }),
        },
{
    if documents == 0 {
        Err(VibeError::InvalidPayload("Empty batch".to_string()))
    } else {
        Ok(())
    }
}

/// `all` followed by the names of `more` that were not yet seen, in order.
pub open spec fn union_names(all: Seq<Seq<char>>, more: Seq<Seq<char>>) -> Seq<Seq<char>>
    decreases more.len(),
{
    if more.len() == 0 {
        all
    } else {
        let sofar = union_names(all, more.drop_last());
        if sofar.contains(more.last()) {
            sofar
        } else {
            sofar.push(more.last())
        }
    }
}

/// Adds to `all` the columns of one more document of a batch, each once.
pub fn merge_batch_columns(all: &mut Vec<String>, more: &Vec<String>)
    ensures
        string_views(final(all)@) == union_names(string_views(old(all)@), string_views(more@)),
{
    let ghost start = string_views(all@);
    let ghost extra = string_views(more@);
    let mut i: usize = 0;
    while i < more.len()
        invariant
            0 <= i <= more@.len(),
            extra == string_views(more@),
            string_views(all@) == union_names(start, extra.take(i as int)),
        decreases more@.len() - i,
    {
        proof {
            let next = extra.take(i + 1);
            assert(next.drop_last() =~= extra.take(i as int));
            assert(next.last() == more@[i as int]@);
        }
        let ghost sofar = string_views(all@);
        let mut seen = false;
        let mut k: usize = 0;
        while k < all.len()
            invariant
                0 <= k <= all@.len(),
                0 <= i < more@.len(),
                sofar == string_views(all@),
                seen <==> exists|j: int| 0 <= j < k && sofar[j] == more@[i as int]@,
            decreases all@.len() - k,
        {
            if *all[k].as_str() == *more[i].as_str() {
                proof {
                    assert(sofar[k as int] == more@[i as int]@);
                }
                seen = true;
            }
            k = k + 1;
        }
        if !seen {
            all.push(more[i].clone());
            proof {
                assert(string_views(all@) =~= sofar.push(more@[i as int]@));
            }
        }
        i = i + 1;
    }
    proof {
        assert(extra.take(i as int) =~= extra);
    }
}

// ---------------------------------------------------------------------------
// Reading rows
// ---------------------------------------------------------------------------

/// The name belongs to a paging parameter, which is no filter.
pub open spec fn is_paging_key(name: Seq<char>) -> bool {
    name == "limit"@ || name == "offset"@ || name == "order_by"@ || name == "order_dir"@
}

/// The parameters that filter: those that are no paging parameter, in order.
pub open spec fn active_filters(filters: Seq<(String, String)>) -> Seq<(Seq<char>, Seq<char>)>
    decreases filters.len(),
{
    if filters.len() == 0 {
        Seq::empty()
    } else if is_paging_key(filters.last().0@) {
        active_filters(filters.drop_last())
    } else {
        active_filters(filters.drop_last()).push((filters.last().0@, filters.last().1@))
    }
}

/// How many filters at the start of `filters` have a valid name.
pub open spec fn leading_valid_filters(filters: Seq<(Seq<char>, Seq<char>)>) -> int
    decreases filters.len(),
{
    if filters.len() == 0 {
        0
    } else if !is_valid_identifier(filters[0].0) {
        0
    } else {
        1 + leading_valid_filters(filters.drop_first())
    }
}

/// The names of the filters.
pub open spec fn filter_names(filters: Seq<(Seq<char>, Seq<char>)>) -> Seq<Seq<char>> {
    filters.map_values(|f: (Seq<char>, Seq<char>)| f.0)
}

/// The values of the filters, each as a text parameter.
pub open spec fn filter_values(filters: Seq<(Seq<char>, Seq<char>)>) -> Seq<SqlValueSpec> {
    filters.map_values(|f: (Seq<char>, Seq<char>)| SqlValueSpec::Text(f.1))
}

/// The direction to sort in: the one asked for in upper case, ascending
/// where none is asked for.
pub open spec fn sort_direction(order_dir: Option<String>) -> Seq<char> {
    match order_dir {
        Some(d) => unicode_upper(d@),
        None => "ASC"@,
    }
}

/// The rows to return: what the request asks for, 100 where it asks for
/// nothing, and never more than 1000.
pub open spec fn effective_limit(limit: Option<u32>) -> u32 {
    let asked = match limit {
        Some(l) => l,
        None => DEFAULT_QUERY_LIMIT,
    };
    if asked > MAX_QUERY_LIMIT {
        MAX_QUERY_LIMIT
    } else {
        asked
    }
}

/// The fault that refuses a query: a filter or a sort column whose name is
/// no valid identifier, or a direction other than ASC and DESC. The filters
/// are checked first, in order.
pub open spec fn query_fault(params: QueryParams) -> Option<Fault> {
    let filters = active_filters(params.filters@);
    let first_bad = leading_valid_filters(filters);
    if first_bad < filters.len() {
        Some(
            Fault {
                kind: ErrorKind::InvalidIdentifier,
                detail: identifier_fault(filters[first_bad].0),
            },
        )
    } else {
        match params.order_by {
            Some(column) => if !is_valid_identifier(column@) {
                Some(
                    Fault {
                        kind: ErrorKind::InvalidIdentifier,
                        detail: identifier_fault(column@),
                    },
                )
            } else if sort_direction(params.order_dir) != "ASC"@ && sort_direction(
                params.order_dir,
            ) != "DESC"@ {
                Some(
                    Fault {
                        kind: ErrorKind::InvalidPayload,
                        detail: "order_dir must be ASC or DESC"@,
                    },
                )
            } else {
                None
            },
            None => None,
        }
    }
}

/// The text of the query: the rows of `collection` that match every filter,
/// sorted and cut as the request asks.
pub open spec fn query_statement(collection: Seq<char>, params: QueryParams) -> Seq<char> {
    let filters = active_filters(params.filters@);
    let selection = if filters.len() == 0 {
        Seq::<char>::empty()
    } else {
        " WHERE "@ + joined(assignments(filter_names(filters)), " AND "@)
    };
    let order = match params.order_by {
        Some(column) => " ORDER BY "@ + column@ + " "@ + sort_direction(params.order_dir),
        None => Seq::<char>::empty(),
    };
    let offset = match params.offset {
        Some(o) => " OFFSET "@ + decimal(o as nat),
        None => Seq::<char>::empty(),
    };
    "SELECT * FROM "@ + collection + selection + order + " LIMIT "@ + decimal(
        effective_limit(params.limit) as nat,
    ) + offset
}

/// A filter's name is the first that is not valid among those before it.
proof fn lemma_leading_valid_filters_unique(filters: Seq<(Seq<char>, Seq<char>)>, p: int)
    requires
        0 <= p <= filters.len(),
        forall|i: int| 0 <= i < p ==> is_valid_identifier(#[trigger] filters[i].0),
        p < filters.len() ==> !is_valid_identifier(filters[p].0),
    ensures
        leading_valid_filters(filters) == p,
    decreases filters.len(),
{
    if filters.len() == 0 {
    } else if p == 0 {
    } else {
        let rest = filters.drop_first();
        assert(is_valid_identifier(filters[0].0));
        assert forall|i: int| 0 <= i < p - 1 implies is_valid_identifier(#[trigger] rest[i].0) by {
            assert(rest[i] == filters[i + 1]);
        }
        if p - 1 < rest.len() {
            assert(rest[p - 1] == filters[p]);
        }
        lemma_leading_valid_filters_unique(rest, p - 1);
    }
}

/// Tells whether `name` is a paging parameter.
fn paging_key(name: &str) -> (b: bool)
    ensures
        b == is_paging_key(name@),
{
    *name == *"limit" || *name == *"offset" || *name == *"order_by" || *name == *"order_dir"
}

/// Builds the query that answers a query request on `collection`.
///
/// Fails exactly when `query_fault` names a fault, and then with that fault.
pub fn build_query(collection: &str, params: &QueryParams) -> (r: VibeResult<BoundStatement>)
    ensures
        match r {
            Ok(query) => {
                &&& query_fault(*params) is None
                &&& query.sql@ == query_statement(collection@, *params)
                &&& sql_values(query.params@) == filter_values(active_filters(params.filters@))
            },
            Err(e) => query_fault(*params) == Some(e@),
        },
{
    let ghost filters = active_filters(params.filters@);
    let mut conditions: Vec<String> = Vec::new();
    let mut values: Vec<SqlValue> = Vec::new();
    let mut i: usize = 0;
    while i < params.filters.len()
        invariant
            0 <= i <= params.filters@.len(),
            filters == active_filters(params.filters@),
            string_views(conditions@) == assignments(
                filter_names(active_filters(params.filters@.take(i as int))),
            ),
            sql_values(values@) == filter_values(active_filters(params.filters@.take(i as int))),
            active_filters(params.filters@.take(i as int)).len() <= filters.len(),
            forall|j: int|
                0 <= j < active_filters(params.filters@.take(i as int)).len() ==> {
                    &&& filters[j] == active_filters(params.filters@.take(i as int))[j]
                    &&& is_valid_identifier(#[trigger] filters[j].0)
                },
        decreases params.filters@.len() - i,
    {
        let ghost done = active_filters(params.filters@.take(i as int));
        proof {
            let next = params.filters@.take(i + 1);
            assert(next.drop_last() =~= params.filters@.take(i as int));
            assert(next.last() == params.filters@[i as int]);
            lemma_active_filters_prefix(params.filters@, i + 1);
        }
        let name = params.filters[i].0.as_str();
        if !paging_key(name) {
            match SchemaGuard::validate_identifier(name) {
                Ok(_) => {},
                Err(e) => {
                    proof {
                        let now = active_filters(params.filters@.take(i + 1));
                        assert(now[done.len() as int].0 == name@);
                        assert(filters[done.len() as int] == now[done.len() as int]);
                        lemma_leading_valid_filters_unique(filters, done.len() as int);
                    }
                    return Err(e);
                },
            }
            let ghost c0 = conditions@;
            let ghost v0 = values@;
            let condition = String::from_str(name).concat(" = ?");
            let value = SqlValue::Text(params.filters[i].1.clone());
            conditions.push(condition);
            values.push(value);
            proof {
                let now = active_filters(params.filters@.take(i + 1));
                assert(now =~= done.push((name@, params.filters@[i as int].1@)));
                assert(string_views(conditions@) =~= string_views(c0).push(condition@));
                assert(assignments(filter_names(now)) =~= assignments(filter_names(done)).push(
                    name@ + " = ?"@,
                ));
                assert(sql_values(values@) =~= sql_values(v0).push(value@));
                assert(filter_values(now) =~= filter_values(done).push(
                    SqlValueSpec::Text(params.filters@[i as int].1@),
                ));
            }
        }
        i = i + 1;
    }
    proof {
        assert(params.filters@.take(i as int) =~= params.filters@);
        lemma_leading_valid_filters_unique(filters, filters.len() as int);
    }
    let mut sql = String::from_str("SELECT * FROM ").concat(collection);
    if conditions.len() > 0 {
        sql = sql.concat(" WHERE ").concat(join_text(&conditions, " AND ").as_str());
    }
    match &params.order_by {
        Some(column) => {
            match SchemaGuard::validate_identifier(column.as_str()) {
                Ok(_) => {},
                Err(e) => {
                    return Err(e);
                },
            }
            let direction = match &params.order_dir {
                Some(d) => to_upper_case(d.as_str()),
                None => String::from_str("ASC"),
            };
            if !(*direction.as_str() == *"ASC") && !(*direction.as_str() == *"DESC") {
                return Err(VibeError::InvalidPayload("order_dir must be ASC or DESC".to_string()));
            }
            sql = sql.concat(" ORDER BY ").concat(column.as_str()).concat(" ").concat(
                direction.as_str(),
            );
        },
        None => {},
    }
    let asked = match params.limit {
        Some(l) => l,
        None => DEFAULT_QUERY_LIMIT,
    };
    let limit = if asked > MAX_QUERY_LIMIT {
        MAX_QUERY_LIMIT
    } else {
        asked
    };
    sql = sql.concat(" LIMIT ").concat(decimal_text(limit as u128).as_str());
    match params.offset {
        Some(o) => {
            sql = sql.concat(" OFFSET ").concat(decimal_text(o as u128).as_str());
        },
        None => {},
    }
    proof {
        assert(sql@ =~= query_statement(collection@, *params));
    }
    Ok(BoundStatement { sql, params: values })
}

/// The filters among the first `n` parameters open the filters among all.
proof fn lemma_active_filters_prefix(filters: Seq<(String, String)>, n: int)
    requires
        0 <= n <= filters.len(),
    ensures
        active_filters(filters.take(n)).len() <= active_filters(filters).len(),
        forall|j: int|
            0 <= j < active_filters(filters.take(n)).len() ==> #[trigger] active_filters(
                filters,
            )[j] == active_filters(filters.take(n))[j],
    decreases filters.len(),
{
    if n < filters.len() {
        let init = filters.drop_last();
        lemma_active_filters_prefix(init, n);
        assert(init.take(n) =~= filters.take(n));
    } else {
        assert(filters.take(n) =~= filters);
    }
}

// ---------------------------------------------------------------------------
// Table statistics
// ---------------------------------------------------------------------------

/// What a [`ColumnResponse`] says, with its texts as sequences of characters.
pub ghost struct ColumnResponseSpec {
    pub name: Seq<char>,
    pub col_type: Seq<char>,
    pub nullable: bool,
    pub primary_key: bool,
}

impl View for ColumnResponse {
    type V = ColumnResponseSpec;

    open spec fn view(&self) -> ColumnResponseSpec {
        ColumnResponseSpec {
            name: self.name@,
            col_type: self.col_type@,
            nullable: self.nullable,
            primary_key: self.primary_key,
        }
    }
}

/// How a column is shown: nullable unless it is declared not null.
pub open spec fn shown_column(column: ColumnSpec) -> ColumnResponseSpec {
    ColumnResponseSpec {
        name: column.name,
        col_type: column.col_type,
        nullable: !column.notnull,
        primary_key: column.pk,
    }
}

/// What a sequence of column responses says.
pub open spec fn column_responses(columns: Seq<ColumnResponse>) -> Seq<ColumnResponseSpec> {
    columns.map_values(|c: ColumnResponse| c@)
}

/// The response that shows a table's statistics.
pub fn table_stats_response(stats: &TableStats) -> (r: TableStatsResponse)
    ensures
        r.name@ == stats.name@,
        r.column_count == stats.column_count,
        r.row_count == stats.row_count,
        column_responses(r.columns@) == column_specs(stats.columns@).map_values(
            |c: ColumnSpec| shown_column(c),
        ),
{
    let mut columns: Vec<ColumnResponse> = Vec::new();
    let mut i: usize = 0;
    while i < stats.columns.len()
        invariant
            0 <= i <= stats.columns@.len(),
            column_responses(columns@) == column_specs(stats.columns@.take(i as int)).map_values(
                |c: ColumnSpec| shown_column(c),
            ),
        decreases stats.columns@.len() - i,
    {
        let c = &stats.columns[i];
        let ghost before = columns@;
        let shown = ColumnResponse {
            name: c.name.clone(),
            col_type: c.col_type.clone(),
            nullable: !c.notnull,
            primary_key: c.pk,
        };
        columns.push(shown);
        proof {
            assert(column_responses(columns@) =~= column_responses(before).push(shown@));
            assert(column_specs(stats.columns@.take(i + 1)) =~= column_specs(
                stats.columns@.take(i as int),
            ).push(c@));
            assert(column_specs(stats.columns@.take(i + 1)).map_values(
                |c: ColumnSpec| shown_column(c),
            ) =~= column_specs(stats.columns@.take(i as int)).map_values(
                |c: ColumnSpec| shown_column(c),
            ).push(shown_column(c@)));
        }
        i = i + 1;
    }
    proof {
        assert(stats.columns@.take(i as int) =~= stats.columns@);
    }
    TableStatsResponse {
        name: stats.name.clone(),
        column_count: stats.column_count,
        row_count: stats.row_count,
        columns,
    }
}

} // verus!
