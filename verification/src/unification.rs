//! Proofs about the unified schema of a batch: what it holds under each name,
//! and that it does not depend on the order of the documents.

use vstd::prelude::*;
use crate::inference::{
    lemma_join_associative, lemma_join_is_least_upper_bound, lemma_promotion_is_partial_order,
    merge_column, merge_columns, schema_of, schema_of_value, shape_names, unified_schema,
    ColumnShape, SqliteType,
};
use crate::json::{
    distinct_keys, lemma_position_of, lemma_position_unique, position_of, JsonField, JsonValue,
};

verus! {

/// No name occurs twice among `cols`.
pub open spec fn distinct_names(cols: Seq<ColumnShape>) -> bool {
    distinct_keys(shape_names(cols))
}

/// `cols` holds a column named `n`.
pub open spec fn has_column(cols: Seq<ColumnShape>, n: Seq<char>) -> bool {
    shape_names(cols).contains(n)
}

/// The first column named `n`.
pub open spec fn column_named(cols: Seq<ColumnShape>, n: Seq<char>) -> ColumnShape {
    cols[position_of(shape_names(cols), n)]
}

/// The type of the column named `n`, or NULL where there is none.
pub open spec fn column_type(cols: Seq<ColumnShape>, n: Seq<char>) -> SqliteType {
    if has_column(cols, n) {
        column_named(cols, n).sqlite_type
    } else {
        SqliteType::Null
    }
}

/// The column named `n` exists and is nested.
pub open spec fn column_nested(cols: Seq<ColumnShape>, n: Seq<char>) -> bool {
    has_column(cols, n) && column_named(cols, n).is_nested
}

/// Every column of `cols` is nullable.
pub open spec fn all_nullable(cols: Seq<ColumnShape>) -> bool {
    forall|i: int| 0 <= i < cols.len() ==> (#[trigger] cols[i]).is_nullable
}

/// The common type of all the columns of `cols` that are named `n`.
pub open spec fn asked_type(cols: Seq<ColumnShape>, n: Seq<char>) -> SqliteType
    decreases cols.len(),
{
    if cols.len() == 0 {
        SqliteType::Null
    } else if cols.last().name == n {
        SqliteType::join(asked_type(cols.drop_last(), n), cols.last().sqlite_type)
    } else {
        asked_type(cols.drop_last(), n)
    }
}

/// Some column of `cols` named `n` is nested.
pub open spec fn asked_nested(cols: Seq<ColumnShape>, n: Seq<char>) -> bool {
    exists|i: int| 0 <= i < cols.len() && (#[trigger] cols[i]).name == n && cols[i].is_nested
}

/// The schema as a table from each column's name to the column.
pub open spec fn schema_table(cols: Seq<ColumnShape>) -> Map<Seq<char>, ColumnShape> {
    Map::new(|n: Seq<char>| has_column(cols, n), |n: Seq<char>| column_named(cols, n))
}

/// The common type that the documents of `docs` ask for under the name `n`.
pub open spec fn batch_type(docs: Seq<JsonValue>, n: Seq<char>) -> SqliteType
    decreases docs.len(),
{
    if docs.len() == 0 {
        SqliteType::Null
    } else {
        SqliteType::join(
            batch_type(docs.drop_last(), n),
            asked_type(schema_of_value(docs.last()), n),
        )
    }
}

/// Some document of `docs` asks for a column named `n`.
pub open spec fn batch_asks(docs: Seq<JsonValue>, n: Seq<char>) -> bool {
    exists|i: int| 0 <= i < docs.len() && has_column(schema_of_value(#[trigger] docs[i]), n)
}

/// Some document of `docs` asks for a nested column named `n`.
pub open spec fn batch_nested(docs: Seq<JsonValue>, n: Seq<char>) -> bool {
    exists|i: int| 0 <= i < docs.len() && asked_nested(schema_of_value(#[trigger] docs[i]), n)
}

/// Every column that a document's members ask for is nullable.
pub proof fn lemma_schema_of_nullable(fields: Seq<JsonField>)
    ensures
        all_nullable(schema_of(fields)),
    decreases fields.len(),
{
    if fields.len() > 0 {
        lemma_schema_of_nullable(fields.drop_last());
    }
}

/// One merge step: the names stay distinct, the named column is the only one
/// that changes, and it takes the common type.
pub proof fn lemma_merge_column(acc: Seq<ColumnShape>, col: ColumnShape, n: Seq<char>)
    requires
        distinct_names(acc),
    ensures
        distinct_names(merge_column(acc, col)),
        has_column(merge_column(acc, col), n) <==> has_column(acc, n) || n == col.name,
        column_type(merge_column(acc, col), n) == SqliteType::join(
            column_type(acc, n),
            if n == col.name {
                col.sqlite_type
            } else {
                SqliteType::Null
            },
        ),
        column_nested(merge_column(acc, col), n) <==> column_nested(acc, n) || (n == col.name
            && col.is_nested),
        all_nullable(acc) && col.is_nullable ==> all_nullable(merge_column(acc, col)),
{
    let names = shape_names(acc);
    let merged = merge_column(acc, col);
    let merged_names = shape_names(merged);
    let i = position_of(names, col.name);
    lemma_position_of(names, col.name);
    lemma_position_of(names, n);
    if i < acc.len() {
        assert(merged_names =~= names);
    } else {
        assert(merged_names =~= names.push(col.name));
        assert forall|a: int, b: int| 0 <= a < b < merged_names.len() implies merged_names[a]
            != merged_names[b] by {
            if b < names.len() {
            } else {
                assert(names[a] != col.name);
            }
        }
        if has_column(acc, n) {
            lemma_position_unique(merged_names, n, position_of(names, n));
        } else if n == col.name {
            lemma_position_unique(merged_names, n, names.len() as int);
        } else {
            assert(!merged_names.contains(n)) by {
                if merged_names.contains(n) {
                    let k = choose|k: int| 0 <= k < merged_names.len() && merged_names[k] == n;
                    if k < names.len() {
                        assert(names[k] == n);
                    }
                }
            }
        }
        if has_column(acc, n) || n == col.name {
            let k = position_of(merged_names, n);
            assert(merged_names[k] == n);
        }
    }
    lemma_position_of(merged_names, n);
}

/// Merging a list of columns: under each name the result holds the common
/// type of what was there and of what the list asks for.
pub proof fn lemma_merge_columns(acc: Seq<ColumnShape>, cols: Seq<ColumnShape>, n: Seq<char>)
    requires
        distinct_names(acc),
    ensures
        distinct_names(merge_columns(acc, cols)),
        has_column(merge_columns(acc, cols), n) <==> has_column(acc, n) || has_column(cols, n),
        column_type(merge_columns(acc, cols), n) == SqliteType::join(
            column_type(acc, n),
            asked_type(cols, n),
        ),
        column_nested(merge_columns(acc, cols), n) <==> column_nested(acc, n) || asked_nested(
            cols,
            n,
        ),
        all_nullable(acc) && all_nullable(cols) ==> all_nullable(merge_columns(acc, cols)),
    decreases cols.len(),
{
    if cols.len() == 0 {
        assert(!has_column(cols, n));
    } else {
        let init = cols.drop_last();
        let last = cols.last();
        let mid = merge_columns(acc, init);
        lemma_merge_columns(acc, init, n);
        lemma_merge_column(mid, last, n);
        lemma_join_associative(column_type(acc, n), asked_type(init, n), last.sqlite_type);
        assert(has_column(cols, n) <==> has_column(init, n) || n == last.name) by {
            let names = shape_names(cols);
            let init_names = shape_names(init);
            if has_column(cols, n) {
                let k = choose|k: int| 0 <= k < names.len() && names[k] == n;
                if k < init.len() {
                    assert(init_names[k] == n);
                }
            }
            if has_column(init, n) {
                let k = choose|k: int| 0 <= k < init_names.len() && init_names[k] == n;
                assert(names[k] == n);
            }
            if n == last.name {
                assert(names[cols.len() - 1] == n);
            }
        }
        assert(asked_nested(cols, n) <==> asked_nested(init, n) || (n == last.name
            && last.is_nested)) by {
            if asked_nested(cols, n) {
                let k = choose|k: int|
                    0 <= k < cols.len() && (#[trigger] cols[k]).name == n && cols[k].is_nested;
                if k < init.len() {
                    assert(init[k] == cols[k]);
                }
            }
            if asked_nested(init, n) {
                let k = choose|k: int|
                    0 <= k < init.len() && (#[trigger] init[k]).name == n && init[k].is_nested;
                assert(cols[k] == init[k]);
            }
            if n == last.name && last.is_nested {
                assert(cols[cols.len() - 1] == last);
            }
        }
        if all_nullable(cols) {
            assert(all_nullable(init)) by {
                assert forall|k: int| 0 <= k < init.len() implies (#[trigger] init[k]).is_nullable by {
                    assert(cols[k] == init[k]);
                }
            }
            assert(last == cols[cols.len() - 1]);
        }
    }
}

/// What the unified schema of a batch holds under the name `n`: a column
/// exactly when some document asks for one, with the common type of all that
/// the documents ask for, nested when one of them is, and always nullable.
pub proof fn lemma_unified_schema_entry(docs: Seq<JsonValue>, n: Seq<char>)
    ensures
        distinct_names(unified_schema(docs)),
        all_nullable(unified_schema(docs)),
        has_column(unified_schema(docs), n) <==> batch_asks(docs, n),
        column_type(unified_schema(docs), n) == batch_type(docs, n),
        column_nested(unified_schema(docs), n) <==> batch_nested(docs, n),
    decreases docs.len(),
{
    if docs.len() == 0 {
        assert(shape_names(unified_schema(docs)) =~= Seq::empty());
    } else {
        let init = docs.drop_last();
        let last = docs.last();
        lemma_unified_schema_entry(init, n);
        lemma_merge_columns(unified_schema(init), schema_of_value(last), n);
        match last {
            JsonValue::Object(o) => {
                lemma_schema_of_nullable(o.fields@);
            },
            _ => {},
        }
        assert(batch_asks(docs, n) <==> batch_asks(init, n) || has_column(
            schema_of_value(last),
            n,
        )) by {
            if batch_asks(docs, n) {
                let k = choose|k: int|
                    0 <= k < docs.len() && has_column(schema_of_value(#[trigger] docs[k]), n);
                if k < init.len() {
                    assert(init[k] == docs[k]);
                }
            }
            if batch_asks(init, n) {
                let k = choose|k: int|
                    0 <= k < init.len() && has_column(schema_of_value(#[trigger] init[k]), n);
                assert(docs[k] == init[k]);
            }
            if has_column(schema_of_value(last), n) {
                assert(docs[docs.len() - 1] == last);
            }
        }
        assert(batch_nested(docs, n) <==> batch_nested(init, n) || asked_nested(
            schema_of_value(last),
            n,
        )) by {
            if batch_nested(docs, n) {
                let k = choose|k: int|
                    0 <= k < docs.len() && asked_nested(schema_of_value(#[trigger] docs[k]), n);
                if k < init.len() {
                    assert(init[k] == docs[k]);
                }
            }
            if batch_nested(init, n) {
                let k = choose|k: int|
                    0 <= k < init.len() && asked_nested(schema_of_value(#[trigger] init[k]), n);
                assert(docs[k] == init[k]);
            }
            if asked_nested(schema_of_value(last), n) {
                assert(docs[docs.len() - 1] == last);
            }
        }
    }
}

/// The type of a batch under a name is the least type that every document's
/// own request promotes to.
pub proof fn lemma_batch_type_is_least_upper_bound(docs: Seq<JsonValue>, n: Seq<char>)
    ensures
        forall|i: int|
            0 <= i < docs.len() ==> asked_type(schema_of_value(#[trigger] docs[i]), n).promotes_to(
                batch_type(docs, n),
            ),
        forall|c: SqliteType|
            (forall|i: int|
                0 <= i < docs.len() ==> asked_type(
                    schema_of_value(#[trigger] docs[i]),
                    n,
                ).promotes_to(c)) ==> batch_type(docs, n).promotes_to(c),
    decreases docs.len(),
{
    if docs.len() > 0 {
        let init = docs.drop_last();
        let last = docs.last();
        let a = batch_type(init, n);
        let b = asked_type(schema_of_value(last), n);
        lemma_batch_type_is_least_upper_bound(init, n);
        assert forall|i: int| 0 <= i < docs.len() implies asked_type(
            schema_of_value(#[trigger] docs[i]),
            n,
        ).promotes_to(batch_type(docs, n)) by {
            lemma_join_is_least_upper_bound(a, b, a);
            if i < init.len() {
                assert(init[i] == docs[i]);
                lemma_promotion_is_partial_order(
                    asked_type(schema_of_value(docs[i]), n),
                    a,
                    SqliteType::join(a, b),
                );
            }
        }
        assert forall|c: SqliteType|
            (forall|i: int|
                0 <= i < docs.len() ==> asked_type(
                    schema_of_value(#[trigger] docs[i]),
                    n,
                ).promotes_to(c)) implies batch_type(docs, n).promotes_to(c) by {
            assert forall|i: int| 0 <= i < init.len() implies asked_type(
                schema_of_value(#[trigger] init[i]),
                n,
            ).promotes_to(c) by {
                assert(init[i] == docs[i]);
            }
            assert(docs[docs.len() - 1] == last);
            lemma_join_is_least_upper_bound(a, b, c);
        }
    }
}

/// Order independence: two batches that hold the same documents, each as
/// often as the other and in any order, unify to the same schema. Under each
/// name both hold the same column, with the same type and the same flags.
pub proof fn lemma_unified_schema_order_independent(a: Seq<JsonValue>, b: Seq<JsonValue>)
    requires
        a.to_multiset() == b.to_multiset(),
    ensures
        schema_table(unified_schema(a)) == schema_table(unified_schema(b)),
{
    let ua = unified_schema(a);
    let ub = unified_schema(b);
    assert forall|x: JsonValue| a.contains(x) <==> b.contains(x) by {
        vstd::seq_lib::to_multiset_contains(a, x);
        vstd::seq_lib::to_multiset_contains(b, x);
    }
    assert forall|n: Seq<char>|
        (has_column(ua, n) <==> has_column(ub, n)) && (has_column(ua, n) ==> column_named(ua, n)
            == column_named(ub, n)) by {
        lemma_unified_schema_entry(a, n);
        lemma_unified_schema_entry(b, n);
        lemma_batch_type_is_least_upper_bound(a, n);
        lemma_batch_type_is_least_upper_bound(b, n);
        let ta = batch_type(a, n);
        let tb = batch_type(b, n);
        assert(tb.promotes_to(ta)) by {
            assert forall|i: int| 0 <= i < b.len() implies asked_type(
                schema_of_value(#[trigger] b[i]),
                n,
            ).promotes_to(ta) by {
                assert(b.contains(b[i]));
                let j = choose|j: int| 0 <= j < a.len() && a[j] == b[i];
                assert(asked_type(schema_of_value(a[j]), n).promotes_to(ta));
            }
        }
        assert(ta.promotes_to(tb)) by {
            assert forall|i: int| 0 <= i < a.len() implies asked_type(
                schema_of_value(#[trigger] a[i]),
                n,
            ).promotes_to(tb) by {
                assert(a.contains(a[i]));
                let j = choose|j: int| 0 <= j < b.len() && b[j] == a[i];
                assert(asked_type(schema_of_value(b[j]), n).promotes_to(tb));
            }
        }
        lemma_promotion_is_partial_order(ta, tb, ta);
        if batch_asks(a, n) {
            let k = choose|k: int|
                0 <= k < a.len() && has_column(schema_of_value(#[trigger] a[k]), n);
            assert(a.contains(a[k]));
            let j = choose|j: int| 0 <= j < b.len() && b[j] == a[k];
            assert(has_column(schema_of_value(b[j]), n));
        }
        if batch_asks(b, n) {
            let k = choose|k: int|
                0 <= k < b.len() && has_column(schema_of_value(#[trigger] b[k]), n);
            assert(b.contains(b[k]));
            let j = choose|j: int| 0 <= j < a.len() && a[j] == b[k];
            assert(has_column(schema_of_value(a[j]), n));
        }
        if batch_nested(a, n) {
            let k = choose|k: int|
                0 <= k < a.len() && asked_nested(schema_of_value(#[trigger] a[k]), n);
            assert(a.contains(a[k]));
            let j = choose|j: int| 0 <= j < b.len() && b[j] == a[k];
            assert(asked_nested(schema_of_value(b[j]), n));
        }
        if batch_nested(b, n) {
            let k = choose|k: int|
                0 <= k < b.len() && asked_nested(schema_of_value(#[trigger] b[k]), n);
            assert(b.contains(b[k]));
            let j = choose|j: int| 0 <= j < a.len() && a[j] == b[k];
            assert(asked_nested(schema_of_value(a[j]), n));
        }
        if has_column(ua, n) {
            lemma_position_of(shape_names(ua), n);
            lemma_position_of(shape_names(ub), n);
            let ca = column_named(ua, n);
            let cb = column_named(ub, n);
            assert(ca.name == n);
            assert(cb.name == n);
            assert(ca.is_nullable && cb.is_nullable);
            assert(ca.sqlite_type == cb.sqlite_type);
            assert(ca.is_nested == cb.is_nested);
        }
    }
    assert(schema_table(ua) =~= schema_table(ub));
}

} // verus!
