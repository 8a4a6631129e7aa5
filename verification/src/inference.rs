//! Type inference: from a document's values to relational column types.
//!
//! | JSON value          | column type | note                         |
//! |---------------------|-------------|------------------------------|
//! | integer in `i64`    | INTEGER     |                              |
//! | any other number    | REAL        |                              |
//! | boolean             | INTEGER     | stored as 1 or 0             |
//! | string              | TEXT        |                              |
//! | object, array       | TEXT        | stored as serialized JSON    |
//! | null                | NULL        | never creates a column       |

use vstd::prelude::*;
use crate::error::{VibeError, VibeResult};
use crate::json::{position_of, lemma_position_of, JsonField, JsonValue};

verus! {

/// The storage class of a relational column.
#[derive(Debug, Clone, Copy, PartialEq, Eq, Structural)]
pub enum SqliteType {
    Integer,
    Real,
    Text,
    Blob,
    Null,
}

/// A column as a document asks for it.
#[derive(Debug)]
pub struct InferredColumn {
    pub name: String,
    pub sqlite_type: SqliteType,
    /// The value was an object or an array, and is stored as serialized JSON.
    pub is_nested: bool,
    pub is_nullable: bool,
}

/// What an [`InferredColumn`] says, with the name as a sequence of characters.
pub ghost struct ColumnShape {
    pub name: Seq<char>,
    pub sqlite_type: SqliteType,
    pub is_nested: bool,
    pub is_nullable: bool,
}

impl View for InferredColumn {
    type V = ColumnShape;

    open spec fn view(&self) -> ColumnShape {
        ColumnShape {
            name: self.name@,
            sqlite_type: self.sqlite_type,
            is_nested: self.is_nested,
            is_nullable: self.is_nullable,
        }
    }
}

/// The shapes of a sequence of columns, in order.
pub open spec fn shapes(columns: Seq<InferredColumn>) -> Seq<ColumnShape> {
    columns.map_values(|c: InferredColumn| c@)
}

/// The names of a sequence of shapes, in order.
pub open spec fn shape_names(columns: Seq<ColumnShape>) -> Seq<Seq<char>> {
    columns.map_values(|c: ColumnShape| c.name)
}

impl SqliteType {
    /// The least type that holds every value of `a` and every value of `b`:
    /// NULL lies below every type, INTEGER below REAL, and every type below TEXT.
    pub open spec fn join(a: SqliteType, b: SqliteType) -> SqliteType {
        if a == b {
            a
        } else if a == SqliteType::Null {
            b
        } else if b == SqliteType::Null {
            a
        } else if (a == SqliteType::Integer && b == SqliteType::Real) || (a == SqliteType::Real && b
            == SqliteType::Integer) {
            SqliteType::Real
        } else {
            SqliteType::Text
        }
    }

    /// A column of type `self` can be widened to `other` without losing a value.
    pub open spec fn promotes_to(self, other: SqliteType) -> bool {
        ||| self == other
        ||| (self == SqliteType::Integer && other == SqliteType::Real)
        ||| other == SqliteType::Text
        ||| self == SqliteType::Null
    }

    /// The type's name in a column definition.
    pub open spec fn sql_name(self) -> Seq<char> {
        match self {
            SqliteType::Integer => "INTEGER"@,
            SqliteType::Real => "REAL"@,
            SqliteType::Text => "TEXT"@,
            SqliteType::Blob => "BLOB"@,
            SqliteType::Null => "NULL"@,
        }
    }

    /// Returns the SQL type name for column creation.
    pub fn as_sql(&self) -> (r: &'static str)
        ensures
            r@ == self.sql_name(),
    {
        match self {
            SqliteType::Integer => "INTEGER",
            SqliteType::Real => "REAL",
            SqliteType::Text => "TEXT",
            SqliteType::Blob => "BLOB",
            SqliteType::Null => "NULL",
        }
    }

    /// Whether this type can be promoted to `other`.
    pub fn can_promote_to(&self, other: &SqliteType) -> (r: bool)
        ensures
            r == self.promotes_to(*other),
    {
        if *self == *other {
            return true;
        }
        match (self, other) {
            (SqliteType::Integer, SqliteType::Real) => true,
            (_, SqliteType::Text) => true,
            (SqliteType::Null, _) => true,
            _ => false,
        }
    }

    /// Returns the more general of two types.
    pub fn common_type(a: &SqliteType, b: &SqliteType) -> (r: SqliteType)
        ensures
            r == Self::join(*a, *b),
    {
        if *a == *b {
            return *a;
        }
        match (a, b) {
            (SqliteType::Null, other) => *other,
            (other, SqliteType::Null) => *other,
            (SqliteType::Integer, SqliteType::Real) => SqliteType::Real,
            (SqliteType::Real, SqliteType::Integer) => SqliteType::Real,
            _ => SqliteType::Text,
        }
    }
}

/// Widening is commutative: the common type does not depend on which type comes first.
pub proof fn lemma_join_commutative(a: SqliteType, b: SqliteType)
    ensures
        SqliteType::join(a, b) == SqliteType::join(b, a),
{
}

/// Widening is associative: three types can be merged in either grouping.
pub proof fn lemma_join_associative(a: SqliteType, b: SqliteType, c: SqliteType)
    ensures
        SqliteType::join(SqliteType::join(a, b), c) == SqliteType::join(a, SqliteType::join(b, c)),
{
}

/// Widening is idempotent, NULL is its neutral element, and TEXT absorbs every type.
pub proof fn lemma_join_units(a: SqliteType)
    ensures
        SqliteType::join(a, a) == a,
        SqliteType::join(SqliteType::Null, a) == a,
        SqliteType::join(a, SqliteType::Null) == a,
        SqliteType::join(a, SqliteType::Text) == SqliteType::Text,
        SqliteType::join(SqliteType::Text, a) == SqliteType::Text,
{
}

/// Promotion is a partial order: reflexive, antisymmetric and transitive.
pub proof fn lemma_promotion_is_partial_order(a: SqliteType, b: SqliteType, c: SqliteType)
    ensures
        a.promotes_to(a),
        a.promotes_to(b) && b.promotes_to(a) ==> a == b,
        a.promotes_to(b) && b.promotes_to(c) ==> a.promotes_to(c),
{
}

/// The common type is the least upper bound under promotion: both types
/// promote to it, and it promotes to every type that both promote to.
pub proof fn lemma_join_is_least_upper_bound(a: SqliteType, b: SqliteType, c: SqliteType)
    ensures
        a.promotes_to(SqliteType::join(a, b)),
        b.promotes_to(SqliteType::join(a, b)),
        a.promotes_to(c) && b.promotes_to(c) ==> SqliteType::join(a, b).promotes_to(c),
        a.promotes_to(b) <==> SqliteType::join(a, b) == b,
{
}

/// Widening is monotone: widening a wider type by `c` gives a type at least as wide.
pub proof fn lemma_join_monotone(a: SqliteType, b: SqliteType, c: SqliteType)
    requires
        a.promotes_to(b),
    ensures
        SqliteType::join(a, c).promotes_to(SqliteType::join(b, c)),
{
}

/// The column type that holds `value`.
pub open spec fn type_of(value: JsonValue) -> SqliteType {
    match value {
        JsonValue::Null => SqliteType::Null,
        JsonValue::Bool(_) => SqliteType::Integer,
        JsonValue::Number(n) => if n.int_value() is Some {
            SqliteType::Integer
        } else {
            SqliteType::Real
        },
        JsonValue::String(_) => SqliteType::Text,
        JsonValue::Array(_) => SqliteType::Text,
        JsonValue::Object(_) => SqliteType::Text,
    }
}

/// The value is an object or an array.
pub open spec fn is_composite(value: JsonValue) -> bool {
    value is Array || value is Object
}

/// Infers the column type of a JSON value.
pub fn infer_type(value: &JsonValue) -> (r: SqliteType)
    ensures
        r == type_of(*value),
{
    match value {
        JsonValue::Null => SqliteType::Null,
        JsonValue::Bool(_) => SqliteType::Integer,
        JsonValue::Number(n) => {
            if n.as_i64().is_some() {
                SqliteType::Integer
            } else {
                SqliteType::Real
            }
        },
        JsonValue::String(_) => SqliteType::Text,
        JsonValue::Object(_) => SqliteType::Text,
        JsonValue::Array(_) => SqliteType::Text,
    }
}

impl InferredColumn {
    /// A column added on demand: always nullable, since rows written before it hold no value.
    pub fn new(name: String, sqlite_type: SqliteType, is_nested: bool) -> (r: InferredColumn)
        ensures
            r.name == name,
            r.sqlite_type == sqlite_type,
            r.is_nested == is_nested,
            r.is_nullable,
    {
        InferredColumn { name, sqlite_type, is_nested, is_nullable: true }
    }
}

/// The column that one member of a document asks for.
pub open spec fn shape_of(field: JsonField) -> ColumnShape {
    ColumnShape {
        name: field.key@,
        sqlite_type: type_of(field.value),
        is_nested: is_composite(field.value),
        is_nullable: true,
    }
}

/// The columns that a document's members ask for: one for each member whose
/// value is not null, in the members' order.
pub open spec fn schema_of(fields: Seq<JsonField>) -> Seq<ColumnShape>
    decreases fields.len(),
{
    if fields.len() == 0 {
        Seq::empty()
    } else if fields.last().value is Null {
        schema_of(fields.drop_last())
    } else {
        schema_of(fields.drop_last()).push(shape_of(fields.last()))
    }
}

/// The columns that a JSON value asks for, where it is an object.
pub open spec fn schema_of_value(value: JsonValue) -> Seq<ColumnShape> {
    match value {
        JsonValue::Object(o) => schema_of(o.fields@),
        _ => Seq::empty(),
    }
}

/// The text of the error for a payload that is not an object.
pub open spec fn not_an_object() -> Seq<char> {
    "Payload must be a JSON object"@
}

/// Infers the schema of one document.
///
/// Fails with `InvalidPayload` exactly when `value` is not an object.
pub fn infer_schema(value: &JsonValue) -> (r: VibeResult<Vec<InferredColumn>>)
    ensures
        match r {
            Ok(columns) => *value is Object && shapes(columns@) == schema_of_value(*value),
            Err(e) => !(*value is Object) && (e matches VibeError::InvalidPayload(m) && m@
                == not_an_object()),
        },
{
    let obj = match value.as_object() {
        Some(o) => o,
        None => {
            return Err(VibeError::InvalidPayload("Payload must be a JSON object".to_string()));
        },
    };
    let mut columns: Vec<InferredColumn> = Vec::new();
    let mut i: usize = 0;
    while i < obj.fields.len()
        invariant
            0 <= i <= obj.fields@.len(),
            shapes(columns@) == schema_of(obj.fields@.take(i as int)),
        decreases obj.fields@.len() - i,
    {
        let field = &obj.fields[i];
        proof {
            let next = obj.fields@.take(i + 1);
            assert(next.drop_last() == obj.fields@.take(i as int));
            assert(next.last() == *field);
        }
        if !field.value.is_null() {
            let is_nested = match &field.value {
                JsonValue::Object(_) => true,
                JsonValue::Array(_) => true,
                _ => false,
            };
            let ghost before = columns@;
            let column = InferredColumn::new(field.key.clone(), infer_type(&field.value), is_nested);
            columns.push(column);
            proof {
                assert(shapes(columns@) =~= shapes(before).push(shape_of(*field)));
            }
        }
        i = i + 1;
    }
    proof {
        assert(obj.fields@.take(i as int) == obj.fields@);
    }
    Ok(columns)
}

/// `acc` widened to hold `col`: the column of that name takes the common type
/// and is nested if either was; a name not yet seen is added last.
pub open spec fn merge_column(acc: Seq<ColumnShape>, col: ColumnShape) -> Seq<ColumnShape> {
    let i = position_of(shape_names(acc), col.name);
    if i < acc.len() {
        acc.update(
            i,
            ColumnShape {
                sqlite_type: SqliteType::join(acc[i].sqlite_type, col.sqlite_type),
                is_nested: acc[i].is_nested || col.is_nested,
                ..acc[i]
            },
        )
    } else {
        acc.push(col)
    }
}

/// `acc` widened to hold each of `cols`, taken in order.
pub open spec fn merge_columns(acc: Seq<ColumnShape>, cols: Seq<ColumnShape>) -> Seq<ColumnShape>
    decreases cols.len(),
{
    if cols.len() == 0 {
        acc
    } else {
        merge_column(merge_columns(acc, cols.drop_last()), cols.last())
    }
}

/// The schema that holds every document of `docs`: their schemas merged, in order.
pub open spec fn unified_schema(docs: Seq<JsonValue>) -> Seq<ColumnShape>
    decreases docs.len(),
{
    if docs.len() == 0 {
        Seq::empty()
    } else {
        merge_columns(unified_schema(docs.drop_last()), schema_of_value(docs.last()))
    }
}

/// Every value of `docs` is an object.
pub open spec fn all_objects(docs: Seq<JsonValue>) -> bool {
    forall|i: int| 0 <= i < docs.len() ==> #[trigger] docs[i] is Object
}

/// Widens `unified` to hold `column`.
fn merge_into(unified: &mut Vec<InferredColumn>, column: InferredColumn)
    ensures
        shapes(final(unified)@) == merge_column(shapes(old(unified)@), column@),
{
    let ghost before = shapes(unified@);
    let ghost names = shape_names(before);
    proof {
        lemma_position_of(names, column.name@);
    }
    let mut i: usize = 0;
    while i < unified.len()
        invariant
            0 <= i <= unified@.len(),
            shapes(unified@) == before,
            before == shapes(old(unified)@),
            names == shape_names(before),
            forall|j: int| 0 <= j < i ==> names[j] != column.name@,
        decreases unified@.len() - i,
    {
        if *unified[i].name.as_str() == *column.name.as_str() {
            proof {
                assert(names[i as int] == column.name@);
                lemma_position_of(names, column.name@);
                assert(position_of(names, column.name@) == i);
            }
            let current = unified.remove(i);
            let merged = InferredColumn {
                name: current.name,
                sqlite_type: SqliteType::common_type(&current.sqlite_type, &column.sqlite_type),
                is_nested: current.is_nested || column.is_nested,
                is_nullable: current.is_nullable,
            };
            unified.insert(i, merged);
            proof {
                assert(shapes(unified@) =~= merge_column(before, column@));
            }
            return ;
        }
        proof {
            assert(names[i as int] != column.name@);
        }
        i = i + 1;
    }
    proof {
        lemma_position_of(names, column.name@);
        assert(position_of(names, column.name@) == names.len());
    }
    unified.push(column);
    proof {
        assert(shapes(unified@) =~= merge_column(before, column@));
    }
}

/// Infers one schema that holds every document of a batch.
///
/// Fails with `InvalidPayload` exactly when some value of the batch is not an object.
pub fn infer_batch_schema(values: &[JsonValue]) -> (r: VibeResult<Vec<InferredColumn>>)
    ensures
        match r {
            Ok(columns) => all_objects(values@) && shapes(columns@) == unified_schema(values@),
            Err(e) => !all_objects(values@) && (e matches VibeError::InvalidPayload(m) && m@
                == not_an_object()),
        },
{
    let mut unified: Vec<InferredColumn> = Vec::new();
    let mut i: usize = 0;
    assert(shapes(unified@) =~= unified_schema(values@.take(0)));
    while i < values.len()
        invariant
            0 <= i <= values@.len(),
            all_objects(values@.take(i as int)),
            shapes(unified@) == unified_schema(values@.take(i as int)),
        decreases values@.len() - i,
    {
        let columns = match infer_schema(&values[i]) {
            Ok(columns) => columns,
            Err(e) => {
                return Err(e);
            },
        };
        let ghost start = shapes(unified@);
        let ghost wanted = shapes(columns@);
        let mut k: usize = 0;
        while k < columns.len()
            invariant
                0 <= k <= columns@.len(),
                wanted == shapes(columns@),
                shapes(unified@) == merge_columns(start, wanted.take(k as int)),
            decreases columns@.len() - k,
        {
            let column = InferredColumn {
                name: columns[k].name.clone(),
                sqlite_type: columns[k].sqlite_type,
                is_nested: columns[k].is_nested,
                is_nullable: columns[k].is_nullable,
            };
            proof {
                assert(column@ == wanted[k as int]);
                assert(wanted.take(k + 1).drop_last() =~= wanted.take(k as int));
                assert(wanted.take(k + 1).last() == wanted[k as int]);
            }
            merge_into(&mut unified, column);
            k = k + 1;
        }
        proof {
            assert(wanted.take(k as int) =~= wanted);
            let next = values@.take(i + 1);
            assert(next.drop_last() =~= values@.take(i as int));
            assert(next.last() == values@[i as int]);
            assert forall|j: int| 0 <= j < next.len() implies #[trigger] next[j] is Object by {
                if j < i {
                    assert(values@.take(i as int)[j] is Object);
                }
            }
        }
        i = i + 1;
    }
    proof {
        assert(values@.take(i as int) =~= values@);
    }
    Ok(unified)
}

} // verus!
