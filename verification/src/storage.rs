//! The file store's own rules: which bucket names and object paths are
//! accepted, how rows of metadata are read, and which statement lists the
//! objects of a bucket.

use vstd::prelude::*;
use vstd::string::*;
use crate::api::BoundStatement;
use crate::db::{
    field_int, field_text, missing_field, optional_int, required_int, required_text, sql_values,
    SqlValue, SqlValueSpec,
};
use crate::engine::Row;
use crate::error::{ErrorKind, Fault, VibeError, VibeResult};
use crate::json::JsonValue;
use crate::text::{
    ascii_digit, ascii_lower, begins_with, chars_of, contains_text, decimal, decimal_text,
    is_ascii_digit, is_ascii_lower, occurs_in, starts_with_text, text_of,
};

verus! {

/// The largest file that can be stored, in bytes: 100 MiB.
pub const MAX_FILE_SIZE: usize = 104857600;

/// The longest bucket name, in bytes.
pub const MAX_BUCKET_NAME_LENGTH: usize = 63;

/// The longest object path, in bytes.
pub const MAX_OBJECT_PATH_LENGTH: usize = 1024;

/// A bucket's metadata.
#[derive(Debug, Clone)]
pub struct Bucket {
    pub id: i64,
    pub name: String,
    pub public: bool,
    pub created_at: String,
    pub owner_id: Option<i64>,
}

/// A stored object's metadata.
#[derive(Debug, Clone)]
pub struct StorageObject {
    pub id: i64,
    pub bucket_name: String,
    pub path: String,
    pub size: i64,
    pub mime_type: String,
    pub created_at: String,
    pub updated_at: String,
    pub owner_id: Option<i64>,
}

/// The request to create a bucket.
#[derive(Debug)]
pub struct CreateBucketRequest {
    pub name: String,
    pub public: bool,
}

/// The request to list a bucket's objects.
#[derive(Debug)]
pub struct ListObjectsQuery {
    pub prefix: Option<String>,
    pub limit: i64,
    pub offset: i64,
}

/// The objects listed where the request names no limit.
pub fn default_limit() -> (r: i64)
    ensures
        r == 100,
{
    100
}

/// What a [`Bucket`] says, with its texts as sequences of characters.
pub ghost struct BucketSpec {
    pub id: i64,
    pub name: Seq<char>,
    pub public: bool,
    pub created_at: Seq<char>,
    pub owner_id: Option<i64>,
}

impl View for Bucket {
    type V = BucketSpec;

    open spec fn view(&self) -> BucketSpec {
        BucketSpec {
            id: self.id,
            name: self.name@,
            public: self.public,
            created_at: self.created_at@,
            owner_id: self.owner_id,
        }
    }
}

/// What a [`StorageObject`] says, with its texts as sequences of characters.
pub ghost struct StorageObjectSpec {
    pub id: i64,
    pub bucket_name: Seq<char>,
    pub path: Seq<char>,
    pub size: i64,
    pub mime_type: Seq<char>,
    pub created_at: Seq<char>,
    pub updated_at: Seq<char>,
    pub owner_id: Option<i64>,
}

impl View for StorageObject {
    type V = StorageObjectSpec;

    open spec fn view(&self) -> StorageObjectSpec {
        StorageObjectSpec {
            id: self.id,
            bucket_name: self.bucket_name@,
            path: self.path@,
            size: self.size,
            mime_type: self.mime_type@,
            created_at: self.created_at@,
            updated_at: self.updated_at@,
            owner_id: self.owner_id,
        }
    }
}

/// The length of a text in bytes, as UTF-8.
pub open spec fn byte_length(s: Seq<char>) -> nat {
    vstd::utf8::encode_utf8(s).len()
}

/// `c` may stand in a bucket name: a lower-case letter, a digit or a hyphen.
pub open spec fn is_bucket_char(c: char) -> bool {
    is_ascii_lower(c) || is_ascii_digit(c) || c == '-'
}

/// Every character of `s` may stand in a bucket name.
pub open spec fn all_bucket_chars(s: Seq<char>) -> bool {
    forall|i: int| 0 <= i < s.len() ==> is_bucket_char(#[trigger] s[i])
}

/// The text of the error that refuses `name` as a bucket name, if it is
/// refused: the first rule that it breaks, of length, characters and first
/// character, in that order.
pub open spec fn bucket_name_fault(name: Seq<char>) -> Option<Seq<char>> {
    if byte_length(name) == 0 || byte_length(name) > MAX_BUCKET_NAME_LENGTH {
        Some("Bucket name must be 1-63 characters"@)
    } else if !all_bucket_chars(name) {
        Some("Bucket name can only contain lowercase letters, numbers, and hyphens"@)
    } else if !(name.len() > 0 && is_ascii_lower(name[0])) {
        Some("Bucket name must start with a letter"@)
    } else {
        None
    }
}

/// Validates a bucket name: 1 to 63 bytes of lower-case letters, digits and
/// hyphens, the first a letter.
pub fn validate_bucket_name(name: &str) -> (r: VibeResult<()>)
    ensures
        match r {
            Ok(_) => bucket_name_fault(name@) is None,
            Err(e) => bucket_name_fault(name@) == Some(e.detail()) && e.kind()
                == ErrorKind::InvalidPayload,
        },
{
    let bytes = name.as_bytes().len();
    if bytes == 0 || bytes > MAX_BUCKET_NAME_LENGTH {
        return Err(VibeError::InvalidPayload("Bucket name must be 1-63 characters".to_string()));
    }
    let chars = chars_of(name);
    let mut i: usize = 0;
    while i < chars.len()
        invariant
            0 <= i <= chars@.len(),
            chars@ == name@,
            0 < byte_length(name@) <= MAX_BUCKET_NAME_LENGTH,
            forall|j: int| 0 <= j < i ==> is_bucket_char(#[trigger] chars@[j]),
        decreases chars@.len() - i,
    {
        let c = chars[i];
        if !(ascii_lower(c) || ascii_digit(c) || c == '-') {
            return Err(
                VibeError::InvalidPayload(
                    "Bucket name can only contain lowercase letters, numbers, and hyphens".to_string(),
                ),
            );
        }
        i = i + 1;
    }
    if !(chars.len() > 0 && ascii_lower(chars[0])) {
        return Err(VibeError::InvalidPayload("Bucket name must start with a letter".to_string()));
    }
    Ok(())
}

/// The text of the error that refuses `path` as an object path, if it is
/// refused: a path that is empty or longer than 1024 bytes, or one that
/// could leave its bucket.
pub open spec fn object_path_fault(path: Seq<char>) -> Option<Seq<char>> {
    if byte_length(path) == 0 || byte_length(path) > MAX_OBJECT_PATH_LENGTH {
        Some("Object path must be 1-1024 characters"@)
    } else if occurs_in(".."@, path) || begins_with("/"@, path) {
        Some("Invalid object path"@)
    } else {
        None
    }
}

/// Validates an object path: 1 to 1024 bytes, relative, and without `..`.
pub fn validate_object_path(path: &str) -> (r: VibeResult<()>)
    ensures
        match r {
            Ok(_) => object_path_fault(path@) is None,
            Err(e) => object_path_fault(path@) == Some(e.detail()) && e.kind()
                == ErrorKind::InvalidPayload,
        },
{
    let bytes = path.as_bytes().len();
    if bytes == 0 || bytes > MAX_OBJECT_PATH_LENGTH {
        return Err(VibeError::InvalidPayload("Object path must be 1-1024 characters".to_string()));
    }
    if contains_text(path, "..") || starts_with_text(path, "/") {
        return Err(VibeError::InvalidPayload("Invalid object path".to_string()));
    }
    Ok(())
}

/// The text of the error for a file that is too large.
pub open spec fn file_too_large() -> Seq<char> {
    "File too large. Maximum size is "@ + decimal(MAX_FILE_SIZE as nat) + " bytes"@
}

/// Refuses a file of more than 100 MiB.
pub fn check_file_size(size: usize) -> (r: VibeResult<()>)
    ensures
        match r {
            Ok(_) => size <= MAX_FILE_SIZE,
            Err(e) => size > MAX_FILE_SIZE && e@ == (Fault {
                kind: ErrorKind::InvalidPayload,
                detail: file_too_large(),
            }),
        },
{
    if size > MAX_FILE_SIZE {
        Err(
            VibeError::InvalidPayload(
                String::from_str("File too large. Maximum size is ").concat(
                    decimal_text(MAX_FILE_SIZE as u128).as_str(),
                ).concat(" bytes"),
            ),
        )
    } else {
        Ok(())
    }
}

// ---------------------------------------------------------------------------
// Rows of metadata
// ---------------------------------------------------------------------------

/// The bucket that a row of metadata describes; the fault names the first
/// field that the row lacks, of `id`, `name`, `public` and `created_at`.
pub open spec fn bucket_of(row: Seq<(String, JsonValue)>) -> Result<BucketSpec, Fault> {
    if field_int(row, "id"@) is None {
        Err(missing_field("id"@))
    } else if field_text(row, "name"@) is None {
        Err(missing_field("name"@))
    } else if field_int(row, "public"@) is None {
        Err(missing_field("public"@))
    } else if field_text(row, "created_at"@) is None {
        Err(missing_field("created_at"@))
    } else {
        Ok(
            BucketSpec {
                id: field_int(row, "id"@)->0,
                name: field_text(row, "name"@)->0,
                public: field_int(row, "public"@)->0 == 1,
                created_at: field_text(row, "created_at"@)->0,
                owner_id: field_int(row, "owner_id"@),
            },
        )
    }
}

/// Reads a bucket from a row of metadata.
pub fn row_to_bucket(row: &Row) -> (r: VibeResult<Bucket>)
    ensures
        match r {
            Ok(bucket) => bucket_of(row@) == Ok::<BucketSpec, Fault>(bucket@),
            Err(e) => bucket_of(row@) == Err::<BucketSpec, Fault>(e@),
        },
{
    let owner_id = optional_int(row, "owner_id");
    let id = match required_int(row, "id") {
        Ok(v) => v,
        Err(e) => {
            return Err(e);
        },
    };
    let name = match required_text(row, "name") {
        Ok(v) => v,
        Err(e) => {
            return Err(e);
        },
    };
    let public = match required_int(row, "public") {
        Ok(v) => v,
        Err(e) => {
            return Err(e);
        },
    };
    let created_at = match required_text(row, "created_at") {
        Ok(v) => v,
        Err(e) => {
            return Err(e);
        },
    };
    Ok(Bucket { id, name, public: public == 1, created_at, owner_id })
}

/// The object that a row of metadata describes; the fault names the first
/// field that the row lacks, in the order of the object's fields.
pub open spec fn object_of(row: Seq<(String, JsonValue)>) -> Result<StorageObjectSpec, Fault> {
    if field_int(row, "id"@) is None {
        Err(missing_field("id"@))
    } else if field_text(row, "bucket_name"@) is None {
        Err(missing_field("bucket_name"@))
    } else if field_text(row, "path"@) is None {
        Err(missing_field("path"@))
    } else if field_int(row, "size"@) is None {
        Err(missing_field("size"@))
    } else if field_text(row, "mime_type"@) is None {
        Err(missing_field("mime_type"@))
    } else if field_text(row, "created_at"@) is None {
        Err(missing_field("created_at"@))
    } else if field_text(row, "updated_at"@) is None {
        Err(missing_field("updated_at"@))
    } else {
        Ok(
            StorageObjectSpec {
                id: field_int(row, "id"@)->0,
                bucket_name: field_text(row, "bucket_name"@)->0,
                path: field_text(row, "path"@)->0,
                size: field_int(row, "size"@)->0,
                mime_type: field_text(row, "mime_type"@)->0,
                created_at: field_text(row, "created_at"@)->0,
                updated_at: field_text(row, "updated_at"@)->0,
                owner_id: field_int(row, "owner_id"@),
            },
        )
    }
}

/// Reads an object from a row of metadata.
pub fn row_to_object(row: &Row) -> (r: VibeResult<StorageObject>)
    ensures
        match r {
            Ok(object) => object_of(row@) == Ok::<StorageObjectSpec, Fault>(object@),
            Err(e) => object_of(row@) == Err::<StorageObjectSpec, Fault>(e@),
        },
{
    let owner_id = optional_int(row, "owner_id");
    let id = match required_int(row, "id") {
        Ok(v) => v,
        Err(e) => {
            return Err(e);
        },
    };
    let bucket_name = match required_text(row, "bucket_name") {
        Ok(v) => v,
        Err(e) => {
            return Err(e);
        },
    };
    let path = match required_text(row, "path") {
        Ok(v) => v,
        Err(e) => {
            return Err(e);
        },
    };
    let size = match required_int(row, "size") {
        Ok(v) => v,
        Err(e) => {
            return Err(e);
        },
    };
    let mime_type = match required_text(row, "mime_type") {
        Ok(v) => v,
        Err(e) => {
            return Err(e);
        },
    };
    let created_at = match required_text(row, "created_at") {
        Ok(v) => v,
        Err(e) => {
            return Err(e);
        },
    };
    let updated_at = match required_text(row, "updated_at") {
        Ok(v) => v,
        Err(e) => {
            return Err(e);
        },
    };
    Ok(StorageObject { id, bucket_name, path, size, mime_type, created_at, updated_at, owner_id })
}

/// The bucket in the first row of a lookup; without a row it is not found.
pub fn get_bucket(rows: &Vec<Row>) -> (r: VibeResult<Bucket>)
    ensures
        match r {
            Ok(bucket) => rows@.len() > 0 && bucket_of(rows@[0]@) == Ok::<BucketSpec, Fault>(
                bucket@,
            ),
            Err(e) => if rows@.len() == 0 {
                e@ == (Fault { kind: ErrorKind::NotFound, detail: "Bucket not found"@ })
            } else {
                bucket_of(rows@[0]@) == Err::<BucketSpec, Fault>(e@)
            },
        },
{
    if rows.len() == 0 {
        return Err(VibeError::NotFound("Bucket not found".to_string()));
    }
    row_to_bucket(&rows[0])
}

/// The object in the first row of a lookup; without a row it is not found.
pub fn get_object(rows: &Vec<Row>) -> (r: VibeResult<StorageObject>)
    ensures
        match r {
            Ok(object) => rows@.len() > 0 && object_of(rows@[0]@) == Ok::<
                StorageObjectSpec,
                Fault,
            >(object@),
            Err(e) => if rows@.len() == 0 {
                e@ == (Fault { kind: ErrorKind::NotFound, detail: "Object not found"@ })
            } else {
                object_of(rows@[0]@) == Err::<StorageObjectSpec, Fault>(e@)
            },
        },
{
    if rows.len() == 0 {
        return Err(VibeError::NotFound("Object not found".to_string()));
    }
    row_to_object(&rows[0])
}

/// The rows of a count say that the bucket holds an object: the first cell
/// of the first row holds an integer above zero.
pub open spec fn holds_objects(rows: Seq<Row>) -> bool {
    rows.len() > 0 && rows[0]@.len() > 0 && (rows[0]@[0].1.int_value() matches Some(n) && n > 0)
}

/// Refuses to delete a bucket that still holds objects.
pub fn check_bucket_empty(rows: &Vec<Row>) -> (r: VibeResult<()>)
    ensures
        match r {
            Ok(_) => !holds_objects(rows@),
            Err(e) => holds_objects(rows@) && e@ == (Fault {
                kind: ErrorKind::Conflict,
                detail: "Bucket is not empty. Delete all objects first."@,
            }),
        },
{
    if rows.len() > 0 && rows[0].len() > 0 {
        match rows[0][0].1.as_i64() {
            Some(n) => {
                if n > 0 {
                    return Err(
                        VibeError::Conflict(
                            "Bucket is not empty. Delete all objects first.".to_string(),
                        ),
                    );
                }
            },
            None => {},
        }
    }
    Ok(())
}

/// Refuses to create a bucket whose name is taken.
pub fn check_bucket_new(existing: usize) -> (r: VibeResult<()>)
    ensures
        match r {
            Ok(_) => existing == 0,
            Err(e) => existing > 0 && e@ == (Fault {
                kind: ErrorKind::Conflict,
                detail: "Bucket already exists"@,
            }),
        },
{
    if existing > 0 {
        Err(VibeError::Conflict("Bucket already exists".to_string()))
    } else {
        Ok(())
    }
}

// ---------------------------------------------------------------------------
// Listing and downloading
// ---------------------------------------------------------------------------

/// The statement that lists the objects of a bucket, by path.
pub open spec fn list_statement(with_prefix: bool) -> Seq<char> {
    if with_prefix {
        "SELECT id, bucket_name, path, size, mime_type, owner_id, created_at, updated_at FROM vibe_objects WHERE bucket_name = ? AND path LIKE ? ORDER BY path LIMIT ? OFFSET ?"@
    } else {
        "SELECT id, bucket_name, path, size, mime_type, owner_id, created_at, updated_at FROM vibe_objects WHERE bucket_name = ? ORDER BY path LIMIT ? OFFSET ?"@
    }
}

/// The parameters of the statement that lists the objects of a bucket: the
/// bucket, the pattern for paths that open with the prefix where one is
/// asked for, the limit and the offset.
pub open spec fn list_params(bucket: Seq<char>, query: ListObjectsQuery) -> Seq<SqlValueSpec> {
    match query.prefix {
        Some(prefix) => seq![
            SqlValueSpec::Text(bucket),
            SqlValueSpec::Text(prefix@ + "%"@),
            SqlValueSpec::Integer(query.limit),
            SqlValueSpec::Integer(query.offset),
        ],
        None => seq![
            SqlValueSpec::Text(bucket),
            SqlValueSpec::Integer(query.limit),
            SqlValueSpec::Integer(query.offset),
        ],
    }
}

/// Builds the statement that lists the objects of `bucket`.
pub fn list_objects(bucket: &str, query: &ListObjectsQuery) -> (r: BoundStatement)
    ensures
        r.sql@ == list_statement(query.prefix is Some),
        sql_values(r.params@) == list_params(bucket@, *query),
{
    let mut params: Vec<SqlValue> = Vec::new();
    params.push(SqlValue::Text(String::from_str(bucket)));
    let sql = match &query.prefix {
        Some(prefix) => {
            params.push(SqlValue::Text(String::from_str(prefix.as_str()).concat("%")));
            String::from_str(
                "SELECT id, bucket_name, path, size, mime_type, owner_id, created_at, updated_at FROM vibe_objects WHERE bucket_name = ? AND path LIKE ? ORDER BY path LIMIT ? OFFSET ?",
            )
        },
        None => String::from_str(
            "SELECT id, bucket_name, path, size, mime_type, owner_id, created_at, updated_at FROM vibe_objects WHERE bucket_name = ? ORDER BY path LIMIT ? OFFSET ?",
        ),
    };
    params.push(SqlValue::Integer(query.limit));
    params.push(SqlValue::Integer(query.offset));
    proof {
        assert(sql_values(params@) =~= list_params(bucket@, *query));
    }
    BoundStatement { sql, params }
}

/// What follows the last slash of a path; the whole path where it has none.
pub open spec fn file_name(path: Seq<char>) -> Seq<char>
    decreases path.len(),
{
    if path.len() == 0 {
        Seq::empty()
    } else if path.last() == '/' {
        Seq::empty()
    } else {
        file_name(path.drop_last()).push(path.last())
    }
}

/// The header that names a downloaded file after the last part of its path.
pub open spec fn disposition(path: Seq<char>) -> Seq<char> {
    "inline; filename=\""@ + file_name(path) + "\""@
}

/// Builds the `Content-Disposition` header for a download of `path`.
pub fn content_disposition(path: &str) -> (r: String)
    ensures
        r@ == disposition(path@),
{
    let chars = chars_of(path);
    let mut name: Vec<char> = Vec::new();
    let mut i: usize = 0;
    while i < chars.len()
        invariant
            0 <= i <= chars@.len(),
            name@ == file_name(chars@.take(i as int)),
        decreases chars@.len() - i,
    {
        proof {
            let next = chars@.take(i + 1);
            assert(next.drop_last() =~= chars@.take(i as int));
            assert(next.last() == chars@[i as int]);
        }
        if chars[i] == '/' {
            name.clear();
        } else {
            name.push(chars[i]);
        }
        i = i + 1;
    }
    proof {
        assert(chars@.take(i as int) =~= chars@);
    }
    String::from_str("inline; filename=\"").concat(text_of(&name).as_str()).concat("\"")
}

} // verus!
