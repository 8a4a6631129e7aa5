//! The error type shared by every operation of the store.

use vstd::prelude::*;
use vstd::string::*;

verus! {

/// Result of an operation of the store.
pub type VibeResult<T> = Result<T, VibeError>;

/// What went wrong, with the text that explains it.
#[derive(Debug)]
pub enum VibeError {
    /// The storage engine failed, or could not be reached.
    Database(String),
    /// A document could not be read or written as JSON.
    Json(String),
    /// A table or column name is not a safe identifier.
    InvalidIdentifier(String),
    /// The schema does not allow the request.
    Schema(String),
    /// The table would grow past its column limit.
    ColumnLimitExceeded { message: String },
    /// The table has no known column.
    TableNotFound(String),
    /// The request body has the wrong shape.
    InvalidPayload(String),
    /// A schema change failed in the storage engine.
    MigrationFailed(String),
    /// A fault inside the server.
    Internal(String),
    /// The caller did not prove who they are.
    Unauthorized(String),
    /// The request collides with what is stored.
    Conflict(String),
    /// The thing asked for does not exist.
    NotFound(String),
    /// The file store failed.
    Storage(String),
}

/// The kinds of error.
pub ghost enum ErrorKind {
    Database,
    Json,
    InvalidIdentifier,
    Schema,
    ColumnLimitExceeded,
    TableNotFound,
    InvalidPayload,
    MigrationFailed,
    Internal,
    Unauthorized,
    Conflict,
    NotFound,
    Storage,
}

/// What a [`VibeError`] says: its kind, and its text as a sequence of characters.
pub ghost struct Fault {
    pub kind: ErrorKind,
    pub detail: Seq<char>,
}

impl View for VibeError {
    type V = Fault;

    open spec fn view(&self) -> Fault {
        Fault { kind: self.kind(), detail: self.detail() }
    }
}

impl VibeError {
    /// The kind of the error.
    pub open spec fn kind(self) -> ErrorKind {
        match self {
            VibeError::Database(_) => ErrorKind::Database,
            VibeError::Json(_) => ErrorKind::Json,
            VibeError::InvalidIdentifier(_) => ErrorKind::InvalidIdentifier,
            VibeError::Schema(_) => ErrorKind::Schema,
            VibeError::ColumnLimitExceeded { .. } => ErrorKind::ColumnLimitExceeded,
            VibeError::TableNotFound(_) => ErrorKind::TableNotFound,
            VibeError::InvalidPayload(_) => ErrorKind::InvalidPayload,
            VibeError::MigrationFailed(_) => ErrorKind::MigrationFailed,
            VibeError::Internal(_) => ErrorKind::Internal,
            VibeError::Unauthorized(_) => ErrorKind::Unauthorized,
            VibeError::Conflict(_) => ErrorKind::Conflict,
            VibeError::NotFound(_) => ErrorKind::NotFound,
            VibeError::Storage(_) => ErrorKind::Storage,
        }
    }

    /// The text carried by the error.
    pub open spec fn detail(self) -> Seq<char> {
        match self {
            VibeError::Database(m) => m@,
            VibeError::Json(m) => m@,
            VibeError::InvalidIdentifier(m) => m@,
            VibeError::Schema(m) => m@,
            VibeError::ColumnLimitExceeded { message } => message@,
            VibeError::TableNotFound(m) => m@,
            VibeError::InvalidPayload(m) => m@,
            VibeError::MigrationFailed(m) => m@,
            VibeError::Internal(m) => m@,
            VibeError::Unauthorized(m) => m@,
            VibeError::Conflict(m) => m@,
            VibeError::NotFound(m) => m@,
            VibeError::Storage(m) => m@,
        }
    }

    /// The HTTP status that answers a request failing with this error.
    pub open spec fn http_status(self) -> u16 {
        match self {
            VibeError::Database(_) => 503,
            VibeError::Json(_) => 400,
            VibeError::InvalidIdentifier(_) => 400,
            VibeError::Schema(_) => 422,
            VibeError::ColumnLimitExceeded { .. } => 400,
            VibeError::TableNotFound(_) => 404,
            VibeError::InvalidPayload(_) => 400,
            VibeError::MigrationFailed(_) => 500,
            VibeError::Internal(_) => 500,
            VibeError::Unauthorized(_) => 401,
            VibeError::Conflict(_) => 409,
            VibeError::NotFound(_) => 404,
            VibeError::Storage(_) => 500,
        }
    }

    /// The machine-readable code of the error's kind.
    pub open spec fn code(self) -> Seq<char> {
        match self {
            VibeError::Database(_) => "DATABASE_ERROR"@,
            VibeError::Json(_) => "JSON_ERROR"@,
            VibeError::InvalidIdentifier(_) => "INVALID_IDENTIFIER"@,
            VibeError::Schema(_) => "SCHEMA_ERROR"@,
            VibeError::ColumnLimitExceeded { .. } => "COLUMN_LIMIT_EXCEEDED"@,
            VibeError::TableNotFound(_) => "TABLE_NOT_FOUND"@,
            VibeError::InvalidPayload(_) => "INVALID_PAYLOAD"@,
            VibeError::MigrationFailed(_) => "MIGRATION_FAILED"@,
            VibeError::Internal(_) => "INTERNAL_ERROR"@,
            VibeError::Unauthorized(_) => "UNAUTHORIZED"@,
            VibeError::Conflict(_) => "CONFLICT"@,
            VibeError::NotFound(_) => "NOT_FOUND"@,
            VibeError::Storage(_) => "STORAGE_ERROR"@,
        }
    }

    /// The words that open the message of an error of this kind.
    pub open spec fn heading(self) -> Seq<char> {
        match self {
            VibeError::Database(_) => "Database error: "@,
            VibeError::Json(_) => "JSON error: "@,
            VibeError::InvalidIdentifier(_) => "Invalid identifier: "@,
            VibeError::Schema(_) => "Schema error: "@,
            VibeError::ColumnLimitExceeded { .. } => "Column limit exceeded: "@,
            VibeError::TableNotFound(_) => "Table not found: "@,
            VibeError::InvalidPayload(_) => "Invalid payload: "@,
            VibeError::MigrationFailed(_) => "Migration failed: "@,
            VibeError::Internal(_) => "Internal error: "@,
            VibeError::Unauthorized(_) => "Unauthorized: "@,
            VibeError::Conflict(_) => "Conflict: "@,
            VibeError::NotFound(_) => "Not found: "@,
            VibeError::Storage(_) => "Storage error: "@,
        }
    }

    /// Returns the HTTP status code for this error.
    pub fn status_code(&self) -> (r: u16)
        ensures
            r == self.http_status(),
    {
        match self {
            VibeError::Database(_) => 503,
            VibeError::Json(_) => 400,
            VibeError::InvalidIdentifier(_) => 400,
            VibeError::Schema(_) => 422,
            VibeError::ColumnLimitExceeded { .. } => 400,
            VibeError::TableNotFound(_) => 404,
            VibeError::InvalidPayload(_) => 400,
            VibeError::MigrationFailed(_) => 500,
            VibeError::Internal(_) => 500,
            VibeError::Unauthorized(_) => 401,
            VibeError::Conflict(_) => 409,
            VibeError::NotFound(_) => 404,
            VibeError::Storage(_) => 500,
        }
    }

    /// Returns a machine-readable error code.
    pub fn error_code(&self) -> (r: &'static str)
        ensures
            r@ == self.code(),
    {
        match self {
            VibeError::Database(_) => "DATABASE_ERROR",
            VibeError::Json(_) => "JSON_ERROR",
            VibeError::InvalidIdentifier(_) => "INVALID_IDENTIFIER",
            VibeError::Schema(_) => "SCHEMA_ERROR",
            VibeError::ColumnLimitExceeded { .. } => "COLUMN_LIMIT_EXCEEDED",
            VibeError::TableNotFound(_) => "TABLE_NOT_FOUND",
            VibeError::InvalidPayload(_) => "INVALID_PAYLOAD",
            VibeError::MigrationFailed(_) => "MIGRATION_FAILED",
            VibeError::Internal(_) => "INTERNAL_ERROR",
            VibeError::Unauthorized(_) => "UNAUTHORIZED",
            VibeError::Conflict(_) => "CONFLICT",
            VibeError::NotFound(_) => "NOT_FOUND",
            VibeError::Storage(_) => "STORAGE_ERROR",
        }
    }

    /// The message shown to a caller: the kind's heading, then the detail.
    pub fn message(&self) -> (r: String)
        ensures
            r@ == self.heading() + self.detail(),
    {
        match self {
            VibeError::Database(m) => String::from_str("Database error: ").concat(m.as_str()),
            VibeError::Json(m) => String::from_str("JSON error: ").concat(m.as_str()),
            VibeError::InvalidIdentifier(m) => String::from_str("Invalid identifier: ").concat(
                m.as_str(),
            ),
            VibeError::Schema(m) => String::from_str("Schema error: ").concat(m.as_str()),
            VibeError::ColumnLimitExceeded { message } => String::from_str(
                "Column limit exceeded: ",
            ).concat(message.as_str()),
            VibeError::TableNotFound(m) => String::from_str("Table not found: ").concat(m.as_str()),
            VibeError::InvalidPayload(m) => String::from_str("Invalid payload: ").concat(
                m.as_str(),
            ),
            VibeError::MigrationFailed(m) => String::from_str("Migration failed: ").concat(
                m.as_str(),
            ),
            VibeError::Internal(m) => String::from_str("Internal error: ").concat(m.as_str()),
            VibeError::Unauthorized(m) => String::from_str("Unauthorized: ").concat(m.as_str()),
            VibeError::Conflict(m) => String::from_str("Conflict: ").concat(m.as_str()),
            VibeError::NotFound(m) => String::from_str("Not found: ").concat(m.as_str()),
            VibeError::Storage(m) => String::from_str("Storage error: ").concat(m.as_str()),
        }
    }

    /// An error for a caller who is not authenticated.
    pub fn unauthorized(msg: String) -> (r: VibeError)
        ensures
            r == VibeError::Unauthorized(msg),
    {
        VibeError::Unauthorized(msg)
    }

    /// An error for a request that collides with stored data.
    pub fn conflict(msg: String) -> (r: VibeError)
        ensures
            r == VibeError::Conflict(msg),
    {
        VibeError::Conflict(msg)
    }

    /// An error for a missing resource.
    pub fn not_found(msg: String) -> (r: VibeError)
        ensures
            r == VibeError::NotFound(msg),
    {
        VibeError::NotFound(msg)
    }
}

} // verus!
