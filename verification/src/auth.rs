//! The authentication layer's own rules: which credentials are accepted,
//! what a token claims, and how the rows of users and sessions are read.
//!
//! Hashing passwords, signing tokens and reading the clock are the caller's
//! part; what they return comes in as plain values.

use vstd::prelude::*;
use vstd::string::*;
use crate::db::{field_int, field_text, missing_field, required_int, required_text};
use crate::engine::Row;
use crate::error::{ErrorKind, Fault, VibeError, VibeResult};
use crate::json::{JsonObject, JsonValue};
use crate::storage::byte_length;
use crate::text::{begins_with, chars_of, matches_at, text_of};

verus! {

/// How long an access token is valid, in seconds: one hour.
pub const ACCESS_TOKEN_SECONDS: u64 = 3600;

/// How long a refresh token is valid, in seconds: seven days.
pub const REFRESH_TOKEN_SECONDS: u64 = 604800;

/// The shortest password, in bytes.
pub const MIN_PASSWORD_LENGTH: usize = 8;

/// A user, as the authentication endpoints return it.
#[derive(Debug)]
pub struct User {
    pub id: i64,
    pub email: String,
    pub created_at: String,
    pub updated_at: String,
    pub metadata: JsonValue,
}

/// The pair of tokens handed out after a successful authentication.
#[derive(Debug)]
pub struct AuthTokens {
    pub access_token: String,
    pub refresh_token: String,
    pub expires_in: i64,
    pub token_type: String,
    pub user: User,
}

/// What an access token claims.
#[derive(Debug)]
pub struct Claims {
    /// The user's id.
    pub sub: i64,
    /// The user's email address.
    pub email: String,
    /// When the token expires, in seconds since the epoch.
    pub exp: u64,
    /// When the token was issued, in seconds since the epoch.
    pub iat: u64,
}

/// The user that a request was authenticated as.
#[derive(Debug, Clone)]
pub struct AuthUser {
    pub id: i64,
    pub email: String,
}

#[derive(Debug)]
pub struct SignupRequest {
    pub email: String,
    pub password: String,
    pub metadata: Option<JsonValue>,
}

#[derive(Debug)]
pub struct LoginRequest {
    pub email: String,
    pub password: String,
}

#[derive(Debug)]
pub struct RefreshRequest {
    pub refresh_token: String,
}

#[derive(Debug)]
pub struct UpdateUserRequest {
    pub metadata: Option<JsonValue>,
}

/// `email` has the least that an address needs: an `@`, and five bytes.
pub open spec fn is_plausible_email(email: Seq<char>) -> bool {
    email.contains('@') && byte_length(email) >= 5
}

/// Validates the format of an email address.
pub fn validate_email(email: &str) -> (r: VibeResult<()>)
    ensures
        match r {
            Ok(_) => is_plausible_email(email@),
            Err(e) => !is_plausible_email(email@) && e@ == (Fault {
                kind: ErrorKind::InvalidPayload,
                detail: "Invalid email format"@,
            }),
        },
{
    let chars = chars_of(email);
    let mut found = false;
    let mut i: usize = 0;
    while i < chars.len()
        invariant
            0 <= i <= chars@.len(),
            found <==> exists|j: int| 0 <= j < i && chars@[j] == '@',
        decreases chars@.len() - i,
    {
        if chars[i] == '@' {
            found = true;
        }
        i = i + 1;
    }
    if !found || email.as_bytes().len() < 5 {
        return Err(VibeError::InvalidPayload("Invalid email format".to_string()));
    }
    Ok(())
}

/// Validates the length of a password: at least eight bytes.
pub fn validate_password(password: &str) -> (r: VibeResult<()>)
    ensures
        match r {
            Ok(_) => byte_length(password@) >= MIN_PASSWORD_LENGTH,
            Err(e) => byte_length(password@) < MIN_PASSWORD_LENGTH && e@ == (Fault {
                kind: ErrorKind::InvalidPayload,
                detail: "Password must be at least 8 characters"@,
            }),
        },
{
    if password.as_bytes().len() < MIN_PASSWORD_LENGTH {
        return Err(VibeError::InvalidPayload("Password must be at least 8 characters".to_string()));
    }
    Ok(())
}

/// Checks a signup request before anything is stored: the email first, then
/// the password.
pub fn signup(request: &SignupRequest) -> (r: VibeResult<()>)
    ensures
        match r {
            Ok(_) => is_plausible_email(request.email@) && byte_length(request.password@)
                >= MIN_PASSWORD_LENGTH,
            Err(e) => e.kind() == ErrorKind::InvalidPayload && if !is_plausible_email(
                request.email@,
            ) {
                e.detail() == "Invalid email format"@
            } else {
                byte_length(request.password@) < MIN_PASSWORD_LENGTH && e.detail()
                    == "Password must be at least 8 characters"@
            },
        },
{
    match validate_email(request.email.as_str()) {
        Ok(_) => {},
        Err(e) => {
            return Err(e);
        },
    }
    validate_password(request.password.as_str())
}

/// Refuses a signup for an address that has a user already.
pub fn check_user_new(existing: usize) -> (r: VibeResult<()>)
    ensures
        match r {
            Ok(_) => existing == 0,
            Err(e) => existing > 0 && e@ == (Fault {
                kind: ErrorKind::Conflict,
                detail: "User already exists"@,
            }),
        },
{
    if existing > 0 {
        Err(VibeError::Conflict("User already exists".to_string()))
    } else {
        Ok(())
    }
}

/// The claims of an access token issued to a user at `now`, valid for
/// `lifetime` seconds.
pub fn generate_access_token(id: i64, email: &str, now: u64, lifetime: u64) -> (r: Claims)
    requires
        now + lifetime <= u64::MAX,
    ensures
        r.sub == id,
        r.email@ == email@,
        r.iat == now,
        r.exp == now + lifetime,
{
    Claims { sub: id, email: String::from_str(email), iat: now, exp: now + lifetime }
}

/// When a session that starts at `now` expires, in seconds since the
/// epoch: seven days later.
pub fn session_expiry(now: u64) -> (r: u64)
    requires
        now + REFRESH_TOKEN_SECONDS <= u64::MAX,
    ensures
        r == now + REFRESH_TOKEN_SECONDS,
{
    now + REFRESH_TOKEN_SECONDS
}

/// The tokens of a new session.
pub fn create_session(user: User, access_token: String, refresh_token: String) -> (r: AuthTokens)
    ensures
        r.access_token == access_token,
        r.refresh_token == refresh_token,
        r.expires_in == ACCESS_TOKEN_SECONDS,
        r.token_type@ == "Bearer"@,
        r.user == user,
{
    AuthTokens {
        access_token,
        refresh_token,
        expires_in: 3600,
        token_type: "Bearer".to_string(),
        user,
    }
}

/// The token in an `Authorization` header, or the fault that refuses the
/// request: a missing header, or one that does not open with `Bearer `.
pub open spec fn bearer_of(header: Option<Seq<char>>) -> Result<Seq<char>, Fault> {
    match header {
        None => Err(Fault { kind: ErrorKind::Unauthorized, detail: "Missing authorization header"@ }),
        Some(h) => if begins_with("Bearer "@, h) {
            Ok(h.subrange("Bearer "@.len() as int, h.len() as int))
        } else {
            Err(Fault { kind: ErrorKind::Unauthorized, detail: "Invalid authorization format"@ })
        },
    }
}

/// Takes the token out of an `Authorization` header.
pub fn bearer_token(header: Option<&str>) -> (r: VibeResult<String>)
    ensures
        match r {
            Ok(token) => bearer_of(
                match header {
                    Some(h) => Some(h@),
                    None => None,
                },
            ) == Ok::<Seq<char>, Fault>(token@),
            Err(e) => bearer_of(
                match header {
                    Some(h) => Some(h@),
                    None => None,
                },
            ) == Err::<Seq<char>, Fault>(e@),
        },
{
    let text = match header {
        Some(h) => h,
        None => {
            return Err(VibeError::Unauthorized("Missing authorization header".to_string()));
        },
    };
    let chars = chars_of(text);
    let prefix = chars_of("Bearer ");
    if !matches_at(&prefix, &chars, 0) {
        return Err(VibeError::Unauthorized("Invalid authorization format".to_string()));
    }
    let mut token: Vec<char> = Vec::new();
    let mut i: usize = prefix.len();
    while i < chars.len()
        invariant
            prefix@.len() <= i <= chars@.len(),
            token@ == chars@.subrange(prefix@.len() as int, i as int),
        decreases chars@.len() - i,
    {
        token.push(chars[i]);
        proof {
            assert(chars@.subrange(prefix@.len() as int, i + 1) =~= chars@.subrange(
                prefix@.len() as int,
                i as int,
            ).push(chars@[i as int]));
        }
        i = i + 1;
    }
    Ok(text_of(&token))
}

/// The user that validated claims stand for.
pub fn extract_auth_user(claims: Claims) -> (r: AuthUser)
    ensures
        r.id == claims.sub,
        r.email == claims.email,
{
    AuthUser { id: claims.sub, email: claims.email }
}

/// The fault for credentials that do not match a user.
pub open spec fn invalid_credentials() -> Fault {
    Fault { kind: ErrorKind::Unauthorized, detail: "Invalid credentials"@ }
}

/// The stored password hash of the user that a login looks up; without a
/// user the credentials are refused.
pub fn login(rows: &Vec<Row>) -> (r: VibeResult<String>)
    ensures
        match r {
            Ok(hash) => rows@.len() > 0 && field_text(rows@[0]@, "password_hash"@) == Some(hash@),
            Err(e) => if rows@.len() == 0 {
                e@ == invalid_credentials()
            } else {
                field_text(rows@[0]@, "password_hash"@) is None && e@ == (Fault {
                    kind: ErrorKind::Internal,
                    detail: "Missing password_hash"@,
                })
            },
        },
{
    if rows.len() == 0 {
        return Err(VibeError::Unauthorized("Invalid credentials".to_string()));
    }
    match required_text(&rows[0], "password_hash") {
        Ok(hash) => Ok(hash),
        Err(_) => Err(VibeError::Internal("Missing password_hash".to_string())),
    }
}

/// Refuses a login whose password does not match the stored hash.
pub fn check_password(matches: bool) -> (r: VibeResult<()>)
    ensures
        match r {
            Ok(_) => matches,
            Err(e) => !matches && e@ == invalid_credentials(),
        },
{
    if matches {
        Ok(())
    } else {
        Err(VibeError::Unauthorized("Invalid credentials".to_string()))
    }
}

/// The user of the session that a refresh token looks up; without a
/// session the token is refused.
pub fn refresh(rows: &Vec<Row>) -> (r: VibeResult<i64>)
    ensures
        match r {
            Ok(id) => rows@.len() > 0 && field_int(rows@[0]@, "user_id"@) == Some(id),
            Err(e) => if rows@.len() == 0 {
                e@ == (Fault { kind: ErrorKind::Unauthorized, detail: "Invalid refresh token"@ })
            } else {
                field_int(rows@[0]@, "user_id"@) is None && e@ == (Fault {
                    kind: ErrorKind::Internal,
                    detail: "Missing user_id"@,
                })
            },
        },
{
    if rows.len() == 0 {
        return Err(VibeError::Unauthorized("Invalid refresh token".to_string()));
    }
    match required_int(&rows[0], "user_id") {
        Ok(id) => Ok(id),
        Err(_) => Err(VibeError::Internal("Missing user_id".to_string())),
    }
}

/// The text of a user's metadata as the row holds it; an empty object
/// where the row holds none.
pub open spec fn metadata_of(row: Seq<(String, JsonValue)>) -> Seq<char> {
    match field_text(row, "metadata"@) {
        Some(text) => text,
        None => "{}"@,
    }
}

/// Reads the serialized metadata of a user from a row.
pub fn metadata_text(row: &Row) -> (r: String)
    ensures
        r@ == metadata_of(row@),
{
    match required_text(row, "metadata") {
        Ok(text) => text,
        Err(_) => "{}".to_string(),
    }
}

/// The metadata of a user: what its text was parsed to, or an empty object
/// where the text was no JSON.
pub fn metadata_or_empty(parsed: Option<JsonValue>) -> (r: JsonValue)
    ensures
        match parsed {
            Some(value) => r == value,
            None => r matches JsonValue::Object(o) && o.fields@.len() == 0,
        },
{
    match parsed {
        Some(value) => value,
        None => JsonValue::Object(JsonObject::new()),
    }
}

/// What a row says of a user, apart from the metadata; the fault names the
/// first field that the row lacks, of `id`, `email`, `created_at` and
/// `updated_at`.
pub open spec fn user_fault(row: Seq<(String, JsonValue)>) -> Option<Fault> {
    if field_int(row, "id"@) is None {
        Some(missing_field("id"@))
    } else if field_text(row, "email"@) is None {
        Some(missing_field("email"@))
    } else if field_text(row, "created_at"@) is None {
        Some(missing_field("created_at"@))
    } else if field_text(row, "updated_at"@) is None {
        Some(missing_field("updated_at"@))
    } else {
        None
    }
}

/// Reads a user from a row, with the metadata that was parsed from it.
pub fn row_to_user(row: &Row, metadata: JsonValue) -> (r: VibeResult<User>)
    ensures
        match r {
            Ok(user) => {
                &&& user_fault(row@) is None
                &&& Some(user.id) == field_int(row@, "id"@)
                &&& Some(user.email@) == field_text(row@, "email"@)
                &&& Some(user.created_at@) == field_text(row@, "created_at"@)
                &&& Some(user.updated_at@) == field_text(row@, "updated_at"@)
                &&& user.metadata == metadata
            },
            Err(e) => user_fault(row@) == Some(e@),
        },
{
    let id = match required_int(row, "id") {
        Ok(v) => v,
        Err(e) => {
            return Err(e);
        },
    };
    let email = match required_text(row, "email") {
        Ok(v) => v,
        Err(e) => {
            return Err(e);
        },
    };
    let created_at = match required_text(row, "created_at") {
        Ok(v) => v,
        Err(e) => {
            return Err(e);
        },
    };
    let updated_at = match required_text(row, "updated_at") {
        Ok(v) => v,
        Err(e) => {
            return Err(e);
        },
    };
    Ok(User { id, email, created_at, updated_at, metadata })
}

/// The user in the first row of a lookup; without a row it is not found.
pub fn get_user_by_id(rows: &Vec<Row>, metadata: JsonValue) -> (r: VibeResult<User>)
    ensures
        match r {
            Ok(user) => rows@.len() > 0 && user_fault(rows@[0]@) is None && user.metadata
                == metadata && Some(user.id) == field_int(rows@[0]@, "id"@),
            Err(e) => if rows@.len() == 0 {
                e@ == (Fault { kind: ErrorKind::NotFound, detail: "User not found"@ })
            } else {
                user_fault(rows@[0]@) == Some(e@)
            },
        },
{
    if rows.len() == 0 {
        return Err(VibeError::NotFound("User not found".to_string()));
    }
    row_to_user(&rows[0], metadata)
}

} // verus!
