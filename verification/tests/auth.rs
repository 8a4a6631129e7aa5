use vibedb::auth::{
    bearer_token, check_password, check_user_new, create_session, extract_auth_user,
    generate_access_token, get_user_by_id, login, metadata_or_empty, metadata_text, refresh,
    row_to_user, session_expiry, signup, validate_email, validate_password, LoginRequest,
    RefreshRequest, SignupRequest, User,
};
use vibedb::engine::Row;
use vibedb::error::VibeError;
use vibedb::json::{JsonNumber, JsonObject, JsonValue};

fn word(s: &str) -> JsonValue {
    JsonValue::String(s.to_string())
}

fn number(v: u64) -> JsonValue {
    JsonValue::Number(JsonNumber::PosInt(v))
}

fn row(cells: Vec<(&str, JsonValue)>) -> Row {
    cells.into_iter().map(|(k, v)| (k.to_string(), v)).collect()
}

fn request(email: &str, password: &str) -> SignupRequest {
    SignupRequest { email: email.to_string(), password: password.to_string(), metadata: None }
}

fn user_row() -> Row {
    row(vec![
        ("id", number(7)),
        ("email", word("test@vibedb.dev")),
        ("password_hash", word("$argon2id$stored")),
        ("metadata", word("{\"plan\":\"pro\"}")),
        ("created_at", word("2024-01-01 00:00:00")),
        ("updated_at", word("2024-01-02 00:00:00")),
    ])
}

fn empty_object() -> JsonValue {
    JsonValue::Object(JsonObject::new())
}

#[test]
fn test_signup_flow() {
    assert!(signup(&request("test@vibedb.dev", "password123")).is_ok());
    assert!(check_user_new(0).is_ok());
    let user = get_user_by_id(&vec![user_row()], empty_object()).unwrap();
    let tokens = create_session(user, "access".to_string(), "refresh".to_string());
    assert!(!tokens.access_token.is_empty());
    assert!(!tokens.refresh_token.is_empty());
    assert_eq!(tokens.user.email, "test@vibedb.dev");
    assert_eq!(tokens.expires_in, 3600);
    assert_eq!(tokens.token_type, "Bearer");
}

#[test]
fn test_login_flow() {
    let wanted = LoginRequest { email: "test@vibedb.dev".into(), password: "password123".into() };
    assert_eq!(wanted.email, "test@vibedb.dev");
    let hash = login(&vec![user_row()]).unwrap();
    assert_eq!(hash, "$argon2id$stored");
    assert!(check_password(true).is_ok());
}

#[test]
fn test_invalid_email() {
    let result = signup(&request("invalid", "password123"));
    assert!(result.is_err());
}

#[test]
fn test_short_password() {
    let result = signup(&request("test@vibedb.dev", "short"));
    assert!(result.is_err());
}

#[test]
fn credential_rules() {
    let fault = |r: Result<(), VibeError>| match r {
        Err(VibeError::InvalidPayload(m)) => m,
        other => panic!("{:?}", other),
    };
    assert!(validate_email("a@b.c").is_ok());
    assert_eq!(fault(validate_email("a@bc")), "Invalid email format");
    assert_eq!(fault(validate_email("abcdef")), "Invalid email format");
    assert_eq!(fault(validate_email("")), "Invalid email format");
    assert!(validate_password("12345678").is_ok());
    assert_eq!(fault(validate_password("1234567")), "Password must be at least 8 characters");
    // The email is checked before the password.
    assert_eq!(fault(signup(&request("nope", "short"))), "Invalid email format");
    assert_eq!(
        fault(signup(&request("a@b.c", "short"))),
        "Password must be at least 8 characters"
    );
    match check_user_new(2) {
        Err(VibeError::Conflict(m)) => assert_eq!(m, "User already exists"),
        other => panic!("{:?}", other),
    }
}

#[test]
fn test_token_validation() {
    let claims = generate_access_token(7, "test@vibedb.dev", 1_700_000_000, 3600);
    assert_eq!(claims.email, "test@vibedb.dev");
    assert_eq!(claims.sub, 7);
    assert_eq!(claims.iat, 1_700_000_000);
    assert_eq!(claims.exp, 1_700_003_600);
    let user = extract_auth_user(claims);
    assert_eq!(user.id, 7);
    assert_eq!(user.email, "test@vibedb.dev");
    assert_eq!(session_expiry(1_700_000_000), 1_700_604_800);
}

#[test]
fn bearer_tokens() {
    assert_eq!(bearer_token(Some("Bearer abc.def.ghi")).unwrap(), "abc.def.ghi");
    assert_eq!(bearer_token(Some("Bearer ")).unwrap(), "");
    assert_eq!(bearer_token(Some("Bearer  x")).unwrap(), " x");
    let fault = |h: Option<&str>| match bearer_token(h) {
        Err(VibeError::Unauthorized(m)) => m,
        other => panic!("{:?}", other),
    };
    assert_eq!(fault(None), "Missing authorization header");
    assert_eq!(fault(Some("bearer abc")), "Invalid authorization format");
    assert_eq!(fault(Some("Bearer")), "Invalid authorization format");
    assert_eq!(fault(Some("Basic abc")), "Invalid authorization format");
    assert_eq!(fault(Some("")), "Invalid authorization format");
}

#[test]
fn logins_without_a_match_are_refused() {
    match login(&vec![]) {
        Err(VibeError::Unauthorized(m)) => assert_eq!(m, "Invalid credentials"),
        other => panic!("{:?}", other),
    }
    match login(&vec![row(vec![("id", number(1))])]) {
        Err(VibeError::Internal(m)) => assert_eq!(m, "Missing password_hash"),
        other => panic!("{:?}", other),
    }
    match check_password(false) {
        Err(VibeError::Unauthorized(m)) => assert_eq!(m, "Invalid credentials"),
        other => panic!("{:?}", other),
    }
}

#[test]
fn test_refresh_flow() {
    let wanted = RefreshRequest { refresh_token: "token".to_string() };
    assert_eq!(wanted.refresh_token, "token");
    let session = row(vec![("user_id", number(7)), ("expires_at", word("2030-01-01 00:00:00"))]);
    assert_eq!(refresh(&vec![session]).unwrap(), 7);
    match refresh(&vec![]) {
        Err(VibeError::Unauthorized(m)) => assert_eq!(m, "Invalid refresh token"),
        other => panic!("{:?}", other),
    }
    match refresh(&vec![row(vec![("user_id", word("7"))])]) {
        Err(VibeError::Internal(m)) => assert_eq!(m, "Missing user_id"),
        other => panic!("{:?}", other),
    }
}

#[test]
fn user_rows() {
    assert_eq!(metadata_text(&user_row()), "{\"plan\":\"pro\"}");
    assert_eq!(metadata_text(&row(vec![])), "{}");
    assert_eq!(metadata_text(&row(vec![("metadata", number(1))])), "{}");
    assert!(matches!(metadata_or_empty(None), JsonValue::Object(o) if o.len() == 0));
    assert!(matches!(metadata_or_empty(Some(JsonValue::Bool(true))), JsonValue::Bool(true)));

    let user: User = row_to_user(&user_row(), JsonValue::Null).unwrap();
    assert_eq!(user.id, 7);
    assert_eq!(user.created_at, "2024-01-01 00:00:00");
    assert_eq!(user.updated_at, "2024-01-02 00:00:00");
    assert!(matches!(user.metadata, JsonValue::Null));

    let fault = |r: Row| match row_to_user(&r, JsonValue::Null) {
        Err(VibeError::Internal(m)) => m,
        other => panic!("{:?}", other),
    };
    assert_eq!(fault(row(vec![])), "Missing field: id");
    assert_eq!(fault(row(vec![("id", number(1))])), "Missing field: email");
    assert_eq!(
        fault(row(vec![("id", number(1)), ("email", word("e"))])),
        "Missing field: created_at"
    );
    assert_eq!(
        fault(row(vec![("id", number(1)), ("email", word("e")), ("created_at", word("c"))])),
        "Missing field: updated_at"
    );
    match get_user_by_id(&vec![], JsonValue::Null) {
        Err(VibeError::NotFound(m)) => assert_eq!(m, "User not found"),
        other => panic!("{:?}", other),
    }
}
