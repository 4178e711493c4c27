use auth_service::auth::{
    create_auth_cookie, create_token, generate_auth_cookie, generate_auth_token, generate_auth_token_at,
    check_token, validate_token, Claims, GenerateTokenError, SameSite, JWT_COOKIE_NAME,
};
use auth_service::data_stores::BannedTokenStore;
use auth_service::email::Email;
use auth_service::error::AuthAPIError;
use auth_service::hashset_banned_token_store::HashSetBannedTokenStore;
use chrono::Utc;

const SECRET: &[u8] = b"a secret used only by these tests";

#[test]
fn test_generate_auth_cookie() {
    let email = Email::parse("test@example.com").ok().unwrap();
    let cookie = generate_auth_cookie(&email, SECRET).unwrap();
    assert_eq!(cookie.name(), JWT_COOKIE_NAME);
    assert_eq!(cookie.value().split('.').count(), 3);
    assert_eq!(cookie.path(), Some("/"));
    assert_eq!(cookie.http_only(), Some(true));
    assert_eq!(cookie.same_site(), Some(SameSite::Lax));
}

#[test]
fn test_create_auth_cookie() {
    let token = "test_token".to_owned();
    let cookie = create_auth_cookie(token.clone());
    assert_eq!(cookie.name(), JWT_COOKIE_NAME);
    assert_eq!(cookie.value(), token);
    assert_eq!(cookie.path(), Some("/"));
    assert_eq!(cookie.http_only(), Some(true));
    assert_eq!(cookie.same_site(), Some(SameSite::Lax));
}

#[test]
fn test_generate_auth_token() {
    let email = Email::parse("test@example.com").ok().unwrap();
    let result = generate_auth_token(&email, SECRET).unwrap();
    assert_eq!(result.split('.').count(), 3);
}

#[test]
fn test_validate_token_with_valid_token() {
    let banned_token_store = HashSetBannedTokenStore::default();
    let email = Email::parse("test@example.com").ok().unwrap();
    let token = generate_auth_token(&email, SECRET).unwrap();
    let result = validate_token(&banned_token_store, &token, SECRET).unwrap();
    assert_eq!(result.sub, "test@example.com");

    let exp = Utc::now()
        .checked_add_signed(chrono::Duration::try_minutes(9).expect("valid duration"))
        .expect("valid timestamp")
        .timestamp();

    assert!(result.exp > exp as usize);
}

#[test]
fn test_validate_token_with_invalid_token() {
    let banned_token_store = HashSetBannedTokenStore::default();
    let token = "invalid_token".to_string();
    let result = validate_token(&banned_token_store, &token, SECRET);
    assert!(result.is_err());
}

#[test]
fn test_validate_token_with_banned_token() {
    let mut banned_token_store = HashSetBannedTokenStore::default();
    let token = "banned_token".to_string();
    banned_token_store.store_token(&token);
    let result = validate_token(&banned_token_store, &token, SECRET);
    assert!(result.is_err());
}

#[test]
fn banned_valid_token_is_refused() {
    let mut store = HashSetBannedTokenStore::new();
    let email = Email::parse("test@example.com").ok().unwrap();
    let token = generate_auth_token(&email, SECRET).unwrap();
    assert!(validate_token(&store, &token, SECRET).is_ok());
    store.store_token(&token);
    assert_eq!(validate_token(&store, &token, SECRET).err(), Some(AuthAPIError::InvalidToken));
}

#[test]
fn token_signed_with_another_secret_is_refused() {
    let store = HashSetBannedTokenStore::new();
    let email = Email::parse("test@example.com").ok().unwrap();
    let token = generate_auth_token(&email, b"another secret").unwrap();
    assert_eq!(validate_token(&store, &token, SECRET).err(), Some(AuthAPIError::InvalidToken));
}

#[test]
fn expired_token_is_refused() {
    let store = HashSetBannedTokenStore::new();
    let email = Email::parse("test@example.com").ok().unwrap();
    let an_hour_ago = Utc::now().timestamp() - 3600;
    let token = generate_auth_token_at(&email, an_hour_ago, SECRET).unwrap();
    assert_eq!(validate_token(&store, &token, SECRET).err(), Some(AuthAPIError::InvalidToken));
}

#[test]
fn token_expires_ten_minutes_after_issue() {
    let store = HashSetBannedTokenStore::new();
    let email = Email::parse("test@example.com").ok().unwrap();
    let now = Utc::now().timestamp();
    let token = generate_auth_token_at(&email, now, SECRET).unwrap();
    let claims = validate_token(&store, &token, SECRET).unwrap();
    assert_eq!(claims.sub, "test@example.com");
    assert_eq!(claims.exp, (now + 600) as usize);
}

#[test]
fn token_is_a_function_of_its_claims() {
    let email = Email::parse("test@example.com").ok().unwrap();
    let a = generate_auth_token_at(&email, 1_700_000_000, SECRET).unwrap();
    let b = generate_auth_token_at(&email, 1_700_000_000, SECRET).unwrap();
    let c = create_token(&Claims { sub: "test@example.com".to_string(), exp: 1_700_000_600 }, SECRET).unwrap();
    assert_eq!(a, b);
    assert_eq!(a, c);
    let d = generate_auth_token_at(&email, 1_700_000_001, SECRET).unwrap();
    assert_ne!(a, d);
}

#[test]
fn issue_time_out_of_range_is_unexpected() {
    let email = Email::parse("test@example.com").ok().unwrap();
    assert!(matches!(generate_auth_token_at(&email, i64::MAX, SECRET), Err(GenerateTokenError::UnexpectedError)));
    assert!(matches!(generate_auth_token_at(&email, -601, SECRET), Err(GenerateTokenError::UnexpectedError)));
    assert!(generate_auth_token_at(&email, -600, SECRET).is_ok());
}

#[test]
fn check_token_decisions() {
    let claims = || Some(Claims { sub: "a@b.com".to_string(), exp: 1 });
    assert_eq!(check_token(true, claims()).err(), Some(AuthAPIError::InvalidToken));
    assert_eq!(check_token(false, None).err(), Some(AuthAPIError::InvalidToken));
    let accepted = check_token(false, claims()).unwrap();
    assert_eq!(accepted.sub, "a@b.com");
    assert_eq!(accepted.exp, 1);
}

#[test]
fn error_responses() {
    let cases = [
        (AuthAPIError::UserAlreadyExists, 409, "User already exists"),
        (AuthAPIError::InvalidCredentials, 400, "Invalid credentials"),
        (AuthAPIError::IncorrectCredentials, 401, "Incorrect credentials"),
        (AuthAPIError::MissingToken, 400, "Missing token"),
        (AuthAPIError::InvalidToken, 401, "Invalid token"),
        (AuthAPIError::UnexpectedError, 500, "An unexpected error"),
    ];
    for (error, status, message) in cases {
        let (code, body) = error.into_response();
        assert_eq!(code, status);
        assert_eq!(error.status_code(), status);
        assert_eq!(body.error, message);
    }
}
