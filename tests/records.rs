use auth_service::cache_records::{
    challenge_from_parts, decode_challenge, encode_challenge, get_key, two_fa_code_key,
};
use auth_service::email::Email;
use auth_service::error::{TwoFACodeStoreError, UserStoreError};
use auth_service::password::Password;
use auth_service::password_hasher::{compute_password_hash, parallelism_bounded, verify_password_hash};
use auth_service::two_fa::{LoginAttemptId, TwoFACode};

#[test]
fn cache_keys_are_namespaced() {
    assert_eq!(get_key("abc.def.ghi"), "banned_token:abc.def.ghi");
    assert_eq!(get_key(""), "banned_token:");
    let email = Email::parse("hi@test.com").ok().unwrap();
    assert_eq!(two_fa_code_key(&email), "two_fa_code:hi@test.com");
}

#[test]
fn challenge_round_trips_through_its_cache_value() {
    let id = LoginAttemptId::parse("550e8400-e29b-41d4-a716-446655440000").unwrap();
    let code = TwoFACode::parse("123456").unwrap();
    let value = encode_challenge(&id, &code).unwrap();
    assert_eq!(value, "[\"550e8400-e29b-41d4-a716-446655440000\",\"123456\"]");
    assert_eq!(decode_challenge(&value), Ok((id, code)));
}

#[test]
fn malformed_cache_values_are_unexpected() {
    for value in ["", "not json", "[\"only one\"]", "[\"550e8400-e29b-41d4-a716-446655440000\",\"12345\"]", "[\"x\",\"123456\"]"] {
        assert_eq!(decode_challenge(value), Err(TwoFACodeStoreError::UnexpectedError), "accepted {:?}", value);
    }
    assert_eq!(challenge_from_parts("x", "123456"), Err(TwoFACodeStoreError::UnexpectedError));
    assert_eq!(
        challenge_from_parts("550e8400-e29b-41d4-a716-446655440000", "123456"),
        Ok((
            LoginAttemptId::parse("550e8400-e29b-41d4-a716-446655440000").unwrap(),
            TwoFACode::parse("123456").unwrap()
        ))
    );
}

#[test]
fn password_hash_verifies_only_its_password() {
    let password = Password::parse("password123").ok().unwrap();
    let hash = compute_password_hash(&password).unwrap();
    assert!(hash.starts_with("$argon2id$v=19$m=15000,t=2,p=1$"));
    assert_ne!(hash, "password123");
    assert_eq!(verify_password_hash(&hash, "password123"), Ok(()));
    assert_eq!(verify_password_hash(&hash, "wrong-password"), Err(UserStoreError::InvalidCredentials));
    assert_eq!(verify_password_hash("not a hash", "password123"), Err(UserStoreError::InvalidCredentials));
    let again = compute_password_hash(&password).unwrap();
    assert_ne!(hash, again);
}

#[test]
fn oversized_parallelism_is_refused_before_argon2_reads_it() {
    let hostile = "$argon2id$v=19$m=8,t=1,p=536870912$c2FsdHNhbHQ$aGFzaGhhc2hoYXNo";
    assert!(!parallelism_bounded(hostile));
    assert_eq!(verify_password_hash(hostile, "password123"), Err(UserStoreError::InvalidCredentials));
    assert!(parallelism_bounded("$argon2id$v=19$m=15000,t=2,p=1$c2FsdHNhbHQ$aGFzaA"));
    assert!(parallelism_bounded("p=12345678"));
    assert!(!parallelism_bounded("xp=123456789"));
}
