use auth_service::data_stores::{BannedTokenStore, TwoFACodeStore, UserStore};
use auth_service::email::Email;
use auth_service::error::{TwoFACodeStoreError, UserStoreError};
use auth_service::hashmap_two_fa_code_store::HashmapTwoFACodeStore;
use auth_service::hashmap_user_store::HashmapUserStore;
use auth_service::hashset_banned_token_store::HashSetBannedTokenStore;
use auth_service::two_fa::{LoginAttemptId, TwoFACode};
use auth_service::password_hasher::verify_password_hash;
use auth_service::user::User;

#[test]
fn test_add_user() {
    let mut user_store = HashmapUserStore::default();
    let user = User::new("test@test.com", "password", false).unwrap();

    assert_eq!(user_store.add_user(user.clone()), Ok(()));
}

#[test]
fn test_add_user_twice() {
    let mut user_store = HashmapUserStore::default();
    let user = User::new("test@test.com", "password", false).unwrap();
    user_store.add_user(user.clone()).unwrap();

    assert_eq!(user_store.add_user(user.clone()), Err(UserStoreError::UserAlreadyExists));
}

#[test]
fn test_get_user() {
    let mut user_store = HashmapUserStore::default();
    let user = User::new("test@test.com", "password", false).unwrap();
    user_store.add_user(user.clone()).unwrap();

    let stored = user_store.get_user("test@test.com").unwrap();
    assert!(stored.email == user.email);
    assert_eq!(stored.requires_2fa, user.requires_2fa);
    assert_ne!(stored.password_hash, "password");
    assert_eq!(verify_password_hash(&stored.password_hash, "password"), Ok(()));
}

#[test]
fn test_get_user_not_found() {
    let user_store = HashmapUserStore::default();
    assert!(user_store.get_user("test@test.com").err() == Some(UserStoreError::UserNotFound));
}

#[test]
fn test_validate_user() {
    let mut user_store = HashmapUserStore::default();
    let user = User::new("test@test.com", "password", false).unwrap();
    user_store.add_user(user.clone()).unwrap();

    assert!(user_store.validate_user("test@test.com", "password").is_ok());
}

#[test]
fn test_validate_user_not_found() {
    let user_store = HashmapUserStore::default();

    assert_eq!(user_store.validate_user("test@test.com", "password"), Err(UserStoreError::UserNotFound));
}

#[test]
fn test_validate_user_invalid_credentials() {
    let mut user_store = HashmapUserStore::default();
    let user = User::new("test@test.com", "password", false).unwrap();
    user_store.add_user(user.clone()).unwrap();

    assert_eq!(
        user_store.validate_user("test@test.com", "wrong_password"),
        Err(UserStoreError::InvalidCredentials)
    );
}

#[test]
fn test_delete_user() {
    let mut user_store = HashmapUserStore::default();
    let user = User::new("test@test.com", "password", false).unwrap();
    user_store.add_user(user.clone()).unwrap();

    assert_eq!(user_store.delete_user("test@test.com"), Ok(()));
}

#[test]
fn test_delete_user_not_found() {
    let mut user_store = HashmapUserStore::default();
    assert_eq!(user_store.delete_user("test@test.com"), Err(UserStoreError::UserNotFound));
}

#[test]
fn user_store_add_get_delete_sequence() {
    let mut user_store = HashmapUserStore::new();
    let a = User::new("a@b.com", "password123", false).unwrap();
    let b = User::new("c@d.com", "otherpass", true).unwrap();
    assert_eq!(user_store.add_user(a.clone()), Ok(()));
    assert_eq!(user_store.add_user(b.clone()), Ok(()));
    let stored_a = user_store.get_user("a@b.com").unwrap();
    assert!(stored_a.email == a.email && !stored_a.requires_2fa);
    let stored_b = user_store.get_user("c@d.com").unwrap();
    assert!(stored_b.email == b.email && stored_b.requires_2fa);
    assert_eq!(user_store.validate_user("c@d.com", "otherpass"), Ok(()));
    let again = User::new("a@b.com", "different1", true).unwrap();
    assert_eq!(user_store.add_user(again), Err(UserStoreError::UserAlreadyExists));
    assert!(user_store.get_user("a@b.com").unwrap() == stored_a);
    assert_eq!(user_store.validate_user("a@b.com", "different1"), Err(UserStoreError::InvalidCredentials));
    assert_eq!(user_store.delete_user("a@b.com"), Ok(()));
    assert!(user_store.get_user("a@b.com").err() == Some(UserStoreError::UserNotFound));
    assert!(user_store.get_user("c@d.com").unwrap() == stored_b);
    assert_eq!(user_store.delete_user("a@b.com"), Err(UserStoreError::UserNotFound));
}

#[test]
fn user_store_malformed_email_is_invalid_credentials() {
    let mut user_store = HashmapUserStore::new();
    assert!(user_store.get_user("not-an-email").err() == Some(UserStoreError::InvalidCredentials));
    assert_eq!(user_store.validate_user("not-an-email", "password"), Err(UserStoreError::InvalidCredentials));
    assert_eq!(user_store.delete_user("not-an-email"), Err(UserStoreError::InvalidCredentials));
}

#[test]
fn hashset_banned_token_store_test_store_token() {
    let mut banned_token_store = HashSetBannedTokenStore::default();
    let token = "token".to_string();
    assert!(banned_token_store.store_token(&token));
}

#[test]
fn hashset_banned_token_store_test_is_token_banned() {
    let token = "token".to_string();
    let banned_token_store = HashSetBannedTokenStore {
        banned_tokens: vec!["token".to_string()].into_iter().collect(),
    };
    assert!(banned_token_store.is_token_banned(&token));
}

#[test]
fn banned_token_store_reports_only_stored_tokens() {
    let mut store = HashSetBannedTokenStore::new();
    assert!(!store.is_token_banned("a"));
    assert!(store.store_token("a"));
    assert!(store.is_token_banned("a"));
    assert!(!store.is_token_banned("b"));
    assert!(!store.is_token_banned(""));
    assert!(store.store_token("a"));
    assert!(store.is_token_banned("a"));
}

fn email() -> Email {
    Email::parse("hi@test.com").ok().unwrap()
}

#[test]
fn hashmap_two_fa_code_store_should_add_a_code() {
    let mut store = HashmapTwoFACodeStore::default();
    let email = email();
    let login_attempt_id = LoginAttemptId::default();
    let code = TwoFACode::default();
    assert_eq!(store.add_code(email.clone(), &login_attempt_id, code.clone()), Ok(()));
}

#[test]
fn hashmap_two_fa_code_store_should_update_if_email_exists_already() {
    let mut store = HashmapTwoFACodeStore::default();
    let email = email();
    let login_attempt_id = LoginAttemptId::default();
    let code = TwoFACode::default();
    store.add_code(email.clone(), &login_attempt_id, code.clone()).unwrap();
    let login_attempt_id = LoginAttemptId::default();
    let code = TwoFACode::default();

    assert_eq!(store.add_code(email.clone(), &login_attempt_id, code.clone()), Ok(()));
}

#[test]
fn hashmap_two_fa_code_store_should_remove_a_code() {
    let mut store = HashmapTwoFACodeStore::default();
    let email = email();
    let login_attempt_id = LoginAttemptId::default();
    let code = TwoFACode::default();
    store.add_code(email.clone(), &login_attempt_id, code.clone()).unwrap();

    assert_eq!(store.remove_code(email.clone()), Ok(()));
}

#[test]
fn should_fail_if_email_does_not_exist() {
    let mut store = HashmapTwoFACodeStore::default();
    let email = email();
    assert_eq!(store.remove_code(email), Err(TwoFACodeStoreError::UnexpectedError));
}

#[test]
fn hashmap_two_fa_code_store_should_get_a_code() {
    let mut store = HashmapTwoFACodeStore::default();
    let email = email();
    let login_attempt_id = LoginAttemptId::default();
    let code = TwoFACode::default();
    store.add_code(email.clone(), &login_attempt_id, code.clone()).unwrap();

    assert_eq!(store.get_code(email.clone()), Ok((login_attempt_id, code)));
}

#[test]
fn two_fa_code_store_overwrite_and_remove() {
    let mut store = HashmapTwoFACodeStore::new();
    let email = email();
    let other = Email::parse("other@test.com").ok().unwrap();
    let first_id = LoginAttemptId::parse("550e8400-e29b-41d4-a716-446655440000").unwrap();
    let second_id = LoginAttemptId::parse("6ba7b810-9dad-11d1-80b4-00c04fd430c8").unwrap();
    let first_code = TwoFACode::parse("111111").unwrap();
    let second_code = TwoFACode::parse("222222").unwrap();
    assert_eq!(store.get_code(email.clone()), Err(TwoFACodeStoreError::LoginAttemptIdNotFound));
    store.add_code(email.clone(), &first_id, first_code.clone()).unwrap();
    store.add_code(other.clone(), &first_id, first_code.clone()).unwrap();
    assert_eq!(store.get_code(email.clone()), Ok((first_id.clone(), first_code.clone())));
    store.add_code(email.clone(), &second_id, second_code.clone()).unwrap();
    assert_eq!(store.get_code(email.clone()), Ok((second_id, second_code)));
    assert_eq!(store.remove_code(email.clone()), Ok(()));
    assert_eq!(store.get_code(email.clone()), Err(TwoFACodeStoreError::LoginAttemptIdNotFound));
    assert_eq!(store.remove_code(email), Err(TwoFACodeStoreError::UnexpectedError));
    assert_eq!(store.get_code(other), Ok((first_id, first_code)));
}
