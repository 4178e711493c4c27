use auth_service::email::Email;
use auth_service::error::{CodeDefect, ValidationError};
use auth_service::password::Password;
use auth_service::two_fa::{LoginAttemptId, TwoFACode};
use auth_service::user::User;

#[test]
fn test_parse_valid_email() {
    assert!(Email::parse("hey@test.com").is_ok());
}

#[test]
fn test_parse_invalid_email() {
    let invalid_password = Email::parse("hey.com");
    assert!(invalid_password.is_err());
    assert_eq!(invalid_password.err().unwrap().to_string(), "Invalid email address");
}

#[test]
fn test_as_ref() {
    let email_text = "hey@test.com";
    let email = Email::parse(email_text).unwrap();
    assert_eq!(email.as_ref(), email_text);
}

#[test]
fn test_parse_password() {
    let short_password = Password::parse("pass");
    assert!(short_password.is_err());
    assert_eq!(short_password.err().unwrap().to_string(), "Invalid password");

    let valid_password = Password::parse("password123");
    assert!(valid_password.is_ok());
}

#[test]
fn email_parse_rejects_malformed_addresses() {
    for input in ["", "invalid-email", "@", "a@", "@b.com", "a b@c.com"] {
        assert!(
            matches!(Email::parse(input), Err(ValidationError::InvalidEmail)),
            "accepted {:?}",
            input
        );
    }
}

#[test]
fn email_parse_keeps_the_text_unchanged() {
    for input in ["a@b.com", "first.last@example.org", "hi@test.com"] {
        assert_eq!(Email::parse(input).unwrap().as_ref(), input);
    }
}

#[test]
fn password_length_boundary() {
    assert!(matches!(Password::parse(""), Err(ValidationError::InvalidPassword)));
    assert!(matches!(Password::parse("1234567"), Err(ValidationError::InvalidPassword)));
    assert_eq!(Password::parse("12345678").ok().unwrap().as_ref(), "12345678");
    // Length counts bytes: four two-byte characters make eight bytes.
    assert!(Password::parse("éééé").is_ok());
    assert!(Password::parse("ééé").is_err());
}

#[test]
fn two_fa_code_parse_accepts_exactly_six_digits() {
    assert_eq!(TwoFACode::parse("123456").unwrap().as_ref(), "123456");
    assert_eq!(TwoFACode::parse("000000").unwrap().as_ref(), "000000");
    for input in ["", "12345", "1234567", "12345é", "１２３４５６"] {
        assert_eq!(TwoFACode::parse(input), Err(ValidationError::InvalidCode(CodeDefect::Length)), "accepted {:?}", input);
    }
    for input in ["12345a", "abcdef", " 12345", "12 456", "ééé"] {
        assert_eq!(TwoFACode::parse(input), Err(ValidationError::InvalidCode(CodeDefect::NotDigits)), "accepted {:?}", input);
    }
    assert_eq!(ValidationError::InvalidCode(CodeDefect::Length).to_string(), "Invalid code length");
    assert_eq!(ValidationError::InvalidCode(CodeDefect::NotDigits).to_string(), "Invalid code");
}

#[test]
fn two_fa_code_default_is_six_digits() {
    for _ in 0..20 {
        let code = TwoFACode::default();
        assert_eq!(code.as_ref().len(), 6);
        assert!(code.as_ref().chars().all(|c| c.is_ascii_digit()));
        assert!(TwoFACode::parse(code.as_ref()).is_ok());
    }
}

#[test]
fn login_attempt_id_parse() {
    let id = "550e8400-e29b-41d4-a716-446655440000";
    assert_eq!(LoginAttemptId::parse(id).unwrap().as_ref(), id);
    assert_eq!(LoginAttemptId::parse("invalid_attempt_id"), Err(ValidationError::InvalidAttemptId));
    for accepted in [
        "550E8400E29B41D4A716446655440000",
        "{550e8400-e29b-41d4-a716-446655440000}",
        "URN:uuid:550e8400-e29b-41d4-a716-446655440000",
    ] {
        assert_eq!(LoginAttemptId::parse(accepted).unwrap().as_ref(), accepted);
    }
    for refused in [
        "550e8400e29b41d4a716446655440000a",
        "550e8400-e29b-41d4-a716-44665544000g",
        "550e8400+e29b-41d4-a716-446655440000",
        "urn:uid:550e8400-e29b-41d4-a716-4466554400001",
    ] {
        assert_eq!(LoginAttemptId::parse(refused), Err(ValidationError::InvalidAttemptId), "accepted {:?}", refused);
    }
    assert_eq!(LoginAttemptId::parse(""), Err(ValidationError::InvalidAttemptId));
    assert_eq!(ValidationError::InvalidAttemptId.to_string(), "Invalid UUID");
}

#[test]
fn login_attempt_id_default_is_a_fresh_uuid() {
    let a = LoginAttemptId::default();
    let b = LoginAttemptId::default();
    assert_ne!(a, b);
    assert_eq!(a.as_ref().len(), 36);
    assert!(LoginAttemptId::parse(a.as_ref()).is_ok());
}

#[test]
fn user_new_checks_email_first() {
    assert!(matches!(User::new("bad", "short", false), Err(ValidationError::InvalidEmail)));
    assert!(matches!(User::new("a@b.com", "short", false), Err(ValidationError::InvalidPassword)));
    let user = User::new("a@b.com", "password123", true).ok().unwrap();
    assert_eq!(user.email.as_ref(), "a@b.com");
    assert_eq!(user.password.as_ref(), "password123");
    assert!(user.requires_2fa);
}
