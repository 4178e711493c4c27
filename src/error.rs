use vstd::prelude::*;
use vstd::string::*;

verus! {

/// What is wrong with a second-factor code.
#[derive(Debug, Clone, Copy, PartialEq, Eq, Structural)]
pub enum CodeDefect {
    /// Not six bytes long.
    Length,
    /// Six bytes, but not six ASCII digits.
    NotDigits,
}

/// Why a raw string was refused by one of the credential value types.
#[derive(Debug, Clone, Copy, PartialEq, Eq, Structural)]
pub enum ValidationError {
    InvalidEmail,
    InvalidPassword,
    InvalidAttemptId,
    InvalidCode(CodeDefect),
}

impl ValidationError {
    /// The message shown for this error.
    pub fn to_string(&self) -> (r: String)
        ensures
            r@ == self.message(),
    {
        match self {
            ValidationError::InvalidEmail => String::from_str("Invalid email address"),
            ValidationError::InvalidPassword => String::from_str("Invalid password"),
            ValidationError::InvalidAttemptId => String::from_str("Invalid UUID"),
            ValidationError::InvalidCode(CodeDefect::Length) => String::from_str("Invalid code length"),
            ValidationError::InvalidCode(CodeDefect::NotDigits) => String::from_str("Invalid code"),
        }
    }

    pub open spec fn message(&self) -> Seq<char> {
        match self {
            ValidationError::InvalidEmail => "Invalid email address"@,
            ValidationError::InvalidPassword => "Invalid password"@,
            ValidationError::InvalidAttemptId => "Invalid UUID"@,
            ValidationError::InvalidCode(CodeDefect::Length) => "Invalid code length"@,
            ValidationError::InvalidCode(CodeDefect::NotDigits) => "Invalid code"@,
        }
    }
}

} // verus!

verus! {

#[derive(Debug, Clone, Copy, PartialEq, Eq, Structural)]
pub enum UserStoreError {
    UserAlreadyExists,
    UserNotFound,
    InvalidCredentials,
    UnexpectedError,
}

#[derive(Debug, Clone, Copy, PartialEq, Eq, Structural)]
pub enum TwoFACodeStoreError {
    LoginAttemptIdNotFound,
    UnexpectedError,
}

} // verus!

verus! {

/// The failures that a caller of the service is told about.
#[derive(Debug, Clone, Copy, PartialEq, Eq, Structural)]
pub enum AuthAPIError {
    UserAlreadyExists,
    /// Input that is not well formed.
    InvalidCredentials,
    /// Well-formed input that does not authenticate.
    IncorrectCredentials,
    MissingToken,
    InvalidToken,
    UnexpectedError,
}

/// The body sent with an error.
pub struct ErrorResponse {
    pub error: String,
}

impl AuthAPIError {
    pub open spec fn spec_status(&self) -> u16 {
        match self {
            AuthAPIError::UserAlreadyExists => 409,
            AuthAPIError::InvalidCredentials => 400,
            AuthAPIError::IncorrectCredentials => 401,
            AuthAPIError::MissingToken => 400,
            AuthAPIError::InvalidToken => 401,
            AuthAPIError::UnexpectedError => 500,
        }
    }

    pub open spec fn spec_message(&self) -> Seq<char> {
        match self {
            AuthAPIError::UserAlreadyExists => "User already exists"@,
            AuthAPIError::InvalidCredentials => "Invalid credentials"@,
            AuthAPIError::IncorrectCredentials => "Incorrect credentials"@,
            AuthAPIError::MissingToken => "Missing token"@,
            AuthAPIError::InvalidToken => "Invalid token"@,
            AuthAPIError::UnexpectedError => "An unexpected error"@,
        }
    }

    /// The HTTP status that reports this error.
    pub fn status_code(&self) -> (r: u16)
        ensures
            r == self.spec_status(),
    {
        match self {
            AuthAPIError::UserAlreadyExists => 409,
            AuthAPIError::InvalidCredentials => 400,
            AuthAPIError::IncorrectCredentials => 401,
            AuthAPIError::MissingToken => 400,
            AuthAPIError::InvalidToken => 401,
            AuthAPIError::UnexpectedError => 500,
        }
    }

    /// The status and the body that report this error.
    pub fn into_response(&self) -> (r: (u16, ErrorResponse))
        ensures
            r.0 == self.spec_status(),
            r.1.error@ == self.spec_message(),
    {
        let message = match self {
            AuthAPIError::UserAlreadyExists => String::from_str("User already exists"),
            AuthAPIError::InvalidCredentials => String::from_str("Invalid credentials"),
            AuthAPIError::IncorrectCredentials => String::from_str("Incorrect credentials"),
            AuthAPIError::MissingToken => String::from_str("Missing token"),
            AuthAPIError::InvalidToken => String::from_str("Invalid token"),
            AuthAPIError::UnexpectedError => String::from_str("An unexpected error"),
        };
        (self.status_code(), ErrorResponse { error: message })
    }
}

} // verus!
