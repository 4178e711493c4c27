use vstd::prelude::*;

use crate::email::{email_grammar_accepts, Email};
use crate::error::ValidationError;
use crate::password::{byte_len, Password, MIN_PASSWORD_BYTES};

verus! {

/// A user as the stores hold it.
pub struct User {
    pub email: Email,
    pub password: Password,
    pub requires_2fa: bool,
}

/// What a `User` holds, as plain text.
pub struct UserView {
    pub email: Seq<char>,
    pub password: Seq<char>,
    pub requires_2fa: bool,
}

impl View for User {
    type V = UserView;

    open spec fn view(&self) -> UserView {
        UserView { email: self.email@, password: self.password@, requires_2fa: self.requires_2fa }
    }
}

impl Clone for User {
    fn clone(&self) -> (r: User)
        ensures
            r@ == self@,
    {
        User {
            email: self.email.clone(),
            password: self.password.clone(),
            requires_2fa: self.requires_2fa,
        }
    }
}

impl PartialEq for User {
    fn eq(&self, other: &User) -> (r: bool) {
        self.email == other.email && self.password == other.password && self.requires_2fa
            == other.requires_2fa
    }
}

impl vstd::std_specs::cmp::PartialEqSpecImpl for User {
    open spec fn obeys_eq_spec() -> bool {
        true
    }

    open spec fn eq_spec(&self, other: &User) -> bool {
        self@ == other@
    }
}

impl User {
    /// Builds a user from raw input; the email is checked first.
    pub fn new(email: &str, password: &str, requires_2fa: bool) -> (r: Result<User, ValidationError>)
        ensures
            r is Ok <==> email_grammar_accepts(email@) && byte_len(password@)
                >= MIN_PASSWORD_BYTES,
            !email_grammar_accepts(email@) ==> r == Err::<User, ValidationError>(
                ValidationError::InvalidEmail,
            ),
            email_grammar_accepts(email@) && byte_len(password@) < MIN_PASSWORD_BYTES ==> r
                == Err::<User, ValidationError>(ValidationError::InvalidPassword),
            r is Ok ==> r->Ok_0@ == (UserView {
                email: email@,
                password: password@,
                requires_2fa,
            }),
    {
        let email = Email::parse(email)?;
        let password = Password::parse(password)?;
        Ok(User { email, password, requires_2fa })
    }
}

} // verus!

verus! {

/// A user as a store holds it: the password only as an Argon2id hash.
pub struct StoredUser {
    pub email: Email,
    pub password_hash: String,
    pub requires_2fa: bool,
}

/// What a `StoredUser` holds, as plain text.
pub struct StoredUserView {
    pub email: Seq<char>,
    pub password_hash: Seq<char>,
    pub requires_2fa: bool,
}

impl View for StoredUser {
    type V = StoredUserView;

    open spec fn view(&self) -> StoredUserView {
        StoredUserView {
            email: self.email@,
            password_hash: self.password_hash@,
            requires_2fa: self.requires_2fa,
        }
    }
}

impl Clone for StoredUser {
    fn clone(&self) -> (r: StoredUser)
        ensures
            r@ == self@,
    {
        StoredUser {
            email: self.email.clone(),
            password_hash: self.password_hash.clone(),
            requires_2fa: self.requires_2fa,
        }
    }
}

impl PartialEq for StoredUser {
    fn eq(&self, other: &StoredUser) -> (r: bool) {
        self.email == other.email && self.password_hash == other.password_hash && self.requires_2fa
            == other.requires_2fa
    }
}

impl vstd::std_specs::cmp::PartialEqSpecImpl for StoredUser {
    open spec fn obeys_eq_spec() -> bool {
        true
    }

    open spec fn eq_spec(&self, other: &StoredUser) -> bool {
        self@ == other@
    }
}

} // verus!
