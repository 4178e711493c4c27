use vstd::prelude::*;

use crate::email::{email_grammar_accepts, Email};
use crate::error::{TwoFACodeStoreError, UserStoreError};
use crate::two_fa::{LoginAttemptId, TwoFACode};
use crate::password_hasher::{argon2_password_fits, password_matches};
use crate::user::{StoredUser, StoredUserView, User, UserView};

verus! {

/// A stored record holds a user: same email and second-factor choice, and a
/// password hash that the user's password matches.
pub open spec fn stores_user(record: StoredUserView, user: UserView) -> bool {
    &&& record.email == user.email
    &&& record.requires_2fa == user.requires_2fa
    &&& password_matches(record.password_hash, user.password)
}

/// Holds users, keyed by their email address, with their passwords hashed.
pub trait UserStore {
    /// The store's internal consistency.
    spec fn inv(&self) -> bool;

    /// The users held, by email address.
    spec fn users(&self) -> Map<Seq<char>, StoredUserView>;

    /// Adds a user whose email is not yet present, hashing the password. An
    /// email already present is `UserAlreadyExists`; a password too long to
    /// hash is `UnexpectedError`; either way nothing changes.
    fn add_user(&mut self, user: User) -> (r: Result<(), UserStoreError>)
        requires
            old(self).inv(),
        ensures
            final(self).inv(),
            old(self).users().contains_key(user.email@) ==> r == Err::<(), UserStoreError>(
                UserStoreError::UserAlreadyExists,
            ) && final(self).users() == old(self).users(),
            !old(self).users().contains_key(user.email@) && argon2_password_fits(user.password@)
                ==> r is Ok,
            r is Ok ==> exists|record: StoredUserView|
                stores_user(record, user@) && #[trigger] final(self).users() == old(self).users().insert(
                    user.email@,
                    record,
                ),
            !old(self).users().contains_key(user.email@) && r is Err ==> r == Err::<(), UserStoreError>(
                UserStoreError::UnexpectedError,
            ) && final(self).users() == old(self).users(),
    ;

    /// The stored record of the user with this email.
    fn get_user(&self, email: &str) -> (r: Result<StoredUser, UserStoreError>)
        requires
            self.inv(),
        ensures
            stored_result_view(r) == get_user_outcome(self.users(), email@),
            r is Ok ==> r->Ok_0.email@ == email@,
    ;

    /// Succeeds when a user with this email has a hash that this password matches.
    fn validate_user(&self, email: &str, password: &str) -> (r: Result<(), UserStoreError>)
        requires
            self.inv(),
        ensures
            r == user_check(self.users(), email@, password@),
    ;

    /// Removes the user with this email.
    fn delete_user(&mut self, email: &str) -> (r: Result<(), UserStoreError>)
        requires
            old(self).inv(),
        ensures
            final(self).inv(),
            (r, final(self).users()) == delete_user_outcome(old(self).users(), email@),
    ;
}

pub open spec fn stored_result_view(r: Result<StoredUser, UserStoreError>) -> Result<StoredUserView, UserStoreError> {
    match r {
        Ok(u) => Ok(u@),
        Err(e) => Err(e),
    }
}

/// Looking a user up by an email given as text.
pub open spec fn get_user_outcome(users: Map<Seq<char>, StoredUserView>, email: Seq<char>) -> Result<StoredUserView, UserStoreError> {
    if !email_grammar_accepts(email) {
        Err(UserStoreError::InvalidCredentials)
    } else if !users.contains_key(email) {
        Err(UserStoreError::UserNotFound)
    } else {
        Ok(users[email])
    }
}

/// The outcome of checking a password for an email against the users held:
/// the password must match the stored hash.
pub open spec fn user_check(users: Map<Seq<char>, StoredUserView>, email: Seq<char>, password: Seq<char>) -> Result<(), UserStoreError> {
    if !email_grammar_accepts(email) {
        Err(UserStoreError::InvalidCredentials)
    } else if !users.contains_key(email) {
        Err(UserStoreError::UserNotFound)
    } else if !password_matches(users[email].password_hash, password) {
        Err(UserStoreError::InvalidCredentials)
    } else {
        Ok(())
    }
}

/// Deleting a user by an email given as text.
pub open spec fn delete_user_outcome(users: Map<Seq<char>, StoredUserView>, email: Seq<char>) -> (Result<(), UserStoreError>, Map<Seq<char>, StoredUserView>) {
    if !email_grammar_accepts(email) {
        (Err(UserStoreError::InvalidCredentials), users)
    } else if !users.contains_key(email) {
        (Err(UserStoreError::UserNotFound), users)
    } else {
        (Ok(()), users.remove(email))
    }
}

/// Holds revoked session tokens.
pub trait BannedTokenStore {
    /// The tokens held.
    spec fn banned(&self) -> Set<Seq<char>>;

    /// Records a token as revoked; true on success. A backend that fails
    /// answers false and records nothing.
    fn store_token(&mut self, token: &str) -> (r: bool)
        ensures
            r ==> final(self).banned() == old(self).banned().insert(token@),
            !r ==> final(self).banned() == old(self).banned(),
    ;

    fn is_token_banned(&self, token: &str) -> (r: bool)
        ensures
            r == self.banned().contains(token@),
    ;
}

/// Holds the pending second-factor challenge of each email: at most one.
pub trait TwoFACodeStore {
    /// The store's internal consistency.
    spec fn inv(&self) -> bool;

    /// The pending challenges, by email: attempt id and code.
    spec fn codes(&self) -> Map<Seq<char>, (Seq<char>, Seq<char>)>;

    /// Sets the pending challenge of an email, replacing any earlier one. A
    /// backend that fails answers `UnexpectedError` and changes nothing.
    fn add_code(&mut self, email: Email, login_attempt_id: &LoginAttemptId, code: TwoFACode) -> (r:
        Result<(), TwoFACodeStoreError>)
        requires
            old(self).inv(),
        ensures
            final(self).inv(),
            r is Ok ==> final(self).codes() == old(self).codes().insert(
                email@,
                (login_attempt_id@, code@),
            ),
            r is Err ==> r == Err::<(), TwoFACodeStoreError>(TwoFACodeStoreError::UnexpectedError)
                && final(self).codes() == old(self).codes(),
    ;

    /// Drops the pending challenge of an email.
    fn remove_code(&mut self, email: Email) -> (r: Result<(), TwoFACodeStoreError>)
        requires
            old(self).inv(),
        ensures
            final(self).inv(),
            (r, final(self).codes()) == remove_code_outcome(old(self).codes(), email@),
    ;

    /// The pending challenge of an email.
    fn get_code(&self, email: Email) -> (r: Result<(LoginAttemptId, TwoFACode), TwoFACodeStoreError>)
        requires
            self.inv(),
        ensures
            challenge_result_view(r) == get_code_outcome(self.codes(), email@),
    ;
}

pub open spec fn challenge_result_view(r: Result<(LoginAttemptId, TwoFACode), TwoFACodeStoreError>) -> Result<(Seq<char>, Seq<char>), TwoFACodeStoreError> {
    match r {
        Ok(pair) => Ok((pair.0@, pair.1@)),
        Err(e) => Err(e),
    }
}

/// Dropping a challenge: an email without one is an error.
pub open spec fn remove_code_outcome(codes: Map<Seq<char>, (Seq<char>, Seq<char>)>, email: Seq<char>) -> (Result<(), TwoFACodeStoreError>, Map<Seq<char>, (Seq<char>, Seq<char>)>) {
    if codes.contains_key(email) {
        (Ok(()), codes.remove(email))
    } else {
        (Err(TwoFACodeStoreError::UnexpectedError), codes)
    }
}

/// Fetching the challenge of an email.
pub open spec fn get_code_outcome(codes: Map<Seq<char>, (Seq<char>, Seq<char>)>, email: Seq<char>) -> Result<(Seq<char>, Seq<char>), TwoFACodeStoreError> {
    if codes.contains_key(email) {
        Ok(codes[email])
    } else {
        Err(TwoFACodeStoreError::LoginAttemptIdNotFound)
    }
}

} // verus!
