use vstd::prelude::*;
use vstd::string::*;

use crate::data_stores::challenge_result_view;
use crate::email::Email;
use crate::error::TwoFACodeStoreError;
use crate::two_fa::{is_code_text, is_uuid_text, LoginAttemptId, TwoFACode};

verus! {

/// Keys of revoked tokens in a shared TTL cache start with this.
pub const BANNED_TOKEN_KEY_PREFIX: &'static str = "banned_token:";

/// Keys of pending challenges in a shared TTL cache start with this.
pub const TWO_FA_CODE_PREFIX: &'static str = "two_fa_code:";

/// How long a pending challenge lives in the cache, in seconds.
pub const TEN_MINUTES_IN_SECONDS: u64 = 600;

/// The cache key under which a revoked token is recorded.
pub fn get_key(token: &str) -> (r: String)
    ensures
        r@ == BANNED_TOKEN_KEY_PREFIX@ + token@,
{
    String::from_str(BANNED_TOKEN_KEY_PREFIX).concat(token)
}

/// The cache key under which the pending challenge of an email is recorded.
pub fn two_fa_code_key(email: &Email) -> (r: String)
    ensures
        r@ == TWO_FA_CODE_PREFIX@ + email@,
{
    String::from_str(TWO_FA_CODE_PREFIX).concat(email.as_ref())
}

/// What `serde_json::to_string` writes for a pair of strings.
pub uninterp spec fn json_string_pair(first: Seq<char>, second: Seq<char>) -> Seq<char>;

/// Relies on `serde_json::to_string` on a pair of strings (a JSON array of
/// two strings): it always succeeds, since strings always serialize; the text
/// depends on the two strings alone; and `serde_json::from_str` reads the
/// same pair back from it.
#[verifier::external_body]
fn encode_string_pair(first: &str, second: &str) -> (r: Option<String>)
    ensures
        r is Some,
        r is Some ==> r->Some_0@ == json_string_pair(first@, second@),
        r is Some ==> json_string_pair_parse(r->Some_0@) == Some((first@, second@)),
{
    serde_json::to_string(&(first, second)).ok()
}

/// What `serde_json::from_str` reads as a pair of strings from a text, if anything.
pub uninterp spec fn json_string_pair_parse(text: Seq<char>) -> Option<(Seq<char>, Seq<char>)>;

/// Relies on `serde_json::from_str` into a pair of strings: the outcome
/// depends on the text alone.
#[verifier::external_body]
fn decode_string_pair(text: &str) -> (r: Option<(String, String)>)
    ensures
        match r {
            Some(pair) => json_string_pair_parse(text@) == Some((pair.0@, pair.1@)),
            None => json_string_pair_parse(text@) is None,
        },
{
    serde_json::from_str::<(String, String)>(text).ok()
}

/// The cache value that records a challenge: its attempt id and code as a JSON pair.
pub fn encode_challenge(login_attempt_id: &LoginAttemptId, code: &TwoFACode) -> (r: Result<String, TwoFACodeStoreError>)
    ensures
        r is Ok,
        r is Ok ==> r->Ok_0@ == json_string_pair(login_attempt_id@, code@),
        r is Ok ==> json_string_pair_parse(r->Ok_0@) == Some((login_attempt_id@, code@)),
{
    match encode_string_pair(login_attempt_id.as_ref(), code.as_ref()) {
        Some(text) => Ok(text),
        None => Err(TwoFACodeStoreError::UnexpectedError),
    }
}

/// Reading a challenge back from its two parts; either part out of shape is
/// an unexpected record.
pub open spec fn challenge_from_parts_outcome(id: Seq<char>, code: Seq<char>) -> Result<(Seq<char>, Seq<char>), TwoFACodeStoreError> {
    if is_uuid_text(id) && is_code_text(code) {
        Ok((id, code))
    } else {
        Err(TwoFACodeStoreError::UnexpectedError)
    }
}

/// A challenge from the two texts of a cache record.
pub fn challenge_from_parts(id: &str, code: &str) -> (r: Result<(LoginAttemptId, TwoFACode), TwoFACodeStoreError>)
    ensures
        challenge_result_view(r) == challenge_from_parts_outcome(id@, code@),
{
    let login_attempt_id = match LoginAttemptId::parse(id) {
        Ok(id) => id,
        Err(_) => return Err(TwoFACodeStoreError::UnexpectedError),
    };
    let two_fa_code = match TwoFACode::parse(code) {
        Ok(code) => code,
        Err(_) => return Err(TwoFACodeStoreError::UnexpectedError),
    };
    Ok((login_attempt_id, two_fa_code))
}

/// Reading a challenge back from a cache value.
pub open spec fn decode_challenge_outcome(value: Seq<char>) -> Result<(Seq<char>, Seq<char>), TwoFACodeStoreError> {
    match json_string_pair_parse(value) {
        Some(pair) => challenge_from_parts_outcome(pair.0, pair.1),
        None => Err(TwoFACodeStoreError::UnexpectedError),
    }
}

/// A challenge from a cache value; a value that is not a JSON pair of
/// well-formed parts is an unexpected record.
pub fn decode_challenge(value: &str) -> (r: Result<(LoginAttemptId, TwoFACode), TwoFACodeStoreError>)
    ensures
        challenge_result_view(r) == decode_challenge_outcome(value@),
{
    match decode_string_pair(value) {
        Some((id, code)) => challenge_from_parts(id.as_str(), code.as_str()),
        None => Err(TwoFACodeStoreError::UnexpectedError),
    }
}

} // verus!
