use vstd::prelude::*;

use crate::error::UserStoreError;
use crate::password::Password;

verus! {

/// Argon2id memory cost, in KiB.
pub const HASH_MEMORY_COST: u32 = 15000;

/// Argon2id number of passes.
pub const HASH_ITERATIONS: u32 = 2;

/// Argon2id degree of parallelism.
pub const HASH_PARALLELISM: u32 = 1;

/// What `password_hash::SaltString::from_b64` reads as a salt that argon2 can
/// hash with: B64 text of at least eight decoded bytes.
pub uninterp spec fn argon2_salt_accepts(salt: Seq<char>) -> bool;

/// A character of the B64 alphabet that salts are written in.
pub open spec fn is_b64_char(c: char) -> bool {
    ('A' <= c && c <= 'Z') || ('a' <= c && c <= 'z') || ('0' <= c && c <= '9') || c == '+' || c == '/'
}

/// Relies on `password_hash::SaltString::generate` with `rand`'s thread-local
/// generator: the B64 text (characters `A-Z a-z 0-9 + /`) of sixteen random
/// bytes, which `from_b64` reads back and which is longer than argon2's
/// minimum salt.
#[verifier::external_body]
fn generate_salt() -> (r: String)
    ensures
        argon2_salt_accepts(r@),
        forall|i: int| 0 <= i < r@.len() ==> is_b64_char(#[trigger] r@[i]),
{
    argon2::password_hash::SaltString::generate(&mut rand::thread_rng()).as_str().to_owned()
}

/// The costs that `argon2::Params::new` accepts (with the default output length).
pub open spec fn argon2_costs_ok(m_cost: u32, t_cost: u32, p_cost: u32) -> bool {
    &&& m_cost >= 8
    &&& m_cost >= 8 * p_cost
    &&& t_cost >= 1
    &&& 1 <= p_cost <= 0xFFFFFF
}

/// No `p=` in the text is followed by nine digits. argon2 refuses a degree of
/// parallelism above 0xFFFFFF (eight digits), and reading a stored hash with a
/// larger one overflows while checking it.
pub open spec fn phc_parallelism_bounded(text: Seq<char>) -> bool {
    forall|i: int|
        0 <= i && i + 11 <= text.len() && text[i] == 'p' && text[i + 1] == '=' ==> !all_digits(
            #[trigger] text.subrange(i + 2, i + 11),
        )
}

pub open spec fn all_digits(s: Seq<char>) -> bool {
    forall|j: int| 0 <= j < s.len() ==> '0' <= #[trigger] s[j] && s[j] <= '9'
}

/// The largest password, in bytes, that argon2 hashes.
pub open spec fn argon2_password_fits(password: Seq<char>) -> bool {
    vstd::utf8::encode_utf8(password).len() <= 0xFFFF_FFFF
}

pub open spec fn digit_char(d: nat) -> char {
    seq!['0', '1', '2', '3', '4', '5', '6', '7', '8', '9'][d as int]
}

/// The decimal digits of a number.
pub open spec fn decimal(n: nat) -> Seq<char>
    decreases n,
{
    if n < 10 {
        seq![digit_char(n)]
    } else {
        decimal(n / 10) + seq![digit_char(n % 10)]
    }
}

/// The start of an Argon2id PHC string, up to and including the salt:
/// `$argon2id$v=19$m=<m>,t=<t>,p=<p>$<salt>$`.
pub open spec fn phc_prefix(m_cost: u32, t_cost: u32, p_cost: u32, salt: Seq<char>) -> Seq<char> {
    "$argon2id$v=19$m="@ + decimal(m_cost as nat) + ",t="@ + decimal(t_cost as nat) + ",p="@
        + decimal(p_cost as nat) + "$"@ + salt + "$"@
}

/// What argon2 (Argon2id, version 0x13) writes as the PHC string of a password
/// under a salt and costs.
pub uninterp spec fn argon2id_hash_text(password: Seq<char>, salt: Seq<char>, m_cost: u32, t_cost: u32, p_cost: u32) -> Seq<char>;

/// Relies on `argon2::Params::new`, `SaltString::from_b64` and
/// `argon2::Argon2::hash_password` for Argon2id, version 0x13: the PHC string
/// depends on the password, the salt and the costs alone; it is written as
/// `$argon2id$v=19$m=..,t=..,p=..$salt$hash`; it succeeds for costs that
/// `Params::new` accepts, a salt that `from_b64` accepts and a password of at
/// most `MAX_PWD_LEN` bytes; and `verify_password` accepts the password
/// against it, since it recomputes the hash from the parameters written there.
/// The text holds no other `p=`: salt and hash are B64, which has no `=`.
#[verifier::external_body]
fn argon2id_hash(password: &str, salt: &str, m_cost: u32, t_cost: u32, p_cost: u32) -> (r: Option<String>)
    requires
        argon2_costs_ok(m_cost, t_cost, p_cost),
    ensures
        argon2_salt_accepts(salt@) && argon2_password_fits(password@) ==> r is Some,
        r is Some ==> phc_parallelism_bounded(r->Some_0@),
        r is Some ==> r->Some_0@ == argon2id_hash_text(password@, salt@, m_cost, t_cost, p_cost),
        r is Some ==> phc_prefix(m_cost, t_cost, p_cost, salt@).is_prefix_of(r->Some_0@),
        r is Some ==> argon2_accepts(r->Some_0@, password@),
{
    let salt = argon2::password_hash::SaltString::from_b64(salt).ok()?;
    let params = argon2::Params::new(m_cost, t_cost, p_cost, None).ok()?;
    let hasher = argon2::Argon2::new(argon2::Algorithm::Argon2id, argon2::Version::V0x13, params);
    let hash = argon2::PasswordHasher::hash_password(&hasher, password.as_bytes(), &salt).ok()?;
    Some(hash.to_string())
}

/// Whether argon2 accepts a candidate password against a stored PHC hash.
pub uninterp spec fn argon2_accepts(hash: Seq<char>, candidate: Seq<char>) -> bool;

/// Relies on `argon2::PasswordHash::new` and `PasswordVerifier::verify_password`
/// of `argon2::Argon2`: the stored hash names its algorithm, version, costs and
/// salt, so the verdict depends on the two texts alone. A hash that does not
/// parse accepts nothing, and one that parses starts with `$argon2`, the
/// prefix of the three argon2 algorithm names.
#[verifier::external_body]
fn argon2_verify(hash: &str, candidate: &str) -> (r: bool)
    requires
        phc_parallelism_bounded(hash@),
    ensures
        r == argon2_accepts(hash@, candidate@),
        r ==> "$argon2"@.is_prefix_of(hash@),
{
    match argon2::PasswordHash::new(hash) {
        Ok(parsed) => argon2::PasswordVerifier::verify_password(&argon2::Argon2::default(), candidate.as_bytes(), &parsed).is_ok(),
        Err(_) => false,
    }
}

/// Hashes a password with Argon2id under a fresh random salt, for storage. The
/// stored text names the algorithm, version, costs and salt, and verifies
/// against the password.
pub fn compute_password_hash(password: &Password) -> (r: Result<String, UserStoreError>)
    ensures
        argon2_password_fits(password@) ==> r is Ok,
        r is Err ==> r == Err::<String, UserStoreError>(UserStoreError::UnexpectedError),
        r is Ok ==> password_matches(r->Ok_0@, password@),
        r is Ok ==> exists|salt: Seq<char>|
            argon2_salt_accepts(salt) && (forall|i: int| 0 <= i < salt.len() ==> is_b64_char(#[trigger] salt[i])) && r->Ok_0@ == #[trigger] argon2id_hash_text(
                password@,
                salt,
                HASH_MEMORY_COST,
                HASH_ITERATIONS,
                HASH_PARALLELISM,
            ) && phc_prefix(HASH_MEMORY_COST, HASH_ITERATIONS, HASH_PARALLELISM, salt).is_prefix_of(
                r->Ok_0@,
            ),
{
    let salt = generate_salt();
    match argon2id_hash(password.as_ref(), salt.as_str(), HASH_MEMORY_COST, HASH_ITERATIONS, HASH_PARALLELISM) {
        Some(hash) => Ok(hash),
        None => Err(UserStoreError::UnexpectedError),
    }
}

/// A stored hash text accepts a candidate password: it is one that can be
/// checked safely, and argon2 accepts the candidate against it.
pub open spec fn password_matches(hash: Seq<char>, candidate: Seq<char>) -> bool {
    phc_parallelism_bounded(hash) && argon2_accepts(hash, candidate)
}

/// Whether the nine characters from `start` are all digits.
fn nine_digits_at(text: &str, start: usize) -> (r: bool)
    requires
        start + 9 <= text@.len() <= usize::MAX,
    ensures
        r == all_digits(text@.subrange(start as int, start + 9)),
{
    let mut j: usize = 0;
    while j < 9
        invariant
            j <= 9,
            start + 9 <= text@.len() <= usize::MAX,
            forall|k: int| 0 <= k < j ==> '0' <= #[trigger] text@[start + k] && text@[start + k] <= '9',
        decreases 9 - j,
    {
        let c = text.get_char(start + j);
        if !('0' <= c && c <= '9') {
            assert(text@.subrange(start as int, start + 9)[j as int] == c);
            return false;
        }
        j = j + 1;
    }
    assert forall|k: int| 0 <= k < 9 implies '0' <= #[trigger] text@.subrange(start as int, start + 9)[k]
        && text@.subrange(start as int, start + 9)[k] <= '9' by {
        assert(text@.subrange(start as int, start + 9)[k] == text@[start + k]);
    }
    true
}

/// Whether a stored hash text can be checked safely; see `phc_parallelism_bounded`.
pub fn parallelism_bounded(text: &str) -> (r: bool)
    ensures
        r == phc_parallelism_bounded(text@),
{
    let n = text.unicode_len();
    let mut i: usize = 0;
    while n >= 11 && i <= n - 11
        invariant
            n == text@.len(),
            forall|k: int|
                0 <= k < i && k + 11 <= text@.len() && text@[k] == 'p' && text@[k + 1] == '=' ==> !all_digits(
                    #[trigger] text@.subrange(k + 2, k + 11),
                ),
        decreases n - i,
    {
        if text.get_char(i) == 'p' && text.get_char(i + 1) == '=' {
            if nine_digits_at(text, i + 2) {
                assert(all_digits(text@.subrange(i + 2, i + 11)));
                return false;
            }
        }
        i = i + 1;
    }
    true
}

/// Checks a candidate password against a stored hash. A mismatch, a hash that
/// cannot be read, or one naming a degree of parallelism too large to check,
/// is `InvalidCredentials`.
pub fn verify_password_hash(expected_password_hash: &str, password_candidate: &str) -> (r: Result<(), UserStoreError>)
    ensures
        r is Ok <==> password_matches(expected_password_hash@, password_candidate@),
        r is Ok ==> r == Ok::<(), UserStoreError>(()),
        r is Ok ==> "$argon2"@.is_prefix_of(expected_password_hash@),
        r is Err ==> r == Err::<(), UserStoreError>(UserStoreError::InvalidCredentials),
{
    if !parallelism_bounded(expected_password_hash) {
        return Err(UserStoreError::InvalidCredentials);
    }
    if argon2_verify(expected_password_hash, password_candidate) {
        Ok(())
    } else {
        Err(UserStoreError::InvalidCredentials)
    }
}

} // verus!
