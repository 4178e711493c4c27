//! Properties that hold across calls of the stores and the session engine,
//! stated over the models that their contracts use.

use vstd::prelude::*;

use crate::data_stores::{
    delete_user_outcome, get_code_outcome, get_user_outcome, remove_code_outcome, stores_user,
    user_check,
};
use crate::password_hasher::{decimal, is_b64_char, phc_prefix};
use crate::user::StoredUserView;
use crate::auth::{decodes_own_claims, signed_token, token_check, Claims};
use crate::cache_records::{decode_challenge_outcome, json_string_pair_parse};
use crate::email::email_grammar_accepts;
use crate::error::{AuthAPIError, TwoFACodeStoreError, UserStoreError};
use crate::two_fa::{is_code_text, is_uuid_text};
use crate::user::UserView;

verus! {

/// A user added under an absent email is fetched back as the record stored
/// for it, and validating the user's password against the store succeeds;
/// deleting a user that is absent fails with `UserNotFound` and changes
/// nothing.
pub proof fn lemma_user_store_add_get_delete(
    users: Map<Seq<char>, StoredUserView>,
    user: UserView,
    record: StoredUserView,
    absent: Seq<char>,
)
    requires
        email_grammar_accepts(user.email),
        stores_user(record, user),
        email_grammar_accepts(absent),
        !users.contains_key(absent),
    ensures
        get_user_outcome(users.insert(user.email, record), user.email) == Ok::<
            StoredUserView,
            UserStoreError,
        >(record),
        user_check(users.insert(user.email, record), user.email, user.password) == Ok::<
            (),
            UserStoreError,
        >(()),
        delete_user_outcome(users, absent) == (
            Err::<(), UserStoreError>(UserStoreError::UserNotFound),
            users,
        ),
{
}

/// A token once stored is reported revoked, and storing it leaves the
/// verdict on every other token as it was, so a token never stored is not
/// reported.
pub proof fn lemma_banned_token_store(banned: Set<Seq<char>>, token: Seq<char>, other: Seq<char>)
    requires
        other != token,
    ensures
        banned.insert(token).contains(token),
        banned.insert(token).contains(other) == banned.contains(other),
{
}

/// A challenge added for an email is fetched back unchanged; a second one
/// for the same email replaces the first; once removed, fetching fails with
/// `LoginAttemptIdNotFound`.
pub proof fn lemma_two_fa_code_store(
    codes: Map<Seq<char>, (Seq<char>, Seq<char>)>,
    email: Seq<char>,
    first: (Seq<char>, Seq<char>),
    second: (Seq<char>, Seq<char>),
)
    ensures
        get_code_outcome(codes.insert(email, first), email) == Ok::<
            (Seq<char>, Seq<char>),
            TwoFACodeStoreError,
        >(first),
        get_code_outcome(codes.insert(email, first).insert(email, second), email) == Ok::<
            (Seq<char>, Seq<char>),
            TwoFACodeStoreError,
        >(second),
        remove_code_outcome(codes.insert(email, first), email).0 is Ok,
        get_code_outcome(remove_code_outcome(codes.insert(email, first), email).1, email)
            == Err::<(Seq<char>, Seq<char>), TwoFACodeStoreError>(
            TwoFACodeStoreError::LoginAttemptIdNotFound,
        ),
{
    assert(!codes.insert(email, first).remove(email).contains_key(email));
}

/// Once a token is revoked, every later state that the revoked-token store
/// can reach through `store_token` (each step adds a token, or changes
/// nothing when the store fails) still holds it, so `is_token_banned` reports
/// it and the decision on it (`token_check`, through which `validate_token`,
/// `verify_token`, `logout` and `delete_account` decide) is `InvalidToken`
/// whatever its signature and expiry.
pub proof fn lemma_logged_out_token_revoked(
    states: Seq<Set<Seq<char>>>,
    stored: Seq<Seq<char>>,
    token: Seq<char>,
    decoded: Option<Claims>,
)
    requires
        states.len() == stored.len() + 1,
        states[0].contains(token),
        forall|i: int|
            0 <= i < stored.len() ==> #[trigger] states[i + 1] == states[i].insert(stored[i])
                || states[i + 1] == states[i],
    ensures
        forall|i: int| 0 <= i < states.len() ==> (#[trigger] states[i]).contains(token),
        forall|i: int|
            0 <= i < states.len() ==> token_check(#[trigger] states[i].contains(token), decoded)
                == Err::<Claims, AuthAPIError>(AuthAPIError::InvalidToken),
{
    assert forall|i: int| 0 <= i < states.len() implies (#[trigger] states[i]).contains(token) by {
        lemma_revoked_at(states, stored, token, i);
    }
}

proof fn lemma_revoked_at(states: Seq<Set<Seq<char>>>, stored: Seq<Seq<char>>, token: Seq<char>, i: int)
    requires
        states.len() == stored.len() + 1,
        states[0].contains(token),
        forall|k: int|
            0 <= k < stored.len() ==> #[trigger] states[k + 1] == states[k].insert(stored[k])
                || states[k + 1] == states[k],
        0 <= i < states.len(),
    ensures
        states[i].contains(token),
    decreases i,
{
    if i > 0 {
        lemma_revoked_at(states, stored, token, i - 1);
        assert(states[(i - 1) + 1] == states[i - 1].insert(stored[i - 1]) || states[(i - 1) + 1]
            == states[i - 1]);
    }
}

/// Hashes written under two different salts differ: each names its salt
/// between `$` signs, and a salt holds no `$`.
pub proof fn lemma_distinct_salts_distinct_hashes(
    m_cost: u32,
    t_cost: u32,
    p_cost: u32,
    salt1: Seq<char>,
    salt2: Seq<char>,
    hash1: Seq<char>,
    hash2: Seq<char>,
)
    requires
        salt1 != salt2,
        forall|i: int| 0 <= i < salt1.len() ==> is_b64_char(#[trigger] salt1[i]),
        forall|i: int| 0 <= i < salt2.len() ==> is_b64_char(#[trigger] salt2[i]),
        phc_prefix(m_cost, t_cost, p_cost, salt1).is_prefix_of(hash1),
        phc_prefix(m_cost, t_cost, p_cost, salt2).is_prefix_of(hash2),
    ensures
        hash1 != hash2,
{
    let head = "$argon2id$v=19$m="@ + decimal(m_cost as nat) + ",t="@ + decimal(t_cost as nat)
        + ",p="@ + decimal(p_cost as nat) + "$"@;
    let p1 = phc_prefix(m_cost, t_cost, p_cost, salt1);
    let p2 = phc_prefix(m_cost, t_cost, p_cost, salt2);
    assert(p1 == head + salt1 + "$"@);
    assert(p2 == head + salt2 + "$"@);
    reveal_strlit("$");
    let n = head.len();
    if hash1 == hash2 {
        assert forall|i: int| 0 <= i < p1.len() implies hash1[i] == p1[i] by {
            assert(hash1.subrange(0, p1.len() as int)[i] == hash1[i]);
        }
        assert forall|i: int| 0 <= i < p2.len() implies hash2[i] == p2[i] by {
            assert(hash2.subrange(0, p2.len() as int)[i] == hash2[i]);
        }
        assert forall|k: int| 0 <= k < salt1.len() && k < salt2.len() implies salt1[k] == salt2[k] by {
            assert(p1[n + k] == salt1[k]);
            assert(p2[n + k] == salt2[k]);
        }
        if salt1.len() == salt2.len() {
            assert(salt1 =~= salt2);
        } else if salt1.len() < salt2.len() {
            let k = salt1.len() as int;
            assert(p1[n + k] == '$');
            assert(p2[n + k] == salt2[k]);
            assert(is_b64_char(salt2[k]));
        } else {
            let k = salt2.len() as int;
            assert(p2[n + k] == '$');
            assert(p1[n + k] == salt1[k]);
            assert(is_b64_char(salt1[k]));
        }
    }
}

/// A token issued for an email and an expiry, when the session engine accepts
/// it, yields exactly that email as subject and that expiry.
pub proof fn lemma_issued_token_yields_its_claims(
    email: Seq<char>,
    exp: usize,
    secret: Seq<u8>,
    decoded: Option<Claims>,
)
    requires
        decodes_own_claims(decoded, signed_token(email, exp, secret), secret),
        token_check(false, decoded) is Ok,
    ensures
        token_check(false, decoded)->Ok_0.sub@ == email,
        token_check(false, decoded)->Ok_0.exp == exp,
{
}

/// A challenge written to the cache reads back as the same challenge.
pub proof fn lemma_challenge_record_round_trip(id: Seq<char>, code: Seq<char>, value: Seq<char>)
    requires
        is_uuid_text(id),
        is_code_text(code),
        json_string_pair_parse(value) == Some((id, code)),
    ensures
        decode_challenge_outcome(value) == Ok::<(Seq<char>, Seq<char>), TwoFACodeStoreError>((id, code)),
{
}

} // verus!
