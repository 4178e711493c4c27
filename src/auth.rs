use vstd::prelude::*;
use vstd::string::*;

use crate::data_stores::BannedTokenStore;
use crate::email::Email;
use crate::error::AuthAPIError;

verus! {

/// How long a session token stays valid, in seconds.
pub const TOKEN_TTL_SECONDS: i64 = 600;

/// The name of the cookie that carries the session token.
pub const JWT_COOKIE_NAME: &'static str = "jwt";

#[verifier::external_type_specification]
#[verifier::external_body]
pub struct ExJwtError(jsonwebtoken::errors::Error);

/// The payload of a session token.
#[derive(Debug)]
pub struct Claims {
    /// The email address of the session's user.
    pub sub: String,
    /// When the token expires, in seconds since the Unix epoch.
    pub exp: usize,
}

#[derive(Debug)]
pub enum GenerateTokenError {
    TokenError(jsonwebtoken::errors::Error),
    UnexpectedError,
}

/// What `jsonwebtoken::encode` yields for the claims `{sub, exp}` under the
/// default header (HS256) and this secret.
pub uninterp spec fn signed_token(sub: Seq<char>, exp: usize, secret: Seq<u8>) -> Seq<char>;

pub open spec fn is_b64url_char(c: char) -> bool {
    ('A' <= c && c <= 'Z') || ('a' <= c && c <= 'z') || ('0' <= c && c <= '9') || c == '-' || c == '_'
}

/// A non-empty text in the unpadded base64url alphabet.
pub open spec fn is_b64url_text(s: Seq<char>) -> bool {
    s.len() > 0 && forall|i: int| 0 <= i < s.len() ==> is_b64url_char(#[trigger] s[i])
}

/// A compact JWT: header, claims and signature, each non-empty unpadded
/// base64url, joined by `.`.
pub open spec fn is_jwt_text(t: Seq<char>) -> bool {
    exists|header: Seq<char>, claims: Seq<char>, signature: Seq<char>|
        is_b64url_text(header) && is_b64url_text(claims) && is_b64url_text(signature) && t
            == #[trigger] (header + "."@ + claims + "."@ + signature)
}

/// A decoded token yields the claims it was signed with: whenever the token
/// is the one signed for some `sub` and `exp` under `secret`, those are what
/// decoding gives back.
pub open spec fn decodes_own_claims(decoded: Option<Claims>, token: Seq<char>, secret: Seq<u8>) -> bool {
    decoded is Some ==> forall|sub: Seq<char>, exp: usize|
        #[trigger] signed_token(sub, exp, secret) == token ==> decoded->Some_0.sub@ == sub
            && decoded->Some_0.exp == exp
}

/// Relies on `jsonwebtoken::encode` with the default header and an HMAC key
/// from `secret`, on the claims object `{"sub": sub, "exp": exp}`: the token
/// depends on these values alone, and it is always made, since the key's
/// family matches HS256, the header and a JSON object always serialize, and
/// HMAC signing does not fail. The token is the base64url (unpadded) header,
/// claims and signature joined by `.`.
#[verifier::external_body]
fn encode_claims(sub: &str, exp: usize, secret: &[u8]) -> (r: Result<String, jsonwebtoken::errors::Error>)
    ensures
        r is Ok,
        r is Ok ==> r->Ok_0@ == signed_token(sub@, exp, secret@),
        r is Ok ==> is_jwt_text(r->Ok_0@),
{
    let mut claims = serde_json::Map::new();
    claims.insert("sub".to_string(), serde_json::Value::from(sub));
    claims.insert("exp".to_string(), serde_json::Value::from(exp));
    let header = jsonwebtoken::Header::default();
    let key = jsonwebtoken::EncodingKey::from_secret(secret);
    jsonwebtoken::encode(&header, &serde_json::Value::Object(claims), &key)
}

/// Relies on `jsonwebtoken::decode` with `Validation::default()` (HS256,
/// expiry checked against the clock) and an HMAC key from `secret`, read into
/// the claims `sub` and `exp`. Whether it decodes depends on the time; when
/// it does, a token that `encode` made for `sub` and `exp` under this secret
/// yields that `sub` and `exp`.
#[verifier::external_body]
fn decode_claims(token: &str, secret: &[u8]) -> (r: Option<Claims>)
    ensures
        decodes_own_claims(r, token@, secret@),
{
    let key = jsonwebtoken::DecodingKey::from_secret(secret);
    let data = jsonwebtoken::decode::<serde_json::Value>(token, &key, &jsonwebtoken::Validation::default()).ok()?;
    let sub = data.claims.get("sub")?.as_str()?.to_string();
    let exp = usize::try_from(data.claims.get("exp")?.as_u64()?).ok()?;
    Some(Claims { sub, exp })
}

/// Relies on `chrono::Utc::now`, as seconds since the Unix epoch. It depends on
/// the clock, so nothing is stated of it.
#[verifier::external_body]
pub(crate) fn now_timestamp() -> (r: i64) {
    chrono::Utc::now().timestamp()
}

/// The `SameSite` attribute of a cookie.
#[derive(Debug, Clone, Copy, PartialEq, Eq, Structural)]
pub enum SameSite {
    Strict,
    Lax,
    /// Sent on cross-site requests too (`SameSite=None`).
    Unrestricted,
}

/// The cookie that carries a session token to the client.
pub struct AuthCookie {
    name: String,
    value: String,
    path: String,
    http_only: bool,
    same_site: SameSite,
}

impl AuthCookie {
    pub closed spec fn spec_name(&self) -> Seq<char> {
        self.name@
    }

    pub closed spec fn spec_value(&self) -> Seq<char> {
        self.value@
    }

    pub closed spec fn spec_path(&self) -> Seq<char> {
        self.path@
    }

    pub closed spec fn spec_http_only(&self) -> bool {
        self.http_only
    }

    pub closed spec fn spec_same_site(&self) -> SameSite {
        self.same_site
    }

    pub fn name(&self) -> (r: &str)
        ensures
            r@ == self.spec_name(),
    {
        self.name.as_str()
    }

    pub fn value(&self) -> (r: &str)
        ensures
            r@ == self.spec_value(),
    {
        self.value.as_str()
    }

    pub fn path(&self) -> (r: Option<&str>)
        ensures
            r is Some && r->Some_0@ == self.spec_path(),
    {
        Some(self.path.as_str())
    }

    pub fn http_only(&self) -> (r: Option<bool>)
        ensures
            r == Some(self.spec_http_only()),
    {
        Some(self.http_only)
    }

    pub fn same_site(&self) -> (r: Option<SameSite>)
        ensures
            r == Some(self.spec_same_site()),
    {
        Some(self.same_site)
    }
}

/// The session cookie for a token: named `jwt`, HTTP-only, `SameSite=Lax`,
/// path `/`.
pub open spec fn is_session_cookie(c: AuthCookie, token: Seq<char>) -> bool {
    &&& c.spec_name() == JWT_COOKIE_NAME@
    &&& c.spec_value() == token
    &&& c.spec_path() == "/"@
    &&& c.spec_http_only()
    &&& c.spec_same_site() == SameSite::Lax
}

/// Wraps a session token in its cookie.
pub fn create_auth_cookie(token: String) -> (r: AuthCookie)
    ensures
        is_session_cookie(r, token@),
{
    AuthCookie {
        name: String::from_str(JWT_COOKIE_NAME),
        value: token,
        path: String::from_str("/"),
        http_only: true,
        same_site: SameSite::Lax,
    }
}

/// When a token issued at `now` expires, if that time is a valid `exp`.
pub open spec fn expiry_of(now: i64) -> Option<usize> {
    let e = now + TOKEN_TTL_SECONDS;
    if 0 <= e <= i64::MAX && e <= usize::MAX {
        Some(e as usize)
    } else {
        None
    }
}

/// Signs the claims of a session for this email issued at `now`.
pub fn generate_auth_token_at(email: &Email, now: i64, secret: &[u8]) -> (r: Result<String, GenerateTokenError>)
    ensures
        expiry_of(now) is None ==> r matches Err(GenerateTokenError::UnexpectedError),
        expiry_of(now) is Some ==> r is Ok && r->Ok_0@ == signed_token(
            email@,
            expiry_of(now)->Some_0,
            secret@,
        ),
        r is Ok ==> is_jwt_text(r->Ok_0@),
{
    let exp = match now.checked_add(TOKEN_TTL_SECONDS) {
        Some(e) => e,
        None => return Err(GenerateTokenError::UnexpectedError),
    };
    if exp < 0 || exp as u64 > usize::MAX as u64 {
        return Err(GenerateTokenError::UnexpectedError);
    }
    let claims = Claims { sub: email.as_ref().to_owned(), exp: exp as usize };
    create_token(&claims, secret)
}

/// Signs a token for these claims.
pub fn create_token(claims: &Claims, secret: &[u8]) -> (r: Result<String, GenerateTokenError>)
    ensures
        r is Ok,
        r is Ok ==> r->Ok_0@ == signed_token(claims.sub@, claims.exp, secret@),
        r is Ok ==> is_jwt_text(r->Ok_0@),
{
    match encode_claims(claims.sub.as_str(), claims.exp, secret) {
        Ok(token) => Ok(token),
        Err(e) => Err(GenerateTokenError::TokenError(e)),
    }
}

/// Signs a session token for this email, valid for ten minutes from now. It
/// fails only when the clock reads a time whose expiry is out of range.
pub fn generate_auth_token(email: &Email, secret: &[u8]) -> (r: Result<String, GenerateTokenError>)
    ensures
        r is Err ==> r matches Err(GenerateTokenError::UnexpectedError),
        r is Ok ==> is_jwt_text(r->Ok_0@),
        r is Ok ==> exists|now: i64|
            expiry_of(now) is Some && r->Ok_0@ == signed_token(
                email@,
                #[trigger] expiry_of(now)->Some_0,
                secret@,
            ),
{
    let now = now_timestamp();
    generate_auth_token_at(email, now, secret)
}

/// A session cookie for this email, valid for ten minutes from now. It fails
/// only when the clock reads a time whose expiry is out of range.
pub fn generate_auth_cookie(email: &Email, secret: &[u8]) -> (r: Result<AuthCookie, GenerateTokenError>)
    ensures
        r is Err ==> r matches Err(GenerateTokenError::UnexpectedError),
        r is Ok ==> is_jwt_text(r->Ok_0.spec_value()),
        r is Ok ==> exists|now: i64|
            expiry_of(now) is Some && is_session_cookie(
                r->Ok_0,
                signed_token(email@, #[trigger] expiry_of(now)->Some_0, secret@),
            ),
{
    let token = generate_auth_token(email, secret)?;
    Ok(create_auth_cookie(token))
}

/// The decision on a presented token: a revoked token is refused whatever its
/// signature; otherwise the outcome of decoding it stands.
pub open spec fn token_check(banned: bool, decoded: Option<Claims>) -> Result<Claims, AuthAPIError> {
    if banned {
        Err(AuthAPIError::InvalidToken)
    } else {
        match decoded {
            Some(claims) => Ok(claims),
            None => Err(AuthAPIError::InvalidToken),
        }
    }
}

/// Decides on a presented token; see `token_check`.
pub fn check_token(banned: bool, decoded: Option<Claims>) -> (r: Result<Claims, AuthAPIError>)
    ensures
        r == token_check(banned, decoded),
{
    if banned {
        return Err(AuthAPIError::InvalidToken);
    }
    match decoded {
        Some(claims) => Ok(claims),
        None => Err(AuthAPIError::InvalidToken),
    }
}

/// Accepts a token that is not revoked, carries a valid signature under
/// `secret` and has not expired; any failure is `InvalidToken`.
pub fn validate_token<B: BannedTokenStore>(banned_token_store: &B, token: &str, secret: &[u8]) -> (r: Result<Claims, AuthAPIError>)
    ensures
        exists|decoded: Option<Claims>|
            r == #[trigger] token_check(banned_token_store.banned().contains(token@), decoded)
                && decodes_own_claims(decoded, token@, secret@),
{
    if banned_token_store.is_token_banned(token) {
        return check_token(true, None);
    }
    check_token(false, decode_claims(token, secret))
}

} // verus!
