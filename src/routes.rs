use vstd::prelude::*;
use vstd::string::*;

use crate::auth::{
    create_auth_cookie, expiry_of, generate_auth_token_at, is_jwt_text, is_session_cookie, now_timestamp,
    signed_token, validate_token, AuthCookie, Claims,
};
use crate::data_stores::{
    delete_user_outcome, stores_user, user_check, BannedTokenStore, TwoFACodeStore, UserStore,
};
use crate::email::{email_grammar_accepts, Email};
use crate::email_client::EmailClient;
use crate::error::{AuthAPIError, UserStoreError};
use crate::password::{byte_len, Password, MIN_PASSWORD_BYTES};
use crate::two_fa::{is_code_text, is_uuid_text, LoginAttemptId, TwoFACode};
use crate::password_hasher::argon2_password_fits;
use crate::user::{StoredUserView, User, UserView};

verus! {

pub struct SignupRequest {
    pub email: String,
    pub password: String,
    pub requires_2fa: bool,
}

pub struct SignupResponse {
    pub message: String,
}

pub struct LoginRequest {
    pub email: String,
    pub password: String,
}

/// The body of a successful login.
pub enum LoginResponse {
    RegularAuth,
    TwoFactorAuth(TwoFactorAuthResponse),
}

/// Tells the client that a second factor is needed, and for which attempt.
pub struct TwoFactorAuthResponse {
    pub message: String,
    pub login_attempt_id: String,
}

pub struct Verify2FARequest {
    pub email: String,
    pub login_attempt_id: String,
    pub two_fa_code: String,
}

pub struct VerifyTokenRequest {
    pub token: String,
}

pub struct DeleteAccountRequest {
    pub email: String,
}

/// Whether an email and a password are well formed.
pub open spec fn well_formed_login(email: Seq<char>, password: Seq<char>) -> bool {
    email_grammar_accepts(email) && byte_len(password) >= MIN_PASSWORD_BYTES
}

/// The model of a signed session cookie for `email`, issued at `now`.
pub open spec fn session_cookie_for(c: AuthCookie, email: Seq<char>, now: i64, secret: Seq<u8>) -> bool {
    &&& expiry_of(now) is Some
    &&& is_session_cookie(c, signed_token(email, expiry_of(now)->Some_0, secret))
    &&& is_jwt_text(c.spec_value())
}

/// Registers a user, storing the password only as a hash. Malformed input
/// is `InvalidCredentials`; an email that is taken is `UserAlreadyExists`; a
/// store that fails is `UnexpectedError`.
pub fn signup<U: UserStore>(user_store: &mut U, request: &SignupRequest) -> (r: Result<SignupResponse, AuthAPIError>)
    requires
        old(user_store).inv(),
    ensures
        final(user_store).inv(),
        !well_formed_login(request.email@, request.password@) ==> r == Err::<SignupResponse, AuthAPIError>(
            AuthAPIError::InvalidCredentials,
        ) && final(user_store).users() == old(user_store).users(),
        well_formed_login(request.email@, request.password@) && old(user_store).users().contains_key(
            request.email@,
        ) ==> r == Err::<SignupResponse, AuthAPIError>(AuthAPIError::UserAlreadyExists)
            && final(user_store).users() == old(user_store).users(),
        well_formed_login(request.email@, request.password@) && !old(user_store).users().contains_key(
            request.email@,
        ) && argon2_password_fits(request.password@) ==> r is Ok,
        r is Ok ==> r->Ok_0.message@ == "User created successfully"@ && exists|record: StoredUserView|
            stores_user(
                record,
                UserView {
                    email: request.email@,
                    password: request.password@,
                    requires_2fa: request.requires_2fa,
                },
            ) && #[trigger] final(user_store).users() == old(user_store).users().insert(
                request.email@,
                record,
            ),
        r is Err ==> final(user_store).users() == old(user_store).users(),
        r is Err ==> r == Err::<SignupResponse, AuthAPIError>(AuthAPIError::InvalidCredentials) || r
            == Err::<SignupResponse, AuthAPIError>(AuthAPIError::UserAlreadyExists) || r == Err::<
            SignupResponse,
            AuthAPIError,
        >(AuthAPIError::UnexpectedError),
{
    let user = match User::new(request.email.as_str(), request.password.as_str(), request.requires_2fa) {
        Ok(user) => user,
        Err(_) => return Err(AuthAPIError::InvalidCredentials),
    };
    if user_store.get_user(user.email.as_ref()).is_ok() {
        return Err(AuthAPIError::UserAlreadyExists);
    }
    match user_store.add_user(user) {
        Ok(()) => Ok(SignupResponse { message: String::from_str("User created successfully") }),
        Err(_) => Err(AuthAPIError::UnexpectedError),
    }
}

/// The outcome of a login whose credentials were accepted.
pub enum LoginOutcome {
    /// A session was issued.
    Session(AuthCookie),
    /// A second factor was asked for; the client must echo the attempt id.
    Challenge(TwoFactorAuthResponse),
}

impl LoginOutcome {
    /// The HTTP status of this outcome: 200, or 206 while a second factor is awaited.
    pub fn status_code(&self) -> (r: u16)
        ensures
            self is Session ==> r == 200,
            self is Challenge ==> r == 206,
    {
        match self {
            LoginOutcome::Session(_) => 200,
            LoginOutcome::Challenge(_) => 206,
        }
    }

    /// The status, the body and the session cookie, if any, that report this outcome.
    pub fn into_parts(self) -> (r: (u16, LoginResponse, Option<AuthCookie>))
        ensures
            match self {
                LoginOutcome::Session(cookie) => r.0 == 200 && r.1 is RegularAuth && r.2 == Some(
                    cookie,
                ),
                LoginOutcome::Challenge(resp) => r.0 == 206 && r.1 == LoginResponse::TwoFactorAuth(
                    resp,
                ) && r.2 is None,
            },
    {
        match self {
            LoginOutcome::Session(cookie) => (200, LoginResponse::RegularAuth, Some(cookie)),
            LoginOutcome::Challenge(resp) => (206, LoginResponse::TwoFactorAuth(resp), None),
        }
    }
}

/// Checking the credentials of a login: malformed input is
/// `InvalidCredentials`, an unknown user or a wrong password is
/// `IncorrectCredentials`; otherwise whether the user asks for a second factor.
pub open spec fn login_check(users: Map<Seq<char>, StoredUserView>, email: Seq<char>, password: Seq<char>) -> Result<bool, AuthAPIError> {
    if !well_formed_login(email, password) {
        Err(AuthAPIError::InvalidCredentials)
    } else if user_check(users, email, password) is Err {
        Err(AuthAPIError::IncorrectCredentials)
    } else {
        Ok(users[email].requires_2fa)
    }
}

/// The outcome reports a session whose cookie is for `email`, issued at `now`.
pub open spec fn is_session_for(o: LoginOutcome, email: Seq<char>, now: i64, secret: Seq<u8>) -> bool {
    match o {
        LoginOutcome::Session(c) => session_cookie_for(c, email, now, secret),
        LoginOutcome::Challenge(_) => false,
    }
}

/// The outcome asks for a second factor under this attempt id.
pub open spec fn is_challenge_for(o: LoginOutcome, login_attempt_id: Seq<char>) -> bool {
    match o {
        LoginOutcome::Challenge(resp) => resp.login_attempt_id@ == login_attempt_id
            && resp.message@ == "2FA required"@,
        LoginOutcome::Session(_) => false,
    }
}

/// The subject of the email that carries a second-factor code.
pub const TWO_FA_EMAIL_SUBJECT: &'static str = "2FA code";

/// The body of the email that carries a second-factor code.
pub fn two_fa_email_content(code: &TwoFACode) -> (r: String)
    ensures
        r@ == "Your 2FA code is: "@ + code@,
{
    String::from_str("Your 2FA code is: ").concat(code.as_ref())
}

/// Logs in at time `now`. A user without a second factor gets a session;
/// one with it gets `challenge_id` and `challenge_code` stored as the pending
/// challenge of the email, the code sent to that address (subject
/// `TWO_FA_EMAIL_SUBJECT`, body `two_fa_email_content`), and only the id back.
/// A failing store or email delivery is `UnexpectedError`.
pub fn login_at<U: UserStore, T: TwoFACodeStore, E: EmailClient>(
    user_store: &U,
    two_fa_code_store: &mut T,
    email_client: &E,
    request: &LoginRequest,
    challenge_id: LoginAttemptId,
    challenge_code: TwoFACode,
    now: i64,
    secret: &[u8],
) -> (r: Result<LoginOutcome, AuthAPIError>)
    requires
        user_store.inv(),
        old(two_fa_code_store).inv(),
    ensures
        final(two_fa_code_store).inv(),
        login_check(user_store.users(), request.email@, request.password@) is Err ==> r == Err::<
            LoginOutcome,
            AuthAPIError,
        >(login_check(user_store.users(), request.email@, request.password@)->Err_0) && final(two_fa_code_store).codes()
            == old(two_fa_code_store).codes(),
        login_check(user_store.users(), request.email@, request.password@) == Ok::<bool, AuthAPIError>(false)
            ==> final(two_fa_code_store).codes() == old(two_fa_code_store).codes() && (expiry_of(now) is None
            ==> r == Err::<LoginOutcome, AuthAPIError>(AuthAPIError::UnexpectedError)) && (expiry_of(
            now,
        ) is Some ==> r is Ok && is_session_for(r->Ok_0, request.email@, now, secret@)),
        login_check(user_store.users(), request.email@, request.password@) == Ok::<bool, AuthAPIError>(true)
            ==> (r is Ok ==> is_challenge_for(r->Ok_0, challenge_id@) && final(two_fa_code_store).codes()
            == old(two_fa_code_store).codes().insert(request.email@, (challenge_id@, challenge_code@)))
            && (r is Err ==> r == Err::<LoginOutcome, AuthAPIError>(AuthAPIError::UnexpectedError) && (final(two_fa_code_store).codes()
            == old(two_fa_code_store).codes() || final(two_fa_code_store).codes() == old(two_fa_code_store).codes().insert(
            request.email@,
            (challenge_id@, challenge_code@),
        ))),
{
    let email = match Email::parse(request.email.as_str()) {
        Ok(email) => email,
        Err(_) => return Err(AuthAPIError::InvalidCredentials),
    };
    let password = match Password::parse(request.password.as_str()) {
        Ok(password) => password,
        Err(_) => return Err(AuthAPIError::InvalidCredentials),
    };
    if user_store.validate_user(email.as_ref(), password.as_ref()).is_err() {
        return Err(AuthAPIError::IncorrectCredentials);
    }
    let user = match user_store.get_user(email.as_ref()) {
        Ok(user) => user,
        Err(_) => return Err(AuthAPIError::IncorrectCredentials),
    };
    if user.requires_2fa {
        handle_2fa(&user.email, two_fa_code_store, email_client, challenge_id, challenge_code)
    } else {
        handle_no_2fa(&email, now, secret)
    }
}

/// Stores a new challenge for the email and sends its code there.
fn handle_2fa<T: TwoFACodeStore, E: EmailClient>(
    email: &Email,
    two_fa_code_store: &mut T,
    email_client: &E,
    login_attempt_id: LoginAttemptId,
    two_fa_code: TwoFACode,
) -> (r: Result<LoginOutcome, AuthAPIError>)
    requires
        old(two_fa_code_store).inv(),
    ensures
        final(two_fa_code_store).inv(),
        r is Ok ==> is_challenge_for(r->Ok_0, login_attempt_id@) && final(two_fa_code_store).codes()
            == old(two_fa_code_store).codes().insert(email@, (login_attempt_id@, two_fa_code@)),
        r is Err ==> r == Err::<LoginOutcome, AuthAPIError>(AuthAPIError::UnexpectedError) && (final(two_fa_code_store).codes()
            == old(two_fa_code_store).codes() || final(two_fa_code_store).codes() == old(two_fa_code_store).codes().insert(
            email@,
            (login_attempt_id@, two_fa_code@),
        )),
{
    if two_fa_code_store.add_code(email.clone(), &login_attempt_id, two_fa_code.clone()).is_err() {
        return Err(AuthAPIError::UnexpectedError);
    }
    let content = two_fa_email_content(&two_fa_code);
    if email_client.send_email(email, TWO_FA_EMAIL_SUBJECT, content.as_str()).is_err() {
        return Err(AuthAPIError::UnexpectedError);
    }
    Ok(
        LoginOutcome::Challenge(
            TwoFactorAuthResponse {
                message: String::from_str("2FA required"),
                login_attempt_id: login_attempt_id.as_ref().to_owned(),
            },
        ),
    )
}

/// Issues a session issued at `now`; an expiry out of range is `UnexpectedError`.
fn handle_no_2fa(email: &Email, now: i64, secret: &[u8]) -> (r: Result<LoginOutcome, AuthAPIError>)
    ensures
        expiry_of(now) is None ==> r == Err::<LoginOutcome, AuthAPIError>(AuthAPIError::UnexpectedError),
        expiry_of(now) is Some ==> r is Ok && is_session_for(r->Ok_0, email@, now, secret@),
{
    match generate_auth_token_at(email, now, secret) {
        Ok(token) => Ok(LoginOutcome::Session(create_auth_cookie(token))),
        Err(_) => Err(AuthAPIError::UnexpectedError),
    }
}

/// Logs in now, with a fresh attempt id and code for a second factor; see `login_at`.
pub fn login<U: UserStore, T: TwoFACodeStore, E: EmailClient>(
    user_store: &U,
    two_fa_code_store: &mut T,
    email_client: &E,
    request: &LoginRequest,
    secret: &[u8],
) -> (r: Result<LoginOutcome, AuthAPIError>)
    requires
        user_store.inv(),
        old(two_fa_code_store).inv(),
    ensures
        final(two_fa_code_store).inv(),
        login_check(user_store.users(), request.email@, request.password@) is Err ==> r == Err::<
            LoginOutcome,
            AuthAPIError,
        >(login_check(user_store.users(), request.email@, request.password@)->Err_0) && final(two_fa_code_store).codes()
            == old(two_fa_code_store).codes(),
        login_check(user_store.users(), request.email@, request.password@) == Ok::<bool, AuthAPIError>(false)
            ==> final(two_fa_code_store).codes() == old(two_fa_code_store).codes() && (r is Ok ==> exists|now: i64|
            #[trigger] is_session_for(r->Ok_0, request.email@, now, secret@)) && (r is Err ==> r == Err::<
            LoginOutcome,
            AuthAPIError,
        >(AuthAPIError::UnexpectedError)),
        login_check(user_store.users(), request.email@, request.password@) == Ok::<bool, AuthAPIError>(true)
            ==> (r is Ok ==> exists|id: Seq<char>, code: Seq<char>|
            is_uuid_text(id) && is_code_text(code) && #[trigger] is_challenge_for(r->Ok_0, id) && final(two_fa_code_store).codes()
                == #[trigger] old(two_fa_code_store).codes().insert(request.email@, (id, code))) && (r is Err
            ==> r == Err::<LoginOutcome, AuthAPIError>(AuthAPIError::UnexpectedError)),
{
    let challenge_id = LoginAttemptId::default();
    let challenge_code = TwoFACode::default();
    let now = now_timestamp();
    login_at(
        user_store,
        two_fa_code_store,
        email_client,
        request,
        challenge_id,
        challenge_code,
        now,
        secret,
    )
}

/// Whether the three fields of a second-factor request are well formed.
pub open spec fn well_formed_challenge(email: Seq<char>, id: Seq<char>, code: Seq<char>) -> bool {
    email_grammar_accepts(email) && is_uuid_text(id) && is_code_text(code)
}

/// Checking a second-factor answer: malformed fields are
/// `InvalidCredentials`; an answer that is not exactly the pending challenge
/// of the email (none pending, replaced, consumed, or either part different)
/// is `IncorrectCredentials`.
pub open spec fn challenge_check(
    codes: Map<Seq<char>, (Seq<char>, Seq<char>)>,
    email: Seq<char>,
    id: Seq<char>,
    code: Seq<char>,
) -> Result<(), AuthAPIError> {
    if !well_formed_challenge(email, id, code) {
        Err(AuthAPIError::InvalidCredentials)
    } else if !(codes.contains_key(email) && codes[email] == (id, code)) {
        Err(AuthAPIError::IncorrectCredentials)
    } else {
        Ok(())
    }
}

/// Completes a login with its second factor at time `now`: a matching answer
/// consumes the challenge and issues a session; an expiry out of range is
/// `UnexpectedError` and consumes nothing.
pub fn verify_2fa_at<T: TwoFACodeStore>(
    two_fa_code_store: &mut T,
    request: &Verify2FARequest,
    now: i64,
    secret: &[u8],
) -> (r: Result<AuthCookie, AuthAPIError>)
    requires
        old(two_fa_code_store).inv(),
    ensures
        final(two_fa_code_store).inv(),
        challenge_check(old(two_fa_code_store).codes(), request.email@, request.login_attempt_id@, request.two_fa_code@)
            is Err ==> r == Err::<AuthCookie, AuthAPIError>(
            challenge_check(old(two_fa_code_store).codes(), request.email@, request.login_attempt_id@, request.two_fa_code@)->Err_0,
        ) && final(two_fa_code_store).codes() == old(two_fa_code_store).codes(),
        challenge_check(old(two_fa_code_store).codes(), request.email@, request.login_attempt_id@, request.two_fa_code@)
            is Ok ==> (expiry_of(now) is None ==> r == Err::<AuthCookie, AuthAPIError>(AuthAPIError::UnexpectedError)
            && final(two_fa_code_store).codes() == old(two_fa_code_store).codes()) && (expiry_of(now) is Some
            ==> r is Ok && session_cookie_for(r->Ok_0, request.email@, now, secret@) && final(two_fa_code_store).codes()
            == old(two_fa_code_store).codes().remove(request.email@)),
{
    let email = match Email::parse(request.email.as_str()) {
        Ok(email) => email,
        Err(_) => return Err(AuthAPIError::InvalidCredentials),
    };
    let login_attempt_id = match LoginAttemptId::parse(request.login_attempt_id.as_str()) {
        Ok(id) => id,
        Err(_) => return Err(AuthAPIError::InvalidCredentials),
    };
    let two_fa_code = match TwoFACode::parse(request.two_fa_code.as_str()) {
        Ok(code) => code,
        Err(_) => return Err(AuthAPIError::InvalidCredentials),
    };
    let (stored_id, stored_code) = match two_fa_code_store.get_code(email.clone()) {
        Ok(pair) => pair,
        Err(_) => return Err(AuthAPIError::IncorrectCredentials),
    };
    if login_attempt_id != stored_id {
        return Err(AuthAPIError::IncorrectCredentials);
    }
    if two_fa_code != stored_code {
        return Err(AuthAPIError::IncorrectCredentials);
    }
    let token = match generate_auth_token_at(&email, now, secret) {
        Ok(token) => token,
        Err(_) => return Err(AuthAPIError::UnexpectedError),
    };
    let _ = two_fa_code_store.remove_code(email.clone());
    Ok(create_auth_cookie(token))
}

/// Completes a login with its second factor now; see `verify_2fa_at`.
pub fn verify_2fa<T: TwoFACodeStore>(two_fa_code_store: &mut T, request: &Verify2FARequest, secret: &[u8]) -> (r: Result<AuthCookie, AuthAPIError>)
    requires
        old(two_fa_code_store).inv(),
    ensures
        final(two_fa_code_store).inv(),
        challenge_check(old(two_fa_code_store).codes(), request.email@, request.login_attempt_id@, request.two_fa_code@)
            is Err ==> r == Err::<AuthCookie, AuthAPIError>(
            challenge_check(old(two_fa_code_store).codes(), request.email@, request.login_attempt_id@, request.two_fa_code@)->Err_0,
        ) && final(two_fa_code_store).codes() == old(two_fa_code_store).codes(),
        challenge_check(old(two_fa_code_store).codes(), request.email@, request.login_attempt_id@, request.two_fa_code@)
            is Ok ==> (r is Err ==> r == Err::<AuthCookie, AuthAPIError>(AuthAPIError::UnexpectedError)
            && final(two_fa_code_store).codes() == old(two_fa_code_store).codes()) && (r is Ok ==> (exists|now: i64|
            #[trigger] session_cookie_for(r->Ok_0, request.email@, now, secret@)) && final(two_fa_code_store).codes()
            == old(two_fa_code_store).codes().remove(request.email@)),
{
    let now = now_timestamp();
    verify_2fa_at(two_fa_code_store, request, now, secret)
}

/// Ends the session of `token` once it has been validated: a token that
/// validated is revoked; one that did not is `InvalidToken` and nothing
/// changes. A store that fails to record it is `UnexpectedError`.
pub fn logout_with<B: BannedTokenStore>(banned_token_store: &mut B, token: &str, validated: Result<Claims, AuthAPIError>) -> (r: Result<(), AuthAPIError>)
    ensures
        validated is Err ==> r == Err::<(), AuthAPIError>(AuthAPIError::InvalidToken) && final(banned_token_store).banned()
            == old(banned_token_store).banned(),
        validated is Ok ==> (r is Ok ==> final(banned_token_store).banned() == old(banned_token_store).banned().insert(
            token@,
        )) && (r is Err ==> r == Err::<(), AuthAPIError>(AuthAPIError::UnexpectedError) && final(banned_token_store).banned()
            == old(banned_token_store).banned()),
{
    if validated.is_err() {
        return Err(AuthAPIError::InvalidToken);
    }
    if banned_token_store.store_token(token) {
        Ok(())
    } else {
        Err(AuthAPIError::UnexpectedError)
    }
}

/// Ends a session: a valid token is revoked. No token is `MissingToken`; a
/// revoked, forged or expired one is `InvalidToken` and nothing changes.
pub fn logout<B: BannedTokenStore>(banned_token_store: &mut B, token: Option<&str>, secret: &[u8]) -> (r: Result<(), AuthAPIError>)
    ensures
        token is None ==> r == Err::<(), AuthAPIError>(AuthAPIError::MissingToken),
        token is Some && old(banned_token_store).banned().contains(token->Some_0@) ==> r == Err::<(), AuthAPIError>(
            AuthAPIError::InvalidToken,
        ),
        r is Ok ==> token is Some && final(banned_token_store).banned() == old(banned_token_store).banned().insert(
            token->Some_0@,
        ),
        r is Err ==> final(banned_token_store).banned() == old(banned_token_store).banned(),
        token is Some ==> r is Ok || r == Err::<(), AuthAPIError>(AuthAPIError::InvalidToken) || r
            == Err::<(), AuthAPIError>(AuthAPIError::UnexpectedError),
{
    let token = match token {
        Some(token) => token,
        None => return Err(AuthAPIError::MissingToken),
    };
    let validated = validate_token(banned_token_store, token, secret);
    logout_with(banned_token_store, token, validated)
}

/// Deletes an account once its session token has been validated: the user
/// named by the token's subject is deleted and the token revoked. A token
/// that did not validate is `InvalidToken`; a user that cannot be deleted, or
/// a token that cannot be recorded, is `UnexpectedError`.
pub fn delete_account_with<B: BannedTokenStore, U: UserStore>(
    banned_token_store: &mut B,
    user_store: &mut U,
    token: &str,
    validated: Result<Claims, AuthAPIError>,
) -> (r: Result<(), AuthAPIError>)
    requires
        old(user_store).inv(),
    ensures
        final(user_store).inv(),
        validated is Err ==> r == Err::<(), AuthAPIError>(AuthAPIError::InvalidToken) && final(banned_token_store).banned()
            == old(banned_token_store).banned() && final(user_store).users() == old(user_store).users(),
        validated is Ok && delete_user_outcome(old(user_store).users(), validated->Ok_0.sub@).0 is Err ==> r
            == Err::<(), AuthAPIError>(AuthAPIError::UnexpectedError) && final(banned_token_store).banned()
            == old(banned_token_store).banned() && final(user_store).users() == old(user_store).users(),
        validated is Ok && delete_user_outcome(old(user_store).users(), validated->Ok_0.sub@).0 is Ok ==> final(user_store).users()
            == delete_user_outcome(old(user_store).users(), validated->Ok_0.sub@).1 && (r is Ok ==> final(banned_token_store).banned()
            == old(banned_token_store).banned().insert(token@)) && (r is Err ==> r == Err::<(), AuthAPIError>(
            AuthAPIError::UnexpectedError,
        ) && final(banned_token_store).banned() == old(banned_token_store).banned()),
{
    let claims = match validated {
        Ok(claims) => claims,
        Err(_) => return Err(AuthAPIError::InvalidToken),
    };
    if user_store.delete_user(claims.sub.as_str()).is_err() {
        return Err(AuthAPIError::UnexpectedError);
    }
    if banned_token_store.store_token(token) {
        Ok(())
    } else {
        Err(AuthAPIError::UnexpectedError)
    }
}

/// Deletes the account of a session's user and revokes the session's token;
/// see `delete_account_with`. No token is `MissingToken`.
pub fn delete_account<B: BannedTokenStore, U: UserStore>(
    banned_token_store: &mut B,
    user_store: &mut U,
    token: Option<&str>,
    secret: &[u8],
) -> (r: Result<(), AuthAPIError>)
    requires
        old(user_store).inv(),
    ensures
        final(user_store).inv(),
        token is None ==> r == Err::<(), AuthAPIError>(AuthAPIError::MissingToken),
        token is Some && old(banned_token_store).banned().contains(token->Some_0@) ==> r == Err::<(), AuthAPIError>(
            AuthAPIError::InvalidToken,
        ) && final(user_store).users() == old(user_store).users(),
        r is Ok ==> token is Some && final(banned_token_store).banned() == old(banned_token_store).banned().insert(
            token->Some_0@,
        ) && exists|email: Seq<char>|
            #[trigger] delete_user_outcome(old(user_store).users(), email) == (
                Ok::<(), UserStoreError>(()),
                final(user_store).users(),
            ),
        r is Err ==> final(banned_token_store).banned() == old(banned_token_store).banned(),
        r is Err && r != Err::<(), AuthAPIError>(AuthAPIError::UnexpectedError) ==> final(user_store).users()
            == old(user_store).users(),
        token is Some ==> r is Ok || r == Err::<(), AuthAPIError>(AuthAPIError::InvalidToken) || r
            == Err::<(), AuthAPIError>(AuthAPIError::UnexpectedError),
{
    let token = match token {
        Some(token) => token,
        None => return Err(AuthAPIError::MissingToken),
    };
    let validated = validate_token(banned_token_store, token, secret);
    delete_account_with(banned_token_store, user_store, token, validated)
}

/// Accepts a token that is not revoked, is signed with `secret` and has not
/// expired; any failure is `InvalidToken`.
pub fn verify_token<B: BannedTokenStore>(banned_token_store: &B, request: &VerifyTokenRequest, secret: &[u8]) -> (r: Result<(), AuthAPIError>)
    ensures
        banned_token_store.banned().contains(request.token@) ==> r == Err::<(), AuthAPIError>(
            AuthAPIError::InvalidToken,
        ),
        r is Err ==> r == Err::<(), AuthAPIError>(AuthAPIError::InvalidToken),
{
    match validate_token(banned_token_store, request.token.as_str(), secret) {
        Ok(_) => Ok(()),
        Err(_) => Err(AuthAPIError::InvalidToken),
    }
}

} // verus!
