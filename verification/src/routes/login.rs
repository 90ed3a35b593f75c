//! Password login, branching to a second factor when the account requires
//! one.

use vstd::prelude::*;
use crate::AuthAPIError;
use crate::auth::{TOKEN_TTL_SECONDS, generate_auth_token, jwt_of};
use crate::data_stores::{
    LoginAttemptId, TwoFACode, TwoFACodeStore, UserStore, is_two_fa_code_text, is_uuid_text,
};
use crate::email::{Email, is_valid_email};
use crate::email_client::EmailClient;
use crate::password::{MIN_PASSWORD_CHARS, Password};
use crate::user::UserRecord;

verus! {

/// The body of a successful login response: either fully authenticated, or
/// a second factor is still owed.
#[derive(Debug, PartialEq)]
pub enum LoginResponse {
    RegularAuth,
    TwoFactorAuth(TwoFactorAuthResponse),
}

/// Returned when a second factor is required: the attempt id correlates the
/// later verification call.  The code itself is never returned to the
/// caller; it travels out-of-band.
#[derive(Debug, PartialEq)]
pub struct TwoFactorAuthResponse {
    pub message: String,
    pub login_attempt_id: String,
}

/// Why a login request is turned away before any branch is taken, if it is.
/// Malformed inputs are the client's fault and are rejected as
/// `InvalidCredentials` before any store is consulted; an unknown identity
/// and a wrong password both collapse to `IncorrectCredentials`, so a caller
/// cannot probe which identities exist.
pub open spec fn login_credentials_error(
    users: Map<Seq<char>, UserRecord>,
    email: Seq<char>,
    password: Seq<char>,
) -> Option<AuthAPIError> {
    if !is_valid_email(email) {
        Some(AuthAPIError::InvalidCredentials)
    } else if password.len() < MIN_PASSWORD_CHARS {
        Some(AuthAPIError::InvalidCredentials)
    } else if !users.contains_key(email) {
        Some(AuthAPIError::IncorrectCredentials)
    } else if users[email].password != password {
        Some(AuthAPIError::IncorrectCredentials)
    } else {
        None
    }
}

/// Checks the credentials and completes the login: a session cookie for a
/// single-factor account, or a stored challenge and an attempt id for a
/// second-factor account.
///
/// The first component of the result is the session token to attach as the
/// auth cookie, present exactly when the account authenticated in one step.
pub fn login<U: UserStore, C: TwoFACodeStore, E: EmailClient>(
    user_store: &U,
    two_fa_code_store: &mut C,
    email_client: &E,
    secret: &str,
    now: u64,
    email: String,
    password: String,
) -> (r: (Option<String>, Result<LoginResponse, AuthAPIError>))
    requires
        user_store.inv(),
        old(two_fa_code_store).inv(),
        now <= u64::MAX - TOKEN_TTL_SECONDS,
    ensures
        final(two_fa_code_store).inv(),
        login_credentials_error(user_store.users(), email@, password@) matches Some(e) ==> r.0
            is None && r.1 == Err::<LoginResponse, AuthAPIError>(e) && final(two_fa_code_store).codes() == old(two_fa_code_store).codes(),
        r.1 is Err ==> r.0 is None,
        r.0 matches Some(t) ==> login_credentials_error(user_store.users(), email@, password@)
            is None && !user_store.users()[email@].requires_2fa && t@ == jwt_of(
            email@,
            (now + TOKEN_TTL_SECONDS) as u64,
            secret@,
        ) && r.1 == Ok::<LoginResponse, AuthAPIError>(LoginResponse::RegularAuth) && final(two_fa_code_store).codes() == old(two_fa_code_store).codes(),
        r.1 == Ok::<LoginResponse, AuthAPIError>(LoginResponse::RegularAuth) ==> r.0 is Some,
        r.1 matches Ok(resp) ==> (resp matches LoginResponse::TwoFactorAuth(tfa)
            ==> login_credentials_error(user_store.users(), email@, password@) is None
            && user_store.users()[email@].requires_2fa && r.0 is None && tfa.message@
            == "2FA required"@ && is_uuid_text(tfa.login_attempt_id@) && (exists|code: Seq<char>|
            is_two_fa_code_text(code) && final(two_fa_code_store).codes() == old(
            two_fa_code_store,
        ).codes().insert(email@, (tfa.login_attempt_id@, code)))),
        login_credentials_error(user_store.users(), email@, password@) is None && !user_store.users()[email@].requires_2fa
            ==> (r.1 == Ok::<LoginResponse, AuthAPIError>(LoginResponse::RegularAuth) && final(two_fa_code_store).codes() == old(two_fa_code_store).codes()) || (r.1 == Err::<
            LoginResponse,
            AuthAPIError,
        >(AuthAPIError::IncorrectCredentials) && final(two_fa_code_store).codes() == old(
            two_fa_code_store,
        ).codes()),
        login_credentials_error(user_store.users(), email@, password@) is None && user_store.users()[email@].requires_2fa
            ==> (r.1 matches Ok(resp) && resp is TwoFactorAuth) || r.1 == Err::<
            LoginResponse,
            AuthAPIError,
        >(AuthAPIError::IncorrectCredentials) || r.1 == Err::<LoginResponse, AuthAPIError>(
            AuthAPIError::UnexpectedError,
        ),
        r.1 == Err::<LoginResponse, AuthAPIError>(AuthAPIError::UnexpectedError) ==> final(two_fa_code_store).codes() == old(two_fa_code_store).codes() || (exists|id: Seq<char>, code: Seq<char>|
            is_uuid_text(id) && is_two_fa_code_text(code) && final(two_fa_code_store).codes()
                == old(two_fa_code_store).codes().insert(email@, (id, code))),
{
    let email = match Email::parse(email) {
        Ok(e) => e,
        Err(_) => {
            return (None, Err(AuthAPIError::InvalidCredentials));
        },
    };
    let password = match Password::parse(password) {
        Ok(p) => p,
        Err(_) => {
            return (None, Err(AuthAPIError::InvalidCredentials));
        },
    };

    if user_store.validate_user(&email, &password).is_err() {
        return (None, Err(AuthAPIError::IncorrectCredentials));
    }
    let user = match user_store.get_user(&email) {
        Ok(user) => user,
        Err(_) => {
            return (None, Err(AuthAPIError::IncorrectCredentials));
        },
    };

    if user.requires_2fa {
        handle_2fa(&email, two_fa_code_store, email_client)
    } else {
        handle_no_2fa(&email, secret, now)
    }
}

/// Stores a fresh challenge for the identity, dispatches the code
/// out-of-band, and returns the attempt id.
fn handle_2fa<C: TwoFACodeStore, E: EmailClient>(
    email: &Email,
    two_fa_code_store: &mut C,
    email_client: &E,
) -> (r: (Option<String>, Result<LoginResponse, AuthAPIError>))
    requires
        old(two_fa_code_store).inv(),
    ensures
        final(two_fa_code_store).inv(),
        r.0 is None,
        r.1 matches Ok(resp) ==> (resp matches LoginResponse::TwoFactorAuth(tfa) && tfa.message@
            == "2FA required"@ && is_uuid_text(tfa.login_attempt_id@) && (exists|code: Seq<char>|
            is_two_fa_code_text(code) && final(two_fa_code_store).codes() == old(
            two_fa_code_store,
        ).codes().insert(email@, (tfa.login_attempt_id@, code)))),
        r.1 is Err ==> r.1 == Err::<LoginResponse, AuthAPIError>(AuthAPIError::UnexpectedError) && (
        final(two_fa_code_store).codes() == old(two_fa_code_store).codes() || (exists|
            id: Seq<char>,
            code: Seq<char>,
        |
            is_uuid_text(id) && is_two_fa_code_text(code) && final(two_fa_code_store).codes()
                == old(two_fa_code_store).codes().insert(email@, (id, code)))),
{
    let login_attempt_id = LoginAttemptId::default();
    let two_fa_code = TwoFACode::default();

    let attempt_id_text = login_attempt_id.as_ref().to_owned();

    if two_fa_code_store.add_code(email.clone(), login_attempt_id, two_fa_code.clone()).is_err() {
        return (None, Err(AuthAPIError::UnexpectedError));
    }

    if email_client.send_email(email, "2FA Code", two_fa_code.as_ref()).is_err() {
        return (None, Err(AuthAPIError::UnexpectedError));
    }

    let response = LoginResponse::TwoFactorAuth(
        TwoFactorAuthResponse {
            message: "2FA required".to_owned(),
            login_attempt_id: attempt_id_text,
        },
    );
    (None, Ok(response))
}

/// Issues the session token for a single-factor account.
fn handle_no_2fa(email: &Email, secret: &str, now: u64) -> (r: (
    Option<String>,
    Result<LoginResponse, AuthAPIError>,
))
    requires
        now <= u64::MAX - TOKEN_TTL_SECONDS,
    ensures
        r.0 matches Some(t) && t@ == jwt_of(email@, (now + TOKEN_TTL_SECONDS) as u64, secret@),
        r.1 == Ok::<LoginResponse, AuthAPIError>(LoginResponse::RegularAuth),
{
    let token = generate_auth_token(email, secret, now);
    (Some(token), Ok(LoginResponse::RegularAuth))
}

/// Signing up and then logging in with the same valid pair succeeds, and
/// the token it issues is accepted by token validation for as long as the
/// token is unexpired and unrevoked.
pub proof fn lemma_signup_then_login_accepted(
    users: Map<Seq<char>, UserRecord>,
    email: Seq<char>,
    password: Seq<char>,
    secret: Seq<char>,
    now: u64,
    now2: u64,
    banned: Set<Seq<char>>,
)
    requires
        crate::routes::signup::signup_error(users, email, password) is None,
        now <= u64::MAX - TOKEN_TTL_SECONDS,
        now2 < now + TOKEN_TTL_SECONDS,
        !banned.contains(jwt_of(email, (now + TOKEN_TTL_SECONDS) as u64, secret)),
    ensures
        login_credentials_error(
            crate::routes::signup::signup_post(users, email, password, false),
            email,
            password,
        ) is None,
        !crate::routes::signup::signup_post(users, email, password, false)[email].requires_2fa,
        crate::auth::token_accepted(
            jwt_of(email, (now + TOKEN_TTL_SECONDS) as u64, secret),
            secret,
            now2,
            banned,
        ),
{
    let exp = (now + TOKEN_TTL_SECONDS) as u64;
    assert(jwt_of(email, exp, secret) == jwt_of(email, exp, secret) && exp > now2 && !banned.contains(
        jwt_of(email, exp, secret),
    ));
}

/// A wrong password for an existing identity and a login for a nonexistent
/// identity are indistinguishable: both resolve to `IncorrectCredentials`.
pub proof fn lemma_incorrect_credentials_indistinguishable(
    users: Map<Seq<char>, UserRecord>,
    known: Seq<char>,
    wrong_password: Seq<char>,
    unknown: Seq<char>,
    password: Seq<char>,
)
    requires
        is_valid_email(known),
        users.contains_key(known),
        wrong_password.len() >= MIN_PASSWORD_CHARS,
        users[known].password != wrong_password,
        is_valid_email(unknown),
        !users.contains_key(unknown),
        password.len() >= MIN_PASSWORD_CHARS,
    ensures
        login_credentials_error(users, known, wrong_password) == Some(
            AuthAPIError::IncorrectCredentials,
        ),
        login_credentials_error(users, unknown, password) == Some(
            AuthAPIError::IncorrectCredentials,
        ),
        login_credentials_error(users, known, wrong_password) == login_credentials_error(
            users,
            unknown,
            password,
        ),
{
}

} // verus!
