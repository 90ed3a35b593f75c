//! Completion of a two-step login with the delivered one-time code.

use vstd::prelude::*;
use crate::AuthAPIError;
use crate::auth::{TOKEN_TTL_SECONDS, generate_auth_token, jwt_of};
use crate::data_stores::{TwoFACodeStore, TwoFACodeStoreError};
use crate::email::{Email, is_valid_email};

verus! {

/// The inputs of a second-factor verification call.
#[derive(Debug, PartialEq)]
pub struct Verify2FARequest {
    pub email: String,
    pub login_attempt_id: String,
    pub two_fa_code: String,
}

/// Why a verification request is turned away, if it is.  An absent
/// challenge and a mismatched one are indistinguishable.
pub open spec fn verify_2fa_error(
    codes: Map<Seq<char>, (Seq<char>, Seq<char>)>,
    email: Seq<char>,
    login_attempt_id: Seq<char>,
    two_fa_code: Seq<char>,
) -> Option<AuthAPIError> {
    if !is_valid_email(email) {
        Some(AuthAPIError::InvalidCredentials)
    } else if !codes.contains_key(email) {
        Some(AuthAPIError::IncorrectCredentials)
    } else if codes[email] != (login_attempt_id, two_fa_code) {
        Some(AuthAPIError::IncorrectCredentials)
    } else {
        None
    }
}

/// Fetches the pending challenge, demands an exact match of attempt id and
/// code, and on a match consumes the challenge and only then issues the
/// session cookie: success always means the challenge is gone, so the same
/// pair can never verify twice.  A backend fault — reading the challenge or
/// consuming it — surfaces as `UnexpectedError`, never as a silent success
/// and never disguised as a credential failure.  The first component of the
/// result is the token to attach as the auth cookie.
pub fn verify_2fa<C: TwoFACodeStore>(
    two_fa_code_store: &mut C,
    secret: &str,
    now: u64,
    request: Verify2FARequest,
) -> (r: (Option<String>, Result<(), AuthAPIError>))
    requires
        old(two_fa_code_store).inv(),
        now <= u64::MAX - TOKEN_TTL_SECONDS,
    ensures
        final(two_fa_code_store).inv(),
        r.1 is Err ==> r.0 is None && final(two_fa_code_store).codes() == old(
            two_fa_code_store,
        ).codes(),
        !is_valid_email(request.email@) ==> r.1 == Err::<(), AuthAPIError>(
            AuthAPIError::InvalidCredentials,
        ),
        r.1 == Err::<(), AuthAPIError>(AuthAPIError::IncorrectCredentials) ==> verify_2fa_error(
            old(two_fa_code_store).codes(),
            request.email@,
            request.login_attempt_id@,
            request.two_fa_code@,
        ) == Some(AuthAPIError::IncorrectCredentials),
        verify_2fa_error(
            old(two_fa_code_store).codes(),
            request.email@,
            request.login_attempt_id@,
            request.two_fa_code@,
        ) matches Some(e) ==> r.1 == Err::<(), AuthAPIError>(e) || r.1 == Err::<(), AuthAPIError>(
            AuthAPIError::UnexpectedError,
        ),
        verify_2fa_error(
            old(two_fa_code_store).codes(),
            request.email@,
            request.login_attempt_id@,
            request.two_fa_code@,
        ) is None ==> r.1 == Ok::<(), AuthAPIError>(()) || r.1 == Err::<(), AuthAPIError>(
            AuthAPIError::UnexpectedError,
        ),
        r.1 == Ok::<(), AuthAPIError>(()) ==> verify_2fa_error(
            old(two_fa_code_store).codes(),
            request.email@,
            request.login_attempt_id@,
            request.two_fa_code@,
        ) is None && final(two_fa_code_store).codes() == old(two_fa_code_store).codes().remove(
            request.email@,
        ) && (r.0 matches Some(t) && t@ == jwt_of(
            request.email@,
            (now + TOKEN_TTL_SECONDS) as u64,
            secret@,
        )),
{
    let email = match Email::parse(request.email) {
        Ok(e) => e,
        Err(_) => {
            return (None, Err(AuthAPIError::InvalidCredentials));
        },
    };

    let (login_attempt_id, two_fa_code) = match two_fa_code_store.get_code(&email) {
        Ok(pair) => pair,
        Err(TwoFACodeStoreError::LoginAttemptIdNotFound) => {
            return (None, Err(AuthAPIError::IncorrectCredentials));
        },
        Err(_) => {
            return (None, Err(AuthAPIError::UnexpectedError));
        },
    };

    let stored_id = login_attempt_id.as_ref().to_owned();
    let stored_code = two_fa_code.as_ref().to_owned();
    if request.login_attempt_id != stored_id || request.two_fa_code != stored_code {
        return (None, Err(AuthAPIError::IncorrectCredentials));
    }

    if two_fa_code_store.remove_code(&email).is_err() {
        return (None, Err(AuthAPIError::UnexpectedError));
    }
    let token = generate_auth_token(&email, secret, now);
    (Some(token), Ok(()))
}

/// A pending challenge is consumed by the verification that matches it:
/// after one success the challenge is gone, and repeating the same call
/// against the emptied store fails with `IncorrectCredentials`.
pub proof fn lemma_verify_2fa_once(
    codes: Map<Seq<char>, (Seq<char>, Seq<char>)>,
    email: Seq<char>,
    login_attempt_id: Seq<char>,
    two_fa_code: Seq<char>,
)
    requires
        is_valid_email(email),
        codes.contains_key(email),
        codes[email] == (login_attempt_id, two_fa_code),
    ensures
        verify_2fa_error(codes, email, login_attempt_id, two_fa_code) is None,
        verify_2fa_error(codes.remove(email), email, login_attempt_id, two_fa_code) == Some(
            AuthAPIError::IncorrectCredentials,
        ),
{
}

/// Starting a second login overwrites the pending challenge, so the first
/// attempt's pair stops verifying as soon as the second is stored — unless
/// the fresh random pair happens to collide with the old one.
pub proof fn lemma_second_login_invalidates_first(
    codes: Map<Seq<char>, (Seq<char>, Seq<char>)>,
    email: Seq<char>,
    first_id: Seq<char>,
    first_code: Seq<char>,
    second_id: Seq<char>,
    second_code: Seq<char>,
)
    requires
        is_valid_email(email),
        (first_id, first_code) != (second_id, second_code),
    ensures
        verify_2fa_error(
            codes.insert(email, (second_id, second_code)),
            email,
            first_id,
            first_code,
        ) == Some(AuthAPIError::IncorrectCredentials),
{
}

} // verus!
