//! Session revocation: the logged-out token joins the deny-list.

use vstd::prelude::*;
use crate::AuthAPIError;
use crate::auth::{jwt_claims, token_accepted, token_validation_outcome, validate_token};
use crate::data_stores::BannedTokenStore;

verus! {

/// Validates the session cookie and revokes its token.  The acknowledgment
/// is returned only after the revocation is recorded, so a caller that sees
/// success and then checks the same token observes the revocation.  An
/// `UnexpectedError` can arise only from the revocation write, after the
/// token itself validated.
pub fn logout<B: BannedTokenStore>(
    banned_token_store: &mut B,
    secret: &str,
    now: u64,
    cookie: Option<String>,
) -> (r: Result<(), AuthAPIError>)
    requires
        old(banned_token_store).inv(),
    ensures
        final(banned_token_store).inv(),
        cookie is None ==> r == Err::<(), AuthAPIError>(AuthAPIError::MissingToken) && final(banned_token_store).tokens() == old(banned_token_store).tokens(),
        r is Err ==> final(banned_token_store).tokens() == old(banned_token_store).tokens(),
        cookie matches Some(t) ==> (old(banned_token_store).tokens().contains(t@) ==> r == Err::<
            (),
            AuthAPIError,
        >(AuthAPIError::InvalidToken)),
        cookie matches Some(t) ==> (token_validation_outcome(
            jwt_claims(t@, secret@),
            now,
            old(banned_token_store).tokens().contains(t@),
        ) is Err ==> r == Err::<(), AuthAPIError>(AuthAPIError::InvalidToken) || r == Err::<
            (),
            AuthAPIError,
        >(AuthAPIError::UnexpectedError)),
        cookie matches Some(t) ==> (r == Ok::<(), AuthAPIError>(()) ==> final(banned_token_store).tokens() == old(banned_token_store).tokens().insert(t@)
            && !old(banned_token_store).tokens().contains(t@)),
        cookie matches Some(t) ==> (r == Err::<(), AuthAPIError>(AuthAPIError::UnexpectedError)
            ==> token_validation_outcome(
            jwt_claims(t@, secret@),
            now,
            old(banned_token_store).tokens().contains(t@),
        ) is Ok),
        cookie matches Some(t) ==> (token_accepted(
            t@,
            secret@,
            now,
            old(banned_token_store).tokens(),
        ) ==> r == Ok::<(), AuthAPIError>(()) || r == Err::<(), AuthAPIError>(
            AuthAPIError::InvalidToken,
        ) || r == Err::<(), AuthAPIError>(AuthAPIError::UnexpectedError)),
{
    let token = match cookie {
        Some(t) => t,
        None => {
            return Err(AuthAPIError::MissingToken);
        },
    };

    match validate_token(banned_token_store, token.as_str(), secret, now) {
        Ok(_) => {},
        Err(_) => {
            return Err(AuthAPIError::InvalidToken);
        },
    }

    match banned_token_store.store_token(token) {
        Ok(()) => Ok(()),
        Err(_) => Err(AuthAPIError::UnexpectedError),
    }
}

/// Logout is deliberately not idempotent: one successful logout puts the
/// token on the deny-list, and from then on the same token fails validation
/// outright, whatever its signature and expiry would say.
pub proof fn lemma_logout_not_idempotent(
    banned: Set<Seq<char>>,
    token: Seq<char>,
    secret: Seq<char>,
    now: u64,
    now2: u64,
)
    requires
        token_accepted(token, secret, now, banned),
    ensures
        banned.insert(token).contains(token),
        token_validation_outcome(jwt_claims(token, secret), now2, true) is Err,
        !token_accepted(token, secret, now2, banned.insert(token)),
{
    assert(token_validation_outcome(jwt_claims(token, secret), now2, true) is Err) by {
        match jwt_claims(token, secret) {
            None => {},
            Some(p) => {},
        }
    }
}

} // verus!
