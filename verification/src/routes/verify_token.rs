//! Stateless confirmation that a token is currently authenticated.

use vstd::prelude::*;
use crate::AuthAPIError;
use crate::auth::{jwt_claims, token_accepted, token_validation_outcome, validate_token};
use crate::data_stores::BannedTokenStore;

verus! {

/// The input of a token verification call.
#[derive(Debug, PartialEq)]
pub struct VerifyTokenRequest {
    pub token: String,
}

/// Pure validation pass-through to the session token service: no state is
/// read but the deny-list, and none is written.  Every validation failure —
/// malformed, forged, expired or revoked — surfaces as `InvalidToken`.
pub fn verify_token<B: BannedTokenStore>(
    banned_token_store: &B,
    secret: &str,
    now: u64,
    request: VerifyTokenRequest,
) -> (r: Result<(), AuthAPIError>)
    requires
        banned_token_store.inv(),
    ensures
        banned_token_store.tokens().contains(request.token@) ==> r == Err::<(), AuthAPIError>(
            AuthAPIError::InvalidToken,
        ),
        token_validation_outcome(
            jwt_claims(request.token@, secret@),
            now,
            banned_token_store.tokens().contains(request.token@),
        ) is Err ==> r == Err::<(), AuthAPIError>(AuthAPIError::InvalidToken),
        r is Err ==> r == Err::<(), AuthAPIError>(AuthAPIError::InvalidToken),
        token_accepted(request.token@, secret@, now, banned_token_store.tokens()) ==> r is Ok || r
            == Err::<(), AuthAPIError>(AuthAPIError::InvalidToken),
        r is Ok ==> token_validation_outcome(
            jwt_claims(request.token@, secret@),
            now,
            banned_token_store.tokens().contains(request.token@),
        ) is Ok,
{
    match validate_token(banned_token_store, request.token.as_str(), secret, now) {
        Ok(_) => Ok(()),
        Err(_) => Err(AuthAPIError::InvalidToken),
    }
}

/// A token revoked by logout fails verification even while its signature is
/// genuine and its expiry lies ahead: revocation alone decides.
pub proof fn lemma_revoked_token_rejected(
    banned: Set<Seq<char>>,
    token: Seq<char>,
    sub: Seq<char>,
    exp: u64,
    secret: Seq<char>,
    now: u64,
)
    requires
        token == crate::auth::jwt_of(sub, exp, secret),
        exp > now,
        banned.contains(token),
    ensures
        token_validation_outcome(jwt_claims(token, secret), now, banned.contains(token)) is Err,
        !token_accepted(token, secret, now, banned),
{
    assert(token_validation_outcome(jwt_claims(token, secret), now, true) is Err) by {
        match jwt_claims(token, secret) {
            None => {},
            Some(p) => {},
        }
    }
}

} // verus!
