//! The session token service: issues signed, time-limited tokens and
//! validates them against the revoked-token store.
//!
//! Signature and expiry are checked first, and only then is the deny-list
//! consulted, so a forged token can never probe the revocation store.

use vstd::prelude::*;
use crate::data_stores::BannedTokenStore;
use crate::email::Email;

verus! {

/// How long a session token stays valid, in seconds.
pub const TOKEN_TTL_SECONDS: u64 = 600;

/// The token that signing produces for a subject, an expiry and a key.  The
/// token is a deterministic function of the three, so its value can be given
/// a name even though its bytes cannot be restated here.
pub uninterp spec fn jwt_of(sub: Seq<char>, exp: u64, secret: Seq<char>) -> Seq<char>;

/// The claims that decoding recovers from a token under a key, or `None`
/// when the token is malformed or its signature does not match the key.
pub uninterp spec fn jwt_claims(token: Seq<char>, secret: Seq<char>) -> Option<(Seq<char>, u64)>;

/// The claims carried by a session token: the subject identity and the
/// expiry timestamp, in seconds.
#[derive(Debug)]
pub struct Claims {
    pub sub: String,
    pub exp: u64,
}

/// Relies on jsonwebtoken::encode with an HMAC key: signing a JSON object
/// never fails, and the token is a deterministic function of the claims and
/// the key.
#[verifier::external_body]
fn encode_token(sub: &str, exp: u64, secret: &str) -> (t: String)
    ensures
        t@ == jwt_of(sub@, exp, secret@),
{
    // keys in sorted order, so the signed bytes do not depend on how the
    // claims map iterates
    let mut claims = serde_json::Map::new();
    claims.insert("exp".to_owned(), serde_json::Value::from(exp));
    claims.insert("sub".to_owned(), serde_json::Value::String(sub.to_owned()));
    jsonwebtoken::encode(
        &jsonwebtoken::Header::default(),
        &serde_json::Value::Object(claims),
        &jsonwebtoken::EncodingKey::from_secret(secret.as_bytes()),
    ).expect("HMAC signing of a JSON object does not fail")
}

/// What decoding returns: `r` reports `jwt_claims` on the token and the key,
/// and a token that signing produced under the same key decodes to the
/// claims it was built from.
pub open spec fn decode_reports_claims(token: Seq<char>, secret: Seq<char>, r: Option<Claims>) -> bool {
    &&& (r matches Some(c) ==> jwt_claims(token, secret) == Some((c.sub@, c.exp)))
    &&& (r is None ==> jwt_claims(token, secret) is None)
    &&& (forall|sub: Seq<char>, exp: u64|
        token == #[trigger] jwt_of(sub, exp, secret) ==> r is Some && jwt_claims(token, secret)
            == Some((sub, exp)))
}

/// Relies on jsonwebtoken::decode: the signature is verified and the claims
/// deserialized; with the time-dependent expiry check disabled (the caller
/// checks expiry itself) the result depends on the token and the key alone,
/// and decoding a token that `encode` produced under the same key yields the
/// claims it was built from.
#[verifier::external_body]
fn decode_token(token: &str, secret: &str) -> (r: Option<Claims>)
    ensures
        r matches Some(c) ==> jwt_claims(token@, secret@) == Some((c.sub@, c.exp)),
        decode_reports_claims(token@, secret@, r),
{
    let mut validation = jsonwebtoken::Validation::new(jsonwebtoken::Algorithm::HS256);
    validation.validate_exp = false;
    validation.validate_aud = false;
    let key = jsonwebtoken::DecodingKey::from_secret(secret.as_bytes());
    let claims = match jsonwebtoken::decode::<serde_json::Value>(token, &key, &validation) {
        Ok(data) => data.claims,
        Err(_) => return None,
    };
    let sub = match claims.get("sub").and_then(|v| v.as_str()) {
        Some(s) => s.to_owned(),
        None => return None,
    };
    claims.get("exp").and_then(|v| v.as_u64()).map(|exp| Claims { sub, exp })
}

/// Why a token failed validation.  The boundary never passes the distinction
/// on to callers: all three surface as the same invalid-token outcome.
#[derive(Clone, Copy, Debug, PartialEq, Eq, Structural)]
pub enum TokenValidationError {
    MalformedOrForged,
    Expired,
    Revoked,
    UnexpectedError,
}

/// The outcome of validating a token whose decoded claims, current time and
/// revocation status are given.
pub open spec fn token_validation_outcome(
    claims: Option<(Seq<char>, u64)>,
    now: u64,
    revoked: bool,
) -> Result<(Seq<char>, u64), TokenValidationError> {
    match claims {
        None => Err(TokenValidationError::MalformedOrForged),
        Some(p) => if p.1 <= now {
            Err(TokenValidationError::Expired)
        } else if revoked {
            Err(TokenValidationError::Revoked)
        } else {
            Ok(p)
        },
    }
}

/// A token some signing of which is still fresh and which is not on the
/// deny-list: exactly the tokens that validation accepts.
pub open spec fn token_accepted(
    token: Seq<char>,
    secret: Seq<char>,
    now: u64,
    banned: Set<Seq<char>>,
) -> bool {
    exists|sub: Seq<char>, exp: u64|
        token == #[trigger] jwt_of(sub, exp, secret) && exp > now && !banned.contains(token)
}

/// Issues a session token for `email` expiring `TOKEN_TTL_SECONDS` after
/// `now`.
pub fn generate_auth_token(email: &Email, secret: &str, now: u64) -> (t: String)
    requires
        now <= u64::MAX - TOKEN_TTL_SECONDS,
    ensures
        t@ == jwt_of(email@, (now + TOKEN_TTL_SECONDS) as u64, secret@),
{
    encode_token(email.as_ref(), now + TOKEN_TTL_SECONDS, secret)
}

/// Validates a session token: signature first, then expiry, and only then
/// the deny-list.
pub fn validate_token<B: BannedTokenStore>(
    banned_store: &B,
    token: &str,
    secret: &str,
    now: u64,
) -> (r: Result<Claims, TokenValidationError>)
    requires
        banned_store.inv(),
    ensures
        r matches Ok(c) ==> token_validation_outcome(
            jwt_claims(token@, secret@),
            now,
            banned_store.tokens().contains(token@),
        ) == Ok::<(Seq<char>, u64), TokenValidationError>((c.sub@, c.exp)),
        r matches Err(e) ==> (e != TokenValidationError::UnexpectedError
            ==> token_validation_outcome(
            jwt_claims(token@, secret@),
            now,
            banned_store.tokens().contains(token@),
        ) == Err::<(Seq<char>, u64), TokenValidationError>(e)),
        r == Err::<Claims, TokenValidationError>(TokenValidationError::UnexpectedError) ==> (
        jwt_claims(token@, secret@) matches Some(p) && p.1 > now),
        banned_store.tokens().contains(token@) ==> r is Err,
        token_accepted(token@, secret@, now, banned_store.tokens()) ==> r is Ok || r == Err::<
            Claims,
            TokenValidationError,
        >(TokenValidationError::UnexpectedError),
        forall|sub: Seq<char>, exp: u64|
            token@ == jwt_of(sub, exp, secret@) ==> jwt_claims(token@, secret@) == Some(
                (sub, exp),
            ),
{
    let claims = match decode_token(token, secret) {
        Some(c) => c,
        None => {
            return Err(TokenValidationError::MalformedOrForged);
        },
    };
    if claims.exp <= now {
        return Err(TokenValidationError::Expired);
    }
    match banned_store.contains_token(token) {
        Ok(true) => Err(TokenValidationError::Revoked),
        Ok(false) => Ok(claims),
        Err(_) => Err(TokenValidationError::UnexpectedError),
    }
}

} // verus!
