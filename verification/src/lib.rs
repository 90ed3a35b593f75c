//! A credential-issuance and session-verification library.
//!
//! The library registers user accounts, authenticates password-based logins,
//! optionally enforces a second authentication factor, issues and validates
//! short-lived session tokens, and supports session revocation through a
//! deny-list.  The stores, the token service and the orchestration logic are
//! verified; network, database and transport wiring live outside the library.

use vstd::prelude::*;

pub mod auth;
pub mod configuration;
pub mod data_stores;
pub mod email;
pub mod email_client;
pub mod hashmap_two_fa_code_store;
pub mod hashmap_user_store;
pub mod hashset_banned_token_store;
pub mod password;
pub mod postgres_user_store;
pub mod redis_banned_token_store;
pub mod redis_two_fa_code_store;
pub mod routes;
pub mod user;

verus! {

/// The error taxonomy exposed at the service boundary.
///
/// `IncorrectCredentials` is used uniformly for "user not found", "password
/// mismatch" and "second-factor mismatch", so a caller cannot tell which part
/// of a credential was wrong.  `InvalidToken` covers expired, forged and
/// revoked tokens without distinguishing them.
#[derive(Clone, Copy, Debug, PartialEq, Eq, Structural)]
pub enum AuthAPIError {
    UserAlreadyExists,
    InvalidCredentials,
    IncorrectCredentials,
    MissingToken,
    InvalidToken,
    UnexpectedError,
}

impl AuthAPIError {
    /// The HTTP-equivalent status of the error.
    pub fn status_code(&self) -> (s: u16)
        ensures
            s == match *self {
                AuthAPIError::UserAlreadyExists => 409u16,
                AuthAPIError::InvalidCredentials => 400u16,
                AuthAPIError::IncorrectCredentials => 401u16,
                AuthAPIError::MissingToken => 400u16,
                AuthAPIError::InvalidToken => 401u16,
                AuthAPIError::UnexpectedError => 500u16,
            },
    {
        match *self {
            AuthAPIError::UserAlreadyExists => 409,
            AuthAPIError::InvalidCredentials => 400,
            AuthAPIError::IncorrectCredentials => 401,
            AuthAPIError::MissingToken => 400,
            AuthAPIError::InvalidToken => 401,
            AuthAPIError::UnexpectedError => 500,
        }
    }

    /// The user-visible text of the error; never holds a credential value.
    pub fn message(&self) -> (m: &'static str)
        ensures
            m@ == match *self {
                AuthAPIError::UserAlreadyExists => "User already exists"@,
                AuthAPIError::InvalidCredentials => "Invalid credentials"@,
                AuthAPIError::IncorrectCredentials => "Incorrect credentials"@,
                AuthAPIError::MissingToken => "Missing token"@,
                AuthAPIError::InvalidToken => "Invalid token"@,
                AuthAPIError::UnexpectedError => "Unexpected error"@,
            },
    {
        match *self {
            AuthAPIError::UserAlreadyExists => "User already exists",
            AuthAPIError::InvalidCredentials => "Invalid credentials",
            AuthAPIError::IncorrectCredentials => "Incorrect credentials",
            AuthAPIError::MissingToken => "Missing token",
            AuthAPIError::InvalidToken => "Invalid token",
            AuthAPIError::UnexpectedError => "Unexpected error",
        }
    }
}

/// The body returned beside an error status.
#[derive(Debug, PartialEq)]
pub struct ErrorResponse {
    pub error: String,
}

} // verus!
