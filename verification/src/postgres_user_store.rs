//! The compute half of the durable credential store: password hashing,
//! hash verification, and row conversion.  The database calls themselves
//! live outside the library and hand rows and hashes through these
//! functions.

use vstd::prelude::*;
use crate::data_stores::UserStoreError;
use crate::email::{Email, is_valid_email};
use crate::password::{MIN_PASSWORD_CHARS, Password};
use crate::user::User;

verus! {

/// Whether a candidate password matches a PHC-encoded hash.  The check is a
/// function of the two strings alone — the salt and parameters are carried
/// inside the hash — so its outcome can be given a name even though the
/// algorithm cannot be restated here.
pub uninterp spec fn verifies_against(hash: Seq<char>, password: Seq<char>) -> bool;

/// Relies on argon2::Argon2::hash_password with a fresh random salt, and on
/// the PHC round trip its documentation promises: a hash just computed from
/// a password verifies against that password, whatever salt was drawn.
/// Hashing cannot fail here: the fixed parameters are valid and a generated
/// salt always parses, so the error arms never run.
#[verifier::external_body]
fn compute_password_hash(password: &str) -> (r: Result<String, ()>)
    ensures
        r is Ok,
        r matches Ok(h) ==> verifies_against(h@, password@),
{
    let salt = argon2::password_hash::SaltString::generate(&mut rand::thread_rng());
    let params = match argon2::Params::new(15000, 2, 1, None) {
        Ok(params) => params,
        Err(_) => return Err(()),
    };
    let argon = argon2::Argon2::new(argon2::Algorithm::Argon2id, argon2::Version::V0x13, params);
    match argon2::PasswordHasher::hash_password(&argon, password.as_bytes(), &salt) {
        Ok(hash) => Ok(hash.to_string()),
        Err(_) => Err(()),
    }
}

/// Relies on argon2::Argon2::verify_password: whether a candidate matches a
/// PHC-encoded hash depends on the two strings alone, so two calls on equal
/// strings agree.
#[verifier::external_body]
fn verify_password_hash(expected_password_hash: &str, password_candidate: &str) -> (r: bool)
    ensures
        r == verifies_against(expected_password_hash@, password_candidate@),
{
    match argon2::password_hash::PasswordHash::new(expected_password_hash) {
        Ok(parsed) => argon2::PasswordVerifier::verify_password(
            &argon2::Argon2::default(),
            password_candidate.as_bytes(),
            &parsed,
        ).is_ok(),
        Err(_) => false,
    }
}

/// Computes the salted, memory-hard hash under which a password is stored
/// durably.  The hash it returns verifies against the password it was
/// computed from.
pub fn hash_password(password: &Password) -> (r: Result<String, UserStoreError>)
    ensures
        r is Ok,
        r matches Ok(h) ==> verifies_against(h@, password@),
{
    match compute_password_hash(password.as_ref()) {
        Ok(hash) => Ok(hash),
        Err(_) => Err(UserStoreError::UnexpectedError),
    }
}

/// Checks a login attempt against the stored hash.
pub fn password_matches_hash(expected_password_hash: &str, candidate: &Password) -> (r: bool)
    ensures
        r == verifies_against(expected_password_hash@, candidate@),
{
    verify_password_hash(expected_password_hash, candidate.as_ref())
}

/// One row of the durable credential store as the database hands it back.
#[derive(PartialEq)]
pub struct PostgresUser {
    pub email: String,
    pub password_hash: String,
    pub requires_2fa: bool,
}

/// Turns a fetched row back into a user record.  The password field of the
/// record holds the hash, as the durable store keeps no plaintext.  A row
/// whose fields no longer parse is a backend fault, reported as unexpected.
pub fn user_from_row(row: PostgresUser) -> (r: Result<User, UserStoreError>)
    ensures
        r matches Ok(u) ==> u.email@ == row.email@ && u.password@ == row.password_hash@
            && u.requires_2fa == row.requires_2fa,
        r is Err ==> r == Err::<User, UserStoreError>(UserStoreError::UnexpectedError),
        is_valid_email(row.email@) && row.password_hash@.len() >= MIN_PASSWORD_CHARS ==> r is Ok,
{
    let email = match Email::parse(row.email) {
        Ok(e) => e,
        Err(_) => {
            return Err(UserStoreError::UnexpectedError);
        },
    };
    let password = match Password::parse(row.password_hash) {
        Ok(p) => p,
        Err(_) => {
            return Err(UserStoreError::UnexpectedError);
        },
    };
    Ok(User::new(email, password, row.requires_2fa))
}

} // verus!
