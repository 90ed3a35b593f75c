//! Registration of a new user account.

use vstd::prelude::*;
use crate::AuthAPIError;
use crate::data_stores::{UserStore, UserStoreError};
use crate::email::{Email, is_valid_email};
use crate::password::{MIN_PASSWORD_CHARS, Password};
use crate::user::{User, UserRecord};

verus! {

/// The acknowledgment returned on a successful signup.
#[derive(Debug, PartialEq)]
pub struct SignupResponse {
    pub message: String,
}

/// Why a signup request is turned away, if it is: malformed inputs are the
/// client's fault, and a taken identity is reported as such.
pub open spec fn signup_error(
    users: Map<Seq<char>, UserRecord>,
    email: Seq<char>,
    password: Seq<char>,
) -> Option<AuthAPIError> {
    if !is_valid_email(email) || password.len() < MIN_PASSWORD_CHARS {
        Some(AuthAPIError::InvalidCredentials)
    } else if users.contains_key(email) {
        Some(AuthAPIError::UserAlreadyExists)
    } else {
        None
    }
}

/// The store contents after a signup that was not turned away.
pub open spec fn signup_post(
    users: Map<Seq<char>, UserRecord>,
    email: Seq<char>,
    password: Seq<char>,
    requires_2fa: bool,
) -> Map<Seq<char>, UserRecord> {
    users.insert(email, UserRecord { email, password, requires_2fa })
}

/// Validates the inputs, rejects a taken identity, and stores the new user.
/// No session is created.  A failed backend write leaves the store
/// untouched.
pub fn signup<U: UserStore>(
    user_store: &mut U,
    email: String,
    password: String,
    requires_2fa: bool,
) -> (r: Result<SignupResponse, AuthAPIError>)
    requires
        old(user_store).inv(),
    ensures
        final(user_store).inv(),
        r is Err ==> final(user_store).users() == old(user_store).users(),
        !is_valid_email(email@) || password@.len() < MIN_PASSWORD_CHARS ==> r == Err::<
            SignupResponse,
            AuthAPIError,
        >(AuthAPIError::InvalidCredentials),
        signup_error(old(user_store).users(), email@, password@) == Some(
            AuthAPIError::UserAlreadyExists,
        ) ==> r == Err::<SignupResponse, AuthAPIError>(AuthAPIError::UserAlreadyExists) || r
            == Err::<SignupResponse, AuthAPIError>(AuthAPIError::UnexpectedError),
        signup_error(old(user_store).users(), email@, password@) is None ==> (r matches Ok(resp)
            && resp.message@ == "User created successfully!"@ && final(user_store).users()
            == signup_post(old(user_store).users(), email@, password@, requires_2fa)) || (r
            == Err::<SignupResponse, AuthAPIError>(AuthAPIError::UnexpectedError) && final(user_store).users() == old(user_store).users()),
        r is Ok ==> signup_error(old(user_store).users(), email@, password@) is None && final(user_store).users() == signup_post(
            old(user_store).users(),
            email@,
            password@,
            requires_2fa,
        ),
{
    let email = match Email::parse(email) {
        Ok(e) => e,
        Err(_) => {
            return Err(AuthAPIError::InvalidCredentials);
        },
    };
    let password = match Password::parse(password) {
        Ok(p) => p,
        Err(_) => {
            return Err(AuthAPIError::InvalidCredentials);
        },
    };
    let user = User::new(email, password, requires_2fa);

    match user_store.get_user(&user.email) {
        Ok(_) => {
            return Err(AuthAPIError::UserAlreadyExists);
        },
        Err(UserStoreError::UserNotFound) => {},
        Err(_) => {
            return Err(AuthAPIError::UnexpectedError);
        },
    }

    match user_store.add_user(user) {
        Ok(()) => Ok(SignupResponse { message: "User created successfully!".to_owned() }),
        Err(_) => Err(AuthAPIError::UnexpectedError),
    }
}

/// Signing up an identity makes an immediate second signup for the same
/// identity fail with `UserAlreadyExists`; since a rejected signup leaves
/// the store as it was, the record of the first signup stands unchanged.
pub proof fn lemma_signup_not_repeatable(
    users: Map<Seq<char>, UserRecord>,
    email: Seq<char>,
    password: Seq<char>,
    requires_2fa: bool,
    password2: Seq<char>,
)
    requires
        signup_error(users, email, password) is None,
        password2.len() >= MIN_PASSWORD_CHARS,
    ensures
        signup_error(signup_post(users, email, password, requires_2fa), email, password2) == Some(
            AuthAPIError::UserAlreadyExists,
        ),
        signup_post(users, email, password, requires_2fa)[email] == (UserRecord {
            email,
            password,
            requires_2fa,
        }),
{
}

} // verus!
