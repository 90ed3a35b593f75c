//! User records: an identity, its credential, and the second-factor flag.

use vstd::prelude::*;
use crate::email::Email;
use crate::password::Password;

verus! {

/// The mathematical content of a stored user record.
pub struct UserRecord {
    pub email: Seq<char>,
    pub password: Seq<char>,
    pub requires_2fa: bool,
}

/// A user account.  Created on signup and immutable thereafter.
#[derive(PartialEq)]
pub struct User {
    pub email: Email,
    pub password: Password,
    pub requires_2fa: bool,
}

impl Clone for User {
    fn clone(&self) -> (r: User)
        ensures
            r == *self,
    {
        User {
            email: self.email.clone(),
            password: self.password.clone(),
            requires_2fa: self.requires_2fa,
        }
    }
}

impl View for User {
    type V = UserRecord;

    open spec fn view(&self) -> UserRecord {
        UserRecord { email: self.email@, password: self.password@, requires_2fa: self.requires_2fa }
    }
}

impl User {
    pub fn new(email: Email, password: Password, requires_2fa: bool) -> (u: User)
        ensures
            u.email == email,
            u.password == password,
            u.requires_2fa == requires_2fa,
    {
        User { email, password, requires_2fa }
    }
}

} // verus!
