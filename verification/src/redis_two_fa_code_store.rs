//! Key layout of the durable second-factor code store.  The store itself is
//! a remote key-value backend with native expiry; the library fixes how an
//! identity maps to its key and how long a pending challenge lives.

use vstd::prelude::*;
use vstd::string::StringExecFns;
use crate::email::Email;

verus! {

/// How long a pending challenge stays valid, in seconds.
pub const TEN_MINUTES_IN_SECONDS: u64 = 600;

/// The key under which an identity's pending challenge is stored.
pub fn get_key(email: &Email) -> (r: String)
    ensures
        r@ == "two_fa_code"@ + email@,
{
    let mut key = "two_fa_code".to_owned();
    key.append(email.as_ref());
    key
}

} // verus!
