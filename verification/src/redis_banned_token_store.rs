//! Key layout of the durable deny-list.  The store itself is a remote
//! key-value backend with native expiry; the library fixes how a token maps
//! to its key, and the backend calls live outside it.

use vstd::prelude::*;
use vstd::string::StringExecFns;

verus! {

/// The key under which a token's revocation record is stored.
pub fn get_key(token: &str) -> (r: String)
    ensures
        r@ == "banned_token:"@ + token@,
{
    let mut key = "banned_token:".to_owned();
    key.append(token);
    key
}

} // verus!
