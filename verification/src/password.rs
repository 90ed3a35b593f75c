//! Password secrets with a minimum-length rule enforced at construction.

use vstd::prelude::*;
use vstd::string::StrSliceExecFns;

verus! {

/// The smallest number of characters a password may have.
pub const MIN_PASSWORD_CHARS: usize = 8;

/// A password accepted at signup or offered at login.  The value is kept
/// behind a private field so it is never formatted into messages; it is read
/// back only through `as_ref`.
#[derive(Eq, Hash)]
pub struct Password {
    pub(crate) text: String,
}

impl Clone for Password {
    fn clone(&self) -> (r: Password)
        ensures
            r == *self,
    {
        Password { text: self.text.clone() }
    }
}

impl PartialEq for Password {
    fn eq(&self, other: &Password) -> (r: bool) {
        self.text == other.text
    }
}

impl vstd::std_specs::cmp::PartialEqSpecImpl for Password {
    open spec fn obeys_eq_spec() -> bool {
        true
    }

    open spec fn eq_spec(&self, other: &Password) -> bool {
        self@ == other@
    }
}

impl View for Password {
    type V = Seq<char>;

    closed spec fn view(&self) -> Seq<char> {
        self.text@
    }
}

impl Password {
    /// Accepts `s` exactly when it has at least `MIN_PASSWORD_CHARS`
    /// characters.
    pub fn parse(s: String) -> (r: Result<Password, String>)
        ensures
            r matches Ok(p) ==> p@ == s@ && s@.len() >= MIN_PASSWORD_CHARS,
            r is Err <==> s@.len() < MIN_PASSWORD_CHARS,
            r matches Err(m) ==> m@ == "failed to parse string to a Password type"@,
    {
        if s.as_str().unicode_len() >= MIN_PASSWORD_CHARS {
            Ok(Password { text: s })
        } else {
            Err("failed to parse string to a Password type".to_owned())
        }
    }

    pub fn as_ref(&self) -> (r: &str)
        ensures
            r@ == self@,
    {
        self.text.as_str()
    }
}

} // verus!
