//! Validated e-mail addresses, the primary key for user records.

use vstd::prelude::*;

verus! {

/// What the e-mail syntax check answers on a given string.  The check is a
/// pure function of the characters, so its outcome can be given a name even
/// though the grammar it decides is too large to restate here.
pub uninterp spec fn is_valid_email(s: Seq<char>) -> bool;

/// Relies on validator::validate_email: a pure syntax check against the HTML5
/// e-mail grammar whose result depends on the characters of the string alone.
#[verifier::external_body]
fn check_email_syntax(s: &str) -> (r: bool)
    ensures
        r == is_valid_email(s@),
{
    validator::validate_email(s)
}

/// A validated, immutable e-mail address.  Values are only built by `parse`,
/// which accepts exactly the strings the syntax check accepts.
#[derive(Debug, Eq, Hash)]
pub struct Email {
    pub(crate) text: String,
}

impl Clone for Email {
    fn clone(&self) -> (r: Email)
        ensures
            r == *self,
    {
        Email { text: self.text.clone() }
    }
}

impl PartialEq for Email {
    fn eq(&self, other: &Email) -> (r: bool) {
        self.text == other.text
    }
}

impl vstd::std_specs::cmp::PartialEqSpecImpl for Email {
    open spec fn obeys_eq_spec() -> bool {
        true
    }

    open spec fn eq_spec(&self, other: &Email) -> bool {
        self@ == other@
    }
}

impl View for Email {
    type V = Seq<char>;

    closed spec fn view(&self) -> Seq<char> {
        self.text@
    }
}

impl Email {
    /// Accepts `s` exactly when it passes the e-mail syntax check.
    pub fn parse(s: String) -> (r: Result<Email, String>)
        ensures
            r matches Ok(e) ==> e@ == s@ && is_valid_email(s@),
            r is Err <==> !is_valid_email(s@),
            r matches Err(m) ==> m@ == "not a valid email address"@,
    {
        if check_email_syntax(s.as_str()) {
            Ok(Email { text: s })
        } else {
            Err("not a valid email address".to_owned())
        }
    }

    pub fn as_ref(&self) -> (r: &str)
        ensures
            r@ == self@,
    {
        self.text.as_str()
    }
}

} // verus!
