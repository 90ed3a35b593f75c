//! The outbound e-mail capability used to deliver second-factor codes.

use vstd::prelude::*;
use crate::email::Email;

verus! {

/// A send-and-forget delivery channel for one message.  Nothing is promised
/// of the outcome: delivery is decided outside the library, and callers must
/// state what holds whether it succeeds or fails.
pub trait EmailClient {
    fn send_email(&self, recipient: &Email, subject: &str, content: &str) -> (r: Result<(), ()>);
}

/// A delivery channel that drops every message; used by tests and local
/// runs.
pub struct MockEmailClient;

impl EmailClient for MockEmailClient {
    fn send_email(&self, _recipient: &Email, _subject: &str, _content: &str) -> (r: Result<(), ()>)
        ensures
            r is Ok,
    {
        Ok(())
    }
}

} // verus!
