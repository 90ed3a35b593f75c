//! The three persistence capabilities behind the orchestrator: credentials,
//! revoked tokens, and pending second-factor codes.
//!
//! Each capability is a trait whose methods carry the store's contract over a
//! mathematical view (`Map` or `Set`).  In-memory implementations in this
//! crate are verified against the contracts; durable-backend implementations
//! live outside the library and are swapped in at process start.

use vstd::prelude::*;
use vstd::string::StrSliceExecFns;
use vstd::string::StringExecFns;
use crate::email::Email;
use crate::user::{User, UserRecord};

verus! {

#[derive(Clone, Copy, Debug, PartialEq, Eq, Structural)]
pub enum UserStoreError {
    UserAlreadyExists,
    UserNotFound,
    InvalidCredentials,
    UnexpectedError,
}

#[derive(Clone, Copy, Debug, PartialEq, Eq, Structural)]
pub enum BannedTokenStoreError {
    TokenAlreadyExists,
    TokenNotFound,
    InvalidToken,
    UnexpectedError,
}

#[derive(Clone, Copy, Debug, PartialEq, Eq, Structural)]
pub enum TwoFACodeStoreError {
    LoginAttemptIdNotFound,
    UnexpectedError,
}

/// Owns user records keyed by identity and validates login attempts.
///
/// A backend may fail with `UnexpectedError` on any call, but never reports a
/// partial effect: a failed call leaves the store as it was.
pub trait UserStore: Sized {
    /// The store's internal well-formedness; established at construction and
    /// preserved by every operation.
    open spec fn inv(&self) -> bool {
        true
    }

    /// The records currently stored, keyed by the identity's characters.
    open spec fn users(&self) -> Map<Seq<char>, UserRecord> {
        Map::empty()
    }

    /// Succeeds once per identity; a second add for the same identity fails
    /// with `UserAlreadyExists` and changes nothing.
    fn add_user(&mut self, user: User) -> (r: Result<(), UserStoreError>)
        requires
            old(self).inv(),
        ensures
            final(self).inv(),
            old(self).users().contains_key(user.email@) ==> r == Err::<(), UserStoreError>(
                UserStoreError::UserAlreadyExists,
            ) && final(self).users() == old(self).users(),
            !old(self).users().contains_key(user.email@) ==> (r == Ok::<(), UserStoreError>(())
                && final(self).users() == old(self).users().insert(user.email@, user@)) || (r
                == Err::<(), UserStoreError>(UserStoreError::UnexpectedError) && final(self).users()
                == old(self).users()),
    ;

    /// Returns the stored record for the identity, or `UserNotFound`.
    fn get_user(&self, email: &Email) -> (r: Result<User, UserStoreError>)
        requires
            self.inv(),
        ensures
            r matches Ok(u) ==> self.users().contains_key(email@) && u@ == self.users()[email@],
            self.users().contains_key(email@) ==> r is Ok || r == Err::<User, UserStoreError>(
                UserStoreError::UnexpectedError,
            ),
            !self.users().contains_key(email@) ==> r == Err::<User, UserStoreError>(
                UserStoreError::UserNotFound,
            ) || r == Err::<User, UserStoreError>(UserStoreError::UnexpectedError),
    ;

    /// Checks the offered password against the stored credential.  "No such
    /// user" and "wrong password" stay distinguishable here; the orchestrator
    /// folds them together at the boundary.
    fn validate_user(&self, email: &Email, password: &crate::password::Password) -> (r: Result<
        (),
        UserStoreError,
    >)
        requires
            self.inv(),
        ensures
            r is Ok ==> self.users().contains_key(email@) && self.users()[email@].password
                == password@,
            self.users().contains_key(email@) && self.users()[email@].password == password@ ==> r
                is Ok || r == Err::<(), UserStoreError>(UserStoreError::UnexpectedError),
            self.users().contains_key(email@) && self.users()[email@].password != password@ ==> r
                == Err::<(), UserStoreError>(UserStoreError::InvalidCredentials) || r == Err::<
                (),
                UserStoreError,
            >(UserStoreError::UnexpectedError),
            !self.users().contains_key(email@) ==> r == Err::<(), UserStoreError>(
                UserStoreError::UserNotFound,
            ) || r == Err::<(), UserStoreError>(UserStoreError::UnexpectedError),
    ;
}

/// A time-bounded deny-list of session tokens that have been logged out.
pub trait BannedTokenStore: Sized {
    /// The store's internal well-formedness; established at construction and
    /// preserved by every operation.
    open spec fn inv(&self) -> bool {
        true
    }

    /// The tokens currently revoked.
    open spec fn tokens(&self) -> Set<Seq<char>> {
        Set::empty()
    }

    /// Records a revocation.  A token already present is reported as
    /// `TokenAlreadyExists` and the deny-list is unchanged.
    fn store_token(&mut self, token: String) -> (r: Result<(), BannedTokenStoreError>)
        requires
            old(self).inv(),
        ensures
            final(self).inv(),
            old(self).tokens().contains(token@) ==> r == Err::<(), BannedTokenStoreError>(
                BannedTokenStoreError::TokenAlreadyExists,
            ) && final(self).tokens() == old(self).tokens(),
            !old(self).tokens().contains(token@) ==> (r == Ok::<(), BannedTokenStoreError>(())
                && final(self).tokens() == old(self).tokens().insert(token@)) || (r == Err::<
                (),
                BannedTokenStoreError,
            >(BannedTokenStoreError::UnexpectedError) && final(self).tokens() == old(
                self,
            ).tokens()),
    ;

    /// Answers whether the token has been revoked.
    fn contains_token(&self, token: &str) -> (r: Result<bool, BannedTokenStoreError>)
        requires
            self.inv(),
        ensures
            r matches Ok(b) ==> b == self.tokens().contains(token@),
            r matches Err(e) ==> e == BannedTokenStoreError::UnexpectedError,
    ;
}

/// Pending second-factor challenges, at most one per identity.
pub trait TwoFACodeStore: Sized {
    /// The store's internal well-formedness; established at construction and
    /// preserved by every operation.
    open spec fn inv(&self) -> bool {
        true
    }

    /// The pending (attempt-id, code) pair for each identity.
    open spec fn codes(&self) -> Map<Seq<char>, (Seq<char>, Seq<char>)> {
        Map::empty()
    }

    /// Stores a fresh challenge, unconditionally overwriting any prior
    /// pending challenge for the identity: only the most recent attempt is
    /// ever valid.
    fn add_code(&mut self, email: Email, login_attempt_id: LoginAttemptId, code: TwoFACode) -> (r:
        Result<(), TwoFACodeStoreError>)
        requires
            old(self).inv(),
        ensures
            final(self).inv(),
            (r == Ok::<(), TwoFACodeStoreError>(()) && final(self).codes() == old(
                self,
            ).codes().insert(email@, (login_attempt_id@, code@))) || (r == Err::<
                (),
                TwoFACodeStoreError,
            >(TwoFACodeStoreError::UnexpectedError) && final(self).codes() == old(self).codes()),
    ;

    /// Returns the pending challenge, or `LoginAttemptIdNotFound` if none is
    /// pending.
    fn get_code(&self, email: &Email) -> (r: Result<
        (LoginAttemptId, TwoFACode),
        TwoFACodeStoreError,
    >)
        requires
            self.inv(),
        ensures
            r matches Ok(p) ==> self.codes().contains_key(email@) && p.0@ == self.codes()[email@].0
                && p.1@ == self.codes()[email@].1,
            self.codes().contains_key(email@) ==> r is Ok || r == Err::<
                (LoginAttemptId, TwoFACode),
                TwoFACodeStoreError,
            >(TwoFACodeStoreError::UnexpectedError),
            !self.codes().contains_key(email@) ==> r == Err::<
                (LoginAttemptId, TwoFACode),
                TwoFACodeStoreError,
            >(TwoFACodeStoreError::LoginAttemptIdNotFound) || r == Err::<
                (LoginAttemptId, TwoFACode),
                TwoFACodeStoreError,
            >(TwoFACodeStoreError::UnexpectedError),
    ;

    /// Deletes the pending challenge so a verified code cannot be replayed.
    /// Removing a nonexistent challenge is not an error.
    fn remove_code(&mut self, email: &Email) -> (r: Result<(), TwoFACodeStoreError>)
        requires
            old(self).inv(),
        ensures
            final(self).inv(),
            (r == Ok::<(), TwoFACodeStoreError>(()) && final(self).codes() == old(
                self,
            ).codes().remove(email@)) || (r == Err::<(), TwoFACodeStoreError>(
                TwoFACodeStoreError::UnexpectedError,
            ) && final(self).codes() == old(self).codes()),
    ;
}

/// A lowercase hexadecimal digit.
pub open spec fn is_hex_lower(c: char) -> bool {
    ('0' <= c && c <= '9') || ('a' <= c && c <= 'f')
}

/// The canonical text of a UUID: five hyphen-separated groups of lowercase
/// hexadecimal digits, 36 characters in all.
pub open spec fn is_uuid_text(s: Seq<char>) -> bool {
    &&& s.len() == 36
    &&& s[8] == '-' && s[13] == '-' && s[18] == '-' && s[23] == '-'
    &&& forall|i: int|
        0 <= i < 36 && i != 8 && i != 13 && i != 18 && i != 23 ==> is_hex_lower(#[trigger] s[i])
}

/// Relies on uuid::Uuid::new_v4 and its display form: a fresh random
/// identifier printed as canonical UUID text.  Of a random value nothing but
/// its shape is stated.
#[verifier::external_body]
fn random_uuid_string() -> (r: String)
    ensures
        is_uuid_text(r@),
{
    uuid::Uuid::new_v4().to_string()
}

/// Relies on rand::Rng::gen_range: a value drawn from the half-open range.
/// Of a random value nothing but membership in the range is stated.
#[verifier::external_body]
fn random_in_range(lo: u32, hi: u32) -> (r: u32)
    requires
        lo < hi,
    ensures
        lo <= r < hi,
{
    rand::Rng::gen_range(&mut rand::thread_rng(), lo..hi)
}

/// An opaque identifier correlating a login's second-factor challenge with
/// the verification call that completes it.
#[derive(Debug, Eq)]
pub struct LoginAttemptId {
    text: String,
}

impl PartialEq for LoginAttemptId {
    fn eq(&self, other: &LoginAttemptId) -> (r: bool) {
        self.text == other.text
    }
}

impl vstd::std_specs::cmp::PartialEqSpecImpl for LoginAttemptId {
    open spec fn obeys_eq_spec() -> bool {
        true
    }

    open spec fn eq_spec(&self, other: &LoginAttemptId) -> bool {
        self@ == other@
    }
}

impl Clone for LoginAttemptId {
    fn clone(&self) -> (r: LoginAttemptId)
        ensures
            r == *self,
    {
        LoginAttemptId { text: self.text.clone() }
    }
}

impl View for LoginAttemptId {
    type V = Seq<char>;

    closed spec fn view(&self) -> Seq<char> {
        self.text@
    }
}

impl LoginAttemptId {
    /// Accepts exactly canonical UUID text.
    pub fn parse(id: String) -> (r: Result<LoginAttemptId, String>)
        ensures
            r matches Ok(a) ==> a@ == id@ && is_uuid_text(id@),
            r is Err <==> !is_uuid_text(id@),
    {
        if is_uuid_str(id.as_str()) {
            Ok(LoginAttemptId { text: id })
        } else {
            Err("invalid login attempt id".to_owned())
        }
    }

    pub fn as_ref(&self) -> (r: &str)
        ensures
            r@ == self@,
    {
        self.text.as_str()
    }
}

impl Default for LoginAttemptId {
    /// A fresh random attempt identifier.
    fn default() -> (r: LoginAttemptId)
        ensures
            is_uuid_text(r@),
    {
        LoginAttemptId { text: random_uuid_string() }
    }
}

/// Decides `is_uuid_text` on a string slice.
fn is_uuid_str(s: &str) -> (r: bool)
    ensures
        r == is_uuid_text(s@),
{
    if s.unicode_len() != 36 {
        return false;
    }
    let mut i: usize = 0;
    while i < 36
        invariant
            0 <= i <= 36,
            s@.len() == 36,
            forall|j: int|
                0 <= j < i ==> if j == 8 || j == 13 || j == 18 || j == 23 {
                    s@[j] == '-'
                } else {
                    is_hex_lower(#[trigger] s@[j])
                },
        decreases 36 - i,
    {
        let c = s.get_char(i);
        if i == 8 || i == 13 || i == 18 || i == 23 {
            if c != '-' {
                return false;
            }
        } else {
            if !(('0' <= c && c <= '9') || ('a' <= c && c <= 'f')) {
                return false;
            }
        }
        i = i + 1;
    }
    true
}

/// The character for a decimal digit.
pub open spec fn digit_char(d: int) -> char {
    ((d + 48) as u8) as char
}

/// The six decimal digits of a code value, most significant first.
pub open spec fn code_digits(n: int) -> Seq<char> {
    seq![
        digit_char(n / 100000 % 10),
        digit_char(n / 10000 % 10),
        digit_char(n / 1000 % 10),
        digit_char(n / 100 % 10),
        digit_char(n / 10 % 10),
        digit_char(n % 10),
    ]
}

/// A six-digit one-time code: all decimal digits, no leading zero.
pub open spec fn is_two_fa_code_text(s: Seq<char>) -> bool {
    &&& s.len() == 6
    &&& forall|i: int| 0 <= i < 6 ==> '0' <= #[trigger] s[i] && s[i] <= '9'
    &&& s[0] != '0'
}

/// A pending one-time code delivered out-of-band to complete a two-step
/// login.
#[derive(Eq)]
pub struct TwoFACode {
    text: String,
}

impl PartialEq for TwoFACode {
    fn eq(&self, other: &TwoFACode) -> (r: bool) {
        self.text == other.text
    }
}

impl vstd::std_specs::cmp::PartialEqSpecImpl for TwoFACode {
    open spec fn obeys_eq_spec() -> bool {
        true
    }

    open spec fn eq_spec(&self, other: &TwoFACode) -> bool {
        self@ == other@
    }
}

impl Clone for TwoFACode {
    fn clone(&self) -> (r: TwoFACode)
        ensures
            r == *self,
    {
        TwoFACode { text: self.text.clone() }
    }
}

impl View for TwoFACode {
    type V = Seq<char>;

    closed spec fn view(&self) -> Seq<char> {
        self.text@
    }
}

impl TwoFACode {
    /// Accepts exactly six decimal digits with no leading zero.
    pub fn parse(code: String) -> (r: Result<TwoFACode, String>)
        ensures
            r matches Ok(c) ==> c@ == code@ && is_two_fa_code_text(code@),
            r is Err <==> !is_two_fa_code_text(code@),
    {
        if is_two_fa_code_str(code.as_str()) {
            Ok(TwoFACode { text: code })
        } else {
            Err("invalid 2FA code".to_owned())
        }
    }

    pub fn as_ref(&self) -> (r: &str)
        ensures
            r@ == self@,
    {
        self.text.as_str()
    }
}

impl Default for TwoFACode {
    /// A fresh random six-digit code.
    fn default() -> (r: TwoFACode)
        ensures
            is_two_fa_code_text(r@),
    {
        let n = random_in_range(100000, 1000000);
        TwoFACode { text: format_six_digits(n) }
    }
}

/// Decides `is_two_fa_code_text` on a string slice.
fn is_two_fa_code_str(s: &str) -> (r: bool)
    ensures
        r == is_two_fa_code_text(s@),
{
    if s.unicode_len() != 6 {
        return false;
    }
    if s.get_char(0) == '0' {
        return false;
    }
    let mut i: usize = 0;
    while i < 6
        invariant
            0 <= i <= 6,
            s@.len() == 6,
            s@[0] != '0',
            forall|j: int| 0 <= j < i ==> '0' <= #[trigger] s@[j] && s@[j] <= '9',
        decreases 6 - i,
    {
        let c = s.get_char(i);
        if !('0' <= c && c <= '9') {
            return false;
        }
        i = i + 1;
    }
    true
}

/// The one-character string for a decimal digit.
fn digit_str(d: u32) -> (r: &'static str)
    requires
        d < 10,
    ensures
        r@.len() == 1,
        r@[0] == digit_char(d as int),
{
    proof {
        reveal_strlit("0");
        reveal_strlit("1");
        reveal_strlit("2");
        reveal_strlit("3");
        reveal_strlit("4");
        reveal_strlit("5");
        reveal_strlit("6");
        reveal_strlit("7");
        reveal_strlit("8");
        reveal_strlit("9");
    }
    match d {
        0 => "0",
        1 => "1",
        2 => "2",
        3 => "3",
        4 => "4",
        5 => "5",
        6 => "6",
        7 => "7",
        8 => "8",
        _ => "9",
    }
}

/// Writes a value below one million as its six decimal digits.
fn format_six_digits(n: u32) -> (r: String)
    requires
        100000 <= n < 1000000,
    ensures
        r@ == code_digits(n as int),
        is_two_fa_code_text(r@),
{
    let mut s = String::new();
    s.append(digit_str(n / 100000 % 10));
    s.append(digit_str(n / 10000 % 10));
    s.append(digit_str(n / 1000 % 10));
    s.append(digit_str(n / 100 % 10));
    s.append(digit_str(n / 10 % 10));
    s.append(digit_str(n % 10));
    proof {
        assert(s@ =~= code_digits(n as int));
        assert(n / 100000 % 10 >= 1) by {
            assert(n / 100000 >= 1);
            assert(n / 100000 <= 9);
        }
        assert forall|i: int| 0 <= i < 6 implies '0' <= #[trigger] code_digits(n as int)[i]
            && code_digits(n as int)[i] <= '9' by {
            lemma_digit_char_bounds(n as int, i);
        }
    }
    s
}

/// Each of the six digit positions holds a decimal digit character.
proof fn lemma_digit_char_bounds(n: int, i: int)
    requires
        0 <= n,
        0 <= i < 6,
    ensures
        '0' <= code_digits(n)[i] && code_digits(n)[i] <= '9',
{
    let d = if i == 0 {
        n / 100000 % 10
    } else if i == 1 {
        n / 10000 % 10
    } else if i == 2 {
        n / 1000 % 10
    } else if i == 3 {
        n / 100 % 10
    } else if i == 4 {
        n / 10 % 10
    } else {
        n % 10
    };
    assert(0 <= d < 10);
    assert(code_digits(n)[i] == digit_char(d));
}

} // verus!
