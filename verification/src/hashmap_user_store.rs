//! The in-memory credential store used for tests and local runs.

use vstd::prelude::*;
use crate::data_stores::{UserStore, UserStoreError};
use crate::email::Email;
use crate::password::Password;
use crate::user::{User, UserRecord};

verus! {

/// The map described by a sequence of user records, later entries winning.
pub open spec fn user_map_of(s: Seq<User>) -> Map<Seq<char>, UserRecord>
    decreases s.len(),
{
    if s.len() == 0 {
        Map::empty()
    } else {
        user_map_of(s.drop_last()).insert(s.last().email@, s.last()@)
    }
}

/// No two entries share an identity.
pub open spec fn distinct_emails(s: Seq<User>) -> bool {
    forall|i: int, j: int| 0 <= i < j < s.len() ==> s[i].email@ != s[j].email@
}

proof fn lemma_user_map_contains(s: Seq<User>, k: Seq<char>)
    ensures
        user_map_of(s).contains_key(k) <==> exists|i: int| 0 <= i < s.len() && s[i].email@ == k,
    decreases s.len(),
{
    if s.len() > 0 {
        lemma_user_map_contains(s.drop_last(), k);
        if s.last().email@ == k {
            assert(s[s.len() - 1].email@ == k);
        } else if user_map_of(s).contains_key(k) {
            let i = choose|i: int| 0 <= i < s.drop_last().len() && s.drop_last()[i].email@ == k;
            assert(s[i].email@ == k);
        } else if exists|i: int| 0 <= i < s.len() && s[i].email@ == k {
            let i = choose|i: int| 0 <= i < s.len() && s[i].email@ == k;
            assert(s.drop_last()[i].email@ == k);
        }
    }
}

proof fn lemma_user_map_get(s: Seq<User>, i: int)
    requires
        distinct_emails(s),
        0 <= i < s.len(),
    ensures
        user_map_of(s).contains_key(s[i].email@),
        user_map_of(s)[s[i].email@] == s[i]@,
    decreases s.len(),
{
    lemma_user_map_contains(s, s[i].email@);
    if i < s.len() - 1 {
        lemma_user_map_get(s.drop_last(), i);
        assert(s.drop_last()[i] == s[i]);
        assert(s.last().email@ != s[i].email@);
    }
}

/// A credential store backed by process memory.  Starts with one
/// administrator account so local runs have a known login.
pub struct HashmapUserStore {
    users: Vec<User>,
}

impl HashmapUserStore {
    /// Finds the index of the record for `email`, if one is stored.
    fn find(&self, email: &Email) -> (r: Option<usize>)
        ensures
            match r {
                Some(i) => i < self.users@.len() && self.users@[i as int].email@ == email@,
                None => forall|i: int|
                    0 <= i < self.users@.len() ==> self.users@[i].email@ != email@,
            },
    {
        let n = self.users.len();
        let mut i: usize = 0;
        while i < n
            invariant
                n == self.users@.len(),
                0 <= i <= n,
                forall|j: int| 0 <= j < i ==> self.users@[j].email@ != email@,
            decreases n - i,
        {
            if self.users[i].email == *email {
                return Some(i);
            }
            i = i + 1;
        }
        None
    }
}

impl Default for HashmapUserStore {
    /// An in-memory store holding the administrator account, when the
    /// administrator address passes the e-mail syntax check.
    fn default() -> (r: HashmapUserStore)
        ensures
            r.inv(),
            !crate::email::is_valid_email("admin@email.com"@) ==> r.users() == Map::<
                Seq<char>,
                UserRecord,
            >::empty(),
            crate::email::is_valid_email("admin@email.com"@) ==> r.users() == Map::<
                Seq<char>,
                UserRecord,
            >::empty().insert(
                "admin@email.com"@,
                UserRecord {
                    email: "admin@email.com"@,
                    password: "12341234"@,
                    requires_2fa: false,
                },
            ),
    {
        let mut store = HashmapUserStore { users: Vec::new() };
        let admin_email = Email::parse("admin@email.com".to_owned());
        let admin_password = Password::parse("12341234".to_owned());
        proof {
            reveal_strlit("12341234");
        }
        match (admin_email, admin_password) {
            (Ok(email), Ok(password)) => {
                let admin = User::new(email, password, false);
                store.users.push(admin);
                proof {
                    let ghost s = store.users@;
                    assert(s.drop_last() =~= Seq::<User>::empty());
                    assert(user_map_of(s.drop_last()) =~= Map::<Seq<char>, UserRecord>::empty());
                    assert(s.last()@ == UserRecord {
                        email: "admin@email.com"@,
                        password: "12341234"@,
                        requires_2fa: false,
                    });
                    assert(store.users() =~= Map::<Seq<char>, UserRecord>::empty().insert(
                        "admin@email.com"@,
                        UserRecord {
                            email: "admin@email.com"@,
                            password: "12341234"@,
                            requires_2fa: false,
                        },
                    ));
                }
            },
            _ => {},
        }
        store
    }
}

impl UserStore for HashmapUserStore {
    closed spec fn inv(&self) -> bool {
        distinct_emails(self.users@)
    }

    closed spec fn users(&self) -> Map<Seq<char>, UserRecord> {
        user_map_of(self.users@)
    }

    fn add_user(&mut self, user: User) -> (r: Result<(), UserStoreError>)
        ensures
            !old(self).users().contains_key(user.email@) ==> r == Ok::<(), UserStoreError>(())
                && final(self).users() == old(self).users().insert(user.email@, user@),
    {
        proof {
            lemma_user_map_contains(self.users@, user.email@);
        }
        match self.find(&user.email) {
            Some(_) => Err(UserStoreError::UserAlreadyExists),
            None => {
                let ghost old_users = self.users@;
                self.users.push(user);
                proof {
                    assert(self.users@.drop_last() =~= old_users);
                }
                Ok(())
            },
        }
    }

    fn get_user(&self, email: &Email) -> (r: Result<User, UserStoreError>)
        ensures
            self.users().contains_key(email@) ==> r is Ok,
            !self.users().contains_key(email@) ==> r == Err::<User, UserStoreError>(
                UserStoreError::UserNotFound,
            ),
    {
        proof {
            lemma_user_map_contains(self.users@, email@);
        }
        match self.find(email) {
            Some(i) => {
                proof {
                    lemma_user_map_get(self.users@, i as int);
                }
                Ok(self.users[i].clone())
            },
            None => Err(UserStoreError::UserNotFound),
        }
    }

    fn validate_user(&self, email: &Email, password: &Password) -> (r: Result<(), UserStoreError>)
        ensures
            self.users().contains_key(email@) && self.users()[email@].password == password@ ==> r
                == Ok::<(), UserStoreError>(()),
            self.users().contains_key(email@) && self.users()[email@].password != password@ ==> r
                == Err::<(), UserStoreError>(UserStoreError::InvalidCredentials),
            !self.users().contains_key(email@) ==> r == Err::<(), UserStoreError>(
                UserStoreError::UserNotFound,
            ),
    {
        proof {
            lemma_user_map_contains(self.users@, email@);
        }
        match self.find(email) {
            Some(i) => {
                proof {
                    lemma_user_map_get(self.users@, i as int);
                }
                if self.users[i].password == *password {
                    Ok(())
                } else {
                    Err(UserStoreError::InvalidCredentials)
                }
            },
            None => Err(UserStoreError::UserNotFound),
        }
    }
}

} // verus!
