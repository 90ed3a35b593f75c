//! The in-memory store of pending second-factor challenges.

use vstd::prelude::*;
use crate::data_stores::{LoginAttemptId, TwoFACode, TwoFACodeStore, TwoFACodeStoreError};
use crate::email::Email;

verus! {

/// One pending challenge: the identity and its (attempt-id, code) pair.
pub type CodeEntry = (Email, (LoginAttemptId, TwoFACode));

/// The map described by a sequence of challenges, later entries winning.
pub open spec fn code_map_of(s: Seq<CodeEntry>) -> Map<Seq<char>, (Seq<char>, Seq<char>)>
    decreases s.len(),
{
    if s.len() == 0 {
        Map::empty()
    } else {
        code_map_of(s.drop_last()).insert(s.last().0@, (s.last().1.0@, s.last().1.1@))
    }
}

/// No two entries share an identity.
pub open spec fn distinct_code_emails(s: Seq<CodeEntry>) -> bool {
    forall|i: int, j: int| 0 <= i < j < s.len() ==> s[i].0@ != s[j].0@
}

proof fn lemma_code_map_contains(s: Seq<CodeEntry>, k: Seq<char>)
    ensures
        code_map_of(s).contains_key(k) <==> exists|i: int| 0 <= i < s.len() && s[i].0@ == k,
    decreases s.len(),
{
    if s.len() > 0 {
        lemma_code_map_contains(s.drop_last(), k);
        if s.last().0@ == k {
            assert(s[s.len() - 1].0@ == k);
        } else if code_map_of(s).contains_key(k) {
            let i = choose|i: int| 0 <= i < s.drop_last().len() && s.drop_last()[i].0@ == k;
            assert(s[i].0@ == k);
        } else if exists|i: int| 0 <= i < s.len() && s[i].0@ == k {
            let i = choose|i: int| 0 <= i < s.len() && s[i].0@ == k;
            assert(s.drop_last()[i].0@ == k);
        }
    }
}

proof fn lemma_code_map_get(s: Seq<CodeEntry>, i: int)
    requires
        distinct_code_emails(s),
        0 <= i < s.len(),
    ensures
        code_map_of(s).contains_key(s[i].0@),
        code_map_of(s)[s[i].0@] == (s[i].1.0@, s[i].1.1@),
    decreases s.len(),
{
    lemma_code_map_contains(s, s[i].0@);
    if i < s.len() - 1 {
        lemma_code_map_get(s.drop_last(), i);
        assert(s.drop_last()[i] == s[i]);
        assert(s.last().0@ != s[i].0@);
    }
}

/// Removing the entry at `i` removes exactly its key from the map.
proof fn lemma_code_map_remove(s: Seq<CodeEntry>, i: int)
    requires
        distinct_code_emails(s),
        0 <= i < s.len(),
    ensures
        distinct_code_emails(s.remove(i)),
        code_map_of(s.remove(i)) == code_map_of(s).remove(s[i].0@),
    decreases s.len(),
{
    s.remove_ensures(i);
    assert forall|a: int, b: int| 0 <= a < b < s.remove(i).len() implies s.remove(i)[a].0@ != s.remove(
        i,
    )[b].0@ by {
        if b < i {
            assert(s[a].0@ != s[b].0@);
        } else if a < i {
            assert(s[a].0@ != s[b + 1].0@);
        } else {
            assert(s[a + 1].0@ != s[b + 1].0@);
        }
    }
    let k = s[i].0@;
    if i == s.len() - 1 {
        assert(s.remove(i) =~= s.drop_last());
        lemma_code_map_contains(s.drop_last(), k);
        assert(!code_map_of(s.drop_last()).contains_key(k));
        assert(code_map_of(s.drop_last()) =~= code_map_of(s.drop_last()).insert(
            k,
            (s.last().1.0@, s.last().1.1@),
        ).remove(k));
    } else {
        lemma_code_map_remove(s.drop_last(), i);
        assert(s.remove(i).drop_last() =~= s.drop_last().remove(i));
        assert(s.remove(i).last() == s.last());
        assert(s.drop_last()[i] == s[i]);
        let klast = s.last().0@;
        let vlast = (s.last().1.0@, s.last().1.1@);
        assert(s[i].0@ != klast);
        assert(code_map_of(s.remove(i)) == code_map_of(s.drop_last()).remove(k).insert(
            klast,
            vlast,
        ));
        assert(code_map_of(s.drop_last()).remove(k).insert(klast, vlast) =~= code_map_of(
            s.drop_last(),
        ).insert(klast, vlast).remove(k));
    }
}

/// A second-factor code store backed by process memory.
pub struct HashmapTwoFACodeStore {
    codes: Vec<CodeEntry>,
}

impl HashmapTwoFACodeStore {
    /// Finds the index of the pending challenge for `email`, if any.
    fn find(&self, email: &Email) -> (r: Option<usize>)
        ensures
            match r {
                Some(i) => i < self.codes@.len() && self.codes@[i as int].0@ == email@,
                None => forall|i: int|
                    0 <= i < self.codes@.len() ==> self.codes@[i].0@ != email@,
            },
    {
        let n = self.codes.len();
        let mut i: usize = 0;
        while i < n
            invariant
                n == self.codes@.len(),
                0 <= i <= n,
                forall|j: int| 0 <= j < i ==> self.codes@[j].0@ != email@,
            decreases n - i,
        {
            if self.codes[i].0 == *email {
                return Some(i);
            }
            i = i + 1;
        }
        None
    }
}

impl Default for HashmapTwoFACodeStore {
    /// An empty challenge store.
    fn default() -> (r: HashmapTwoFACodeStore)
        ensures
            r.inv(),
            r.codes() == Map::<Seq<char>, (Seq<char>, Seq<char>)>::empty(),
    {
        HashmapTwoFACodeStore { codes: Vec::new() }
    }
}

impl TwoFACodeStore for HashmapTwoFACodeStore {
    closed spec fn inv(&self) -> bool {
        distinct_code_emails(self.codes@)
    }

    closed spec fn codes(&self) -> Map<Seq<char>, (Seq<char>, Seq<char>)> {
        code_map_of(self.codes@)
    }

    fn add_code(&mut self, email: Email, login_attempt_id: LoginAttemptId, code: TwoFACode) -> (r:
        Result<(), TwoFACodeStoreError>)
        ensures
            r == Ok::<(), TwoFACodeStoreError>(()),
    {
        let ghost k = email@;
        match self.find(&email) {
            Some(i) => {
                proof {
                    lemma_code_map_remove(self.codes@, i as int);
                }
                let ghost after_remove = self.codes@.remove(i as int);
                let _ = self.codes.remove(i);
                let ghost before_push = self.codes@;
                self.codes.push((email, (login_attempt_id, code)));
                proof {
                    assert(self.codes@.drop_last() =~= before_push);
                    lemma_code_map_contains(before_push, k);
                    assert(forall|j: int|
                        0 <= j < before_push.len() ==> before_push[j].0@ != k);
                    assert(distinct_code_emails(self.codes@));
                    assert(code_map_of(self.codes@) =~= old(self).codes().insert(
                        k,
                        (login_attempt_id@, code@),
                    ));
                }
                Ok(())
            },
            None => {
                let ghost before_push = self.codes@;
                self.codes.push((email, (login_attempt_id, code)));
                proof {
                    assert(self.codes@.drop_last() =~= before_push);
                    assert(distinct_code_emails(self.codes@));
                }
                Ok(())
            },
        }
    }

    fn get_code(&self, email: &Email) -> (r: Result<
        (LoginAttemptId, TwoFACode),
        TwoFACodeStoreError,
    >)
        ensures
            self.codes().contains_key(email@) ==> r is Ok,
            !self.codes().contains_key(email@) ==> r == Err::<
                (LoginAttemptId, TwoFACode),
                TwoFACodeStoreError,
            >(TwoFACodeStoreError::LoginAttemptIdNotFound),
    {
        proof {
            lemma_code_map_contains(self.codes@, email@);
        }
        match self.find(email) {
            Some(i) => {
                proof {
                    lemma_code_map_get(self.codes@, i as int);
                }
                let pair = &self.codes[i].1;
                Ok((pair.0.clone(), pair.1.clone()))
            },
            None => Err(TwoFACodeStoreError::LoginAttemptIdNotFound),
        }
    }

    fn remove_code(&mut self, email: &Email) -> (r: Result<(), TwoFACodeStoreError>)
        ensures
            r == Ok::<(), TwoFACodeStoreError>(()),
    {
        proof {
            lemma_code_map_contains(self.codes@, email@);
        }
        match self.find(email) {
            Some(i) => {
                proof {
                    lemma_code_map_remove(self.codes@, i as int);
                }
                let _ = self.codes.remove(i);
                Ok(())
            },
            None => {
                proof {
                    assert(old(self).codes() =~= old(self).codes().remove(email@));
                }
                Ok(())
            },
        }
    }
}

} // verus!
