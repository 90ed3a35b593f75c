//! The in-memory deny-list of revoked session tokens.

use vstd::prelude::*;
use crate::data_stores::{BannedTokenStore, BannedTokenStoreError};

verus! {

/// The set of tokens held in a sequence.
pub open spec fn token_set_of(s: Seq<String>) -> Set<Seq<char>>
    decreases s.len(),
{
    if s.len() == 0 {
        Set::empty()
    } else {
        token_set_of(s.drop_last()).insert(s.last()@)
    }
}

proof fn lemma_token_set_contains(s: Seq<String>, k: Seq<char>)
    ensures
        token_set_of(s).contains(k) <==> exists|i: int| 0 <= i < s.len() && s[i]@ == k,
    decreases s.len(),
{
    if s.len() > 0 {
        lemma_token_set_contains(s.drop_last(), k);
        if s.last()@ == k {
            assert(s[s.len() - 1]@ == k);
        } else if token_set_of(s).contains(k) {
            let i = choose|i: int| 0 <= i < s.drop_last().len() && s.drop_last()[i]@ == k;
            assert(s[i]@ == k);
        } else if exists|i: int| 0 <= i < s.len() && s[i]@ == k {
            let i = choose|i: int| 0 <= i < s.len() && s[i]@ == k;
            assert(s.drop_last()[i]@ == k);
        }
    }
}

/// A revoked-token store backed by process memory.
pub struct HashsetBannedTokenStore {
    tokens: Vec<String>,
}

impl HashsetBannedTokenStore {
    /// Whether some stored token has the same characters as `token`.
    fn find(&self, token: &str) -> (r: bool)
        ensures
            r <==> exists|i: int| 0 <= i < self.tokens@.len() && self.tokens@[i]@ == token@,
    {
        let owned = token.to_owned();
        let n = self.tokens.len();
        let mut i: usize = 0;
        while i < n
            invariant
                n == self.tokens@.len(),
                0 <= i <= n,
                owned@ == token@,
                forall|j: int| 0 <= j < i ==> self.tokens@[j]@ != token@,
            decreases n - i,
        {
            if self.tokens[i] == owned {
                return true;
            }
            i = i + 1;
        }
        false
    }

    /// Reports a stored token as present, and an unknown one as
    /// `TokenNotFound`.
    pub fn get_token(&self, token: &str) -> (r: Result<(), BannedTokenStoreError>)
        ensures
            r == Ok::<(), BannedTokenStoreError>(()) <==> self.tokens().contains(token@),
            r is Err ==> r == Err::<(), BannedTokenStoreError>(BannedTokenStoreError::TokenNotFound),
    {
        proof {
            lemma_token_set_contains(self.tokens@, token@);
        }
        if self.find(token) {
            Ok(())
        } else {
            Err(BannedTokenStoreError::TokenNotFound)
        }
    }
}

impl Default for HashsetBannedTokenStore {
    /// An empty deny-list.
    fn default() -> (r: HashsetBannedTokenStore)
        ensures
            r.inv(),
            r.tokens() == Set::<Seq<char>>::empty(),
    {
        HashsetBannedTokenStore { tokens: Vec::new() }
    }
}

impl BannedTokenStore for HashsetBannedTokenStore {
    closed spec fn inv(&self) -> bool {
        true
    }

    closed spec fn tokens(&self) -> Set<Seq<char>> {
        token_set_of(self.tokens@)
    }

    fn store_token(&mut self, token: String) -> (r: Result<(), BannedTokenStoreError>)
        ensures
            !old(self).tokens().contains(token@) ==> r == Ok::<(), BannedTokenStoreError>(())
                && final(self).tokens() == old(self).tokens().insert(token@),
    {
        proof {
            lemma_token_set_contains(self.tokens@, token@);
        }
        if self.find(token.as_str()) {
            Err(BannedTokenStoreError::TokenAlreadyExists)
        } else {
            let ghost old_tokens = self.tokens@;
            self.tokens.push(token);
            proof {
                assert(self.tokens@.drop_last() =~= old_tokens);
            }
            Ok(())
        }
    }

    fn contains_token(&self, token: &str) -> (r: Result<bool, BannedTokenStoreError>)
        ensures
            r is Ok,
    {
        proof {
            lemma_token_set_contains(self.tokens@, token@);
        }
        Ok(self.find(token))
    }
}

} // verus!
