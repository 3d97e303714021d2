use vstd::hash_map::StringHashMap;
use vstd::prelude::*;

use crate::domain::data_stores::{
    ChallengeMap, LoginAttemptId, TwoFACode, TwoFACodeStore, TwoFACodeStoreError,
};
use crate::domain::email::Email;

verus! {

/// Pending challenges in memory, keyed by address.
pub struct HashmapTwoFACodeStore {
    codes: StringHashMap<(TwoFACode, LoginAttemptId)>,
}

impl HashmapTwoFACodeStore {
    /// An empty store.
    pub fn new() -> (r: HashmapTwoFACodeStore)
        ensures
            r.challenges() == ChallengeMap::empty(),
            r.challenges().dom().finite(),
    {
        let r = HashmapTwoFACodeStore { codes: StringHashMap::new() };
        assert(r.challenges() =~= ChallengeMap::empty());
        r
    }
}

impl Default for HashmapTwoFACodeStore {
    fn default() -> (r: HashmapTwoFACodeStore)
        ensures
            r.challenges() == ChallengeMap::empty(),
            r.challenges().dom().finite(),
    {
        HashmapTwoFACodeStore::new()
    }
}

impl TwoFACodeStore for HashmapTwoFACodeStore {
    open spec fn never_fails(&self) -> bool {
        true
    }

    closed spec fn challenges(&self) -> ChallengeMap {
        self.codes@.map_values(|v: (TwoFACode, LoginAttemptId)| (v.0@, v.1@))
    }

    fn add_code(&mut self, email: &Email, code: TwoFACode, login_attempt_id: LoginAttemptId) -> (r:
        Result<(), TwoFACodeStoreError>)
        ensures
            r is Ok,
    {
        self.codes.insert(email.0.clone(), (code, login_attempt_id));
        assert(self.challenges() =~= old(self).challenges().insert(
            email@,
            (code@, login_attempt_id@),
        ));
        Ok(())
    }

    fn get_code(&self, email: &Email) -> (r: Result<(TwoFACode, LoginAttemptId), TwoFACodeStoreError>)
        ensures
            r is Ok <==> self.challenges().contains_key(email@),
    {
        match self.codes.get(email.as_ref()) {
            Some(entry) => Ok((entry.0.duplicate(), entry.1.duplicate())),
            None => Err(TwoFACodeStoreError::LoginAttemptIdNotFound),
        }
    }

    fn remove_code(&mut self, email: &Email) -> (r: Result<(), TwoFACodeStoreError>)
        ensures
            r is Ok,
    {
        self.codes.remove(email.as_ref());
        assert(self.challenges() =~= old(self).challenges().remove(email@));
        Ok(())
    }
}

/// A second challenge for an address replaces the first: the store is as if
/// only the second had been put, and reading the address gives the second.
pub proof fn lemma_put_overwrites(
    challenges: ChallengeMap,
    email: Seq<char>,
    first: (Seq<char>, Seq<char>),
    second: (Seq<char>, Seq<char>),
)
    ensures
        challenges.insert(email, first).insert(email, second) == challenges.insert(email, second),
        challenges.insert(email, first).insert(email, second)[email] == second,
{
    assert(challenges.insert(email, first).insert(email, second) =~= challenges.insert(
        email,
        second,
    ));
}

} // verus!
