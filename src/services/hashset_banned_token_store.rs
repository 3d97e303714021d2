use vstd::hash_set::StringHashSet;
use vstd::prelude::*;
use vstd::string::StringExecFns;

use crate::domain::data_stores::{BannedTokenStore, BannedTokenStoreError};

verus! {

/// Revoked tokens in memory. Entries never expire: a process lifetime bounds
/// how long they are kept.
pub struct HashsetBannedTokenStore {
    banned_tokens: StringHashSet,
}

impl HashsetBannedTokenStore {
    /// An empty store.
    pub fn new() -> (r: HashsetBannedTokenStore)
        ensures
            r.banned() == Set::<Seq<char>>::empty(),
            r.banned().finite(),
    {
        HashsetBannedTokenStore { banned_tokens: StringHashSet::new() }
    }
}

impl Default for HashsetBannedTokenStore {
    fn default() -> (r: HashsetBannedTokenStore)
        ensures
            r.banned() == Set::<Seq<char>>::empty(),
            r.banned().finite(),
    {
        HashsetBannedTokenStore::new()
    }
}

impl BannedTokenStore for HashsetBannedTokenStore {
    open spec fn never_fails(&self) -> bool {
        true
    }

    closed spec fn banned(&self) -> Set<Seq<char>> {
        self.banned_tokens@
    }

    fn add_banned_token(&mut self, token: &str) -> (r: Result<(), BannedTokenStoreError>)
        ensures
            r is Ok,
    {
        self.banned_tokens.insert(String::from_str(token));
        Ok(())
    }

    fn is_token_banned(&self, token: &str) -> (r: Result<bool, BannedTokenStoreError>)
        ensures
            r is Ok,
    {
        Ok(self.banned_tokens.contains(token))
    }

    fn remove_banned_token(&mut self, token: &str) -> (r: Result<(), BannedTokenStoreError>)
        ensures
            r is Ok,
    {
        self.banned_tokens.remove(token);
        Ok(())
    }
}

/// A revoked token stays revoked while other tokens are added or removed,
/// and is no longer revoked once removed; removing a token that is not
/// revoked changes nothing.
pub proof fn lemma_revoked_until_removed(banned: Set<Seq<char>>, token: Seq<char>, other: Seq<char>)
    ensures
        banned.insert(token).contains(token),
        banned.insert(token).insert(other).contains(token),
        other != token ==> banned.insert(token).remove(other).contains(token),
        !banned.insert(token).remove(token).contains(token),
        !banned.contains(other) ==> banned.remove(other) == banned,
{
    if !banned.contains(other) {
        assert(banned.remove(other) =~= banned);
    }
}

/// The revoked tokens after a run of changes, oldest first: `(true, t)`
/// revokes `t`, `(false, t)` forgets it.
pub open spec fn apply_revocations(
    banned: Set<Seq<char>>,
    changes: Seq<(bool, Seq<char>)>,
) -> Set<Seq<char>>
    decreases changes.len(),
{
    if changes.len() == 0 {
        banned
    } else {
        let before = apply_revocations(banned, changes.drop_last());
        let (revoke, t) = changes.last();
        if revoke {
            before.insert(t)
        } else {
            before.remove(t)
        }
    }
}

/// A revoked token stays revoked through any run of changes that never
/// forgets it, whatever other tokens are revoked or forgotten.
pub proof fn lemma_revoked_through_changes(
    banned: Set<Seq<char>>,
    token: Seq<char>,
    changes: Seq<(bool, Seq<char>)>,
)
    requires
        forall|i: int| 0 <= i < changes.len() ==> (#[trigger] changes[i]).0 || changes[i].1 != token,
    ensures
        apply_revocations(banned.insert(token), changes).contains(token),
    decreases changes.len(),
{
    if changes.len() > 0 {
        let rest = changes.drop_last();
        assert forall|i: int| 0 <= i < rest.len() implies (#[trigger] rest[i]).0 || rest[i].1
            != token by {
            assert(rest[i] == changes[i]);
        }
        lemma_revoked_through_changes(banned, token, rest);
        assert(changes.last() == changes[changes.len() - 1]);
    }
}

} // verus!
