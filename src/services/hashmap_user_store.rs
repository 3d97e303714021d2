use vstd::hash_map::StringHashMap;
use vstd::prelude::*;

use crate::domain::data_stores::{UserStore, UserStoreError};
use crate::domain::email::Email;
use crate::domain::password::Password;
use crate::domain::user::User;

verus! {

/// The outcome of adding `user` to accounts `users`: the result and the
/// accounts after.
pub open spec fn spec_add_user(users: Map<Seq<char>, User>, user: User) -> (
    Result<(), UserStoreError>,
    Map<Seq<char>, User>,
) {
    if users.contains_key(user.email@) {
        (Err(UserStoreError::UserAlreadyExists), users)
    } else {
        (Ok(()), users.insert(user.email@, user))
    }
}

/// The outcome of checking `password` for `email` against accounts `users`
/// that keep passwords as they were given.
pub open spec fn spec_validate_user(
    users: Map<Seq<char>, User>,
    email: Seq<char>,
    password: Seq<char>,
) -> Result<(), UserStoreError> {
    if !users.contains_key(email) {
        Err(UserStoreError::UserNotFound)
    } else if users[email].password@ == password {
        Ok(())
    } else {
        Err(UserStoreError::InvalidCredentials)
    }
}

/// Accounts in memory, for tests and for a process without a database. The
/// password is kept as it was given.
pub struct HashmapUserStore {
    users: StringHashMap<User>,
}

impl HashmapUserStore {
    /// An empty store.
    pub fn new() -> (r: HashmapUserStore)
        ensures
            r.users() == Map::<Seq<char>, User>::empty(),
            r.users().dom().finite(),
    {
        HashmapUserStore { users: StringHashMap::new() }
    }

    /// The number of accounts.
    pub fn len(&self) -> (r: usize)
        ensures
            r == self.users().len(),
    {
        self.users.len()
    }
}

impl Default for HashmapUserStore {
    fn default() -> (r: HashmapUserStore)
        ensures
            r.users() == Map::<Seq<char>, User>::empty(),
            r.users().dom().finite(),
    {
        HashmapUserStore::new()
    }
}

impl UserStore for HashmapUserStore {
    closed spec fn users(&self) -> Map<Seq<char>, User> {
        self.users@
    }

    open spec fn never_fails(&self) -> bool {
        true
    }

    open spec fn accepts(&self, email: Seq<char>, password: Seq<char>) -> bool {
        self.users().contains_key(email) && self.users()[email].password@ == password
    }

    fn add_user(&mut self, user: User) -> (r: Result<(), UserStoreError>)
        ensures
            (r, final(self).users()) == spec_add_user(old(self).users(), user),
    {
        if self.users.contains_key(user.email.as_ref()) {
            Err(UserStoreError::UserAlreadyExists)
        } else {
            let key = user.email.0.clone();
            self.users.insert(key, user);
            Ok(())
        }
    }

    fn get_user(&self, email: &Email) -> (r: Result<User, UserStoreError>)
        ensures
            self.users().contains_key(email@) ==> r == Ok::<User, UserStoreError>(
                self.users()[email@],
            ),
            !self.users().contains_key(email@) ==> r == Err::<User, UserStoreError>(
                UserStoreError::UserNotFound,
            ),
    {
        match self.users.get(email.as_ref()) {
            Some(u) => Ok(u.duplicate()),
            None => Err(UserStoreError::UserNotFound),
        }
    }

    fn validate_user(&self, email: &Email, password: &Password) -> (r: Result<(), UserStoreError>)
        ensures
            r == spec_validate_user(self.users(), email@, password@),
    {
        match self.get_user(email) {
            Ok(user) => {
                if user.password == *password {
                    Ok(())
                } else {
                    Err(UserStoreError::InvalidCredentials)
                }
            },
            Err(e) => Err(e),
        }
    }
}

/// Adding a user to a store that does not hold its address succeeds, and
/// reading the address back gives that very user, with its second-factor
/// flag unchanged.
pub proof fn lemma_add_then_get_round_trips(users: Map<Seq<char>, User>, user: User)
    requires
        !users.contains_key(user.email@),
    ensures
        spec_add_user(users, user).0 is Ok,
        spec_add_user(users, user).1.contains_key(user.email@),
        spec_add_user(users, user).1[user.email@] == user,
        spec_add_user(users, user).1[user.email@].requires_2fa == user.requires_2fa,
{
}

/// Adding two users with the same address, one after the other, to a store
/// without it: the first succeeds, the second is `UserAlreadyExists`, and the
/// store keeps the first.
pub proof fn lemma_add_same_email_twice(users: Map<Seq<char>, User>, first: User, second: User)
    requires
        !users.contains_key(first.email@),
        second.email@ == first.email@,
    ensures
        spec_add_user(users, first).0 is Ok,
        spec_add_user(spec_add_user(users, first).1, second).0 == Err::<(), UserStoreError>(
            UserStoreError::UserAlreadyExists,
        ),
        spec_add_user(spec_add_user(users, first).1, second).1 == users.insert(first.email@, first),
{
}

/// After a user is added, checking a password for its address succeeds
/// exactly when it is the stored password, and fails with
/// `InvalidCredentials` otherwise; an address that was never added is
/// `UserNotFound`.
pub proof fn lemma_validate_after_add(
    users: Map<Seq<char>, User>,
    user: User,
    email: Seq<char>,
    password: Seq<char>,
)
    requires
        !users.contains_key(user.email@),
    ensures
        ({
            let after = spec_add_user(users, user).1;
            &&& spec_validate_user(after, user.email@, password) is Ok <==> password
                == user.password@
            &&& password != user.password@ ==> spec_validate_user(after, user.email@, password)
                == Err::<(), UserStoreError>(UserStoreError::InvalidCredentials)
            &&& !users.contains_key(email) && email != user.email@ ==> spec_validate_user(
                after,
                email,
                password,
            ) == Err::<(), UserStoreError>(UserStoreError::UserNotFound)
        }),
{
}

/// Every account is filed under its own address.
pub open spec fn keyed_by_email(users: Map<Seq<char>, User>) -> bool {
    forall|k: Seq<char>| #[trigger] users.contains_key(k) ==> users[k].email@ == k
}

/// Adding users, starting from an empty store, keeps every account filed
/// under its own address.
pub proof fn lemma_add_keeps_accounts_keyed_by_email(users: Map<Seq<char>, User>, user: User)
    requires
        keyed_by_email(users),
    ensures
        keyed_by_email(Map::<Seq<char>, User>::empty()),
        keyed_by_email(spec_add_user(users, user).1),
{
}

/// In a store of finitely many accounts, adding a user with a new address
/// counts one account more; a rejected add leaves the count as it was.
pub proof fn lemma_add_user_counts(users: Map<Seq<char>, User>, user: User)
    requires
        users.dom().finite(),
    ensures
        spec_add_user(users, user).1.dom().finite(),
        spec_add_user(users, user).0 is Ok ==> spec_add_user(users, user).1.len() == users.len() + 1,
        spec_add_user(users, user).0 is Err ==> spec_add_user(users, user).1.len() == users.len(),
{
}

} // verus!
