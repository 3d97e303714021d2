use vstd::prelude::*;

use crate::domain::data_stores::UserStoreError;
use crate::domain::email::{is_email_shape, Email};
use crate::domain::password::{meets_password_policy, Password};

verus! {

/// An account: its address, its password and whether it signs in with a
/// second factor.
#[derive(Clone)]
pub struct User {
    pub email: Email,
    pub password: Password,
    pub requires_2fa: bool,
}

impl PartialEq for User {
    fn eq(&self, other: &User) -> (r: bool) {
        self.email == other.email && self.password == other.password && self.requires_2fa
            == other.requires_2fa
    }
}

impl vstd::std_specs::cmp::PartialEqSpecImpl for User {
    open spec fn obeys_eq_spec() -> bool {
        true
    }

    open spec fn eq_spec(&self, other: &User) -> bool {
        self.email@ == other.email@ && self.password@ == other.password@ && self.requires_2fa
            == other.requires_2fa
    }
}

impl Eq for User {

}

impl User {
    /// A user from raw input: fails with `InvalidCredentials` unless the
    /// address has the accepted shape and the password meets the policy.
    pub fn new(email: String, password: String, requires_2fa: bool) -> (r: Result<
        User,
        UserStoreError,
    >)
        ensures
            r is Ok <==> is_email_shape(email@) && meets_password_policy(password@),
            r matches Err(e) ==> e == UserStoreError::InvalidCredentials,
            r matches Ok(u) ==> u.email@ == email@ && u.password@ == password@ && u.requires_2fa
                == requires_2fa,
    {
        let email = match Email::parse(email.as_str()) {
            Ok(e) => e,
            Err(_) => return Err(UserStoreError::InvalidCredentials),
        };
        let password = match Password::parse(password) {
            Ok(p) => p,
            Err(_) => return Err(UserStoreError::InvalidCredentials),
        };
        Ok(User { email, password, requires_2fa })
    }

    /// A user whose password is taken as it is (a stored hash): only the
    /// address is checked.
    pub fn new_with_fake_password(email: String, password: String, requires_2fa: bool) -> (r:
        Result<User, UserStoreError>)
        ensures
            r is Ok <==> is_email_shape(email@),
            r matches Err(e) ==> e == UserStoreError::InvalidCredentials,
            r matches Ok(u) ==> u.email@ == email@ && u.password@ == password@ && u.requires_2fa
                == requires_2fa,
    {
        let email = match Email::parse(email.as_str()) {
            Ok(e) => e,
            Err(_) => return Err(UserStoreError::InvalidCredentials),
        };
        Ok(User { email, password: Password::fake(password), requires_2fa })
    }

    /// An exact copy.
    pub fn duplicate(&self) -> (r: User)
        ensures
            r == *self,
    {
        User {
            email: Email(self.email.0.clone()),
            password: self.password.duplicate(),
            requires_2fa: self.requires_2fa,
        }
    }
}

} // verus!
