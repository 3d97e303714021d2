use vstd::prelude::*;

use crate::domain::data_stores::{UserStore, UserStoreError};
use crate::domain::email::is_email_shape;
use crate::domain::error::AuthAPIError;
use crate::domain::password::meets_password_policy;
use crate::domain::user::User;

verus! {

/// A request to open an account.
#[derive(Debug, Clone)]
pub struct SignupRequest {
    pub email: String,
    pub password: String,
    pub requires_2fa: bool,
}

/// `u` is the account that `request` describes.
pub open spec fn user_of_request(u: User, request: SignupRequest) -> bool {
    &&& u.email@ == request.email@
    &&& u.password@ == request.password@
    &&& u.requires_2fa == request.requires_2fa
}

/// Opens the account that `request` describes. Malformed input is
/// `InvalidCredentials`, a taken address `UserAlreadyExists`, a backend
/// failure `UnexpectedError`; only success changes the store.
pub fn signup<U: UserStore + ?Sized>(users: &mut U, request: SignupRequest) -> (r: Result<(), AuthAPIError>)
    ensures
        !(is_email_shape(request.email@) && meets_password_policy(request.password@)) <==> r
            == Err::<(), AuthAPIError>(AuthAPIError::InvalidCredentials),
        old(users).never_fails() && is_email_shape(request.email@) && meets_password_policy(
            request.password@,
        ) && old(users).users().contains_key(request.email@) ==> r == Err::<(), AuthAPIError>(
            AuthAPIError::UserAlreadyExists,
        ),
        r is Ok ==> !old(users).users().contains_key(request.email@) && exists|u: User|
            user_of_request(u, request) && final(users).users() == old(users).users().insert(
                request.email@,
                u,
            ),
        r == Err::<(), AuthAPIError>(AuthAPIError::UserAlreadyExists) ==> old(users).users().contains_key(request.email@),
        r is Err ==> final(users).users() == old(users).users(),
        final(users).never_fails() == old(users).never_fails(),
        old(users).never_fails() && is_email_shape(request.email@) && meets_password_policy(
            request.password@,
        ) ==> (r is Ok <==> !old(users).users().contains_key(request.email@)),
        old(users).never_fails() && r is Err ==> r == Err::<(), AuthAPIError>(
            AuthAPIError::InvalidCredentials,
        ) || r == Err::<(), AuthAPIError>(AuthAPIError::UserAlreadyExists),
        r is Err ==> r == Err::<(), AuthAPIError>(AuthAPIError::InvalidCredentials) || r == Err::<
            (),
            AuthAPIError,
        >(AuthAPIError::UserAlreadyExists) || r == Err::<(), AuthAPIError>(
            AuthAPIError::UnexpectedError,
        ),
{
    let ghost req = request;
    let user = match User::new(request.email, request.password, request.requires_2fa) {
        Ok(u) => u,
        Err(_) => return Err(AuthAPIError::InvalidCredentials),
    };
    let ghost added = user;
    match users.add_user(user) {
        Ok(()) => {
            assert(user_of_request(added, req));
            Ok(())
        },
        Err(UserStoreError::UserAlreadyExists) => Err(AuthAPIError::UserAlreadyExists),
        Err(_) => Err(AuthAPIError::UnexpectedError),
    }
}

} // verus!
