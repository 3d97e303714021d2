use vstd::prelude::*;

use crate::domain::data_stores::BannedTokenStore;
use crate::domain::error::AuthAPIError;
use crate::utils::auth::{hs256_signed, validate_token};

verus! {

/// Ends the session of `token`, given whether its signature and expiry were
/// accepted: an invalid token is `InvalidToken`; a valid one is revoked.
pub fn logout_validated<B: BannedTokenStore + ?Sized>(banned: &mut B, token: &str, token_is_valid: bool) -> (r:
    Result<(), AuthAPIError>)
    ensures
        !token_is_valid ==> r == Err::<(), AuthAPIError>(AuthAPIError::InvalidToken),
        r is Ok ==> token_is_valid && final(banned).banned() == old(banned).banned().insert(token@),
        r is Err ==> final(banned).banned() == old(banned).banned(),
        token_is_valid && r is Err ==> r == Err::<(), AuthAPIError>(AuthAPIError::UnexpectedError),
        old(banned).never_fails() && token_is_valid ==> r is Ok,
        final(banned).never_fails() == old(banned).never_fails(),
{
    if !token_is_valid {
        return Err(AuthAPIError::InvalidToken);
    }
    match banned.add_banned_token(token) {
        Ok(()) => Ok(()),
        Err(_) => Err(AuthAPIError::UnexpectedError),
    }
}

/// Ends the session of `token`: a missing token is `MissingToken`, one whose
/// signature or expiry is not accepted `InvalidToken`; otherwise it is revoked.
pub fn logout<B: BannedTokenStore + ?Sized>(banned: &mut B, jwt_secret: &str, token: Option<&str>) -> (r:
    Result<(), AuthAPIError>)
    ensures
        token is None <==> r == Err::<(), AuthAPIError>(AuthAPIError::MissingToken),
        r is Ok ==> final(banned).banned() == old(banned).banned().insert(token->Some_0@),
        r is Err ==> final(banned).banned() == old(banned).banned(),
        r is Ok ==> hs256_signed(token->Some_0@, vstd::utf8::encode_utf8(jwt_secret@)),
        final(banned).never_fails() == old(banned).never_fails(),
{
    let token = match token {
        Some(t) => t,
        None => return Err(AuthAPIError::MissingToken),
    };
    let valid = validate_token(token, jwt_secret).is_ok();
    logout_validated(banned, token, valid)
}

} // verus!
