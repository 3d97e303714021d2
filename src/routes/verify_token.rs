use vstd::prelude::*;

use crate::domain::data_stores::BannedTokenStore;
use crate::domain::error::AuthAPIError;
use crate::utils::auth::{hs256_signed, validate_token};

verus! {

/// A request to check a session token.
#[derive(Debug, Clone)]
pub struct VerifyTokenRequest {
    pub token: String,
}

/// The answer about a token, given whether its signature and expiry were
/// accepted and the revoked tokens `banned`.
pub open spec fn token_verdict(banned: Set<Seq<char>>, token: Seq<char>, token_is_valid: bool) -> Result<
    (),
    AuthAPIError,
> {
    if !token_is_valid || banned.contains(token) {
        Err(AuthAPIError::InvalidToken)
    } else {
        Ok(())
    }
}

/// Checks `token`, given whether its signature and expiry were accepted: it
/// is valid unless it was rejected or revoked. A backend failure is
/// `UnexpectedError`.
pub fn verify_token_validated<B: BannedTokenStore + ?Sized>(banned: &B, token: &str, token_is_valid: bool) -> (r:
    Result<(), AuthAPIError>)
    ensures
        r != Err::<(), AuthAPIError>(AuthAPIError::UnexpectedError) ==> r == token_verdict(
            banned.banned(),
            token@,
            token_is_valid,
        ),
        banned.never_fails() ==> r == token_verdict(banned.banned(), token@, token_is_valid),
{
    if !token_is_valid {
        return Err(AuthAPIError::InvalidToken);
    }
    match banned.is_token_banned(token) {
        Ok(true) => Err(AuthAPIError::InvalidToken),
        Ok(false) => Ok(()),
        Err(_) => Err(AuthAPIError::UnexpectedError),
    }
}

/// Checks `token`: its signature and expiry, then the revoked tokens. A
/// rejected or revoked token is the same `InvalidToken`.
pub fn verify_token<B: BannedTokenStore + ?Sized>(banned: &B, jwt_secret: &str, token: &str) -> (r: Result<
    (),
    AuthAPIError,
>)
    ensures
        r is Ok ==> !banned.banned().contains(token@),
        banned.banned().contains(token@) ==> r is Err,
        r is Ok ==> hs256_signed(token@, vstd::utf8::encode_utf8(jwt_secret@)),
        banned.never_fails() && banned.banned().contains(token@) ==> r == Err::<(), AuthAPIError>(
            AuthAPIError::InvalidToken,
        ),
{
    let valid = validate_token(token, jwt_secret).is_ok();
    verify_token_validated(banned, token, valid)
}

/// A token that was revoked by logging out is answered `InvalidToken`,
/// whatever its signature and expiry.
pub proof fn lemma_logged_out_token_is_invalid(
    banned: Set<Seq<char>>,
    token: Seq<char>,
    token_is_valid: bool,
)
    ensures
        token_verdict(banned.insert(token), token, token_is_valid) == Err::<(), AuthAPIError>(
            AuthAPIError::InvalidToken,
        ),
{
}

} // verus!
