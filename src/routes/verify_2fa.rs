use vstd::prelude::*;

use crate::domain::data_stores::{
    is_two_fa_code, uuid_accepts, ChallengeMap, LoginAttemptId, TwoFACode, TwoFACodeStore,
    TwoFACodeStoreError,
};
use crate::domain::email::{is_email_shape, Email};
use crate::domain::error::AuthAPIError;
use crate::routes::login::is_session_token;
use crate::utils::auth::generate_auth_token;

verus! {

/// A request that answers a second-factor challenge.
#[derive(Debug, Clone)]
pub struct Verify2FARequest {
    pub email: String,
    pub login_attempt_id: String,
    pub two_fa_code: String,
}

/// The pending challenge of `email` in `m` is exactly `code` with attempt `id`.
pub open spec fn challenge_matches(
    m: ChallengeMap,
    email: Seq<char>,
    id: Seq<char>,
    code: Seq<char>,
) -> bool {
    m.contains_key(email) && m[email] == (code, id)
}

/// The fields of `request` are well formed.
pub open spec fn verify_request_well_formed(request: Verify2FARequest) -> bool {
    &&& is_email_shape(request.email@)
    &&& uuid_accepts(request.login_attempt_id@)
    &&& is_two_fa_code(request.two_fa_code@)
}

/// Answers a challenge. Malformed fields are `InvalidCredentials`. Unless the
/// pending challenge of the address matches both code and attempt id, the
/// answer is `AuthenticationFailure`, whichever part differs or if none is
/// pending. A match consumes the challenge and issues a session token. A
/// backend failure is `UnexpectedError`.
pub fn verify_2fa<C: TwoFACodeStore + ?Sized>(codes: &mut C, jwt_secret: &str, request: Verify2FARequest) -> (r:
    Result<String, AuthAPIError>)
    ensures
        !verify_request_well_formed(request) <==> r == Err::<String, AuthAPIError>(
            AuthAPIError::InvalidCredentials,
        ),
        r == Err::<String, AuthAPIError>(AuthAPIError::AuthenticationFailure) ==> !challenge_matches(
            old(codes).challenges(),
            request.email@,
            request.login_attempt_id@,
            request.two_fa_code@,
        ),
        verify_request_well_formed(request) && !challenge_matches(
            old(codes).challenges(),
            request.email@,
            request.login_attempt_id@,
            request.two_fa_code@,
        ) ==> r == Err::<String, AuthAPIError>(AuthAPIError::AuthenticationFailure) || r == Err::<
            String,
            AuthAPIError,
        >(AuthAPIError::UnexpectedError),
        r matches Ok(t) ==> challenge_matches(
            old(codes).challenges(),
            request.email@,
            request.login_attempt_id@,
            request.two_fa_code@,
        ) && final(codes).challenges() == old(codes).challenges().remove(request.email@)
            && is_session_token(t@, request.email@, jwt_secret@),
        old(codes).never_fails() && verify_request_well_formed(request) && challenge_matches(
            old(codes).challenges(),
            request.email@,
            request.login_attempt_id@,
            request.two_fa_code@,
        ) ==> r is Ok,
        r == Err::<String, AuthAPIError>(AuthAPIError::UnexpectedError) ==> !old(codes).never_fails(),
        r is Err ==> final(codes).challenges() == old(codes).challenges(),
        final(codes).never_fails() == old(codes).never_fails(),
{
    let email = match Email::parse(request.email.as_str()) {
        Ok(e) => e,
        Err(_) => return Err(AuthAPIError::InvalidCredentials),
    };
    let login_attempt_id = match LoginAttemptId::parse(request.login_attempt_id.as_str()) {
        Ok(a) => a,
        Err(_) => return Err(AuthAPIError::InvalidCredentials),
    };
    let two_fa_code = match TwoFACode::parse(request.two_fa_code) {
        Ok(c) => c,
        Err(_) => return Err(AuthAPIError::InvalidCredentials),
    };
    let (code, id) = match codes.get_code(&email) {
        Ok(pair) => pair,
        Err(TwoFACodeStoreError::LoginAttemptIdNotFound) => {
            return Err(AuthAPIError::AuthenticationFailure)
        },
        Err(TwoFACodeStoreError::UnexpectedError(_)) => return Err(AuthAPIError::UnexpectedError),
    };
    if login_attempt_id != id || code != two_fa_code {
        return Err(AuthAPIError::AuthenticationFailure);
    }
    if codes.remove_code(&email).is_err() {
        return Err(AuthAPIError::UnexpectedError);
    }
    match generate_auth_token(&email, jwt_secret) {
        Ok(t) => Ok(t),
        Err(_) => Err(AuthAPIError::UnexpectedError),
    }
}

/// A challenge answered once with its code and attempt id is consumed: the
/// same answer no longer matches, so a second verification is an
/// `AuthenticationFailure`.
pub proof fn lemma_challenge_is_single_use(
    challenges: ChallengeMap,
    email: Seq<char>,
    id: Seq<char>,
    code: Seq<char>,
)
    requires
        challenge_matches(challenges, email, id, code),
    ensures
        !challenge_matches(challenges.remove(email), email, id, code),
{
}

} // verus!
