use vstd::prelude::*;
use vstd::string::StringExecFns;

use crate::domain::data_stores::{
    is_two_fa_code, uuid_accepts, ChallengeMap, LoginAttemptId, TwoFACode, TwoFACodeStore, UserStore,
    UserStoreError,
};
use crate::domain::email::{is_email_shape, Email};
use crate::domain::email_client::{
    two_fa_body, two_fa_login_email_template, two_fa_subject, EmailClient, MessageView,
};
use crate::domain::error::AuthAPIError;
use crate::domain::password::{meets_password_policy, Password};
use crate::utils::auth::{generate_auth_token, hs256_signed, hs256_token, jwt_claims};

verus! {

/// A request to sign in.
#[derive(Debug, Clone)]
pub struct LoginRequest {
    pub email: String,
    pub password: String,
}

/// What a successful sign-in answers.
#[derive(Debug, Clone)]
pub enum LoginResponse {
    /// Signed in: the session token travels beside this answer.
    No2FA,
    /// A second factor is required: a code was sent.
    With2FA(TwoFactorLoginResponse),
}

/// The answer that asks for the second factor.
#[derive(Debug, Clone)]
pub struct TwoFactorLoginResponse {
    pub message: String,
    pub login_attempt_id: String,
}

/// `t` is a session token for `email` signed with `secret`.
pub open spec fn is_session_token(t: Seq<char>, email: Seq<char>, secret: Seq<char>) -> bool {
    &&& exists|exp: u64| t == hs256_token(email, exp, vstd::utf8::encode_utf8(secret))
    &&& hs256_signed(t, vstd::utf8::encode_utf8(secret))
    &&& jwt_claims(t).0 == Some(email)
}

/// `token` is present and a session token for `email` signed with `secret`.
pub open spec fn issued_token(token: Option<String>, email: Seq<char>, secret: Seq<char>) -> bool {
    match token {
        Some(t) => is_session_token(t@, email, secret),
        None => false,
    }
}

/// `t` asks for a second factor for `email`: a fresh code is pending in
/// `codes_after`, in place of any earlier one, with the attempt id of `t`,
/// and it is the one message added to the outbox.
pub open spec fn challenge_issued(
    email: Seq<char>,
    t: TwoFactorLoginResponse,
    codes_before: ChallengeMap,
    codes_after: ChallengeMap,
    outbox_before: Seq<MessageView>,
    outbox_after: Seq<MessageView>,
) -> bool {
    &&& t.message@ == "2FA required"@
    &&& uuid_accepts(t.login_attempt_id@)
    &&& exists|code: Seq<char>|
        {
            &&& is_two_fa_code(code)
            &&& codes_after == codes_before.insert(email, (code, t.login_attempt_id@))
            &&& outbox_after == outbox_before.push((email, two_fa_subject(), two_fa_body(email, code)))
        }
}

/// The challenges after a failed attempt to start one for `email`: as they
/// were, or with a fresh pair stored for `email` (stored, then not sent).
pub open spec fn challenge_left_after_failure(
    email: Seq<char>,
    codes_before: ChallengeMap,
    codes_after: ChallengeMap,
) -> bool {
    ||| codes_after == codes_before
    ||| exists|code: Seq<char>, id: Seq<char>|
        {
            &&& is_two_fa_code(code)
            &&& uuid_accepts(id)
            &&& codes_after == codes_before.insert(email, (code, id))
        }
}

/// Issues a session token for `email`.
pub fn handle_no_2fa(email: &Email, jwt_secret: &str) -> (r: Result<
    (Option<String>, LoginResponse),
    AuthAPIError,
>)
    ensures
        match r {
            Ok((token, response)) => response is No2FA && issued_token(token, email@, jwt_secret@),
            Err(e) => e == AuthAPIError::UnexpectedError,
        },
        r is Ok,
{
    match generate_auth_token(email, jwt_secret) {
        Ok(t) => Ok((Some(t), LoginResponse::No2FA)),
        Err(_) => Err(AuthAPIError::UnexpectedError),
    }
}

/// Starts a second-factor challenge for `email`: a fresh code and attempt id
/// are stored, replacing any pending challenge, and the code is sent to the
/// address. The attempt id is returned; no token is issued.
pub fn handle_2fa<C: TwoFACodeStore + ?Sized, M: EmailClient + ?Sized>(
    email: &Email,
    codes: &mut C,
    email_client: &mut M,
) -> (r: Result<(Option<String>, LoginResponse), AuthAPIError>)
    ensures
        match r {
            Ok((token, LoginResponse::With2FA(t))) => token is None && challenge_issued(
                email@,
                t,
                old(codes).challenges(),
                final(codes).challenges(),
                old(email_client).outbox(),
                final(email_client).outbox(),
            ),
            Ok((_, LoginResponse::No2FA)) => false,
            Err(e) => e == AuthAPIError::UnexpectedError && final(email_client).outbox() == old(email_client).outbox()
                && challenge_left_after_failure(
                email@,
                old(codes).challenges(),
                final(codes).challenges(),
            ),
        },
        old(codes).never_fails() && old(email_client).never_fails() ==> r is Ok,
        old(codes).never_fails() && r is Err ==> exists|code: Seq<char>, id: Seq<char>|
            {
                &&& is_two_fa_code(code)
                &&& uuid_accepts(id)
                &&& final(codes).challenges() == old(codes).challenges().insert(email@, (code, id))
            },
        final(codes).never_fails() == old(codes).never_fails(),
        final(email_client).never_fails() == old(email_client).never_fails(),
{
    let two_fa_code = TwoFACode::new();
    let login_attempt_id = LoginAttemptId::new();
    let ghost code = two_fa_code@;
    let ghost id = login_attempt_id@;
    let id_text = String::from_str(login_attempt_id.as_ref());
    if codes.add_code(email, two_fa_code.duplicate(), login_attempt_id).is_err() {
        return Err(AuthAPIError::UnexpectedError);
    }
    let (subject, content) = two_fa_login_email_template(email, two_fa_code.as_ref());
    if email_client.send_email(email, subject.as_str(), content.as_str()).is_err() {
        assert(is_two_fa_code(code) && uuid_accepts(id));
        return Err(AuthAPIError::UnexpectedError);
    }
    let response = TwoFactorLoginResponse {
        message: String::from_str("2FA required"),
        login_attempt_id: id_text,
    };
    assert(is_two_fa_code(code));
    Ok((None, LoginResponse::With2FA(response)))
}

/// Signs in. Malformed input is `InvalidCredentials`; an unknown address or
/// a wrong password is the same `AuthenticationFailure`. An account without a
/// second factor gets a session token; one with it gets a challenge.
pub fn login<U: UserStore + ?Sized, C: TwoFACodeStore + ?Sized, M: EmailClient + ?Sized>(
    users: &U,
    codes: &mut C,
    email_client: &mut M,
    jwt_secret: &str,
    request: LoginRequest,
) -> (r: Result<(Option<String>, LoginResponse), AuthAPIError>)
    ensures
        !(is_email_shape(request.email@) && meets_password_policy(request.password@)) <==> r
            == Err::<(Option<String>, LoginResponse), AuthAPIError>(
            AuthAPIError::InvalidCredentials,
        ),
        !(users.users().contains_key(request.email@) && users.users()[request.email@].requires_2fa)
            ==> final(codes).challenges() == old(codes).challenges() && final(email_client).outbox()
            == old(email_client).outbox(),
        final(codes).never_fails() == old(codes).never_fails(),
        final(email_client).never_fails() == old(email_client).never_fails(),
        r is Err ==> challenge_left_after_failure(
            request.email@,
            old(codes).challenges(),
            final(codes).challenges(),
        ),
        users.never_fails() && is_email_shape(request.email@) && meets_password_policy(
            request.password@,
        ) && users.users().contains_key(request.email@) && users.accepts(
            request.email@,
            request.password@,
        ) && !users.users()[request.email@].requires_2fa ==> r is Ok,
        r is Ok ==> users.users().contains_key(request.email@) && users.accepts(
            request.email@,
            request.password@,
        ),
        r == Err::<(Option<String>, LoginResponse), AuthAPIError>(
            AuthAPIError::AuthenticationFailure,
        ) ==> !(users.users().contains_key(
            request.email@,
        ) && users.accepts(request.email@, request.password@)),
        r is Err ==> final(email_client).outbox() == old(email_client).outbox(),
        users.never_fails() && is_email_shape(request.email@) && meets_password_policy(
            request.password@,
        ) && !(users.users().contains_key(request.email@) && users.accepts(
            request.email@,
            request.password@,
        )) ==> r == Err::<(Option<String>, LoginResponse), AuthAPIError>(
            AuthAPIError::AuthenticationFailure,
        ),
        users.never_fails() && old(codes).never_fails() && old(email_client).never_fails()
            && is_email_shape(request.email@) && meets_password_policy(request.password@)
            && users.users().contains_key(request.email@) && users.accepts(
            request.email@,
            request.password@,
        ) && users.users()[request.email@].requires_2fa ==> r is Ok,
        r is Err && r != Err::<(Option<String>, LoginResponse), AuthAPIError>(
            AuthAPIError::UnexpectedError,
        ) ==> final(codes).challenges() == old(codes).challenges(),
        match r {
            Ok((token, LoginResponse::No2FA)) => {
                &&& !users.users()[request.email@].requires_2fa
                &&& issued_token(token, request.email@, jwt_secret@)
                &&& final(codes).challenges() == old(codes).challenges()
                &&& final(email_client).outbox() == old(email_client).outbox()
            },
            Ok((token, LoginResponse::With2FA(t))) => {
                &&& users.users()[request.email@].requires_2fa
                &&& token is None
                &&& challenge_issued(
                    request.email@,
                    t,
                    old(codes).challenges(),
                    final(codes).challenges(),
                    old(email_client).outbox(),
                    final(email_client).outbox(),
                )
            },
            Err(_) => true,
        },
{
    let email = match Email::parse(request.email.as_str()) {
        Ok(e) => e,
        Err(_) => return Err(AuthAPIError::InvalidCredentials),
    };
    let password = match Password::parse(request.password) {
        Ok(p) => p,
        Err(_) => return Err(AuthAPIError::InvalidCredentials),
    };
    match users.validate_user(&email, &password) {
        Ok(()) => {},
        Err(UserStoreError::UserNotFound) => return Err(AuthAPIError::AuthenticationFailure),
        Err(UserStoreError::InvalidCredentials) => return Err(AuthAPIError::AuthenticationFailure),
        Err(_) => return Err(AuthAPIError::UnexpectedError),
    }
    let user = match users.get_user(&email) {
        Ok(u) => u,
        Err(_) => return Err(AuthAPIError::UnexpectedError),
    };
    if user.requires_2fa {
        handle_2fa(&email, codes, email_client)
    } else {
        handle_no_2fa(&email, jwt_secret)
    }
}

} // verus!
