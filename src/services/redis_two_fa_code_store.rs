use vstd::prelude::*;
use vstd::string::StringExecFns;

use crate::domain::data_stores::{
    is_two_fa_code, uuid_accepts, LoginAttemptId, TwoFACode, TwoFACodeStoreError,
};
use crate::domain::email::Email;

verus! {

#[verifier::external_type_specification]
#[verifier::external_body]
pub struct ExJsonError(serde_json::Error);

/// The cache key of the challenge of `email`: the address behind a prefix
/// that keeps these keys apart from the other keys of the cache.
pub fn get_key(email: &Email) -> (r: String)
    ensures
        r@ == "two_fa_code:"@ + email@,
{
    let mut key = String::from_str("two_fa_code:");
    key.append(email.as_ref());
    key
}

/// The JSON text that serde_json writes for the pair of strings `(a, b)`.
pub uninterp spec fn json_pair(a: Seq<char>, b: Seq<char>) -> Seq<char>;

/// The pair of strings that serde_json reads from `s`, if it reads one.
pub uninterp spec fn json_pair_parse(s: Seq<char>) -> Option<(Seq<char>, Seq<char>)>;

/// Relies on `serde_json::to_string` of a pair of strings: a JSON array of
/// two strings. Writing strings into a `String` cannot fail, and serde_json
/// reads the same pair back from what it wrote.
#[verifier::external_body]
fn json_pair_to_string(a: &str, b: &str) -> (r: Result<String, serde_json::Error>)
    ensures
        r is Ok,
        r matches Ok(s) ==> s@ == json_pair(a@, b@) && json_pair_parse(s@) == Some((a@, b@)),
{
    serde_json::to_string(&(a, b))
}

/// Relies on `serde_json::from_str` into a pair of strings.
#[verifier::external_body]
fn json_pair_from_str(s: &str) -> (r: Result<(String, String), serde_json::Error>)
    ensures
        r is Ok <==> json_pair_parse(s@) is Some,
        r matches Ok((a, b)) ==> json_pair_parse(s@) == Some((a@, b@)),
{
    serde_json::from_str::<(String, String)>(s)
}

/// The challenge that the cached text `s` holds: a JSON pair of a
/// six-digit code and a UUID.
pub open spec fn challenge_in_text(s: Seq<char>) -> Option<(Seq<char>, Seq<char>)> {
    match json_pair_parse(s) {
        Some((code, id)) => if is_two_fa_code(code) && uuid_accepts(id) {
            Some((code, id))
        } else {
            None
        },
        None => None,
    }
}

/// The cached form of a challenge: the pair (code, attempt id) as JSON.
pub fn encode_challenge(code: &TwoFACode, login_attempt_id: &LoginAttemptId) -> (r: Result<
    String,
    TwoFACodeStoreError,
>)
    ensures
        r is Ok,
        r matches Ok(s) ==> s@ == json_pair(code@, login_attempt_id@) && challenge_in_text(s@)
            == Some((code@, login_attempt_id@)),
{
    match json_pair_to_string(code.as_ref(), login_attempt_id.as_ref()) {
        Ok(s) => Ok(s),
        Err(_) => Err(
            TwoFACodeStoreError::UnexpectedError(String::from_str("Failed to serialize challenge")),
        ),
    }
}

/// A challenge read back from the cache. Text that is no JSON pair, or
/// whose code or attempt id is malformed, is an `UnexpectedError`.
pub fn decode_challenge(json: &str) -> (r: Result<(TwoFACode, LoginAttemptId), TwoFACodeStoreError>)
    ensures
        r is Ok <==> challenge_in_text(json@) is Some,
        match r {
            Ok((code, id)) => challenge_in_text(json@) == Some((code@, id@)),
            Err(e) => e is UnexpectedError,
        },
{
    let (code, id) = match json_pair_from_str(json) {
        Ok(pair) => pair,
        Err(_) => {
            return Err(
                TwoFACodeStoreError::UnexpectedError(
                    String::from_str("Failed to deserialize challenge"),
                ),
            )
        },
    };
    let login_attempt_id = match LoginAttemptId::parse(id.as_str()) {
        Ok(a) => a,
        Err(_) => {
            return Err(
                TwoFACodeStoreError::UnexpectedError(String::from_str("Invalid LoginAttemptId")),
            )
        },
    };
    let two_fa_code = match TwoFACode::parse(code) {
        Ok(c) => c,
        Err(_) => {
            return Err(TwoFACodeStoreError::UnexpectedError(String::from_str("Invalid TwoFACode")))
        },
    };
    Ok((two_fa_code, login_attempt_id))
}

} // verus!
