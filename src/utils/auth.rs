use vstd::prelude::*;
use vstd::string::StringExecFns;

use crate::domain::email::Email;
use crate::utils::constants::TOKEN_TTL_SECONDS;

verus! {

#[verifier::external_type_specification]
#[verifier::external_body]
pub struct ExJwtError(jsonwebtoken::errors::Error);

/// The token that jsonwebtoken signs for subject `sub` and expiry `exp` with
/// the HMAC key `key`, under the default (HS256) header.
pub uninterp spec fn hs256_token(sub: Seq<char>, exp: u64, key: Seq<u8>) -> Seq<char>;

/// Whether `token` declares HS256 and carries a valid signature by the HMAC
/// key `key` over its header and claims; the clock plays no part.
pub uninterp spec fn hs256_signed(token: Seq<char>, key: Seq<u8>) -> bool;

/// The `sub` claim of `token` if it is a string, and its `exp` claim if it
/// is an unsigned integer, as jsonwebtoken decodes them from the token's
/// payload; the text alone fixes them.
pub uninterp spec fn jwt_claims(token: Seq<char>) -> (Option<Seq<char>>, Option<u64>);

/// The text that `o` holds, if any.
pub open spec fn text_of(o: Option<String>) -> Option<Seq<char>> {
    match o {
        Some(s) => Some(s@),
        None => None,
    }
}

/// Relies on `jsonwebtoken::encode` with `Header::default()` (HS256) and
/// `EncodingKey::from_secret`: the claims `{"sub", "exp"}` signed with `key`.
/// The key family matches the header's algorithm, a map of a string and an
/// integer always serializes, and HMAC signing does not fail, so the result
/// is always `Ok`; its signature checks with the same key, and decoding it
/// reads back the subject and expiry it was given.
#[verifier::external_body]
fn encode_hs256(sub: &str, exp: u64, key: &[u8]) -> (r: Result<String, jsonwebtoken::errors::Error>)
    ensures
        r is Ok,
        r matches Ok(t) ==> t@ == hs256_token(sub@, exp, key@) && hs256_signed(t@, key@)
            && jwt_claims(t@) == (Some(sub@), Some(exp)),
{
    let mut claims = serde_json::Map::new();
    claims.insert("sub".to_owned(), serde_json::Value::from(sub));
    claims.insert("exp".to_owned(), serde_json::Value::from(exp));
    let header = jsonwebtoken::Header::default();
    jsonwebtoken::encode(&header, &claims, &jsonwebtoken::EncodingKey::from_secret(key))
}

/// Relies on `jsonwebtoken::decode` with `Validation::default()`: the token
/// must carry an HS256 signature by `key` and an `exp` that has not passed
/// (60 s of leeway). On success, the `sub` claim if it is a string and the
/// `exp` claim if it is an unsigned integer. The outcome depends on the clock
/// (it panics on a clock set before 1970); success needs the signature.
#[verifier::external_body]
fn decode_hs256(token: &str, key: &[u8]) -> (r: Result<
    (Option<String>, Option<u64>),
    jsonwebtoken::errors::Error,
>)
    ensures
        r is Ok ==> hs256_signed(token@, key@),
        r matches Ok((sub, exp)) ==> jwt_claims(token@) == (text_of(sub), exp),
{
    let validation = jsonwebtoken::Validation::default();
    let key = jsonwebtoken::DecodingKey::from_secret(key);
    match jsonwebtoken::decode::<serde_json::Value>(token, &key, &validation) {
        Ok(data) => Ok((data.claims["sub"].as_str().map(str::to_owned), data.claims["exp"].as_u64())),
        Err(e) => Err(e),
    }
}

/// The latest second, plus one, that chrono's `Utc` can hold (its dates end
/// in the year 262143).
pub const CHRONO_TIMESTAMP_BOUND: i64 = 10000000000000;

/// Relies on chrono's `Utc::now().timestamp()`: the current time in seconds
/// since the Unix epoch. It depends on the clock; `Utc::now` panics rather
/// than return a time before 1970 or past its range.
#[verifier::external_body]
fn unix_now() -> (r: i64)
    ensures
        0 <= r < CHRONO_TIMESTAMP_BOUND,
{
    chrono::Utc::now().timestamp()
}

/// What a session token states: its subject (an address) and its expiry, in
/// seconds since the Unix epoch.
#[derive(Debug, Clone)]
pub struct Claims {
    pub sub: String,
    pub exp: usize,
}

/// Why a token could not be made.
#[derive(Debug)]
pub enum GenerateTokenError {
    TokenError(jsonwebtoken::errors::Error),
    UnexpectedError(String),
}

/// The expiry of a token issued at `now`, if it is a valid timestamp.
pub open spec fn expiry_at(now: int) -> Option<u64> {
    let exp = now + TOKEN_TTL_SECONDS;
    if 0 <= exp <= i64::MAX {
        Some(exp as u64)
    } else {
        None
    }
}

/// The expiry of a token issued at `now`: ten minutes later.
pub fn token_expiry(now: i64) -> (r: Option<u64>)
    ensures
        r == expiry_at(now as int),
{
    if now > i64::MAX - TOKEN_TTL_SECONDS {
        return None;
    }
    let exp = now + TOKEN_TTL_SECONDS;
    if exp < 0 {
        None
    } else {
        Some(exp as u64)
    }
}

/// A session token for `email`, issued at time `now`, signed with `secret`.
/// It fails, with `UnexpectedError`, exactly when the expiry is no valid
/// timestamp.
pub fn generate_auth_token_at(email: &Email, secret: &str, now: i64) -> (r: Result<
    String,
    GenerateTokenError,
>)
    ensures
        expiry_at(now as int) is None <==> r is Err,
        r matches Err(e) ==> e is UnexpectedError,
        r matches Ok(t) ==> t@ == hs256_token(
            email@,
            expiry_at(now as int)->Some_0,
            vstd::utf8::encode_utf8(secret@),
        ) && hs256_signed(t@, vstd::utf8::encode_utf8(secret@)) && jwt_claims(t@) == (
            Some(email@),
            expiry_at(now as int),
        ),
{
    let exp = match token_expiry(now) {
        Some(e) => e,
        None => return Err(GenerateTokenError::UnexpectedError(String::from_str("invalid expiry"))),
    };
    match encode_hs256(email.as_ref(), exp, secret.as_bytes()) {
        Ok(t) => Ok(t),
        Err(e) => Err(GenerateTokenError::TokenError(e)),
    }
}

/// A session token for `email` that expires ten minutes from now.
pub fn generate_auth_token(email: &Email, secret: &str) -> (r: Result<String, GenerateTokenError>)
    ensures
        r is Ok,
        r matches Ok(t) ==> (exists|exp: u64| t@ == hs256_token(email@, exp, vstd::utf8::encode_utf8(secret@)))
            && hs256_signed(t@, vstd::utf8::encode_utf8(secret@)) && jwt_claims(t@).0 == Some(email@),
{
    generate_auth_token_at(email, secret, unix_now())
}

/// The claims of a token whose signature and expiry were accepted, from its
/// `sub` and `exp` claims: both must be present and the expiry must fit a
/// `usize`.
pub fn claims_from_parts(sub: Option<String>, exp: Option<u64>) -> (r: Option<Claims>)
    ensures
        r is Some <==> sub is Some && exp is Some && exp->Some_0 <= usize::MAX,
        r matches Some(c) ==> c.sub@ == sub->Some_0@ && c.exp == exp->Some_0,
{
    match (sub, exp) {
        (Some(s), Some(e)) => {
            if e as u128 <= usize::MAX as u128 {
                Some(Claims { sub: s, exp: e as usize })
            } else {
                None
            }
        },
        _ => None,
    }
}

/// The claims of `token` if its signature by `secret` and its expiry are
/// accepted now. Any failure is reported alike. Whatever the clock, success
/// needs a valid signature by `secret`.
pub fn validate_token(token: &str, secret: &str) -> (r: Result<Claims, String>)
    ensures
        r is Ok ==> hs256_signed(token@, vstd::utf8::encode_utf8(secret@)),
        r matches Ok(c) ==> jwt_claims(token@) == (Some(c.sub@), Some(c.exp as u64)),
{
    match decode_hs256(token, secret.as_bytes()) {
        Ok((sub, exp)) => match claims_from_parts(sub, exp) {
            Some(c) => Ok(c),
            None => Err(String::from_str("failed to decode token")),
        },
        Err(_) => Err(String::from_str("failed to decode token")),
    }
}

} // verus!
