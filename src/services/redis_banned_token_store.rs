use vstd::prelude::*;
use vstd::string::StringExecFns;

verus! {

/// The cache key of a revoked token: the token behind a prefix that keeps
/// these keys apart from the other keys of the cache.
pub fn get_key(token: &str) -> (r: String)
    ensures
        r@ == "banned_token:"@ + token@,
{
    let mut key = String::from_str("banned_token:");
    key.append(token);
    key
}

} // verus!
