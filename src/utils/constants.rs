use vstd::prelude::*;

verus! {

/// The name of the cookie that carries the session token.
pub const JWT_COOKIE_NAME: &'static str = "jwt";

/// The cache host used when none is configured.
pub const DEFAULT_REDIS_HOSTNAME: &'static str = "127.0.0.1";

/// How long a session token, and so a revocation entry, lives: ten minutes.
pub const TOKEN_TTL_SECONDS: i64 = 600;

/// How long a second-factor challenge lives: ten minutes.
pub const TEN_MINUTES_IN_SECONDS: u64 = 600;

} // verus!
