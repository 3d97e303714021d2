use argon2::{PasswordHasher, PasswordVerifier};
use vstd::prelude::*;
use vstd::string::StringExecFns;

use crate::domain::data_stores::UserStoreError;
use crate::domain::email::{chars_of, is_ascii_digit, is_email_shape};
use crate::domain::password::Password;
use crate::domain::user::User;

verus! {

#[verifier::external_type_specification]
#[verifier::external_body]
pub struct ExPasswordHashError(argon2::password_hash::Error);

/// Argon2id memory cost, in KiB.
pub const ARGON2_M_COST: u32 = 15000;

/// Argon2id iterations.
pub const ARGON2_T_COST: u32 = 2;

/// Argon2id lanes.
pub const ARGON2_P_COST: u32 = 1;

/// Whether argon2 accepts `password` against the PHC string `hash`.
pub uninterp spec fn argon2_accepts(hash: Seq<char>, password: Seq<char>) -> bool;

/// `s[start..end)` is one to `max` ASCII digits.
pub open spec fn is_digit_run(s: Seq<char>, start: int, end: int, max: int) -> bool {
    &&& start < end <= start + max
    &&& end <= s.len()
    &&& forall|k: int| start <= k < end ==> is_ascii_digit(#[trigger] s[k])
}

/// `hash` reads `$argon2id$v=19$m=M,t=T,p=P$...`, with the digits of `M`
/// ending at `m_end`, of `T` at `t_end` and of `P` at `p_end`; `M` has at
/// most six digits, `T` and `P` at most two.
pub open spec fn argon2id_cost_split(hash: Seq<char>, m_end: int, t_end: int, p_end: int) -> bool {
    let prefix = "$argon2id$v=19$m="@;
    &&& prefix.len() <= hash.len()
    &&& hash.subrange(0, prefix.len() as int) == prefix
    &&& is_digit_run(hash, prefix.len() as int, m_end, 6)
    &&& m_end + 2 < hash.len()
    &&& hash[m_end] == ',' && hash[m_end + 1] == 't' && hash[m_end + 2] == '='
    &&& is_digit_run(hash, m_end + 3, t_end, 2)
    &&& t_end + 2 < hash.len()
    &&& hash[t_end] == ',' && hash[t_end + 1] == 'p' && hash[t_end + 2] == '='
    &&& is_digit_run(hash, t_end + 3, p_end, 2)
    &&& p_end < hash.len()
    &&& hash[p_end] == '$'
}

/// The hashes this library verifies: argon2id, version 19, and costs small
/// enough that checking a password neither overflows nor asks for more than
/// about a GiB (memory under 10^6 KiB, under 100 passes and lanes). These
/// are the parameters argon2 reads from the text when it verifies.
pub open spec fn has_bounded_argon2id_costs(hash: Seq<char>) -> bool {
    exists|m_end: int, t_end: int, p_end: int| argon2id_cost_split(hash, m_end, t_end, p_end)
}

/// The longest password argon2 hashes, in bytes.
pub const ARGON2_MAX_PASSWORD_BYTES: u32 = 0xFFFFFFFF;

/// Relies on argon2: `SaltString::generate` with rand's `thread_rng`, then
/// `Argon2::new(Argon2id, V0x13, Params::new(m, t, p, None)?)
/// .hash_password`. The PHC string of the hash; the salt is random.
/// `Params::new` accepts the costs that `requires` admits (it computes
/// `8 * p_cost` before its own bound, hence that bound here), and hashing
/// fails only on a password over `u32::MAX` bytes, so the result is `Ok`.
/// Verifying recomputes the hash with the parameters and salt that the PHC
/// string carries, so the password is accepted against its own hash. The
/// string is `$argon2id$v=19$m=M,t=T,p=P$salt$hash`, the costs in decimal
/// without leading zeros.
#[verifier::external_body]
fn argon2id_hash(password: &str, m_cost: u32, t_cost: u32, p_cost: u32) -> (r: Result<
    String,
    argon2::password_hash::Error,
>)
    requires
        1 <= p_cost < 100,
        8 * p_cost <= m_cost < 1000000,
        1 <= t_cost < 100,
        vstd::utf8::encode_utf8(password@).len() <= ARGON2_MAX_PASSWORD_BYTES,
    ensures
        r is Ok,
        r matches Ok(h) ==> argon2_accepts(h@, password@) && has_bounded_argon2id_costs(h@),
{
    let salt = argon2::password_hash::SaltString::generate(&mut rand::thread_rng());
    let params = argon2::Params::new(m_cost, t_cost, p_cost, None)?;
    let hasher = argon2::Argon2::new(argon2::Algorithm::Argon2id, argon2::Version::V0x13, params);
    Ok(hasher.hash_password(password.as_bytes(), &salt)?.to_string())
}

/// Relies on argon2: `PasswordHash::new(hash)` then
/// `Argon2::default().verify_password`. True when both succeed; the
/// parameters come from the PHC string, so the answer depends on the two
/// texts alone. Those parameters go to `Params::new`, which computes
/// `8 * p` unchecked, and then memory is allocated for `m` KiB: `requires`
/// keeps both small.
#[verifier::external_body]
fn argon2_verify(hash: &str, password: &str) -> (r: bool)
    requires
        has_bounded_argon2id_costs(hash@),
    ensures
        r == argon2_accepts(hash@, password@),
{
    match argon2::PasswordHash::new(hash) {
        Ok(parsed) => argon2::Argon2::default().verify_password(password.as_bytes(), &parsed).is_ok(),
        Err(_) => false,
    }
}

/// Where the run of ASCII digits that starts at `start` ends.
fn digit_run_end(v: &Vec<char>, start: usize) -> (end: usize)
    requires
        start <= v@.len(),
    ensures
        start <= end <= v@.len(),
        forall|k: int| start <= k < end ==> is_ascii_digit(#[trigger] v@[k]),
        end < v@.len() ==> !is_ascii_digit(v@[end as int]),
{
    let mut end = start;
    while end < v.len() && '0' <= v[end] && v[end] <= '9'
        invariant
            start <= end <= v@.len(),
            forall|k: int| start <= k < end ==> is_ascii_digit(#[trigger] v@[k]),
        decreases v@.len() - end,
    {
        end = end + 1;
    }
    end
}

/// A digit run that a non-digit closes ends where the run that starts at
/// the same place ends.
proof fn lemma_run_end_unique(s: Seq<char>, start: int, end: int, other_end: int, max: int)
    requires
        start <= end <= s.len(),
        forall|k: int| start <= k < end ==> is_ascii_digit(#[trigger] s[k]),
        end < s.len() ==> !is_ascii_digit(s[end]),
        is_digit_run(s, start, other_end, max),
        other_end < s.len(),
        !is_ascii_digit(s[other_end]),
    ensures
        other_end == end,
{
    if other_end < end {
        assert(is_ascii_digit(s[other_end]));
    }
    if end < other_end {
        assert(is_ascii_digit(s[end]));
    }
}

/// Whether `hash` is a hash this library verifies: argon2id, version 19,
/// with small costs.
pub fn has_bounded_costs(hash: &str) -> (r: bool)
    ensures
        r == has_bounded_argon2id_costs(hash@),
{
    let v = chars_of(hash);
    let prefix = chars_of("$argon2id$v=19$m=");
    let n = prefix.len();
    if n > v.len() {
        return false;
    }
    let mut i: usize = 0;
    while i < n
        invariant
            n == prefix@.len(),
            n <= v@.len(),
            v@ == hash@,
            prefix@ == "$argon2id$v=19$m="@,
            i <= n,
            forall|j: int| 0 <= j < i ==> v@[j] == prefix@[j],
        decreases n - i,
    {
        if v[i] != prefix[i] {
            proof {
                if has_bounded_argon2id_costs(hash@) {
                    let (a, b, c) = choose|a: int, b: int, c: int|
                        argon2id_cost_split(hash@, a, b, c);
                    assert(prefix@ == "$argon2id$v=19$m="@);
                    assert(hash@.subrange(0, n as int) == prefix@);
                    assert(hash@.subrange(0, n as int)[i as int] == hash@[i as int]);
                }
            }
            return false;
        }
        i = i + 1;
    }
    assert(v@.subrange(0, n as int) =~= prefix@);
    let m_end = digit_run_end(&v, n);
    let ok_m = n < m_end && m_end - n <= 6 && v.len() - m_end > 2 && v[m_end] == ','
        && v[m_end + 1] == 't' && v[m_end + 2] == '=';
    if !ok_m {
        proof {
            if has_bounded_argon2id_costs(hash@) {
                let (a, b, c) = choose|a: int, b: int, c: int| argon2id_cost_split(hash@, a, b, c);
                lemma_run_end_unique(v@, n as int, m_end as int, a, 6);
            }
        }
        return false;
    }
    let t_end = digit_run_end(&v, m_end + 3);
    let ok_t = m_end + 3 < t_end && t_end - (m_end + 3) <= 2 && v.len() - t_end > 2 && v[t_end]
        == ',' && v[t_end + 1] == 'p' && v[t_end + 2] == '=';
    if !ok_t {
        proof {
            if has_bounded_argon2id_costs(hash@) {
                let (a, b, c) = choose|a: int, b: int, c: int| argon2id_cost_split(hash@, a, b, c);
                lemma_run_end_unique(v@, n as int, m_end as int, a, 6);
                lemma_run_end_unique(v@, m_end + 3, t_end as int, b, 2);
            }
        }
        return false;
    }
    let p_end = digit_run_end(&v, t_end + 3);
    let ok_p = t_end + 3 < p_end && p_end - (t_end + 3) <= 2 && p_end < v.len() && v[p_end] == '$';
    proof {
        if ok_p {
            assert(argon2id_cost_split(hash@, m_end as int, t_end as int, p_end as int));
        } else if has_bounded_argon2id_costs(hash@) {
            let (a, b, c) = choose|a: int, b: int, c: int| argon2id_cost_split(hash@, a, b, c);
            lemma_run_end_unique(v@, n as int, m_end as int, a, 6);
            lemma_run_end_unique(v@, m_end + 3, t_end as int, b, 2);
            lemma_run_end_unique(v@, t_end + 3, p_end as int, c, 2);
        }
    }
    ok_p
}

/// A row of the credential table.
#[derive(Debug, Clone)]
pub struct UserRow {
    pub email: String,
    pub password_hash: String,
    pub requires_2fa: bool,
}

/// The memory-hard hash of `password`, with a fresh salt. It fails, with
/// `UnexpectedError`, exactly when the password is too long for argon2.
pub fn compute_password_hash(password: &Password) -> (r: Result<String, UserStoreError>)
    ensures
        r is Ok <==> vstd::utf8::encode_utf8(password@).len() <= ARGON2_MAX_PASSWORD_BYTES,
        r matches Err(e) ==> e is UnexpectedError,
        r matches Ok(h) ==> argon2_accepts(h@, password@) && has_bounded_argon2id_costs(h@),
{
    let secret = password.expose_secret();
    if secret.as_bytes().len() > ARGON2_MAX_PASSWORD_BYTES as usize {
        return Err(UserStoreError::UnexpectedError(String::from_str("password too long to hash")));
    }
    match argon2id_hash(secret, ARGON2_M_COST, ARGON2_T_COST, ARGON2_P_COST) {
        Ok(h) => Ok(h),
        Err(_) => Err(UserStoreError::UnexpectedError(String::from_str("failed to hash password"))),
    }
}

/// Whether `password` matches the stored hash `expected_password_hash`.
pub fn verify_password_hash(expected_password_hash: &str, password: &Password) -> (r: bool)
    ensures
        r == (has_bounded_argon2id_costs(expected_password_hash@) && argon2_accepts(
            expected_password_hash@,
            password@,
        )),
{
    has_bounded_costs(expected_password_hash) && argon2_verify(
        expected_password_hash,
        password.expose_secret(),
    )
}

/// The row to insert for `user`, given whether its address is already in
/// the table: a taken address is `UserAlreadyExists`; otherwise the row keeps
/// the address, a hash of the password and the second-factor flag.
pub fn new_user_row(user: &User, email_taken: bool) -> (r: Result<UserRow, UserStoreError>)
    ensures
        email_taken ==> r == Err::<UserRow, UserStoreError>(UserStoreError::UserAlreadyExists),
        !email_taken ==> (r is Ok <==> vstd::utf8::encode_utf8(user.password@).len()
            <= ARGON2_MAX_PASSWORD_BYTES),
        !email_taken ==> match r {
            Ok(row) => row.email@ == user.email@ && row.requires_2fa == user.requires_2fa
                && argon2_accepts(row.password_hash@, user.password@) && has_bounded_argon2id_costs(
                row.password_hash@,
            ),
            Err(e) => e is UnexpectedError,
        },
{
    if email_taken {
        return Err(UserStoreError::UserAlreadyExists);
    }
    let hash = compute_password_hash(&user.password)?;
    Ok(UserRow { email: user.email.0.clone(), password_hash: hash, requires_2fa: user.requires_2fa })
}

/// The outcome of checking `password` against the stored hash of an
/// address, `None` when the address has no row.
pub fn validate_stored_hash(stored_hash: Option<String>, password: &Password) -> (r: Result<
    (),
    UserStoreError,
>)
    ensures
        match stored_hash {
            None => r == Err::<(), UserStoreError>(UserStoreError::UserNotFound),
            Some(h) => if has_bounded_argon2id_costs(h@) && argon2_accepts(h@, password@) {
                r is Ok
            } else {
                r == Err::<(), UserStoreError>(UserStoreError::InvalidCredentials)
            },
        },
{
    match stored_hash {
        None => Err(UserStoreError::UserNotFound),
        Some(h) => {
            if verify_password_hash(h.as_str(), password) {
                Ok(())
            } else {
                Err(UserStoreError::InvalidCredentials)
            }
        },
    }
}

/// The account that a row holds; the hash stands where the password would.
/// A row whose address is malformed is an `UnexpectedError`.
pub fn user_from_row(row: UserRow) -> (r: Result<User, UserStoreError>)
    ensures
        r is Ok <==> is_email_shape(row.email@),
        r matches Err(e) ==> e is UnexpectedError,
        r matches Ok(u) ==> u.email@ == row.email@ && u.password@ == row.password_hash@
            && u.requires_2fa == row.requires_2fa,
{
    match User::new_with_fake_password(row.email, row.password_hash, row.requires_2fa) {
        Ok(u) => Ok(u),
        Err(_) => Err(UserStoreError::UnexpectedError(String::from_str("malformed stored address"))),
    }
}

} // verus!
