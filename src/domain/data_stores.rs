use rand::Rng;
use vstd::prelude::*;
use vstd::string::StringExecFns;

use crate::domain::email::is_ascii_digit;
use crate::domain::email::{chars_of, Email};
use crate::domain::password::Password;
use crate::domain::user::User;

verus! {

/// What can go wrong in a credential store.
#[derive(Debug, Clone)]
pub enum UserStoreError {
    UserAlreadyExists,
    UserNotFound,
    InvalidCredentials,
    UnexpectedError(String),
}

impl PartialEq for UserStoreError {
    /// Two errors are equal when they are of the same kind; the detail of an
    /// unexpected error is not compared.
    fn eq(&self, other: &UserStoreError) -> (r: bool) {
        match (self, other) {
            (UserStoreError::UserAlreadyExists, UserStoreError::UserAlreadyExists) => true,
            (UserStoreError::UserNotFound, UserStoreError::UserNotFound) => true,
            (UserStoreError::InvalidCredentials, UserStoreError::InvalidCredentials) => true,
            (UserStoreError::UnexpectedError(_), UserStoreError::UnexpectedError(_)) => true,
            _ => false,
        }
    }
}

impl vstd::std_specs::cmp::PartialEqSpecImpl for UserStoreError {
    open spec fn obeys_eq_spec() -> bool {
        true
    }

    open spec fn eq_spec(&self, other: &UserStoreError) -> bool {
        match (*self, *other) {
            (UserStoreError::UserAlreadyExists, UserStoreError::UserAlreadyExists) => true,
            (UserStoreError::UserNotFound, UserStoreError::UserNotFound) => true,
            (UserStoreError::InvalidCredentials, UserStoreError::InvalidCredentials) => true,
            (UserStoreError::UnexpectedError(_), UserStoreError::UnexpectedError(_)) => true,
            _ => false,
        }
    }
}

/// What can go wrong in a revocation store.
#[derive(Debug, Clone)]
pub enum BannedTokenStoreError {
    ConnectionError,
    UnexpectedError(String),
}

/// What can go wrong in a challenge store.
#[derive(Debug, Clone)]
pub enum TwoFACodeStoreError {
    LoginAttemptIdNotFound,
    UnexpectedError(String),
}

/// A store of accounts, keyed by e-mail address.
///
/// The contracts describe a store that keeps each account as it was given:
/// the in-memory store meets them, and what is proved of the login protocol
/// holds with it. A database backend that keeps password hashes implements
/// this interface without that guarantee.
pub trait UserStore {
    /// The accounts held, by address. The default body only lets an implementation
    /// outside this crate compile; such an implementation is not held to
    /// the contracts below.
    closed spec fn users(&self) -> Map<Seq<char>, User> {
        Map::empty()
    }

    /// Whether the credential stored for `email` matches `password`.
    closed spec fn accepts(&self, email: Seq<char>, password: Seq<char>) -> bool {
        false
    }

    /// Whether every operation succeeds but for the outcomes the contracts
    /// name: no backend failure. The default body only lets an implementation
    /// outside this crate compile; such an implementation is not held to
    /// the contracts below.
    closed spec fn never_fails(&self) -> bool {
        false
    }

    /// Adds `user` unless its address is taken. A backend failure leaves the
    /// store as it was.
    fn add_user(&mut self, user: User) -> (r: Result<(), UserStoreError>)
        ensures
            match r {
                Ok(()) => !old(self).users().contains_key(user.email@) && final(self).users()
                    == old(self).users().insert(user.email@, user),
                Err(UserStoreError::UserAlreadyExists) => old(self).users().contains_key(
                    user.email@,
                ) && final(self).users() == old(self).users(),
                Err(UserStoreError::UnexpectedError(_)) => final(self).users() == old(self).users()
                    && !old(self).never_fails(),
                Err(_) => false,
            },
            final(self).never_fails() == old(self).never_fails(),
            old(self).users().dom().finite() ==> final(self).users().dom().finite(),
    ;

    /// The account stored for `email`.
    fn get_user(&self, email: &Email) -> (r: Result<User, UserStoreError>)
        ensures
            match r {
                Ok(u) => self.users().contains_key(email@) && u == self.users()[email@],
                Err(UserStoreError::UserNotFound) => !self.users().contains_key(email@),
                Err(UserStoreError::UnexpectedError(_)) => !self.never_fails(),
                Err(_) => false,
            },
    ;

    /// Checks `password` against the credential stored for `email`.
    fn validate_user(&self, email: &Email, password: &Password) -> (r: Result<
        (),
        UserStoreError,
    >)
        ensures
            match r {
                Ok(()) => self.users().contains_key(email@) && self.accepts(email@, password@),
                Err(UserStoreError::UserNotFound) => !self.users().contains_key(email@),
                Err(UserStoreError::InvalidCredentials) => self.users().contains_key(email@)
                    && !self.accepts(email@, password@),
                Err(UserStoreError::UnexpectedError(_)) => !self.never_fails(),
                Err(_) => false,
            },
    ;
}

/// A store of revoked session tokens.
///
/// The contracts describe a store whose entries stay until removed: the
/// in-memory store meets them. A cache backend whose entries expire
/// implements this interface without that guarantee.
pub trait BannedTokenStore {
    /// The tokens held as revoked. The default body only lets an implementation
    /// outside this crate compile; such an implementation is not held to
    /// the contracts below.
    closed spec fn banned(&self) -> Set<Seq<char>> {
        Set::empty()
    }

    /// Whether every operation succeeds but for the outcomes the contracts
    /// name: no backend failure. The default body only lets an implementation
    /// outside this crate compile; such an implementation is not held to
    /// the contracts below.
    closed spec fn never_fails(&self) -> bool {
        false
    }

    /// Marks `token` as revoked; adding it again is no error.
    fn add_banned_token(&mut self, token: &str) -> (r: Result<(), BannedTokenStoreError>)
        ensures
            r is Ok ==> final(self).banned() == old(self).banned().insert(token@),
            r is Err ==> final(self).banned() == old(self).banned() && !old(self).never_fails(),
            final(self).never_fails() == old(self).never_fails(),
            old(self).banned().finite() ==> final(self).banned().finite(),
    ;

    /// Whether `token` is revoked.
    fn is_token_banned(&self, token: &str) -> (r: Result<bool, BannedTokenStoreError>)
        ensures
            r matches Ok(b) ==> b == self.banned().contains(token@),
            r is Err ==> !self.never_fails(),
    ;

    /// Forgets `token`; removing an absent token is no error.
    fn remove_banned_token(&mut self, token: &str) -> (r: Result<(), BannedTokenStoreError>)
        ensures
            r is Ok ==> final(self).banned() == old(self).banned().remove(token@),
            r is Err ==> final(self).banned() == old(self).banned() && !old(self).never_fails(),
            final(self).never_fails() == old(self).never_fails(),
            old(self).banned().finite() ==> final(self).banned().finite(),
    ;
}

/// The pending challenge of each address, as (code, login attempt id).
pub type ChallengeMap = Map<Seq<char>, (Seq<char>, Seq<char>)>;

/// A store of pending second-factor challenges, at most one per address.
///
/// The contracts describe a store whose entries stay until replaced or
/// removed: the in-memory store meets them. A cache backend whose entries
/// expire implements this interface without that guarantee.
pub trait TwoFACodeStore {
    /// The pending challenges. The default body only lets an implementation
    /// outside this crate compile; such an implementation is not held to
    /// the contracts below.
    closed spec fn challenges(&self) -> ChallengeMap {
        Map::empty()
    }

    /// Whether every operation succeeds but for the outcomes the contracts
    /// name: no backend failure. The default body only lets an implementation
    /// outside this crate compile; such an implementation is not held to
    /// the contracts below.
    closed spec fn never_fails(&self) -> bool {
        false
    }

    /// Records a challenge for `email`, replacing any earlier one.
    fn add_code(&mut self, email: &Email, code: TwoFACode, login_attempt_id: LoginAttemptId) -> (r:
        Result<(), TwoFACodeStoreError>)
        ensures
            r is Ok ==> final(self).challenges() == old(self).challenges().insert(
                email@,
                (code@, login_attempt_id@),
            ),
            r is Err ==> final(self).challenges() == old(self).challenges() && !old(
                self,
            ).never_fails(),
            final(self).never_fails() == old(self).never_fails(),
            old(self).challenges().dom().finite() ==> final(self).challenges().dom().finite(),
    ;

    /// The challenge pending for `email`.
    fn get_code(&self, email: &Email) -> (r: Result<(TwoFACode, LoginAttemptId), TwoFACodeStoreError>)
        ensures
            match r {
                Ok((code, id)) => self.challenges().contains_key(email@) && self.challenges()[email@]
                    == (code@, id@),
                Err(TwoFACodeStoreError::LoginAttemptIdNotFound) => !self.challenges().contains_key(
                    email@,
                ),
                Err(TwoFACodeStoreError::UnexpectedError(_)) => !self.never_fails(),
            },
    ;

    /// Drops the challenge of `email`, if any.
    fn remove_code(&mut self, email: &Email) -> (r: Result<(), TwoFACodeStoreError>)
        ensures
            r is Ok ==> final(self).challenges() == old(self).challenges().remove(email@),
            r is Err ==> final(self).challenges() == old(self).challenges() && !old(
                self,
            ).never_fails(),
            final(self).never_fails() == old(self).never_fails(),
            old(self).challenges().dom().finite() ==> final(self).challenges().dom().finite(),
    ;
}

/// Six ASCII digits.
pub open spec fn is_two_fa_code(s: Seq<char>) -> bool {
    s.len() == 6 && forall|i: int| 0 <= i < 6 ==> is_ascii_digit(#[trigger] s[i])
}

/// The decimal digit `d` as a character.
pub open spec fn digit_char(d: int) -> char {
    (d + 48) as char
}

/// `n` written in six decimal digits, with leading zeros.
pub open spec fn six_digits(n: int) -> Seq<char> {
    seq![
        digit_char(n / 100000 % 10),
        digit_char(n / 10000 % 10),
        digit_char(n / 1000 % 10),
        digit_char(n / 100 % 10),
        digit_char(n / 10 % 10),
        digit_char(n % 10),
    ]
}

/// Relies on rand's `thread_rng().gen_range`: a number drawn uniformly
/// from `[0, bound)`; it panics on an empty range, which `requires` excludes.
#[verifier::external_body]
fn random_below(bound: u32) -> (r: u32)
    requires
        0 < bound,
    ensures
        r < bound,
{
    rand::thread_rng().gen_range(0..bound)
}

/// Relies on `String::from_iter` over chars: the characters in order.
#[verifier::external_body]
fn string_from_chars(v: Vec<char>) -> (r: String)
    ensures
        r@ == v@,
{
    String::from_iter(v)
}

/// An ASCII hexadecimal digit, in either case.
pub open spec fn is_hex_digit(c: char) -> bool {
    is_ascii_digit(c) || ('a' <= c && c <= 'f') || ('A' <= c && c <= 'F')
}

/// Thirty-six characters: hexadecimal digits in groups of 8, 4, 4, 4 and 12,
/// joined by hyphens.
pub open spec fn is_hyphenated_uuid(s: Seq<char>) -> bool {
    &&& s.len() == 36
    &&& forall|i: int|
        0 <= i < 36 ==> if i == 8 || i == 13 || i == 18 || i == 23 {
            #[trigger] s[i] == '-'
        } else {
            is_hex_digit(s[i])
        }
}

/// `c` with an ASCII capital made small.
pub open spec fn ascii_lower(c: char) -> char {
    if 'A' <= c && c <= 'Z' {
        ((c as u32) + 32) as char
    } else {
        c
    }
}

/// The text that a UUID is read from: 32 hexadecimal digits; the hyphenated
/// form; the hyphenated form in braces; or the hyphenated form behind
/// `urn:uuid:`, that prefix in any case.
pub open spec fn uuid_accepts(s: Seq<char>) -> bool {
    ||| s.len() == 32 && forall|i: int| 0 <= i < 32 ==> is_hex_digit(#[trigger] s[i])
    ||| is_hyphenated_uuid(s)
    ||| s.len() == 38 && s[0] == '{' && s[37] == '}' && is_hyphenated_uuid(s.subrange(1, 37))
    ||| s.len() == 45 && (forall|i: int| 0 <= i < 9 ==> ascii_lower(#[trigger] s[i]) == "urn:uuid:"@[i])
        && is_hyphenated_uuid(s.subrange(9, 45))
}

/// Relies on uuid's `Uuid::new_v4` and its `Display`, which writes the
/// hyphenated form in lower-case hexadecimal.
#[verifier::external_body]
fn new_uuid_text() -> (r: String)
    ensures
        is_hyphenated_uuid(r@),
{
    uuid::Uuid::new_v4().to_string()
}

/// Relies on uuid's `Uuid::parse_str`: it reads the four forms of
/// `uuid_accepts` (checked on bytes; any non-ASCII text is refused, so
/// counting characters or bytes gives the same lengths).
#[verifier::external_body]
fn uuid_parses(s: &str) -> (r: bool)
    ensures
        r == uuid_accepts(s@),
{
    uuid::Uuid::parse_str(s).is_ok()
}

/// The identifier that ties a login request to its pending challenge.
#[derive(Debug)]
pub struct LoginAttemptId(String);

impl LoginAttemptId {
    /// The text is always a UUID.
    #[verifier::type_invariant]
    spec fn is_uuid(&self) -> bool {
        uuid_accepts(self.0@)
    }
}

impl View for LoginAttemptId {
    type V = Seq<char>;

    closed spec fn view(&self) -> Seq<char> {
        self.0@
    }
}

impl PartialEq for LoginAttemptId {
    fn eq(&self, other: &LoginAttemptId) -> (r: bool) {
        self.0 == other.0
    }
}

impl vstd::std_specs::cmp::PartialEqSpecImpl for LoginAttemptId {
    open spec fn obeys_eq_spec() -> bool {
        true
    }

    open spec fn eq_spec(&self, other: &LoginAttemptId) -> bool {
        self@ == other@
    }
}

impl LoginAttemptId {
    /// A fresh random identifier.
    pub fn new() -> (r: LoginAttemptId)
        ensures
            uuid_accepts(r@),
    {
        let text = new_uuid_text();
        assert(uuid_accepts(text@));
        LoginAttemptId(text)
    }

    /// Accepts `id` exactly when it is a UUID.
    pub fn parse(id: &str) -> (r: Result<LoginAttemptId, String>)
        ensures
            r is Ok <==> uuid_accepts(id@),
            r matches Ok(a) ==> a@ == id@,
    {
        if uuid_parses(id) {
            Ok(LoginAttemptId(id.to_owned()))
        } else {
            Err(String::from_str("Invalid LoginAttemptId"))
        }
    }

    /// An exact copy.
    pub fn duplicate(&self) -> (r: LoginAttemptId)
        ensures
            r@ == self@,
    {
        proof {
            use_type_invariant(self);
        }
        LoginAttemptId(self.0.clone())
    }
}

impl Clone for LoginAttemptId {
    fn clone(&self) -> (r: LoginAttemptId)
        ensures
            r@ == self@,
    {
        self.duplicate()
    }
}

impl Default for LoginAttemptId {
    fn default() -> (r: LoginAttemptId)
        ensures
            uuid_accepts(r@),
    {
        LoginAttemptId::new()
    }
}

impl AsRef<str> for LoginAttemptId {
    fn as_ref(&self) -> (r: &str)
        ensures
            r@ == self@,
            uuid_accepts(r@),
    {
        proof {
            use_type_invariant(self);
        }
        self.0.as_str()
    }
}

/// A one-time second-factor code: six ASCII digits.
#[derive(Debug)]
pub struct TwoFACode(String);

impl TwoFACode {
    /// The text is always six digits.
    #[verifier::type_invariant]
    spec fn is_six_digits(&self) -> bool {
        is_two_fa_code(self.0@)
    }
}

impl View for TwoFACode {
    type V = Seq<char>;

    closed spec fn view(&self) -> Seq<char> {
        self.0@
    }
}

impl PartialEq for TwoFACode {
    fn eq(&self, other: &TwoFACode) -> (r: bool) {
        self.0 == other.0
    }
}

impl vstd::std_specs::cmp::PartialEqSpecImpl for TwoFACode {
    open spec fn obeys_eq_spec() -> bool {
        true
    }

    open spec fn eq_spec(&self, other: &TwoFACode) -> bool {
        self@ == other@
    }
}

/// The largest code number plus one.
pub const CODE_RANGE: u32 = 1000000;

fn digit(d: u32) -> (c: char)
    requires
        d < 10,
    ensures
        c == digit_char(d as int),
{
    ((d + 48) as u8) as char
}

impl TwoFACode {
    /// A fresh code, drawn uniformly from `000000` to `999999`.
    pub fn new() -> (r: TwoFACode)
        ensures
            is_two_fa_code(r@),
            exists|n: int| 0 <= n < CODE_RANGE && r@ == six_digits(n),
    {
        TwoFACode::from_number(random_below(CODE_RANGE))
    }

    /// The code that writes `n` in six digits, with leading zeros.
    pub fn from_number(n: u32) -> (r: TwoFACode)
        requires
            n < CODE_RANGE,
        ensures
            r@ == six_digits(n as int),
            is_two_fa_code(r@),
    {
        let mut v: Vec<char> = Vec::new();
        v.push(digit(n / 100000 % 10));
        v.push(digit(n / 10000 % 10));
        v.push(digit(n / 1000 % 10));
        v.push(digit(n / 100 % 10));
        v.push(digit(n / 10 % 10));
        v.push(digit(n % 10));
        let ghost digits = v@;
        let r = TwoFACode(string_from_chars(v));
        assert(r@ == digits);
        assert(r@ =~= six_digits(n as int));
        r
    }

    /// Accepts `code` exactly when it is six ASCII digits.
    pub fn parse(code: String) -> (r: Result<TwoFACode, String>)
        ensures
            r is Ok <==> is_two_fa_code(code@),
            r matches Ok(c) ==> c@ == code@,
    {
        let v = chars_of(code.as_str());
        if v.len() != 6 {
            return Err(String::from_str("Invalid TwoFACode"));
        }
        let mut i: usize = 0;
        while i < 6
            invariant
                v@ == code@,
                v@.len() == 6,
                i <= 6,
                forall|j: int| 0 <= j < i ==> is_ascii_digit(#[trigger] v@[j]),
            decreases 6 - i,
        {
            if !('0' <= v[i] && v[i] <= '9') {
                return Err(String::from_str("Invalid TwoFACode"));
            }
            i = i + 1;
        }
        Ok(TwoFACode(code))
    }

    /// An exact copy.
    pub fn duplicate(&self) -> (r: TwoFACode)
        ensures
            r@ == self@,
    {
        proof {
            use_type_invariant(self);
        }
        TwoFACode(self.0.clone())
    }
}

impl Clone for TwoFACode {
    fn clone(&self) -> (r: TwoFACode)
        ensures
            r@ == self@,
    {
        self.duplicate()
    }
}

impl Default for TwoFACode {
    fn default() -> (r: TwoFACode)
        ensures
            is_two_fa_code(r@),
    {
        TwoFACode::new()
    }
}

impl AsRef<str> for TwoFACode {
    fn as_ref(&self) -> (r: &str)
        ensures
            r@ == self@,
            is_two_fa_code(r@),
    {
        proof {
            use_type_invariant(self);
        }
        self.0.as_str()
    }
}

} // verus!
