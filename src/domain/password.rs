use vstd::prelude::*;
use vstd::string::StringExecFns;

use crate::domain::email::is_ascii_digit;

verus! {

/// The password policy: at least eight bytes of UTF-8 text, at least one of
/// them an ASCII digit.
pub open spec fn meets_password_policy(s: Seq<char>) -> bool {
    &&& vstd::utf8::encode_utf8(s).len() >= 8
    &&& exists|i: int| 0 <= i < s.len() && is_ascii_digit(#[trigger] s[i])
}

/// A password. It has no `Debug`, so it cannot reach a log by accident.
#[derive(Clone)]
pub struct Password(String);

impl View for Password {
    type V = Seq<char>;

    closed spec fn view(&self) -> Seq<char> {
        self.0@
    }
}

impl PartialEq for Password {
    fn eq(&self, other: &Password) -> (r: bool) {
        self.0 == other.0
    }
}

impl vstd::std_specs::cmp::PartialEqSpecImpl for Password {
    open spec fn obeys_eq_spec() -> bool {
        true
    }

    open spec fn eq_spec(&self, other: &Password) -> bool {
        self@ == other@
    }
}

impl Eq for Password {

}

/// Whether `s` holds an ASCII digit.
pub fn contains_digit(s: &str) -> (r: bool)
    ensures
        r == exists|i: int| 0 <= i < s@.len() && is_ascii_digit(#[trigger] s@[i]),
{
    let mut found = false;
    for c in it: s.chars()
        invariant
            it.seq() == s@,
            found == exists|i: int| 0 <= i < it.index() && is_ascii_digit(#[trigger] s@[i]),
    {
        if '0' <= c && c <= '9' {
            found = true;
        }
    }
    found
}

impl Password {
    /// Accepts `password` exactly when it meets the policy.
    pub fn parse(password: String) -> (r: Result<Password, String>)
        ensures
            r is Ok <==> meets_password_policy(password@),
            r matches Ok(p) ==> p@ == password@,
    {
        if Password::is_valid(password.as_str()) {
            Ok(Password(password))
        } else {
            Err(String::from_str("Password not valid"))
        }
    }

    /// Whether `password` meets the policy.
    pub fn is_valid(password: &str) -> (r: bool)
        ensures
            r == meets_password_policy(password@),
    {
        password.as_bytes().len() >= 8 && contains_digit(password)
    }

    /// A password taken as it is, without the policy: for a value that was
    /// already checked or hashed before it was stored.
    pub(crate) fn fake(password: String) -> (r: Password)
        ensures
            r@ == password@,
    {
        Password(password)
    }

    /// An exact copy.
    pub fn duplicate(&self) -> (r: Password)
        ensures
            r == *self,
    {
        Password(self.0.clone())
    }

    /// The secret text, for the code that hashes or compares it.
    pub(crate) fn expose_secret(&self) -> (r: &str)
        ensures
            r@ == self@,
    {
        self.0.as_str()
    }
}

} // verus!
