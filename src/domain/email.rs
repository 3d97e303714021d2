use vstd::prelude::*;
use vstd::string::StringExecFns;

verus! {

/// An ASCII letter, `a`-`z` or `A`-`Z`.
pub open spec fn is_ascii_letter(c: char) -> bool {
    ('a' <= c && c <= 'z') || ('A' <= c && c <= 'Z')
}

/// An ASCII decimal digit.
pub open spec fn is_ascii_digit(c: char) -> bool {
    '0' <= c && c <= '9'
}

/// A character allowed before the `@`.
pub open spec fn is_local_char(c: char) -> bool {
    is_ascii_letter(c) || is_ascii_digit(c) || c == '.' || c == '_' || c == '%' || c == '+'
        || c == '-'
}

/// A character allowed between the `@` and the final dot.
pub open spec fn is_domain_char(c: char) -> bool {
    is_ascii_letter(c) || is_ascii_digit(c) || c == '.' || c == '-'
}

/// `s` reads `local@domain.tld`, with the `@` at `at` and the last dot at `dot`:
/// a non-empty local part, a non-empty domain, and a top-level domain of at
/// least two letters.
pub open spec fn email_split(s: Seq<char>, at: int, dot: int) -> bool {
    &&& 0 < at
    &&& at + 1 < dot
    &&& dot + 2 < s.len()
    &&& s[at] == '@'
    &&& s[dot] == '.'
    &&& forall|i: int| 0 <= i < at ==> is_local_char(#[trigger] s[i])
    &&& forall|i: int| at < i < dot ==> is_domain_char(#[trigger] s[i])
    &&& forall|i: int| dot < i < s.len() ==> is_ascii_letter(#[trigger] s[i])
}

/// The accepted address shape: `[A-Za-z0-9._%+-]+@[A-Za-z0-9.-]+\.[A-Za-z]{2,}`,
/// matched against the whole text.
pub open spec fn is_email_shape(s: Seq<char>) -> bool {
    exists|at: int, dot: int| email_split(s, at, dot)
}

/// An e-mail address. Equality is exact on the text.
#[derive(Debug, Clone, Eq, Hash)]
pub struct Email(pub String);

impl View for Email {
    type V = Seq<char>;

    open spec fn view(&self) -> Seq<char> {
        self.0@
    }
}

impl PartialEq for Email {
    fn eq(&self, other: &Email) -> (r: bool) {
        self.0 == other.0
    }
}

impl vstd::std_specs::cmp::PartialEqSpecImpl for Email {
    open spec fn obeys_eq_spec() -> bool {
        true
    }

    open spec fn eq_spec(&self, other: &Email) -> bool {
        self.0@ == other.0@
    }
}

/// The characters of `s`, one by one.
pub fn chars_of(s: &str) -> (v: Vec<char>)
    ensures
        v@ == s@,
{
    let mut v: Vec<char> = Vec::new();
    for c in it: s.chars()
        invariant
            it.seq() == s@,
            v@ == s@.subrange(0, it.index() as int),
    {
        v.push(c);
    }
    v
}

fn char_is_letter(c: char) -> (r: bool)
    ensures
        r == is_ascii_letter(c),
{
    ('a' <= c && c <= 'z') || ('A' <= c && c <= 'Z')
}

fn char_is_digit(c: char) -> (r: bool)
    ensures
        r == is_ascii_digit(c),
{
    '0' <= c && c <= '9'
}

fn char_is_local(c: char) -> (r: bool)
    ensures
        r == is_local_char(c),
{
    char_is_letter(c) || char_is_digit(c) || c == '.' || c == '_' || c == '%' || c == '+' || c
        == '-'
}

fn char_is_domain(c: char) -> (r: bool)
    ensures
        r == is_domain_char(c),
{
    char_is_letter(c) || char_is_digit(c) || c == '.' || c == '-'
}

/// The three runs of an address: before the `@`, between it and the last
/// dot, and after that dot.
#[derive(Clone, Copy)]
enum CharClass {
    Local,
    Domain,
    Letter,
}

spec fn char_in_class(c: char, class: CharClass) -> bool {
    match class {
        CharClass::Local => is_local_char(c),
        CharClass::Domain => is_domain_char(c),
        CharClass::Letter => is_ascii_letter(c),
    }
}

/// Whether every character of `v` in `[lo, hi)` belongs to `class`.
fn all_of_class(v: &Vec<char>, lo: usize, hi: usize, class: CharClass) -> (r: bool)
    requires
        lo <= hi <= v@.len(),
    ensures
        r == (forall|i: int| lo <= i < hi ==> char_in_class(#[trigger] v@[i], class)),
{
    let mut i = lo;
    while i < hi
        invariant
            lo <= i <= hi <= v@.len(),
            forall|j: int| lo <= j < i ==> char_in_class(#[trigger] v@[j], class),
        decreases hi - i,
    {
        let c = v[i];
        let ok = match class {
            CharClass::Local => char_is_local(c),
            CharClass::Domain => char_is_domain(c),
            CharClass::Letter => char_is_letter(c),
        };
        if !ok {
            return false;
        }
        i = i + 1;
    }
    true
}

impl Email {
    /// Accepts `email` exactly when it has the address shape.
    pub fn parse(email: &str) -> (r: Result<Email, String>)
        ensures
            r is Ok <==> is_email_shape(email@),
            r matches Ok(e) ==> e@ == email@,
    {
        if Email::is_valid(email) {
            Ok(Email(email.to_owned()))
        } else {
            Err(String::from_str("Email not valid"))
        }
    }

    /// Whether `email` has the address shape.
    pub fn is_valid(email: &str) -> (r: bool)
        ensures
            r == is_email_shape(email@),
    {
        let v = chars_of(email);
        let n = v.len();
        // the first '@'
        let mut at: usize = 0;
        while at < n && v[at] != '@'
            invariant
                n == v@.len(),
                at <= n,
                forall|j: int| 0 <= j < at ==> v@[j] != '@',
            decreases n - at,
        {
            at = at + 1;
        }
        // the last '.'
        let mut dot: usize = n;
        let mut i: usize = 0;
        while i < n
            invariant
                n == v@.len(),
                i <= n,
                dot == n || (dot < i && v@[dot as int] == '.'),
                forall|j: int| (if dot == n { 0 } else { dot + 1 }) <= j < i ==> v@[j] != '.',
            decreases n - i,
        {
            if v[i] == '.' {
                dot = i;
            }
            i = i + 1;
        }
        if at == n || dot == n || at == 0 || at + 1 >= dot || n - dot <= 2 {
            proof {
                Email::lemma_split_is_unique(v@, at as int, dot as int);
            }
            return false;
        }
        let ok = all_of_class(&v, 0, at, CharClass::Local) && all_of_class(
            &v,
            at + 1,
            dot,
            CharClass::Domain,
        ) && all_of_class(&v, dot + 1, n, CharClass::Letter);
        proof {
            if ok {
                assert(email_split(v@, at as int, dot as int));
            } else {
                Email::lemma_split_is_unique(v@, at as int, dot as int);
            }
        }
        ok
    }

    /// A split of an address is the first `@` and the last dot.
    proof fn lemma_split_is_unique(s: Seq<char>, at: int, dot: int)
        requires
            0 <= at <= s.len(),
            at < s.len() ==> s[at] == '@',
            forall|j: int| 0 <= j < at ==> s[j] != '@',
            dot == s.len() || (0 <= dot < s.len() && s[dot] == '.'),
            forall|j: int| (if dot == s.len() { 0 } else { dot + 1 }) <= j < s.len() ==> s[j] != '.',
        ensures
            is_email_shape(s) ==> email_split(s, at, dot),
    {
        if is_email_shape(s) {
            let (a2, d2) = choose|a2: int, d2: int| email_split(s, a2, d2);
            assert(s[a2] == '@');
            assert(!is_local_char('@'));
            if at < a2 {
                assert(is_local_char(s[at]));
            }
            assert(at == a2);
            if dot == s.len() {
                assert(s[d2] != '.');
            } else if dot < d2 {
                assert(is_domain_char(s[dot]));
                assert(s[d2] != '.');
            } else if d2 < dot {
                assert(is_ascii_letter(s[dot]));
            }
            assert(dot == d2);
        }
    }
}

impl AsRef<str> for Email {
    fn as_ref(&self) -> (r: &str)
        ensures
            r@ == self@,
    {
        self.0.as_str()
    }
}

} // verus!
