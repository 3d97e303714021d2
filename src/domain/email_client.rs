use vstd::prelude::*;
use vstd::string::StringExecFns;

use crate::domain::email::Email;

verus! {

/// A message as handed for delivery: recipient, subject and body.
pub type MessageView = (Seq<char>, Seq<char>, Seq<char>);

/// A service that delivers e-mail.
///
/// The contracts describe a client that records what it accepts: the mock
/// client meets them. A client that hands messages to a remote service
/// implements this interface without that guarantee.
pub trait EmailClient {
    /// The messages this client has accepted for delivery, oldest first. The default body only lets an implementation
    /// outside this crate compile; such an implementation is not held to
    /// the contracts below.
    closed spec fn outbox(&self) -> Seq<MessageView> {
        Seq::empty()
    }

    /// Whether every message is accepted. The default body only lets an implementation
    /// outside this crate compile; such an implementation is not held to
    /// the contracts below.
    closed spec fn never_fails(&self) -> bool {
        false
    }

    /// Hands one message over for delivery. On success it is the one new
    /// entry of the outbox; on failure nothing was accepted.
    fn send_email(&mut self, recipient: &Email, subject: &str, content: &str) -> (r: Result<
        (),
        String,
    >)
        ensures
            r is Ok ==> final(self).outbox() == old(self).outbox().push(
                (recipient@, subject@, content@),
            ),
            r is Err ==> final(self).outbox() == old(self).outbox() && !old(self).never_fails(),
            final(self).never_fails() == old(self).never_fails(),
    ;
}

/// The subject of the message that carries a second-factor code.
pub open spec fn two_fa_subject() -> Seq<char> {
    "Your 2FA Code"@
}

/// The body of the message that carries `code` to `email`.
pub open spec fn two_fa_body(email: Seq<char>, code: Seq<char>) -> Seq<char> {
    "Hello "@ + email + ",\n\nYour 2FA code is: "@ + code + "\n\nThank you!"@
}

/// Subject and body of the message that delivers a second-factor code.
pub fn two_fa_login_email_template(email: &Email, code: &str) -> (r: (String, String))
    ensures
        r.0@ == two_fa_subject(),
        r.1@ == two_fa_body(email@, code@),
{
    let subject = String::from_str("Your 2FA Code");
    let mut content = String::from_str("Hello ");
    content.append(email.as_ref());
    content.append(",\n\nYour 2FA code is: ");
    content.append(code);
    content.append("\n\nThank you!");
    (subject, content)
}

} // verus!
