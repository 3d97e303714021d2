use vstd::prelude::*;
use vstd::string::StringExecFns;

use crate::domain::email::Email;
use crate::domain::email_client::{EmailClient, MessageView};

verus! {

/// A message that was handed over for delivery.
#[derive(Debug, Clone)]
pub struct SentEmail {
    pub recipient: String,
    pub subject: String,
    pub content: String,
}

/// An e-mail client that delivers nothing and keeps what it was given.
#[derive(Debug, Clone)]
pub struct MockEmailClient {
    sent: Vec<SentEmail>,
}

pub open spec fn message_view(m: SentEmail) -> MessageView {
    (m.recipient@, m.subject@, m.content@)
}

impl MockEmailClient {
    /// A client that has sent nothing.
    pub fn new() -> (r: MockEmailClient)
        ensures
            r.outbox() == Seq::<MessageView>::empty(),
    {
        let r = MockEmailClient { sent: Vec::new() };
        assert(r.outbox() =~= Seq::<MessageView>::empty());
        r
    }

    /// The messages sent so far, oldest first.
    pub fn sent(&self) -> (r: &Vec<SentEmail>)
        ensures
            r@.map_values(|m: SentEmail| message_view(m)) == self.outbox(),
    {
        &self.sent
    }
}

impl Default for MockEmailClient {
    fn default() -> (r: MockEmailClient)
        ensures
            r.outbox() == Seq::<MessageView>::empty(),
    {
        MockEmailClient::new()
    }
}

impl EmailClient for MockEmailClient {
    open spec fn never_fails(&self) -> bool {
        true
    }

    closed spec fn outbox(&self) -> Seq<MessageView> {
        self.sent@.map_values(|m: SentEmail| message_view(m))
    }

    fn send_email(&mut self, recipient: &Email, subject: &str, content: &str) -> (r: Result<
        (),
        String,
    >)
        ensures
            r is Ok,
    {
        let m = SentEmail {
            recipient: String::from_str(recipient.as_ref()),
            subject: String::from_str(subject),
            content: String::from_str(content),
        };
        self.sent.push(m);
        assert(self.outbox() =~= old(self).outbox().push((recipient@, subject@, content@)));
        Ok(())
    }
}

} // verus!
