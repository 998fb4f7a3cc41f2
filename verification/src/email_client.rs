//! Outgoing mail: the message, and a mailbox that keeps every message it is
//! asked to send.

use crate::domain::subscriber_email::SubscriberEmail;
use crate::error::ErrorChain;
use vstd::prelude::*;
use vstd::string::*;

verus! {

/// One message to one recipient, with the same content as HTML and as plain
/// text.
#[derive(Debug)]
pub struct Email {
    pub recipient: SubscriberEmail,
    pub subject: String,
    pub html_body: String,
    pub text_body: String,
}

/// A message as a mathematical value.
pub struct EmailView {
    pub recipient: Seq<char>,
    pub subject: Seq<char>,
    pub html_body: Seq<char>,
    pub text_body: Seq<char>,
}

impl View for Email {
    type V = EmailView;

    open spec fn view(&self) -> EmailView {
        EmailView {
            recipient: self.recipient@,
            subject: self.subject@,
            html_body: self.html_body@,
            text_body: self.text_body@,
        }
    }
}

impl Email {
    /// A copy of this message.
    pub fn clone(&self) -> (copy: Email)
        ensures
            copy@ == self@,
    {
        Email {
            recipient: self.recipient.clone(),
            subject: self.subject.clone(),
            html_body: self.html_body.clone(),
            text_body: self.text_body.clone(),
        }
    }
}

/// The messages of `rows` as mathematical values, in order.
pub open spec fn emails(rows: Seq<Email>) -> Seq<EmailView> {
    Seq::new(rows.len(), |i: int| rows[i]@)
}

/// What an [`Outbox`] stands for.
pub struct OutboxView {
    /// Every message that was handed over for sending, in order, whether or
    /// not it was accepted.
    pub attempts: Seq<EmailView>,
    /// The addresses to which nothing can be delivered.
    pub unreachable: Seq<Seq<char>>,
}

impl OutboxView {
    /// Whether delivery to `address` fails.
    pub open spec fn refuses(self, address: Seq<char>) -> bool {
        exists|i: int| 0 <= i < self.unreachable.len() && #[trigger] self.unreachable[i] == address
    }

    /// The outbox after one more attempt.
    pub open spec fn with_attempt(self, email: EmailView) -> OutboxView {
        OutboxView { attempts: self.attempts.push(email), unreachable: self.unreachable }
    }
}

/// The reason given when a recipient cannot be reached.
pub open spec fn undeliverable_message() -> Seq<char> {
    "The recipient cannot be reached."@
}

/// A mail transport that delivers nowhere: it records each message it is
/// given, and fails for the recipients it was told are unreachable.
#[derive(Debug)]
pub struct Outbox {
    attempts: Vec<Email>,
    unreachable: Vec<String>,
}

impl View for Outbox {
    type V = OutboxView;

    closed spec fn view(&self) -> OutboxView {
        OutboxView {
            attempts: emails(self.attempts@),
            unreachable: Seq::new(self.unreachable@.len(), |i: int| self.unreachable@[i]@),
        }
    }
}

impl Outbox {
    /// An outbox that reaches everyone.
    pub fn new() -> (outbox: Outbox)
        ensures
            outbox@.attempts.len() == 0,
            outbox@.unreachable.len() == 0,
    {
        Outbox { attempts: Vec::new(), unreachable: Vec::new() }
    }

    /// From now on, delivery to `address` fails.
    pub fn refuse(&mut self, address: &str)
        ensures
            final(self)@.attempts == old(self)@.attempts,
            final(self)@.unreachable == old(self)@.unreachable.push(address@),
    {
        self.unreachable.push(String::from_str(address));
        assert(self@.unreachable =~= old(self)@.unreachable.push(address@));
    }

    /// Records `email` as attempted, and fails exactly when its recipient is
    /// unreachable.
    pub fn send_email(&mut self, email: Email) -> (r: Result<(), ErrorChain>)
        ensures
            final(self)@ == old(self)@.with_attempt(email@),
            r is Err <==> old(self)@.refuses(email@.recipient),
            r matches Err(e) ==> e@.message == undeliverable_message() && e@.causes.len() == 0,
    {
        let recipient = String::from_str(email.recipient.as_ref());
        let ghost before = self@;
        let ghost sent = email@;
        self.attempts.push(email);
        assert(self@.attempts =~= before.attempts.push(sent));
        let mut i: usize = 0;
        while i < self.unreachable.len()
            invariant
                i <= self.unreachable.len(),
                before == old(self)@,
                sent == email@,
                self@ == before.with_attempt(sent),
                recipient@ == sent.recipient,
                forall|j: int| 0 <= j < i ==> #[trigger] before.unreachable[j] != sent.recipient,
            decreases self.unreachable.len() - i,
        {
            if self.unreachable[i] == recipient {
                assert(before.unreachable[i as int] == sent.recipient);
                return Err(ErrorChain::new("The recipient cannot be reached."));
            }
            i = i + 1;
        }
        Ok(())
    }

    /// Every message handed over so far, in order.
    pub fn attempts(&self) -> (rows: &Vec<Email>)
        ensures
            emails(rows@) == self@.attempts,
    {
        &self.attempts
    }
}

} // verus!
