use vstd::prelude::*;
use vstd::string::*;

use crate::domain::NewSubscriber;

verus! {

/// Path of the confirmation endpoint, with the query parameter that carries the token.
pub open spec fn confirm_path(token: Seq<char>) -> Seq<char> {
    "/subscriptions/confirm?subscription_token="@ + token
}

/// The confirmation link: the application's base URL followed by the confirmation path.
pub open spec fn confirmation_link(base_url: Seq<char>, token: Seq<char>) -> Seq<char> {
    base_url + confirm_path(token)
}

/// The plain-text body of a confirmation email.
pub open spec fn confirmation_text(link: Seq<char>) -> Seq<char> {
    "Welcome to our newsletter!\nVisit "@ + link + " to confirm your subscription."@
}

/// A confirmation email, as the logic sees it.
pub struct EmailView {
    pub recipient: Seq<char>,
    pub subject: Seq<char>,
    pub link: Seq<char>,
    pub text_body: Seq<char>,
}

/// The confirmation email for a recipient and a token.
pub open spec fn confirmation_view(recipient: Seq<char>, base_url: Seq<char>, token: Seq<char>)
    -> EmailView {
    EmailView {
        recipient,
        subject: "Welcome!"@,
        link: confirmation_link(base_url, token),
        text_body: confirmation_text(confirmation_link(base_url, token)),
    }
}

/// A confirmation email ready to be handed to an email transport.
pub struct ConfirmationEmail {
    pub recipient: String,
    pub subject: String,
    pub link: String,
    pub text_body: String,
}

impl View for ConfirmationEmail {
    type V = EmailView;

    open spec fn view(&self) -> EmailView {
        EmailView {
            recipient: self.recipient@,
            subject: self.subject@,
            link: self.link@,
            text_body: self.text_body@,
        }
    }
}

/// Builds the confirmation email that carries `token` to `recipient`.
pub fn confirmation_email(recipient: &str, base_url: &str, token: &str) -> (e: ConfirmationEmail)
    ensures
        e@ == confirmation_view(recipient@, base_url@, token@),
{
    let link = String::from_str(base_url).concat("/subscriptions/confirm?subscription_token=").concat(
        token,
    );
    let text_body = String::from_str("Welcome to our newsletter!\nVisit ").concat(
        link.as_str(),
    ).concat(" to confirm your subscription.");
    let e = ConfirmationEmail {
        recipient: String::from_str(recipient),
        subject: String::from_str("Welcome!"),
        link,
        text_body,
    };
    assert(e.link@ =~= confirmation_link(base_url@, token@));
    assert(e.text_body@ =~= confirmation_text(e.link@));
    e
}

/// The body returned in place of sending an email, when the application echoes the
/// confirmation path back to the caller instead of delivering it.
pub struct TestResponse {
    pub from: String,
    pub to: String,
    pub subject: String,
    pub text: String,
}

impl TestResponse {
    /// The echoed response for a sender, a recipient and a token.
    pub fn for_token(from: &str, to: &str, token: &str) -> (r: TestResponse)
        ensures
            r.from@ == from@,
            r.to@ == to@,
            r.subject@ == "New subscriber"@,
            r.text@ == confirm_path(token@),
    {
        let text = String::from_str("/subscriptions/confirm?subscription_token=").concat(token);
        TestResponse {
            from: String::from_str(from),
            to: String::from_str(to),
            subject: String::from_str("New subscriber"),
            text,
        }
    }
}

/// The emails an outbox delivered, those its transport refused, and whether the transport
/// accepts emails.
pub struct OutboxView {
    pub sent: Seq<EmailView>,
    pub refused: Seq<EmailView>,
    pub accepting: bool,
}

impl OutboxView {
    /// One email delivered.
    pub open spec fn send(self, e: EmailView) -> OutboxView {
        OutboxView { sent: self.sent.push(e), ..self }
    }

    /// One email refused by the transport.
    pub open spec fn refuse(self, e: EmailView) -> OutboxView {
        OutboxView { refused: self.refused.push(e), ..self }
    }
}

/// An in-memory email channel: it records each email it delivers, and while its transport is
/// down it refuses every email and records the refused attempt.
pub struct Outbox {
    sent: Vec<ConfirmationEmail>,
    refused: Vec<ConfirmationEmail>,
    accepting: bool,
}

impl View for Outbox {
    type V = OutboxView;

    closed spec fn view(&self) -> OutboxView {
        OutboxView {
            sent: self.sent@.map_values(|e: ConfirmationEmail| e@),
            refused: self.refused@.map_values(|e: ConfirmationEmail| e@),
            accepting: self.accepting,
        }
    }
}

impl Outbox {
    /// An empty outbox whose transport accepts emails when `accepting` holds.
    pub fn new(accepting: bool) -> (r: Outbox)
        ensures
            r@.sent == Seq::<EmailView>::empty(),
            r@.refused == Seq::<EmailView>::empty(),
            r@.accepting == accepting,
    {
        let r = Outbox { sent: Vec::new(), refused: Vec::new(), accepting };
        assert(r@.sent =~= Seq::<EmailView>::empty());
        assert(r@.refused =~= Seq::<EmailView>::empty());
        r
    }

    /// Brings the transport up or down.
    pub fn set_accepting(&mut self, accepting: bool)
        ensures
            final(self)@ == (OutboxView { accepting, ..old(self)@ }),
    {
        self.accepting = accepting;
    }

    /// The emails accepted so far, oldest first.
    pub fn sent(&self) -> (r: &Vec<ConfirmationEmail>)
        ensures
            r@.len() == self@.sent.len(),
            forall|i: int| 0 <= i < r@.len() ==> (#[trigger] r@[i])@ == self@.sent[i],
    {
        &self.sent
    }

    /// The emails refused so far, oldest first.
    pub fn refused(&self) -> (r: &Vec<ConfirmationEmail>)
        ensures
            r@.len() == self@.refused.len(),
            forall|i: int| 0 <= i < r@.len() ==> (#[trigger] r@[i])@ == self@.refused[i],
    {
        &self.refused
    }

    /// Hands an email to the transport, once: delivered when the transport accepts it,
    /// recorded as refused otherwise.
    pub fn deliver(&mut self, email: ConfirmationEmail) -> (r: bool)
        ensures
            r == old(self)@.accepting,
            final(self)@ == if r { old(self)@.send(email@) } else { old(self)@.refuse(email@) },
    {
        let ghost before = self@;
        let ghost e = email@;
        if !self.accepting {
            self.refused.push(email);
            assert(self@.refused =~= before.refused.push(e));
            return false;
        }
        self.sent.push(email);
        assert(self@.sent =~= before.sent.push(e));
        true
    }
}

} // verus!
