use vstd::prelude::*;

use crate::domain::SubscriberStatus;
use crate::email::OutboxView;
use crate::store::{
    confirm_subscriber, get_subscriber_from_token, lemma_lookup_token, lemma_mark_confirmed_wf,
    MemoryStore, StoreError, Tables, UserData,
};
use crate::subscription::{lemma_first_subscription, subscribe_model};
use crate::domain::{valid_email, valid_name};

verus! {

/// The query of a confirmation request.
pub struct Parameters {
    pub subscription_token: String,
}

/// How a confirmation request ended.
#[derive(Debug, Clone, Copy, PartialEq, Eq, Structural)]
pub enum ConfirmOutcome {
    /// The subscriber was pending and is now confirmed.
    Confirmed,
    /// No stored token matches: it never existed or was replaced by a later one.
    UnknownToken,
    /// The subscriber was confirmed before; the link was used again.
    AlreadyConfirmed,
    /// The store failed.
    StorageFailure,
}

impl ConfirmOutcome {
    /// The HTTP status that reports the outcome.
    pub fn status_code(&self) -> (r: u16)
        ensures
            r == match self {
                ConfirmOutcome::Confirmed => 200u16,
                ConfirmOutcome::UnknownToken => 401u16,
                ConfirmOutcome::AlreadyConfirmed => 409u16,
                ConfirmOutcome::StorageFailure => 500u16,
            },
    {
        match self {
            ConfirmOutcome::Confirmed => 200,
            ConfirmOutcome::UnknownToken => 401,
            ConfirmOutcome::AlreadyConfirmed => 409,
            ConfirmOutcome::StorageFailure => 500,
        }
    }
}

/// What to do once the token has been looked up.
#[derive(Debug, Clone, Copy, PartialEq, Eq, Structural)]
pub enum ConfirmDecision {
    /// Respond at once with this outcome.
    Respond(ConfirmOutcome),
    /// Mark this subscriber as confirmed, then report with `confirmation_outcome`.
    MarkConfirmed(u128),
}

/// The decision for each outcome of the token lookup.
pub open spec fn decision_for(lookup: Result<Option<UserData>, StoreError>) -> ConfirmDecision {
    match lookup {
        Err(_) => ConfirmDecision::Respond(ConfirmOutcome::StorageFailure),
        Ok(None) => ConfirmDecision::Respond(ConfirmOutcome::UnknownToken),
        Ok(Some(user)) => if user.status == SubscriberStatus::Confirmed {
            ConfirmDecision::Respond(ConfirmOutcome::AlreadyConfirmed)
        } else {
            ConfirmDecision::MarkConfirmed(user.subscriber_id)
        },
    }
}

/// Decides a confirmation from the token lookup: an unknown token is refused, a confirmed
/// subscriber is reported as a conflict, and only a pending one is to be confirmed.
pub fn decide_confirmation(lookup: Result<Option<UserData>, StoreError>) -> (d: ConfirmDecision)
    ensures
        d == decision_for(lookup),
{
    match lookup {
        Err(_) => ConfirmDecision::Respond(ConfirmOutcome::StorageFailure),
        Ok(None) => ConfirmDecision::Respond(ConfirmOutcome::UnknownToken),
        Ok(Some(user)) => match user.status {
            SubscriberStatus::Confirmed => ConfirmDecision::Respond(ConfirmOutcome::AlreadyConfirmed),
            SubscriberStatus::PendingConfirmation => ConfirmDecision::MarkConfirmed(user.subscriber_id),
        },
    }
}

/// The outcome once the subscriber has been marked, or has failed to be.
pub fn confirmation_outcome(marked: Result<(), StoreError>) -> (r: ConfirmOutcome)
    ensures
        r == (if marked is Ok { ConfirmOutcome::Confirmed } else { ConfirmOutcome::StorageFailure }),
{
    match marked {
        Ok(()) => ConfirmOutcome::Confirmed,
        Err(_) => ConfirmOutcome::StorageFailure,
    }
}

/// The effect of confirming `token` on the tables, and the outcome.
pub open spec fn confirm_model(s: Tables, token: Seq<char>) -> (Tables, ConfirmOutcome) {
    match s.lookup_token(token) {
        None => (s, ConfirmOutcome::UnknownToken),
        Some((id, status)) => if status == SubscriberStatus::Confirmed {
            (s, ConfirmOutcome::AlreadyConfirmed)
        } else {
            (s.mark_confirmed(id), ConfirmOutcome::Confirmed)
        },
    }
}

/// Handles a confirmation request against an in-memory store.
pub fn confirm(parameters: &Parameters, pool: &mut MemoryStore) -> (r: ConfirmOutcome)
    requires
        old(pool)@.wf(),
    ensures
        (final(pool)@, r) == confirm_model(old(pool)@, parameters.subscription_token@),
        final(pool)@.wf(),
{
    let lookup = get_subscriber_from_token(pool, parameters.subscription_token.as_str());
    match decide_confirmation(lookup) {
        ConfirmDecision::Respond(outcome) => outcome,
        ConfirmDecision::MarkConfirmed(id) => confirmation_outcome(confirm_subscriber(pool, id)),
    }
}

/// Confirming a token of a pending subscriber succeeds (status 200) and leaves that subscriber
/// confirmed; confirming the same token again is a conflict (status 409) and changes nothing.
pub proof fn lemma_confirm_twice(s: Tables, token: Seq<char>, id: u128)
    requires
        s.wf(),
        s.lookup_token(token) == Some((id, SubscriberStatus::PendingConfirmation)),
    ensures
        ({
            let (s1, r1) = confirm_model(s, token);
            let (s2, r2) = confirm_model(s1, token);
            &&& r1 == ConfirmOutcome::Confirmed
            &&& s1.wf()
            &&& s1.lookup_token(token) == Some((id, SubscriberStatus::Confirmed))
            &&& r2 == ConfirmOutcome::AlreadyConfirmed
            &&& s2 == s1
        }),
{
    let i = choose|i: int| s.is_first_token(token, i);
    let k = choose|k: int| s.is_first_id(id, k);
    let s1 = s.mark_confirmed(id);
    lemma_mark_confirmed_wf(s, id);
    assert(s1.subscribers[k].id == id);
    assert(s1.subscribers[k].status == SubscriberStatus::Confirmed);
    lemma_lookup_token(s1, token, i, k);
}

/// A token that no row holds is refused as unknown (status 401), and nothing changes.
pub proof fn lemma_unknown_token_refused(s: Tables, token: Seq<char>)
    requires
        !s.has_token(token),
    ensures
        confirm_model(s, token) == (s, ConfirmOutcome::UnknownToken),
{
}

/// No request moves a subscriber back from confirmed: across a subscription or a confirmation,
/// every stored subscriber stays at its position with its id and email, and one that was
/// confirmed stays confirmed.
pub proof fn lemma_confirmed_stays_confirmed(
    s0: Tables,
    o0: OutboxView,
    name: Seq<char>,
    email: Seq<char>,
    base_url: Seq<char>,
    id: u128,
    subscribed_at: i64,
    token: Seq<char>,
    i: int,
)
    requires
        0 <= i < s0.subscribers.len(),
        s0.subscribers[i].status == SubscriberStatus::Confirmed,
    ensures
        ({
            let s1 = subscribe_model(s0, o0, name, email, base_url, id, subscribed_at, token).0;
            &&& i < s1.subscribers.len()
            &&& s1.subscribers[i].status == SubscriberStatus::Confirmed
            &&& s1.subscribers[i].id == s0.subscribers[i].id
            &&& s1.subscribers[i].email == s0.subscribers[i].email
        }),
        ({
            let s2 = confirm_model(s0, token).0;
            &&& i < s2.subscribers.len()
            &&& s2.subscribers[i].status == SubscriberStatus::Confirmed
            &&& s2.subscribers[i].id == s0.subscribers[i].id
            &&& s2.subscribers[i].email == s0.subscribers[i].email
        }),
{
    let s1 = s0.add_subscriber(id, email, name, subscribed_at);
    assert(s1.subscribers[i] == s0.subscribers[i]);
    assert(s1.add_token(token, id).subscribers[i] == s0.subscribers[i]);
    match s0.lookup_token(token) {
        Some((owner, _)) => {
            assert(s0.mark_confirmed(owner).subscribers[i].status == SubscriberStatus::Confirmed);
        },
        None => {},
    }
}

/// The token issued by a first subscription confirms the new subscriber once: the first
/// confirmation succeeds and the second is a conflict.
pub proof fn lemma_issued_token_confirms_once(
    s0: Tables,
    o0: OutboxView,
    name: Seq<char>,
    email: Seq<char>,
    base_url: Seq<char>,
    id: u128,
    subscribed_at: i64,
    token: Seq<char>,
)
    requires
        s0.wf(),
        valid_name(name),
        valid_email(email),
        !s0.has_email(email),
        !s0.has_id(id),
        !s0.has_token(token),
        o0.accepting,
    ensures
        ({
            let (s1, o1, r) = subscribe_model(s0, o0, name, email, base_url, id, subscribed_at, token);
            let (s2, r2) = confirm_model(s1, token);
            let (s3, r3) = confirm_model(s2, token);
            &&& r is Ok
            &&& r2 == ConfirmOutcome::Confirmed
            &&& s2.lookup_token(token) == Some((id, SubscriberStatus::Confirmed))
            &&& r3 == ConfirmOutcome::AlreadyConfirmed
            &&& s3 == s2
        }),
{
    lemma_first_subscription(s0, o0, name, email, base_url, id, subscribed_at, token);
    let (s1, o1, r) = subscribe_model(s0, o0, name, email, base_url, id, subscribed_at, token);
    lemma_confirm_twice(s1, token, id);
}

} // verus!
