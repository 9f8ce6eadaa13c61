use vstd::prelude::*;

use crate::domain::{valid_email, valid_name, FormData, NewSubscriber, ValidationError};
use crate::email::{confirmation_email, confirmation_link, confirmation_view, Outbox, OutboxView};
use crate::domain::SubscriberStatus;
use crate::store::{
    get_subscriber_id, insert_subscriber_as, new_subscriber_id, now_timestamp, lemma_add_subscriber_wf, lemma_add_token_wf,
    lemma_lookup_missing_token, lemma_lookup_token, lemma_replace_token_wf, store_token,
    update_token, MemoryStore, StoreError, SubscriberRow, Tables, TokenRow, Transaction,
};
use crate::token::{generate_subscription_token, is_token};

verus! {

/// The base URL under which the application is reachable, used to build confirmation links.
pub struct ApplicationBaseUrl(pub String);

/// The step of a subscription at which a storage or collaborator failure happened.
#[derive(Debug, Clone, Copy, PartialEq, Eq, Structural)]
pub enum FailedStep {
    AcquireConnection,
    InsertSubscriber,
    LookUpSubscriber,
    StartTransaction,
    StoreToken,
    UpdateToken,
    SendEmail,
    Commit,
}

/// Why a subscription request failed.
#[derive(Debug, Clone, Copy, PartialEq, Eq, Structural)]
pub enum SubscribeError {
    /// The form was malformed; the caller is at fault.
    ValidationError(ValidationError),
    /// The database failed at the given step, with the store's error.
    StorageError(FailedStep, StoreError),
    /// A collaborator outside the database (the email transport) failed.
    UnexpectedError(FailedStep),
}

impl SubscribeError {
    /// The HTTP status that reports this error: 400 for a malformed form, 500 otherwise.
    pub fn status_code(&self) -> (r: u16)
        ensures
            r == (if self is ValidationError { 400u16 } else { 500u16 }),
    {
        match self {
            SubscribeError::ValidationError(_) => 400,
            _ => 500,
        }
    }

    /// What was being done when the failure happened, for the operator's log.
    pub fn context(&self) -> &'static str {
        match self {
            SubscribeError::ValidationError(e) => e.message(),
            SubscribeError::StorageError(step, _) | SubscribeError::UnexpectedError(step) => {
                match step {
                    FailedStep::AcquireConnection => "failed to acquire a database connection",
                    FailedStep::InsertSubscriber => "failed to insert the new subscriber",
                    FailedStep::LookUpSubscriber => "failed to look up the existing subscriber",
                    FailedStep::StartTransaction => "failed to start a transaction",
                    FailedStep::StoreToken => "failed to store the confirmation token",
                    FailedStep::UpdateToken => "failed to update the confirmation token",
                    FailedStep::SendEmail => "failed to send the confirmation email",
                    FailedStep::Commit => "failed to commit the transaction",
                }
            },
        }
    }
}

/// The HTTP status that reports the result of a subscription request.
pub fn subscribe_status(r: &Result<(), SubscribeError>) -> (code: u16)
    ensures
        code == match r {
            Ok(()) => 200u16,
            Err(SubscribeError::ValidationError(_)) => 400u16,
            Err(_) => 500u16,
        },
{
    match r {
        Ok(()) => 200,
        Err(e) => e.status_code(),
    }
}

/// Where a subscription stands: each step waits for the outcome of the action it issued.
#[derive(Debug, Clone, Copy, PartialEq, Eq, Structural)]
pub enum SubscribeStep {
    /// Validated; nothing issued yet.
    Start,
    /// Waiting for the first transaction to open.
    Begin,
    /// Waiting for the subscriber insert.
    Insert,
    /// The email was already stored: waiting for the id looked up by name.
    LookUpId,
    /// Waiting for a fresh transaction after the duplicate, for subscriber `id`.
    Reopen(u128),
    /// Waiting for the first token of the new subscriber `id` to be stored.
    StoreToken(u128),
    /// Waiting for the token of the existing subscriber `id` to be replaced.
    ReplaceToken(u128),
    /// Waiting for the confirmation email to be sent.
    SendEmail,
    /// Waiting for the commit.
    Commit,
    /// A response was issued.
    Finished,
}

/// The outcome of the action last issued, reported back by whoever performed it.
#[derive(Debug, Clone, Copy, PartialEq, Eq, Structural)]
pub enum StepEvent {
    /// The action succeeded.
    Done,
    /// The action succeeded and yielded a subscriber id.
    Id(u128),
    /// The insert hit the unique constraint on the email.
    Duplicate,
    /// A storage action failed with this error.
    Failed(StoreError),
    /// The email transport refused the email.
    Refused,
}

/// The store error that an event reports; an event that a storage step does not expect is
/// reported as a plain `Failure`.
pub open spec fn cause_of(event: StepEvent) -> StoreError {
    match event {
        StepEvent::Failed(e) => e,
        _ => StoreError::Failure,
    }
}

/// What the performer of a subscription has to do next.
#[derive(Debug, Clone, Copy, PartialEq, Eq)]
pub enum SubscribeAction {
    /// Open a transaction, dropping (and so rolling back) any open one.
    BeginTransaction,
    /// Insert the subscriber in the open transaction.
    InsertSubscriber,
    /// Look up, outside any transaction, the id of the subscriber with the submitted name.
    /// The read is not isolated from the transaction that follows: a subscriber renamed or
    /// removed in between yields a stale or missing id. That race is accepted.
    LookUpSubscriberId,
    /// Store the flow's token for this subscriber in the open transaction.
    InsertToken(u128),
    /// Replace this subscriber's token with the flow's token in the open transaction.
    ReplaceToken(u128),
    /// Send the confirmation email that carries the flow's token.
    SendConfirmationEmail,
    /// Commit the open transaction.
    Commit,
    /// Respond, dropping any transaction that is still open.
    Respond(Result<(), SubscribeError>),
}

/// Finishing with an error response.
pub open spec fn fail(e: SubscribeError) -> (SubscribeStep, SubscribeAction) {
    (SubscribeStep::Finished, SubscribeAction::Respond(Err(e)))
}

/// The transition of a subscription on the outcome of its last action.
pub open spec fn next_step(step: SubscribeStep, event: StepEvent) -> (SubscribeStep, SubscribeAction) {
    match step {
        SubscribeStep::Start => (SubscribeStep::Begin, SubscribeAction::BeginTransaction),
        SubscribeStep::Begin => match event {
            StepEvent::Done => (SubscribeStep::Insert, SubscribeAction::InsertSubscriber),
            _ => fail(SubscribeError::StorageError(FailedStep::AcquireConnection, cause_of(event))),
        },
        SubscribeStep::Insert => match event {
            StepEvent::Id(id) => (SubscribeStep::StoreToken(id), SubscribeAction::InsertToken(id)),
            StepEvent::Duplicate => (SubscribeStep::LookUpId, SubscribeAction::LookUpSubscriberId),
            _ => fail(SubscribeError::StorageError(FailedStep::InsertSubscriber, cause_of(event))),
        },
        SubscribeStep::LookUpId => match event {
            StepEvent::Id(id) => (SubscribeStep::Reopen(id), SubscribeAction::BeginTransaction),
            _ => fail(SubscribeError::StorageError(FailedStep::LookUpSubscriber, cause_of(event))),
        },
        SubscribeStep::Reopen(id) => match event {
            StepEvent::Done => (SubscribeStep::ReplaceToken(id), SubscribeAction::ReplaceToken(id)),
            _ => fail(SubscribeError::StorageError(FailedStep::StartTransaction, cause_of(event))),
        },
        SubscribeStep::StoreToken(_) => match event {
            StepEvent::Done => (SubscribeStep::SendEmail, SubscribeAction::SendConfirmationEmail),
            _ => fail(SubscribeError::StorageError(FailedStep::StoreToken, cause_of(event))),
        },
        SubscribeStep::ReplaceToken(_) => match event {
            StepEvent::Done => (SubscribeStep::SendEmail, SubscribeAction::SendConfirmationEmail),
            _ => fail(SubscribeError::StorageError(FailedStep::UpdateToken, cause_of(event))),
        },
        SubscribeStep::SendEmail => match event {
            StepEvent::Done => (SubscribeStep::Commit, SubscribeAction::Commit),
            _ => fail(SubscribeError::UnexpectedError(FailedStep::SendEmail)),
        },
        SubscribeStep::Commit => match event {
            StepEvent::Done => (SubscribeStep::Finished, SubscribeAction::Respond(Ok(()))),
            _ => fail(SubscribeError::StorageError(FailedStep::Commit, cause_of(event))),
        },
        SubscribeStep::Finished => fail(SubscribeError::StorageError(FailedStep::Commit, cause_of(event))),
    }
}

/// One subscription request in flight: the validated subscriber, the token drawn for it, and
/// the step it stands at.
pub struct SubscribeFlow {
    pub subscriber: NewSubscriber,
    pub token: String,
    pub step: SubscribeStep,
}

impl SubscribeFlow {
    /// Validates the form and draws a token: the outcome is that of `start_with_token` for
    /// the token drawn.
    pub fn start(form: FormData) -> (r: Result<SubscribeFlow, SubscribeError>)
        ensures
            exists|token: Seq<char>|
                is_token(token) && #[trigger] SubscribeFlow::started(form.name@, form.email@, token, r),
    {
        let token = generate_subscription_token();
        SubscribeFlow::start_with_token(form, token)
    }

    /// The result of starting a flow on a form with a given token: a malformed form is refused
    /// with `ValidationError`, the name checked first; a valid one gives a flow at `Start` that
    /// holds the form's fields and the token.
    pub open spec fn started(
        name: Seq<char>,
        email: Seq<char>,
        token: Seq<char>,
        r: Result<SubscribeFlow, SubscribeError>,
    ) -> bool {
        if !valid_name(name) {
            r == Err::<SubscribeFlow, _>(SubscribeError::ValidationError(ValidationError::InvalidName))
        } else if !valid_email(email) {
            r == Err::<SubscribeFlow, _>(
                SubscribeError::ValidationError(ValidationError::InvalidEmail),
            )
        } else {
            r matches Ok(flow) && flow.subscriber.name@ == name && flow.subscriber.email@ == email
                && flow.subscriber.valid() && flow.token@ == token && flow.step
                == SubscribeStep::Start
        }
    }

    /// Validates the form, before any transaction is opened, and starts a flow that will
    /// issue `token`.
    pub fn start_with_token(form: FormData, token: String) -> (r: Result<
        SubscribeFlow,
        SubscribeError,
    >)
        ensures
            SubscribeFlow::started(form.name@, form.email@, token@, r),
    {
        match NewSubscriber::parse(form) {
            Ok(subscriber) => Ok(SubscribeFlow { subscriber, token, step: SubscribeStep::Start }),
            Err(e) => Err(SubscribeError::ValidationError(e)),
        }
    }

    /// Moves the flow on by the outcome of its last action and returns the next action.
    pub fn advance(&mut self, event: StepEvent) -> (a: SubscribeAction)
        requires
            old(self).step != SubscribeStep::Finished,
        ensures
            (final(self).step, a) == next_step(old(self).step, event),
            final(self).subscriber == old(self).subscriber,
            final(self).token == old(self).token,
    {
        let cause = match event {
            StepEvent::Failed(e) => e,
            _ => StoreError::Failure,
        };
        let storage = |s: FailedStep| -> (r: (SubscribeStep, SubscribeAction))
            ensures
                r == fail(SubscribeError::StorageError(s, cause)),
            {
                (
                    SubscribeStep::Finished,
                    SubscribeAction::Respond(Err(SubscribeError::StorageError(s, cause))),
                )
            };
        let (next, action) = match self.step {
            SubscribeStep::Start => (SubscribeStep::Begin, SubscribeAction::BeginTransaction),
            SubscribeStep::Begin => match event {
                StepEvent::Done => (SubscribeStep::Insert, SubscribeAction::InsertSubscriber),
                _ => storage(FailedStep::AcquireConnection),
            },
            SubscribeStep::Insert => match event {
                StepEvent::Id(id) => (SubscribeStep::StoreToken(id), SubscribeAction::InsertToken(id)),
                StepEvent::Duplicate => (SubscribeStep::LookUpId, SubscribeAction::LookUpSubscriberId),
                _ => storage(FailedStep::InsertSubscriber),
            },
            SubscribeStep::LookUpId => match event {
                StepEvent::Id(id) => (SubscribeStep::Reopen(id), SubscribeAction::BeginTransaction),
                _ => storage(FailedStep::LookUpSubscriber),
            },
            SubscribeStep::Reopen(id) => match event {
                StepEvent::Done => (SubscribeStep::ReplaceToken(id), SubscribeAction::ReplaceToken(id)),
                _ => storage(FailedStep::StartTransaction),
            },
            SubscribeStep::StoreToken(_) => match event {
                StepEvent::Done => (SubscribeStep::SendEmail, SubscribeAction::SendConfirmationEmail),
                _ => storage(FailedStep::StoreToken),
            },
            SubscribeStep::ReplaceToken(_) => match event {
                StepEvent::Done => (SubscribeStep::SendEmail, SubscribeAction::SendConfirmationEmail),
                _ => storage(FailedStep::UpdateToken),
            },
            SubscribeStep::SendEmail => match event {
                StepEvent::Done => (SubscribeStep::Commit, SubscribeAction::Commit),
                _ => (
                    SubscribeStep::Finished,
                    SubscribeAction::Respond(Err(SubscribeError::UnexpectedError(FailedStep::SendEmail))),
                ),
            },
            SubscribeStep::Commit => match event {
                StepEvent::Done => (SubscribeStep::Finished, SubscribeAction::Respond(Ok(()))),
                _ => storage(FailedStep::Commit),
            },
            SubscribeStep::Finished => storage(FailedStep::Commit),
        };
        self.step = next;
        action
    }
}

/// The new subscriber's first token cannot be stored: the value is taken, the subscriber
/// already owns a token, or it does not exist.
pub open spec fn token_insert_fails(t: Tables, id: u128, token: Seq<char>) -> bool {
    t.has_token(token) || t.has_token_for(id) || !t.has_id(id)
}

/// The tables that a valid subscription has written, uncommitted, by the time the email is
/// sent, or the storage error that stopped it. `id` and `subscribed_at` are what the insert
/// drew; `token` is the token drawn for the request.
pub open spec fn staged_tables(
    s0: Tables,
    name: Seq<char>,
    email: Seq<char>,
    id: u128,
    subscribed_at: i64,
    token: Seq<char>,
) -> Result<Tables, SubscribeError> {
    if s0.has_email(email) {
        match s0.id_by_name(name) {
            None => Err(SubscribeError::StorageError(FailedStep::LookUpSubscriber, StoreError::NotFound)),
            Some(existing) => if s0.replace_conflicts(existing, token) {
                Err(SubscribeError::StorageError(FailedStep::UpdateToken, StoreError::Failure))
            } else {
                Ok(s0.replace_token(existing, token))
            },
        }
    } else if s0.has_id(id) {
        Err(SubscribeError::StorageError(FailedStep::InsertSubscriber, StoreError::Failure))
    } else {
        let s1 = s0.add_subscriber(id, email, name, subscribed_at);
        if token_insert_fails(s1, id, token) {
            Err(SubscribeError::StorageError(FailedStep::StoreToken, StoreError::Failure))
        } else {
            Ok(s1.add_token(token, id))
        }
    }
}

/// The effect of a subscription request on the store and the outbox, and its result: the store
/// changes only when every step succeeds, and then the staged tables are committed and exactly
/// one confirmation email, carrying the stored token, is sent. When the transport refuses that
/// email, the one refused attempt is all that changes.
pub open spec fn subscribe_model(
    s0: Tables,
    o0: OutboxView,
    name: Seq<char>,
    email: Seq<char>,
    base_url: Seq<char>,
    id: u128,
    subscribed_at: i64,
    token: Seq<char>,
) -> (Tables, OutboxView, Result<(), SubscribeError>) {
    if !valid_name(name) {
        (s0, o0, Err(SubscribeError::ValidationError(ValidationError::InvalidName)))
    } else if !valid_email(email) {
        (s0, o0, Err(SubscribeError::ValidationError(ValidationError::InvalidEmail)))
    } else {
        match staged_tables(s0, name, email, id, subscribed_at, token) {
            Err(e) => (s0, o0, Err(e)),
            Ok(t) => if o0.accepting {
                (t, o0.send(confirmation_view(email, base_url, token)), Ok(()))
            } else {
                (
                    s0,
                    o0.refuse(confirmation_view(email, base_url, token)),
                    Err(SubscribeError::UnexpectedError(FailedStep::SendEmail)),
                )
            },
        }
    }
}

/// Sends the confirmation email that carries `token` to the new subscriber through `outbox`.
pub fn send_confirmation_email(
    outbox: &mut Outbox,
    new_subscriber: &NewSubscriber,
    base_url: &str,
    token: &str,
) -> (r: Result<(), SubscribeError>)
    ensures
        old(outbox)@.accepting ==> r is Ok && final(outbox)@ == old(outbox)@.send(
            confirmation_view(new_subscriber.email@, base_url@, token@),
        ),
        !old(outbox)@.accepting ==> r == Err::<(), _>(
            SubscribeError::UnexpectedError(FailedStep::SendEmail),
        ) && final(outbox)@ == old(outbox)@.refuse(
            confirmation_view(new_subscriber.email@, base_url@, token@),
        ),
{
    let email = confirmation_email(new_subscriber.email.as_str(), base_url, token);
    if outbox.deliver(email) {
        Ok(())
    } else {
        Err(SubscribeError::UnexpectedError(FailedStep::SendEmail))
    }
}

/// Every transition lowers the rank, so a flow finishes after at most nine actions.
pub open spec fn step_rank(step: SubscribeStep) -> nat {
    match step {
        SubscribeStep::Start => 9,
        SubscribeStep::Begin => 8,
        SubscribeStep::Insert => 7,
        SubscribeStep::LookUpId => 6,
        SubscribeStep::Reopen(_) => 5,
        SubscribeStep::StoreToken(_) => 4,
        SubscribeStep::ReplaceToken(_) => 4,
        SubscribeStep::SendEmail => 3,
        SubscribeStep::Commit => 2,
        SubscribeStep::Finished => 1,
    }
}

/// The tables of an open transaction, if one is open.
pub open spec fn tx_view(tx: Option<Transaction>) -> Option<Tables> {
    match tx {
        Some(t) => Some(t@),
        None => None,
    }
}

/// Handles a subscription request against an in-memory store, sending the confirmation email
/// through `outbox`, with `drawn_id` and `drawn_at` as the id and time stamp of a new
/// subscriber and `subscription_token` as its confirmation token. The outcome is `subscribe_model` for those
/// values.
pub fn subscribe_with(
    form: FormData,
    pool: &mut MemoryStore,
    outbox: &mut Outbox,
    base_url: &ApplicationBaseUrl,
    drawn_id: u128,
    drawn_at: i64,
    subscription_token: String,
) -> (r: Result<(), SubscribeError>)
    requires
        old(pool)@.wf(),
    ensures
        final(pool)@.wf(),
        (final(pool)@, final(outbox)@, r) == subscribe_model(
            old(pool)@,
            old(outbox)@,
            form.name@,
            form.email@,
            base_url.0@,
            drawn_id,
            drawn_at,
            subscription_token@,
        ),
{
    let ghost s0 = pool@;
    let ghost o0 = outbox@;
    let ghost name = form.name@;
    let ghost email = form.email@;
    let ghost base = base_url.0@;
    let ghost token = subscription_token@;
    let mut flow = match SubscribeFlow::start_with_token(form, subscription_token) {
        Ok(flow) => flow,
        Err(e) => return Err(e),
    };
    let mut tx: Option<Transaction> = None;
    let mut event = StepEvent::Done;
    loop
        invariant
            s0 == old(pool)@,
            o0 == old(outbox)@,
            name == form.name@,
            email == form.email@,
            base == base_url.0@,
            token == subscription_token@,
            s0.wf(),
            valid_name(name),
            valid_email(email),
            flow.subscriber.name@ == name,
            flow.subscriber.email@ == email,
            flow.token@ == token,
            flow.step != SubscribeStep::Finished,
            tx matches Some(t) ==> t@.wf(),
            flow.step != SubscribeStep::Commit ==> pool@ == s0,
            flow.step == SubscribeStep::Start ==> outbox@ == o0,
            flow.step == SubscribeStep::Begin ==> event == StepEvent::Done && tx_view(tx) == Some(s0)
                && outbox@ == o0,
            flow.step == SubscribeStep::Insert ==> outbox@ == o0 && tx is Some && match event {
                StepEvent::Id(i) => !s0.has_email(email) && !s0.has_id(i) && i == drawn_id && tx_view(tx)
                    == Some(s0.add_subscriber(i, email, name, drawn_at)),
                StepEvent::Duplicate => s0.has_email(email),
                StepEvent::Failed(c) => c == StoreError::Failure && !s0.has_email(email) && s0.has_id(drawn_id),
                _ => false,
            },
            flow.step == SubscribeStep::LookUpId ==> outbox@ == o0 && s0.has_email(email) && match event {
                StepEvent::Id(i) => s0.id_by_name(name) == Some(i),
                StepEvent::Failed(c) => c == StoreError::NotFound && s0.id_by_name(name) is None,
                _ => false,
            },
            flow.step matches SubscribeStep::Reopen(i) ==> outbox@ == o0 && s0.has_email(email)
                && s0.id_by_name(name) == Some(i) && event == StepEvent::Done && tx_view(tx) == Some(s0),
            flow.step matches SubscribeStep::StoreToken(i) ==> outbox@ == o0 && !s0.has_email(email)
                && !s0.has_id(i) && i == drawn_id && match event {
                StepEvent::Done => !token_insert_fails(s0.add_subscriber(i, email, name, drawn_at), i, token)
                    && tx_view(tx) == Some(s0.add_subscriber(i, email, name, drawn_at).add_token(token, i)),
                StepEvent::Failed(c) => c == StoreError::Failure && token_insert_fails(s0.add_subscriber(i, email, name, drawn_at), i, token),
                _ => false,
            },
            flow.step matches SubscribeStep::ReplaceToken(i) ==> outbox@ == o0 && s0.has_email(email)
                && s0.id_by_name(name) == Some(i) && match event {
                StepEvent::Done => !s0.replace_conflicts(i, token) && tx_view(tx) == Some(
                    s0.replace_token(i, token),
                ),
                StepEvent::Failed(c) => c == StoreError::Failure && s0.replace_conflicts(i, token),
                _ => false,
            },
            flow.step == SubscribeStep::SendEmail ==> tx is Some && staged_tables(s0, name, email, drawn_id, drawn_at, token)
                == Ok::<Tables, SubscribeError>(tx_view(tx)->Some_0) && match event {
                StepEvent::Done => o0.accepting && outbox@ == o0.send(confirmation_view(email, base, token)),
                StepEvent::Refused => !o0.accepting && outbox@ == o0.refuse(
                    confirmation_view(email, base, token),
                ),
                _ => false,
            },
            flow.step == SubscribeStep::Commit ==> event == StepEvent::Done && o0.accepting && outbox@
                == o0.send(confirmation_view(email, base, token)) && staged_tables(s0, name, email, drawn_id, drawn_at, token)
                == Ok::<Tables, SubscribeError>(pool@) && pool@.wf(),
        decreases step_rank(flow.step),
    {
        let ghost prev = flow.step;
        let action = flow.advance(event);
        match action {
            SubscribeAction::BeginTransaction => {
                tx = Some(pool.begin());
                event = StepEvent::Done;
            },
            SubscribeAction::InsertSubscriber => {
                match tx {
                    Some(mut t) => {
                        let r = insert_subscriber_as(&flow.subscriber, &mut t, drawn_id, drawn_at);
                        event = match r {
                            Ok(id) => StepEvent::Id(id),
                            Err(StoreError::DuplicateEmail) => StepEvent::Duplicate,
                            Err(e) => StepEvent::Failed(e),
                        };
                        tx = Some(t);
                    },
                    None => {
                        event = StepEvent::Failed(StoreError::Failure);
                    },
                }
            },
            SubscribeAction::LookUpSubscriberId => {
                tx = None;
                event = match get_subscriber_id(flow.subscriber.name.as_str(), pool) {
                    Ok(id) => StepEvent::Id(id),
                    Err(e) => StepEvent::Failed(e),
                };
            },
            SubscribeAction::InsertToken(id) => {
                match tx {
                    Some(mut t) => {
                        event = match store_token(&mut t, id, flow.token.as_str()) {
                            Ok(()) => StepEvent::Done,
                            Err(e) => StepEvent::Failed(e),
                        };
                        tx = Some(t);
                    },
                    None => {
                        event = StepEvent::Failed(StoreError::Failure);
                    },
                }
            },
            SubscribeAction::ReplaceToken(id) => {
                match tx {
                    Some(mut t) => {
                        event = match update_token(&mut t, id, flow.token.as_str()) {
                            Ok(()) => StepEvent::Done,
                            Err(e) => StepEvent::Failed(e),
                        };
                        tx = Some(t);
                    },
                    None => {
                        event = StepEvent::Failed(StoreError::Failure);
                    },
                }
            },
            SubscribeAction::SendConfirmationEmail => {
                event = match send_confirmation_email(
                    outbox,
                    &flow.subscriber,
                    base_url.0.as_str(),
                    flow.token.as_str(),
                ) {
                    Ok(()) => StepEvent::Done,
                    Err(_) => StepEvent::Refused,
                };
            },
            SubscribeAction::Commit => {
                match tx {
                    Some(t) => {
                        pool.commit(t);
                        event = StepEvent::Done;
                    },
                    None => {
                        event = StepEvent::Failed(StoreError::Failure);
                    },
                }
                tx = None;
            },
            SubscribeAction::Respond(r) => {
                assert(subscribe_model(s0, o0, name, email, base, drawn_id, drawn_at, token) == (
                    pool@,
                    outbox@,
                    r,
                ));
                return r;
            },
        }
    }
}

/// Handles a subscription request against an in-memory store, sending the confirmation email
/// through `outbox`. It draws a random id, the current time and a random token, and the
/// outcome is that of `subscribe_with` for the values drawn.
pub fn subscribe(
    form: FormData,
    pool: &mut MemoryStore,
    outbox: &mut Outbox,
    base_url: &ApplicationBaseUrl,
) -> (r: Result<(), SubscribeError>)
    requires
        old(pool)@.wf(),
    ensures
        final(pool)@.wf(),
        exists|id: u128, subscribed_at: i64, token: Seq<char>|
            is_token(token) && (final(pool)@, final(outbox)@, r) == subscribe_model(
                old(pool)@,
                old(outbox)@,
                form.name@,
                form.email@,
                base_url.0@,
                id,
                subscribed_at,
                token,
            ),
{
    let id = new_subscriber_id();
    let subscribed_at = now_timestamp();
    let token = generate_subscription_token();
    subscribe_with(form, pool, outbox, base_url, id, subscribed_at, token)
}

/// A first subscription with a valid email that is not stored yet succeeds (given an id and a
/// token that the store does not already hold): it adds exactly one subscriber, pending
/// confirmation, and exactly one token row for it, keeps the table constraints, sends exactly
/// one email whose link carries that token, and the token resolves to the new subscriber.
pub proof fn lemma_first_subscription(
    s0: Tables,
    o0: OutboxView,
    name: Seq<char>,
    email: Seq<char>,
    base_url: Seq<char>,
    id: u128,
    subscribed_at: i64,
    token: Seq<char>,
)
    requires
        s0.wf(),
        valid_name(name),
        valid_email(email),
        !s0.has_email(email),
        !s0.has_id(id),
        !s0.has_token(token),
        o0.accepting,
    ensures
        ({
            let (s1, o1, r) = subscribe_model(s0, o0, name, email, base_url, id, subscribed_at, token);
            &&& r == Ok::<(), SubscribeError>(())
            &&& s1.wf()
            &&& s1.subscribers == s0.subscribers.push(
                SubscriberRow {
                    id,
                    email,
                    name,
                    subscribed_at,
                    status: SubscriberStatus::PendingConfirmation,
                },
            )
            &&& s1.tokens == s0.tokens.push(TokenRow { token, subscriber_id: id })
            &&& o1.sent == o0.sent.push(confirmation_view(email, base_url, token))
            &&& o1.sent.last().link == confirmation_link(base_url, token)
            &&& s1.lookup_token(token) == Some((id, SubscriberStatus::PendingConfirmation))
        }),
{
    let s1 = s0.add_subscriber(id, email, name, subscribed_at);
    lemma_add_subscriber_wf(s0, id, email, name, subscribed_at);
    assert(!s1.has_token(token)) by {
        assert(s1.tokens == s0.tokens);
    }
    lemma_add_token_wf(s1, token, id);
    let s2 = s1.add_token(token, id);
    let n = s0.subscribers.len() as int;
    assert(s2.subscribers[n].id == id);
    lemma_lookup_token(s2, token, s1.tokens.len() as int, n);
}

/// Submitting the same valid form twice succeeds both times. The second submission adds no
/// subscriber, sends one more email, and rotates the token: the new token resolves to the same
/// pending subscriber and the first token no longer resolves. This holds when no other stored
/// subscriber has the submitted name (the resubmission finds its subscriber by name) and the
/// drawn ids and tokens are not already in the store.
pub proof fn lemma_resubscription_rotates_token(
    s0: Tables,
    o0: OutboxView,
    name: Seq<char>,
    email: Seq<char>,
    base_url: Seq<char>,
    id1: u128,
    subscribed_at1: i64,
    token1: Seq<char>,
    id2: u128,
    subscribed_at2: i64,
    token2: Seq<char>,
)
    requires
        s0.wf(),
        valid_name(name),
        valid_email(email),
        !s0.has_email(email),
        !s0.has_id(id1),
        !s0.has_token(token1),
        !s0.has_token(token2),
        token1 != token2,
        o0.accepting,
        forall|i: int| 0 <= i < s0.subscribers.len() ==> #[trigger] s0.subscribers[i].name != name,
    ensures
        ({
            let (s1, o1, r1) = subscribe_model(s0, o0, name, email, base_url, id1, subscribed_at1, token1);
            let (s2, o2, r2) = subscribe_model(s1, o1, name, email, base_url, id2, subscribed_at2, token2);
            &&& r1 == Ok::<(), SubscribeError>(())
            &&& r2 == Ok::<(), SubscribeError>(())
            &&& s2.wf()
            &&& s2.subscribers == s1.subscribers
            &&& s2.tokens.len() == s1.tokens.len()
            &&& o2.sent == o1.sent.push(confirmation_view(email, base_url, token2))
            &&& s2.lookup_token(token2) == Some((id1, SubscriberStatus::PendingConfirmation))
            &&& s2.lookup_token(token1) is None
        }),
{
    lemma_first_subscription(s0, o0, name, email, base_url, id1, subscribed_at1, token1);
    let (s1, o1, r1) = subscribe_model(s0, o0, name, email, base_url, id1, subscribed_at1, token1);
    let n = s0.subscribers.len() as int;
    let m = s0.tokens.len() as int;
    assert(s1.subscribers[n].email == email);
    assert(s1.has_email(email));
    assert(s1.is_first_named(name, n)) by {
        assert forall|j: int| 0 <= j < n implies #[trigger] s1.subscribers[j].name != name by {
            assert(s1.subscribers[j] == s0.subscribers[j]);
        }
    }
    let k = choose|j: int| s1.is_first_named(name, j);
    assert(k == n);
    assert(s1.id_by_name(name) == Some(id1));
    assert(!s1.token_taken_by_other(id1, token2)) by {
        assert forall|i: int| 0 <= i < s1.tokens.len() implies #[trigger] s1.tokens[i].token != token2 by {
            if i < m {
                assert(s1.tokens[i] == s0.tokens[i]);
            }
        }
    }
    lemma_replace_token_wf(s1, id1, token2);
    let s2 = s1.replace_token(id1, token2);
    assert(s2.tokens[m].token == token2);
    assert(s2.tokens[m].subscriber_id == id1);
    lemma_lookup_token(s2, token2, m, n);
    assert(!s2.has_token(token1)) by {
        assert forall|i: int| 0 <= i < s2.tokens.len() implies #[trigger] s2.tokens[i].token != token1 by {
            if i < m {
                assert(s1.tokens[i] == s0.tokens[i]);
                assert(s0.has_id(s0.tokens[i].subscriber_id));
                assert(s0.tokens[i].subscriber_id != id1);
            }
        }
    }
    lemma_lookup_missing_token(s2, token1);
}

/// A form with an invalid name or email is rejected as a validation error (reported with status
/// 400), and nothing is stored or sent.
pub proof fn lemma_malformed_form_rejected(
    s0: Tables,
    o0: OutboxView,
    name: Seq<char>,
    email: Seq<char>,
    base_url: Seq<char>,
    id: u128,
    subscribed_at: i64,
    token: Seq<char>,
)
    requires
        !valid_name(name) || !valid_email(email),
    ensures
        ({
            let (s1, o1, r) = subscribe_model(s0, o0, name, email, base_url, id, subscribed_at, token);
            &&& s1 == s0
            &&& o1 == o0
            &&& r matches Err(SubscribeError::ValidationError(_))
        }),
{
}

/// When the email transport fails, a subscription leaves the store as it was: every write of
/// the request is rolled back, and no email is delivered. For a valid email that was not
/// stored, the request makes exactly one dispatch attempt, which is refused, and fails as an
/// unexpected error (reported with status 500); the email is still absent from the store.
pub proof fn lemma_failed_email_rolls_back(
    s0: Tables,
    o0: OutboxView,
    name: Seq<char>,
    email: Seq<char>,
    base_url: Seq<char>,
    id: u128,
    subscribed_at: i64,
    token: Seq<char>,
)
    requires
        !o0.accepting,
    ensures
        ({
            let (s1, o1, r) = subscribe_model(s0, o0, name, email, base_url, id, subscribed_at, token);
            &&& s1 == s0
            &&& o1.sent == o0.sent
            &&& o1.accepting == o0.accepting
            &&& o1.refused.len() <= o0.refused.len() + 1
            &&& r is Err
            &&& (s0.wf() && valid_name(name) && valid_email(email) && !s0.has_email(email)
                && !s0.has_id(id) && !s0.has_token(token)) ==> {
                &&& r == Err::<(), _>(SubscribeError::UnexpectedError(FailedStep::SendEmail))
                &&& o1.refused == o0.refused.push(confirmation_view(email, base_url, token))
                &&& !s1.has_email(email)
            }
        }),
{
    if s0.wf() && valid_name(name) && valid_email(email) && !s0.has_email(email) && !s0.has_id(id)
        && !s0.has_token(token) {
        lemma_add_subscriber_wf(s0, id, email, name, subscribed_at);
        let s1 = s0.add_subscriber(id, email, name, subscribed_at);
        assert(s1.tokens == s0.tokens);
        assert(!token_insert_fails(s1, id, token));
    }
}

} // verus!
