use email_newsletter::confirmation::{
    confirmation_outcome, decide_confirmation, ConfirmDecision, ConfirmOutcome,
};
use email_newsletter::domain::{
    is_valid_email, is_valid_name, FormData, NewSubscriber, SubscriberStatus, ValidationError,
};
use email_newsletter::email::{confirmation_email, Outbox, TestResponse};
use email_newsletter::store::{
    confirm_subscriber, get_subscriber_from_token, get_subscriber_id, insert_subscriber,
    insert_subscriber_as, store_token, update_token, MemoryStore, StoreError, UserData,
};
use email_newsletter::subscription::{
    send_confirmation_email, FailedStep, StepEvent, SubscribeAction, SubscribeError,
    SubscribeFlow, SubscribeStep,
};
use email_newsletter::token::generate_subscription_token;

fn subscriber(name: &str, email: &str) -> NewSubscriber {
    NewSubscriber::parse(FormData { name: name.to_string(), email: email.to_string() })
        .expect("valid subscriber")
}

#[test]
fn names_are_validated() {
    assert!(is_valid_name("le guin"));
    assert!(!is_valid_name(""));
    assert!(!is_valid_name(" \t "));
    assert!(!is_valid_name("\u{0B}"));
    assert!(!is_valid_name("\u{A0}\u{1680}\u{2028}\u{205F}"));
    assert!(is_valid_name("\u{0B}le guin"));
    assert!(is_valid_name(&"a".repeat(256)));
    assert!(!is_valid_name(&"a".repeat(257)));
    for c in ['/', '(', ')', '"', '<', '>', '\\', '{', '}'] {
        assert!(!is_valid_name(&format!("le{}guin", c)));
    }
}

#[test]
fn emails_are_validated() {
    assert!(is_valid_email("ursula_le_guin@gmail.com"));
    assert!(is_valid_email("a@b"));
    assert!(!is_valid_email(""));
    assert!(!is_valid_email("ursuladomain.com"));
    assert!(!is_valid_email("@domain.com"));
    assert!(!is_valid_email("ursula@"));
    assert!(!is_valid_email("ursula@@domain.com"));
    assert!(!is_valid_email("ur@sula@domain.com"));
    assert!(!is_valid_email("ursula le guin@domain.com"));
    assert!(!is_valid_email("ursula\u{A0}@domain.com"));
}

#[test]
fn parse_checks_name_before_email() {
    let r = NewSubscriber::parse(FormData { name: "".to_string(), email: "bad".to_string() });
    assert_eq!(r.err(), Some(ValidationError::InvalidName));
    let r = NewSubscriber::parse(FormData { name: "le guin".to_string(), email: "bad".to_string() });
    assert_eq!(r.err(), Some(ValidationError::InvalidEmail));
    let ok = subscriber("le guin", "ursula_le_guin@gmail.com");
    assert_eq!(ok.name, "le guin");
    assert_eq!(ok.email, "ursula_le_guin@gmail.com");
}

#[test]
fn status_labels_round_trip() {
    assert_eq!(SubscriberStatus::PendingConfirmation.as_str(), "pending_confirmation");
    assert_eq!(SubscriberStatus::Confirmed.as_str(), "confirmed");
    assert_eq!(
        SubscriberStatus::from_label("pending_confirmation"),
        Some(SubscriberStatus::PendingConfirmation)
    );
    assert_eq!(SubscriberStatus::from_label("confirmed"), Some(SubscriberStatus::Confirmed));
    assert_eq!(SubscriberStatus::from_label("Confirmed"), None);
}

#[test]
fn tokens_are_alphanumeric_and_fresh() {
    let a = generate_subscription_token();
    let b = generate_subscription_token();
    assert_eq!(a.chars().count(), 25);
    assert!(a.chars().all(|c| c.is_ascii_alphanumeric()));
    assert_ne!(a, b);
}

#[test]
fn confirmation_email_carries_the_link() {
    let e = confirmation_email("ursula_le_guin@gmail.com", "https://example.com", "abc123");
    assert_eq!(e.recipient, "ursula_le_guin@gmail.com");
    assert_eq!(e.subject, "Welcome!");
    assert_eq!(e.link, "https://example.com/subscriptions/confirm?subscription_token=abc123");
    assert_eq!(
        e.text_body,
        "Welcome to our newsletter!\nVisit https://example.com/subscriptions/confirm?subscription_token=abc123 to confirm your subscription."
    );
}

#[test]
fn echoed_response_carries_the_path() {
    let r = TestResponse::for_token("news@example.com", "ursula_le_guin@gmail.com", "abc123");
    assert_eq!(r.from, "news@example.com");
    assert_eq!(r.to, "ursula_le_guin@gmail.com");
    assert_eq!(r.subject, "New subscriber");
    assert_eq!(r.text, "/subscriptions/confirm?subscription_token=abc123");
}

#[test]
fn refused_email_is_an_unexpected_error() {
    let sub = subscriber("le guin", "ursula_le_guin@gmail.com");
    let mut outbox = Outbox::new(false);
    let r = send_confirmation_email(&mut outbox, &sub, "https://example.com", "abc");
    assert_eq!(r, Err(SubscribeError::UnexpectedError(FailedStep::SendEmail)));
    assert!(outbox.sent().is_empty());
    outbox.set_accepting(true);
    assert_eq!(send_confirmation_email(&mut outbox, &sub, "https://example.com", "abc"), Ok(()));
    assert_eq!(outbox.sent()[0].recipient, "ursula_le_guin@gmail.com");
}

#[test]
fn error_statuses_and_contexts() {
    let v = SubscribeError::ValidationError(ValidationError::InvalidEmail);
    assert_eq!(v.status_code(), 400);
    assert_eq!(v.context(), "the subscriber email is not a valid address");
    let s = SubscribeError::StorageError(FailedStep::Commit, StoreError::Failure);
    assert_eq!(s.status_code(), 500);
    assert_eq!(s.context(), "failed to commit the transaction");
    let u = SubscribeError::UnexpectedError(FailedStep::SendEmail);
    assert_eq!(u.status_code(), 500);
    assert_eq!(u.context(), "failed to send the confirmation email");
}

fn started() -> SubscribeFlow {
    SubscribeFlow::start(FormData {
        name: "le guin".to_string(),
        email: "ursula_le_guin@gmail.com".to_string(),
    })
    .ok()
    .expect("valid form")
}

#[test]
fn flow_for_a_new_subscriber() {
    let mut flow = started();
    assert_eq!(flow.step, SubscribeStep::Start);
    assert_eq!(flow.token.len(), 25);
    assert_eq!(flow.advance(StepEvent::Done), SubscribeAction::BeginTransaction);
    assert_eq!(flow.advance(StepEvent::Done), SubscribeAction::InsertSubscriber);
    assert_eq!(flow.advance(StepEvent::Id(7)), SubscribeAction::InsertToken(7));
    assert_eq!(flow.advance(StepEvent::Done), SubscribeAction::SendConfirmationEmail);
    assert_eq!(flow.advance(StepEvent::Done), SubscribeAction::Commit);
    assert_eq!(flow.advance(StepEvent::Done), SubscribeAction::Respond(Ok(())));
    assert_eq!(flow.step, SubscribeStep::Finished);
}

#[test]
fn flow_for_a_known_email() {
    let mut flow = started();
    flow.advance(StepEvent::Done);
    flow.advance(StepEvent::Done);
    assert_eq!(flow.advance(StepEvent::Duplicate), SubscribeAction::LookUpSubscriberId);
    assert_eq!(flow.advance(StepEvent::Id(9)), SubscribeAction::BeginTransaction);
    assert_eq!(flow.advance(StepEvent::Done), SubscribeAction::ReplaceToken(9));
    assert_eq!(flow.advance(StepEvent::Done), SubscribeAction::SendConfirmationEmail);
    assert_eq!(
        flow.advance(StepEvent::Refused),
        SubscribeAction::Respond(Err(SubscribeError::UnexpectedError(FailedStep::SendEmail)))
    );
}

#[test]
fn flow_failures_map_to_their_step() {
    let mut flow = started();
    flow.advance(StepEvent::Done);
    assert_eq!(
        flow.advance(StepEvent::Failed(StoreError::Failure)),
        SubscribeAction::Respond(Err(SubscribeError::StorageError(FailedStep::AcquireConnection, StoreError::Failure)))
    );
    let mut flow = started();
    flow.advance(StepEvent::Done);
    flow.advance(StepEvent::Done);
    assert_eq!(
        flow.advance(StepEvent::Failed(StoreError::Failure)),
        SubscribeAction::Respond(Err(SubscribeError::StorageError(FailedStep::InsertSubscriber, StoreError::Failure)))
    );
    let mut flow = started();
    flow.advance(StepEvent::Done);
    flow.advance(StepEvent::Done);
    flow.advance(StepEvent::Id(1));
    flow.advance(StepEvent::Done);
    flow.advance(StepEvent::Done);
    assert_eq!(
        flow.advance(StepEvent::Failed(StoreError::Failure)),
        SubscribeAction::Respond(Err(SubscribeError::StorageError(FailedStep::Commit, StoreError::Failure)))
    );
}

#[test]
fn flow_refuses_a_malformed_form() {
    let r = SubscribeFlow::start(FormData { name: "le guin".to_string(), email: "".to_string() });
    assert_eq!(r.err(), Some(SubscribeError::ValidationError(ValidationError::InvalidEmail)));
}

#[test]
fn store_enforces_its_constraints() {
    let pool = MemoryStore::new();
    let mut tx = pool.begin();
    let sub = subscriber("le guin", "ursula_le_guin@gmail.com");
    let id = insert_subscriber(&sub, &mut tx).expect("first insert");
    assert_eq!(insert_subscriber(&sub, &mut tx), Err(StoreError::DuplicateEmail));
    assert_eq!(store_token(&mut tx, id, "tok1"), Ok(()));
    assert_eq!(store_token(&mut tx, id, "tok2"), Err(StoreError::Failure));
    assert_eq!(store_token(&mut tx, id.wrapping_add(1), "tok3"), Err(StoreError::Failure));
    let other = subscriber("octavia", "octavia_butler@gmail.com");
    let other_id = insert_subscriber(&other, &mut tx).expect("second insert");
    assert_eq!(store_token(&mut tx, other_id, "tok1"), Err(StoreError::Failure));
    assert_eq!(store_token(&mut tx, other_id, "tok2"), Ok(()));
    assert_eq!(update_token(&mut tx, id, "tok2"), Err(StoreError::Failure));
    assert_eq!(update_token(&mut tx, id, "tok1"), Ok(()));
    assert_eq!(update_token(&mut tx, id, "tok9"), Ok(()));
    let mut pool = pool;
    assert_eq!(get_subscriber_id("le guin", &pool), Err(StoreError::NotFound));
    pool.commit(tx);
    assert_eq!(get_subscriber_id("le guin", &pool), Ok(id));
    assert_eq!(get_subscriber_from_token(&pool, "tok1"), Ok(None));
    assert_eq!(
        get_subscriber_from_token(&pool, "tok9"),
        Ok(Some(UserData { subscriber_id: id, status: SubscriberStatus::PendingConfirmation }))
    );
    assert_eq!(confirm_subscriber(&mut pool, id), Ok(()));
    assert_eq!(confirm_subscriber(&mut pool, id), Ok(()));
    assert_eq!(
        get_subscriber_from_token(&pool, "tok9"),
        Ok(Some(UserData { subscriber_id: id, status: SubscriberStatus::Confirmed }))
    );
}

#[test]
fn dropped_transaction_rolls_back() {
    let pool = MemoryStore::new();
    let mut tx = pool.begin();
    let sub = subscriber("le guin", "ursula_le_guin@gmail.com");
    insert_subscriber(&sub, &mut tx).expect("insert");
    drop(tx);
    assert!(pool.subscribers().is_empty());
}

#[test]
fn confirmation_decisions() {
    assert_eq!(
        decide_confirmation(Err(StoreError::Failure)),
        ConfirmDecision::Respond(ConfirmOutcome::StorageFailure)
    );
    assert_eq!(decide_confirmation(Ok(None)), ConfirmDecision::Respond(ConfirmOutcome::UnknownToken));
    let pending = UserData { subscriber_id: 5, status: SubscriberStatus::PendingConfirmation };
    assert_eq!(decide_confirmation(Ok(Some(pending))), ConfirmDecision::MarkConfirmed(5));
    let confirmed = UserData { subscriber_id: 5, status: SubscriberStatus::Confirmed };
    assert_eq!(
        decide_confirmation(Ok(Some(confirmed))),
        ConfirmDecision::Respond(ConfirmOutcome::AlreadyConfirmed)
    );
    assert_eq!(confirmation_outcome(Ok(())), ConfirmOutcome::Confirmed);
    assert_eq!(confirmation_outcome(Err(StoreError::Failure)), ConfirmOutcome::StorageFailure);
}

#[test]
fn insert_with_given_id_and_time() {
    let pool = MemoryStore::new();
    let mut tx = pool.begin();
    let sub = subscriber("le guin", "ursula_le_guin@gmail.com");
    assert_eq!(insert_subscriber_as(&sub, &mut tx, 42, 1_700_000_000), Ok(42));
    let other = subscriber("octavia", "octavia_butler@gmail.com");
    assert_eq!(insert_subscriber_as(&other, &mut tx, 42, 5), Err(StoreError::Failure));
    assert_eq!(insert_subscriber_as(&sub, &mut tx, 43, 5), Err(StoreError::DuplicateEmail));
    assert_eq!(insert_subscriber_as(&other, &mut tx, 43, 5), Ok(43));
    let mut pool = pool;
    pool.commit(tx);
    assert_eq!(pool.subscribers().len(), 2);
    assert_eq!(pool.subscribers()[0].id, 42);
    assert_eq!(pool.subscribers()[0].subscribed_at, 1_700_000_000);
    assert_eq!(pool.subscribers()[1].id, 43);
    assert_eq!(pool.subscribers()[1].status, SubscriberStatus::PendingConfirmation);
}

#[test]
fn update_without_a_token_does_nothing() {
    let pool = MemoryStore::new();
    let mut tx = pool.begin();
    let a = subscriber("le guin", "ursula_le_guin@gmail.com");
    let b = subscriber("octavia", "octavia_butler@gmail.com");
    assert_eq!(insert_subscriber_as(&a, &mut tx, 1, 0), Ok(1));
    assert_eq!(insert_subscriber_as(&b, &mut tx, 2, 0), Ok(2));
    assert_eq!(store_token(&mut tx, 1, "tok1"), Ok(()));
    // Subscriber 2 owns no token: the update matches no row, even on a taken value.
    assert_eq!(update_token(&mut tx, 2, "tok1"), Ok(()));
    let mut pool = pool;
    pool.commit(tx);
    assert_eq!(pool.tokens().len(), 1);
    assert_eq!(pool.tokens()[0].subscription_token, "tok1");
    assert_eq!(pool.tokens()[0].subscriber_id, 1);
}
