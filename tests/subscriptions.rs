use email_newsletter::confirmation::{confirm, ConfirmOutcome, Parameters};
use email_newsletter::domain::{FormData, SubscriberStatus};
use email_newsletter::email::Outbox;
use email_newsletter::store::{MemoryStore, StoreError};
use email_newsletter::subscription::{
    subscribe, subscribe_status, subscribe_with, ApplicationBaseUrl, FailedStep, SubscribeError,
};

const BASE: &str = "http://127.0.0.1:8000";

fn form(name: &str, email: &str) -> FormData {
    FormData { name: name.to_string(), email: email.to_string() }
}

fn base_url() -> ApplicationBaseUrl {
    ApplicationBaseUrl(BASE.to_string())
}

fn token_in(link: &str) -> String {
    let prefix = format!("{}/subscriptions/confirm?subscription_token=", BASE);
    assert!(link.starts_with(&prefix), "unexpected link {}", link);
    link[prefix.len()..].to_string()
}

fn last_token(outbox: &Outbox) -> String {
    token_in(&outbox.sent().last().expect("no email was sent").link)
}

fn confirm_token(pool: &mut MemoryStore, token: &str) -> u16 {
    confirm(&Parameters { subscription_token: token.to_string() }, pool).status_code()
}

#[test]
fn subscribe_returns_200() {
    let mut pool = MemoryStore::new();
    let mut outbox = Outbox::new(true);
    let r = subscribe(form("le guin", "ursula_le_guin@gmail.com"), &mut pool, &mut outbox, &base_url());
    assert_eq!(200, subscribe_status(&r));
    let saved = &pool.subscribers()[0];
    assert_eq!(saved.email, "ursula_le_guin@gmail.com");
    assert_eq!(saved.name, "le guin");
}

#[test]
fn subscribe_returns_400() {
    let cases = vec![
        (form("le guin", ""), "missing the email"),
        (form("", "ursula_le_guin@gmail.com"), "missing the name"),
        (form("", ""), "missing both name and email"),
    ];
    for (invalid, message) in cases {
        let mut pool = MemoryStore::new();
        let mut outbox = Outbox::new(true);
        let r = subscribe(invalid, &mut pool, &mut outbox, &base_url());
        assert_eq!(
            400,
            subscribe_status(&r),
            "The API did not fail with 400 Bad Request when the payload was {}.",
            message
        );
        assert!(pool.subscribers().is_empty());
        assert!(outbox.sent().is_empty());
    }
}

#[test]
fn subscribing_through_smtp() {
    let mut pool = MemoryStore::new();
    let mut outbox = Outbox::new(true);
    let r = subscribe(form("le guin", "ursula_le_guin@gmail.com"), &mut pool, &mut outbox, &base_url());
    assert_eq!(200, subscribe_status(&r));
    assert_eq!(pool.subscribers()[0].status.as_str(), "pending_confirmation");
    let token = last_token(&outbox);
    assert_eq!(200, confirm_token(&mut pool, &token));
    let saved = &pool.subscribers()[0];
    assert_eq!(saved.email, "ursula_le_guin@gmail.com");
    assert_eq!(saved.name, "le guin");
    assert_eq!(saved.status.as_str(), "confirmed");
    assert_eq!(409, confirm_token(&mut pool, &token));
}

#[test]
fn inserting_a_subscriber_twice() {
    let mut pool = MemoryStore::new();
    let mut outbox = Outbox::new(true);
    let r1 = subscribe(form("le guin", "ursula_le_guin@gmail.com"), &mut pool, &mut outbox, &base_url());
    assert_eq!(200, subscribe_status(&r1));
    let first = last_token(&outbox);
    let r2 = subscribe(form("le guin", "ursula_le_guin@gmail.com"), &mut pool, &mut outbox, &base_url());
    assert_eq!(200, subscribe_status(&r2));
    let second = last_token(&outbox);
    assert_eq!(pool.subscribers().len(), 1);
    assert_eq!(pool.tokens().len(), 1);
    assert_eq!(outbox.sent().len(), 2);
    assert_ne!(first, second);
    assert_eq!(pool.tokens()[0].subscription_token, second);
    assert_eq!(401, confirm_token(&mut pool, &first));
    assert_eq!(200, confirm_token(&mut pool, &second));
}

#[test]
fn using_a_confirmation_token_twice_returns_409() {
    let mut pool = MemoryStore::new();
    let mut outbox = Outbox::new(true);
    let r = subscribe(form("le guin", "ursula_le_guin@gmail.com"), &mut pool, &mut outbox, &base_url());
    assert_eq!(200, subscribe_status(&r));
    let token = last_token(&outbox);
    let _ = confirm_token(&mut pool, &token);
    assert_eq!(confirm_token(&mut pool, &token), 409);
}

#[test]
fn unknown_token_returns_401() {
    let mut pool = MemoryStore::new();
    let mut outbox = Outbox::new(true);
    let _ = subscribe(form("le guin", "ursula_le_guin@gmail.com"), &mut pool, &mut outbox, &base_url());
    assert_eq!(confirm_token(&mut pool, "doesnotexist"), 401);
    assert_eq!(pool.subscribers()[0].status, SubscriberStatus::PendingConfirmation);
}

#[test]
fn failed_email_rolls_back_the_subscription() {
    let mut pool = MemoryStore::new();
    let mut outbox = Outbox::new(false);
    let r = subscribe(form("le guin", "ursula_le_guin@gmail.com"), &mut pool, &mut outbox, &base_url());
    assert_eq!(r, Err(SubscribeError::UnexpectedError(FailedStep::SendEmail)));
    assert_eq!(500, subscribe_status(&r));
    assert!(pool.subscribers().is_empty());
    assert!(pool.tokens().is_empty());
    assert!(outbox.sent().is_empty());
    assert_eq!(outbox.refused().len(), 1);
    assert_eq!(outbox.refused()[0].recipient, "ursula_le_guin@gmail.com");
}

#[test]
fn failed_email_on_resubscription_keeps_the_first_token() {
    let mut pool = MemoryStore::new();
    let mut outbox = Outbox::new(true);
    let _ = subscribe(form("le guin", "ursula_le_guin@gmail.com"), &mut pool, &mut outbox, &base_url());
    let first = last_token(&outbox);
    outbox.set_accepting(false);
    let r = subscribe(form("le guin", "ursula_le_guin@gmail.com"), &mut pool, &mut outbox, &base_url());
    assert_eq!(500, subscribe_status(&r));
    assert_eq!(pool.tokens()[0].subscription_token, first);
    assert_eq!(outbox.sent().len(), 1);
    assert_eq!(200, confirm_token(&mut pool, &first));
}

#[test]
fn resubscription_under_an_unknown_name_fails() {
    let mut pool = MemoryStore::new();
    let mut outbox = Outbox::new(true);
    let _ = subscribe(form("le guin", "ursula_le_guin@gmail.com"), &mut pool, &mut outbox, &base_url());
    let r = subscribe(form("ursula", "ursula_le_guin@gmail.com"), &mut pool, &mut outbox, &base_url());
    assert_eq!(r, Err(SubscribeError::StorageError(FailedStep::LookUpSubscriber, StoreError::NotFound)));
    assert_eq!(500, subscribe_status(&r));
    assert_eq!(pool.subscribers().len(), 1);
    assert_eq!(outbox.sent().len(), 1);
}

#[test]
fn two_subscribers_are_kept_apart() {
    let mut pool = MemoryStore::new();
    let mut outbox = Outbox::new(true);
    let _ = subscribe(form("le guin", "ursula_le_guin@gmail.com"), &mut pool, &mut outbox, &base_url());
    let first = last_token(&outbox);
    let r = subscribe(form("octavia", "octavia_butler@gmail.com"), &mut pool, &mut outbox, &base_url());
    assert_eq!(200, subscribe_status(&r));
    let second = last_token(&outbox);
    assert_eq!(pool.subscribers().len(), 2);
    assert_eq!(pool.tokens().len(), 2);
    assert_ne!(pool.subscribers()[0].id, pool.subscribers()[1].id);
    assert!(pool.subscribers()[0].subscribed_at > 1_600_000_000);
    assert_eq!(200, confirm_token(&mut pool, &second));
    assert_eq!(pool.subscribers()[0].status, SubscriberStatus::PendingConfirmation);
    assert_eq!(pool.subscribers()[1].status, SubscriberStatus::Confirmed);
    assert_eq!(200, confirm_token(&mut pool, &first));
}

#[test]
fn confirm_outcome_status_codes() {
    assert_eq!(ConfirmOutcome::Confirmed.status_code(), 200);
    assert_eq!(ConfirmOutcome::UnknownToken.status_code(), 401);
    assert_eq!(ConfirmOutcome::AlreadyConfirmed.status_code(), 409);
    assert_eq!(ConfirmOutcome::StorageFailure.status_code(), 500);
}

#[test]
fn whitespace_only_name_is_refused() {
    for name in ["\u{0B}", "\u{0C}", "\u{85}", "\u{A0}", "\u{2003}\u{3000}"] {
        let mut pool = MemoryStore::new();
        let mut outbox = Outbox::new(true);
        let r = subscribe(form(name, "a@b"), &mut pool, &mut outbox, &base_url());
        assert_eq!(400, subscribe_status(&r));
        assert!(pool.subscribers().is_empty());
        assert!(outbox.sent().is_empty());
    }
}

#[test]
fn subscribe_with_drawn_values_on_a_busy_store() {
    let mut pool = MemoryStore::new();
    let mut outbox = Outbox::new(true);
    let r = subscribe_with(
        form("le guin", "ursula_le_guin@gmail.com"), &mut pool, &mut outbox, &base_url(),
        7, 1_700_000_000, "tokenA".to_string(),
    );
    assert_eq!(r, Ok(()));
    let r = subscribe_with(
        form("octavia", "octavia_butler@gmail.com"), &mut pool, &mut outbox, &base_url(),
        8, 1_700_000_001, "tokenB".to_string(),
    );
    assert_eq!(r, Ok(()));
    assert_eq!(pool.subscribers()[1].id, 8);
    assert_eq!(pool.subscribers()[1].subscribed_at, 1_700_000_001);
    assert_eq!(pool.tokens()[1].subscription_token, "tokenB");
    assert_eq!(pool.tokens()[1].subscriber_id, 8);
    assert_eq!(token_in(&outbox.sent()[1].link), "tokenB");
    // A drawn id that is already taken fails the insert.
    let r = subscribe_with(
        form("kim", "kim@example.com"), &mut pool, &mut outbox, &base_url(),
        7, 0, "tokenC".to_string(),
    );
    assert_eq!(r, Err(SubscribeError::StorageError(FailedStep::InsertSubscriber, StoreError::Failure)));
    // A drawn token that is already stored fails the token insert, and nothing is kept.
    let r = subscribe_with(
        form("kim", "kim@example.com"), &mut pool, &mut outbox, &base_url(),
        9, 0, "tokenA".to_string(),
    );
    assert_eq!(r, Err(SubscribeError::StorageError(FailedStep::StoreToken, StoreError::Failure)));
    assert_eq!(pool.subscribers().len(), 2);
    assert_eq!(outbox.sent().len(), 2);
    // Resubscribing with another subscriber's token as the new value fails the update.
    let r = subscribe_with(
        form("le guin", "ursula_le_guin@gmail.com"), &mut pool, &mut outbox, &base_url(),
        10, 0, "tokenB".to_string(),
    );
    assert_eq!(r, Err(SubscribeError::StorageError(FailedStep::UpdateToken, StoreError::Failure)));
    assert_eq!(pool.tokens()[0].subscription_token, "tokenA");
}
