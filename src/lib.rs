//! A newsletter-subscription core: validating subscription forms, issuing confirmation
//! tokens, the transactional protocol that stores subscribers and tokens, and the one-time
//! confirmation of a subscriber.
//!
//! `subscription::SubscribeFlow` and `confirmation::decide_confirmation` hold the decisions;
//! whoever performs the storage and email work reports each outcome back to them.
//! `store::MemoryStore` and `email::Outbox` perform that work in memory, and
//! `subscription::subscribe` and `confirmation::confirm` run the whole protocol over them.

pub mod confirmation;
pub mod domain;
pub mod email;
pub mod newsletter;
pub mod store;
pub mod subscription;
pub mod token;
