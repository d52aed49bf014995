pub mod domain;
pub mod email_client;
pub mod idempotency;
pub mod startup;
pub mod store;
pub mod subscriptions;
pub mod subscriptions_confirm;
