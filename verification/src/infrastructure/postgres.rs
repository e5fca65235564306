//! PostgreSQL adapters: what is validated and computed before anything is written.
pub mod event_repository_with_outbox;
pub mod outbox_queue;
