//! Decisions of the inbound adapters.
pub mod http;
pub mod outbox_worker_pool;
