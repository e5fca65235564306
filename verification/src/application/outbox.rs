//! Durable work contracts. Payload versions are independent of domain events.
pub mod coordinator;
pub mod error;
pub mod queue;
pub mod task;
pub mod task_handler;
pub mod task_handler_registry;
