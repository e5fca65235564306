//! Email reservation and user account registration: domain aggregates,
//! application rules and adapter decisions, with their contracts.
pub mod application;
pub mod domain;
pub mod infrastructure;
pub mod presentation;
pub mod runtime;
pub mod text;
pub mod time_span;
