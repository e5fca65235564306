//! Email reservation use cases.
pub mod service;
pub mod tasks;
pub mod use_cases;
