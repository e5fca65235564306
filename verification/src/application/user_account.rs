//! Registration: profile submission and the account creation continuations.
pub mod laws;
pub mod service;
pub mod tasks;
