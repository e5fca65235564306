//! Decisions of the outbound adapters, and the entropy, clock and logging sources.
pub mod console_verification_code_sender;
pub mod cqrs;
pub mod logging;
pub mod postgres;
pub mod random;
pub mod system_registration_clock;
pub mod verification_code_generator;
