//! Versioned email reservation tasks.
pub mod send_verification_code;
