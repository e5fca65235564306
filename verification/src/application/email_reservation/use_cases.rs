//! The decisions of each email reservation use case, around the command gateway call.
pub mod confirm_email;
pub mod request_new_verification_code;
pub mod reserve_email;
