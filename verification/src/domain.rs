//! Business model and invariants.
pub mod calendar;
pub mod email_reservation;
pub mod user_account;
pub mod email;
pub mod user_account_id;
