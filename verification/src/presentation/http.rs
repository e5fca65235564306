//! The HTTP error answers and the links the HTTP resources hand out.
pub mod email_reservations;
pub mod user_accounts;

use vstd::prelude::*;

verus! {

/// The parts of an HTTP error answer: status, stable error code, safe message, and whether
/// a `Retry-After: 1` header goes with it.
#[derive(Clone, Copy, Debug, PartialEq, Eq)]
pub struct ErrorResponse {
    pub status: u16,
    pub code: &'static str,
    pub message: &'static str,
    pub retry_after: bool,
}

} // verus!
