//! Application use cases and ports.
pub mod email_reservation;
pub mod outbox;
pub mod user_account;

use vstd::prelude::*;

verus! {

/// How a command gateway reports a command that did not commit.
#[derive(Clone, Copy, Debug, PartialEq, Eq)]
pub enum CommandGatewayError<D> {
    /// The aggregate refused the command under a domain rule.
    Domain(D),
    /// The command conflicted with a concurrent change.
    Conflict,
    /// The gateway is temporarily unavailable.
    Unavailable,
}

} // verus!
