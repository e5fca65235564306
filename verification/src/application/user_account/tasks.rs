//! Versioned registration continuation tasks.
pub mod create_account;
pub mod record_account_created;

use vstd::prelude::*;
use crate::application::outbox::task_handler::{TaskExecutionError, TaskExecutionErrorView};
use crate::application::user_account::service::ContinuationError;

verus! {

pub open spec fn continuation_failure(error: ContinuationError) -> TaskExecutionErrorView {
    match error {
        ContinuationError::Retry => TaskExecutionErrorView::Retry {
            reason: "registration continuation temporarily unavailable"@,
            retry_after: None,
        },
        ContinuationError::Permanent => TaskExecutionErrorView::Permanent {
            reason: "registration continuation data does not match"@,
        },
    }
}

/// A temporary continuation failure is retried with the default backoff; a mismatch is permanent.
pub fn delivery_error(error: ContinuationError) -> (failure: TaskExecutionError)
    ensures
        failure@ == continuation_failure(error),
{
    match error {
        ContinuationError::Retry => TaskExecutionError::Retry {
            reason: "registration continuation temporarily unavailable".to_owned(),
            retry_after: None,
        },
        ContinuationError::Permanent => TaskExecutionError::Permanent {
            reason: "registration continuation data does not match".to_owned(),
        },
    }
}

} // verus!
