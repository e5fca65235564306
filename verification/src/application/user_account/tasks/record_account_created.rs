//! The continuation that records a created account on its reservation.
use vstd::prelude::*;
use crate::application::outbox::task::{TaskFormat, TaskFormatView, TaskPayload};
use crate::application::outbox::task_handler::{TaskExecutionError, TaskExecutionErrorView};

pub mod v1;
use v1::RecordAccountCreatedTaskV1;

verus! {

/// A claimed task is continued only in the v1 format with a readable payload.
pub fn accept_task(format: &TaskFormat, payload: Option<RecordAccountCreatedTaskV1>) -> (accepted: Result<
    RecordAccountCreatedTaskV1,
    TaskExecutionError,
>)
    ensures
        format@ != (TaskFormatView {
            task_type: RecordAccountCreatedTaskV1::spec_task_type(),
            task_version: RecordAccountCreatedTaskV1::spec_task_version(),
        }) ==> (accepted matches Err(e) && e@ == (TaskExecutionErrorView::Permanent {
            reason: "unsupported record_account_created format"@,
        })),
        format@ == (TaskFormatView {
            task_type: RecordAccountCreatedTaskV1::spec_task_type(),
            task_version: RecordAccountCreatedTaskV1::spec_task_version(),
        }) ==> match payload {
            Some(task) => accepted == Ok::<RecordAccountCreatedTaskV1, TaskExecutionError>(task),
            None => (accepted matches Err(e) && e@ == (TaskExecutionErrorView::Permanent {
                reason: "invalid record_account_created payload"@,
            })),
        },
{
    if !format.same_format(&TaskFormat::of::<RecordAccountCreatedTaskV1>()) {
        return Err(TaskExecutionError::permanent("unsupported record_account_created format"));
    }
    match payload {
        Some(task) => Ok(task),
        None => Err(TaskExecutionError::permanent("invalid record_account_created payload")),
    }
}

} // verus!
