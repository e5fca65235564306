//! The account creation continuation.
use vstd::prelude::*;
use crate::application::outbox::task::{TaskFormat, TaskFormatView, TaskPayload};
use crate::application::outbox::task_handler::{TaskExecutionError, TaskExecutionErrorView};

pub mod v1;
use v1::CreateAccountTaskV1;

verus! {

/// A claimed task is continued only in the v1 format with a readable payload.
pub fn accept_task(format: &TaskFormat, payload: Option<CreateAccountTaskV1>) -> (accepted: Result<
    CreateAccountTaskV1,
    TaskExecutionError,
>)
    ensures
        format@ != (TaskFormatView {
            task_type: CreateAccountTaskV1::spec_task_type(),
            task_version: CreateAccountTaskV1::spec_task_version(),
        }) ==> (accepted matches Err(e) && e@ == (TaskExecutionErrorView::Permanent {
            reason: "unsupported create_account format"@,
        })),
        format@ == (TaskFormatView {
            task_type: CreateAccountTaskV1::spec_task_type(),
            task_version: CreateAccountTaskV1::spec_task_version(),
        }) ==> match payload {
            Some(task) => accepted == Ok::<CreateAccountTaskV1, TaskExecutionError>(task),
            None => (accepted matches Err(e) && e@ == (TaskExecutionErrorView::Permanent {
                reason: "invalid create_account payload"@,
            })),
        },
{
    if !format.same_format(&TaskFormat::of::<CreateAccountTaskV1>()) {
        return Err(TaskExecutionError::permanent("unsupported create_account format"));
    }
    match payload {
        Some(task) => Ok(task),
        None => Err(TaskExecutionError::permanent("invalid create_account payload")),
    }
}

} // verus!
