//! Delivery of verification codes from outbox work.
use vstd::prelude::*;
use crate::application::outbox::task::{TaskFormat, TaskFormatView, TaskPayload};
use crate::application::outbox::task_handler::{TaskExecutionError, TaskExecutionErrorView};
use crate::domain::email::Email;
use crate::domain::user_account_id::UserAccountId;

pub mod v1;
use v1::SendVerificationCodeTaskV1;

verus! {

/// Current handler input; evolves independently of the persisted v1 task.
#[derive(Clone, Debug, PartialEq, Eq)]
pub struct VerificationCodeDelivery {
    pub email: Email,
    pub account_id: UserAccountId,
    pub verification_code: u32,
}

impl VerificationCodeDelivery {
    pub fn from_task(task: SendVerificationCodeTaskV1) -> (delivery: VerificationCodeDelivery)
        ensures
            delivery.email@ == task.email@,
            delivery.account_id == task.account_id,
            delivery.verification_code == task.verification_code,
    {
        VerificationCodeDelivery {
            email: task.email,
            account_id: task.account_id,
            verification_code: task.verification_code,
        }
    }
}

/// The decision on a claimed task before delivery: only the v1 format, a readable payload
/// (`None` when it could not be decoded) and a seven-digit code are delivered.
pub open spec fn delivery_decision(format: TaskFormatView, payload: Option<(Seq<char>, UserAccountId, u32)>) -> Result<
    (Seq<char>, UserAccountId, u32),
    TaskExecutionErrorView,
> {
    if format != (TaskFormatView {
        task_type: SendVerificationCodeTaskV1::spec_task_type(),
        task_version: SendVerificationCodeTaskV1::spec_task_version(),
    }) {
        Err(TaskExecutionErrorView::Permanent { reason: "unsupported task format"@ })
    } else {
        match payload {
            None => Err(TaskExecutionErrorView::Permanent { reason: "invalid send_verification_code v1 task payload"@ }),
            Some(task) => if !(1_000_000 <= task.2 <= 9_999_999) {
                Err(TaskExecutionErrorView::Permanent { reason: "invalid verification code"@ })
            } else {
                Ok(task)
            },
        }
    }
}

pub fn accept_task(format: &TaskFormat, payload: Option<SendVerificationCodeTaskV1>) -> (accepted: Result<
    VerificationCodeDelivery,
    TaskExecutionError,
>)
    ensures
        ({
            let decided = delivery_decision(
                format@,
                match payload {
                    Some(task) => Some((task.email@, task.account_id, task.verification_code)),
                    None => None,
                },
            );
            match accepted {
                Ok(delivery) => decided == Ok::<(Seq<char>, UserAccountId, u32), TaskExecutionErrorView>(
                    (delivery.email@, delivery.account_id, delivery.verification_code),
                ),
                Err(error) => decided == Err::<(Seq<char>, UserAccountId, u32), TaskExecutionErrorView>(error@),
            }
        }),
{
    if !format.same_format(&TaskFormat::of::<SendVerificationCodeTaskV1>()) {
        return Err(TaskExecutionError::permanent("unsupported task format"));
    }
    let task = match payload {
        Some(task) => task,
        None => return Err(TaskExecutionError::permanent("invalid send_verification_code v1 task payload")),
    };
    if !(1_000_000 <= task.verification_code && task.verification_code <= 9_999_999) {
        return Err(TaskExecutionError::permanent("invalid verification code"));
    }
    Ok(VerificationCodeDelivery::from_task(task))
}

} // verus!
