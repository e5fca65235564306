//! The decisions of the PostgreSQL outbox queue: the parameters bound to its statements
//! and how the rows it gets back become settle and recovery results.
use vstd::prelude::*;
use crate::application::outbox::error::OutboxError;
use crate::application::outbox::queue::{FailedTask, SettleResult, TaskOutcome};
use crate::application::outbox::task::TaskFormat;
use crate::text::take_chars;
use crate::time_span::TimeSpan;

verus! {

/// The longest error text kept with a settled task, in characters.
pub const MAX_ERROR_CHARS: usize = 2048;

/// A span in whole milliseconds, when that fits a `bigint`.
pub open spec fn span_millis(span: TimeSpan) -> Option<int> {
    let millis = span.total_nanos() / 1_000_000;
    if millis <= i64::MAX { Some(millis) } else { None }
}

/// A span as the whole number of milliseconds bound to an interval; a span too long for a
/// `bigint` is an invalid task.
pub fn milliseconds(span: TimeSpan) -> (millis: Result<i64, OutboxError>)
    ensures
        match millis {
            Ok(n) => span_millis(span) == Some(n as int),
            Err(error) => error == OutboxError::InvalidTask && span_millis(span) is None,
        },
{
    let millis = span.as_millis();
    if millis <= 9_223_372_036_854_775_807u128 {
        Ok(millis as i64)
    } else {
        Err(OutboxError::InvalidTask)
    }
}

/// A row limit as a `bigint`; a larger one is an invalid task.
pub fn row_limit(limit: usize) -> (bound: Result<i64, OutboxError>)
    ensures
        limit <= i64::MAX ==> bound == Ok::<i64, OutboxError>(limit as i64),
        limit > i64::MAX ==> bound == Err::<i64, OutboxError>(OutboxError::InvalidTask),
{
    if (limit as u64) <= 9_223_372_036_854_775_807u64 {
        Ok(limit as i64)
    } else {
        Err(OutboxError::InvalidTask)
    }
}

/// The parameters of a claim: the row limit and the lease in milliseconds.
#[derive(Clone, Copy, Debug, PartialEq, Eq, Structural)]
pub struct ClaimParameters {
    pub limit: i64,
    pub lease_ms: i64,
}

/// A claim needs a lease that is not zero, a limit and a lease that fit a `bigint`;
/// anything else is an invalid task.
pub fn claim_parameters(limit: usize, lease: TimeSpan) -> (params: Result<ClaimParameters, OutboxError>)
    ensures
        match params {
            Ok(p) => {
                &&& lease.total_nanos() != 0
                &&& limit <= i64::MAX
                &&& p.limit == limit
                &&& span_millis(lease) == Some(p.lease_ms as int)
            },
            Err(error) => {
                &&& error == OutboxError::InvalidTask
                &&& (lease.total_nanos() == 0 || limit > i64::MAX || span_millis(lease) is None)
            },
        },
{
    if lease.is_zero() {
        return Err(OutboxError::InvalidTask);
    }
    let limit = match row_limit(limit) {
        Ok(n) => n,
        Err(error) => return Err(error),
    };
    let lease_ms = match milliseconds(lease) {
        Ok(n) => n,
        Err(error) => return Err(error),
    };
    Ok(ClaimParameters { limit, lease_ms })
}

/// What settling writes: the requested status, the retry delay, the error text kept with
/// the task, and whether the outcome asked for a retry.
#[derive(Debug, PartialEq, Eq)]
pub struct SettleParameters {
    pub status: &'static str,
    pub delay_ms: i64,
    pub error: Option<String>,
    pub retry: bool,
}

/// At most the first `MAX_ERROR_CHARS` characters of a reason.
pub open spec fn kept_error(reason: Seq<char>) -> Seq<char> {
    if reason.len() <= MAX_ERROR_CHARS { reason } else { reason.take(MAX_ERROR_CHARS as int) }
}

/// Completed work is written `completed` without error; a retry is written `pending` after
/// its delay; a failure is written `failed`. A retry delay too long for a `bigint` is an
/// invalid task.
pub fn settle_parameters(outcome: &TaskOutcome) -> (params: Result<SettleParameters, OutboxError>)
    ensures
        match outcome {
            TaskOutcome::Completed => match params {
                Ok(p) => p.status@ == "completed"@ && p.delay_ms == 0 && p.error is None && !p.retry,
                Err(_) => false,
            },
            TaskOutcome::Retry { delay, reason } => match span_millis(*delay) {
                Some(millis) => match params {
                    Ok(p) => {
                        &&& p.status@ == "pending"@
                        &&& p.delay_ms == millis
                        &&& p.error matches Some(text) && text@ == kept_error(reason@)
                        &&& p.retry
                    },
                    Err(_) => false,
                },
                None => params == Err::<SettleParameters, OutboxError>(OutboxError::InvalidTask),
            },
            TaskOutcome::Failed { reason } => match params {
                Ok(p) => {
                    &&& p.status@ == "failed"@
                    &&& p.delay_ms == 0
                    &&& p.error matches Some(text) && text@ == kept_error(reason@)
                    &&& !p.retry
                },
                Err(_) => false,
            },
        },
{
    match outcome {
        TaskOutcome::Completed => Ok(SettleParameters { status: "completed", delay_ms: 0, error: None, retry: false }),
        TaskOutcome::Retry { delay, reason } => {
            let delay_ms = match milliseconds(*delay) {
                Ok(n) => n,
                Err(error) => return Err(error),
            };
            let error = take_chars(reason.as_str(), MAX_ERROR_CHARS);
            Ok(SettleParameters { status: "pending", delay_ms, error: Some(error), retry: true })
        },
        TaskOutcome::Failed { reason } => {
            let error = take_chars(reason.as_str(), MAX_ERROR_CHARS);
            Ok(SettleParameters { status: "failed", delay_ms: 0, error: Some(error), retry: false })
        },
    }
}

/// Whether a status read back from the queue is the final failed state.
pub fn is_failed_status(status: &str) -> (failed: bool)
    ensures
        failed == (status@ == "failed"@),
{
    status.to_owned() == String::from_str("failed")
}

/// The answer to a settle: no row back means the lease was lost; a row whose status is
/// `failed` reports the task as failed, by its retry limit when a retry was asked for and
/// as a permanent failure otherwise.
pub fn settle_result(task_id: u128, format: &TaskFormat, attempt: i32, written_status: Option<&str>, retry: bool) -> (result: SettleResult)
    ensures
        match written_status {
            None => result is OwnershipLost,
            Some(status) => match result {
                SettleResult::OwnershipLost => false,
                SettleResult::Settled { failed: None } => status@ != "failed"@,
                SettleResult::Settled { failed: Some(task) } => {
                    &&& status@ == "failed"@
                    &&& task.id == task_id
                    &&& task.format@ == format@
                    &&& task.attempt == attempt
                    &&& task.reason@ == if retry { "retry limit reached"@ } else { "permanent failure"@ }
                },
            },
        },
{
    match written_status {
        None => SettleResult::OwnershipLost,
        Some(status) => {
            if is_failed_status(status) {
                let reason: &'static str = if retry { "retry limit reached" } else { "permanent failure" };
                SettleResult::Settled {
                    failed: Some(FailedTask { id: task_id, format: format.duplicate(), attempt, reason }),
                }
            } else {
                SettleResult::Settled { failed: None }
            }
        },
    }
}

/// A task whose lease expired is failed once it has used all its attempts; it is then
/// reported with the reason `worker lease expired`.
pub fn expired_lease_failure(task_id: u128, format: &TaskFormat, attempt: i32, max_attempts: i32) -> (failed: Option<FailedTask>)
    ensures
        attempt < max_attempts ==> failed is None,
        attempt >= max_attempts ==> (failed matches Some(task) && task.id == task_id && task.format@ == format@
            && task.attempt == attempt && task.reason@ == "worker lease expired"@),
{
    if attempt >= max_attempts {
        Some(FailedTask { id: task_id, format: format.duplicate(), attempt, reason: "worker lease expired" })
    } else {
        None
    }
}

} // verus!
