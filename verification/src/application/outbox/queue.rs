//! What a queue reports when work is settled or leases are recovered.
use vstd::prelude::*;
use crate::application::outbox::task::{TaskFormat, TaskFormatView};
use crate::time_span::TimeSpan;

verus! {

/// How a task's execution ended, as it is written back to the queue.
#[derive(Clone, Debug, PartialEq, Eq)]
pub enum TaskOutcome {
    Completed,
    Retry { delay: TimeSpan, reason: String },
    Failed { reason: String },
}

pub enum TaskOutcomeView {
    Completed,
    Retry { delay: TimeSpan, reason: Seq<char> },
    Failed { reason: Seq<char> },
}

impl View for TaskOutcome {
    type V = TaskOutcomeView;

    open spec fn view(&self) -> TaskOutcomeView {
        match self {
            TaskOutcome::Completed => TaskOutcomeView::Completed,
            TaskOutcome::Retry { delay, reason } => TaskOutcomeView::Retry { delay: *delay, reason: reason@ },
            TaskOutcome::Failed { reason } => TaskOutcomeView::Failed { reason: reason@ },
        }
    }
}

/// A task that reached its final failed state.
#[derive(Clone, Debug, PartialEq, Eq)]
pub struct FailedTask {
    pub id: u128,
    pub format: TaskFormat,
    pub attempt: i32,
    pub reason: &'static str,
}

pub struct FailedTaskView {
    pub id: u128,
    pub format: TaskFormatView,
    pub attempt: i32,
    pub reason: Seq<char>,
}

impl View for FailedTask {
    type V = FailedTaskView;

    open spec fn view(&self) -> FailedTaskView {
        FailedTaskView { id: self.id, format: self.format@, attempt: self.attempt, reason: self.reason@ }
    }
}

/// The answer to settling a claimed task.
#[derive(Clone, Debug, PartialEq, Eq)]
pub enum SettleResult {
    /// The lease was no longer held; nothing was written.
    OwnershipLost,
    /// The outcome was written; `failed` is set when the task reached its final failed state.
    Settled { failed: Option<FailedTask> },
}

impl SettleResult {
    pub fn is_settled(&self) -> (settled: bool)
        ensures
            settled == (self is Settled),
    {
        match self {
            SettleResult::Settled { .. } => true,
            SettleResult::OwnershipLost => false,
        }
    }

    pub fn failed(&self) -> (failed: Option<&FailedTask>)
        ensures
            match self {
                SettleResult::Settled { failed: Some(task) } => failed == Some(task),
                _ => failed is None,
            },
    {
        match self {
            SettleResult::Settled { failed } => match failed {
                Some(task) => Some(task),
                None => None,
            },
            SettleResult::OwnershipLost => None,
        }
    }
}

/// What a lease recovery pass did.
#[derive(Clone, Debug, Default, PartialEq, Eq)]
pub struct RecoveryResult {
    pub recovered: u64,
    pub failed: Vec<FailedTask>,
}

} // verus!
