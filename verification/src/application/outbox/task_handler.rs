use vstd::prelude::*;
use crate::time_span::TimeSpan;

verus! {

/// How a task handler reports work it could not complete.
#[derive(Clone, Debug, PartialEq, Eq)]
pub enum TaskExecutionError {
    /// Try again, after `retry_after` when the handler names a delay.
    Retry { reason: String, retry_after: Option<TimeSpan> },
    /// The task can never succeed.
    Permanent { reason: String },
}

pub enum TaskExecutionErrorView {
    Retry { reason: Seq<char>, retry_after: Option<TimeSpan> },
    Permanent { reason: Seq<char> },
}

impl View for TaskExecutionError {
    type V = TaskExecutionErrorView;

    open spec fn view(&self) -> TaskExecutionErrorView {
        match self {
            TaskExecutionError::Retry { reason, retry_after } =>
                TaskExecutionErrorView::Retry { reason: reason@, retry_after: *retry_after },
            TaskExecutionError::Permanent { reason } => TaskExecutionErrorView::Permanent { reason: reason@ },
        }
    }
}

impl TaskExecutionError {
    /// A permanent failure with the given reason.
    pub fn permanent(reason: &str) -> (error: TaskExecutionError)
        ensures
            error@ == (TaskExecutionErrorView::Permanent { reason: reason@ }),
    {
        TaskExecutionError::Permanent { reason: reason.to_owned() }
    }

    /// The reason text.
    pub fn reason(&self) -> (reason: &str)
        ensures
            reason@ == match self@ {
                TaskExecutionErrorView::Retry { reason, .. } => reason,
                TaskExecutionErrorView::Permanent { reason } => reason,
            },
    {
        match self {
            TaskExecutionError::Retry { reason, .. } => reason.as_str(),
            TaskExecutionError::Permanent { reason } => reason.as_str(),
        }
    }
}

} // verus!
