//! Task formats: the type and version under which a payload is stored and routed.
use vstd::prelude::*;
use crate::domain::calendar::Timestamp;
use crate::domain::user_account_id::{new_v4_uuid, uuid_variant, uuid_version};
use crate::time_span::TimeSpan;

verus! {

/// A payload that can be stored as outbox work, under a fixed type name and version.
pub trait TaskPayload {
    spec fn spec_task_type() -> Seq<char>;

    spec fn spec_task_version() -> i32;

    fn task_type() -> (name: &'static str)
        ensures
            name@ == Self::spec_task_type(),
    ;

    fn task_version() -> (version: i32)
        ensures
            version == Self::spec_task_version(),
    ;
}

/// When stored work becomes available.
#[derive(Clone, Copy, Debug, PartialEq, Eq, Structural)]
pub enum Schedule {
    Now,
    After(TimeSpan),
    At(Timestamp),
}

impl Schedule {
    /// Work is available as soon as it is committed unless scheduled otherwise.
    pub fn default() -> (schedule: Schedule)
        ensures
            schedule == Schedule::Now,
    {
        Schedule::Now
    }
}

#[derive(Debug, PartialEq, Eq)]
pub struct TaskFormat {
    pub task_type: String,
    pub task_version: i32,
}

pub struct TaskFormatView {
    pub task_type: Seq<char>,
    pub task_version: i32,
}

impl View for TaskFormat {
    type V = TaskFormatView;

    open spec fn view(&self) -> TaskFormatView {
        TaskFormatView { task_type: self.task_type@, task_version: self.task_version }
    }
}

impl TaskFormat {
    /// The format under which payloads of type `T` are stored.
    pub fn of<T: TaskPayload>() -> (format: TaskFormat)
        ensures
            format@ == (TaskFormatView { task_type: T::spec_task_type(), task_version: T::spec_task_version() }),
    {
        TaskFormat { task_type: T::task_type().to_owned(), task_version: T::task_version() }
    }

    pub fn duplicate(&self) -> (copy: TaskFormat)
        ensures
            copy@ == self@,
    {
        TaskFormat { task_type: self.task_type.clone(), task_version: self.task_version }
    }

    pub fn same_format(&self, other: &TaskFormat) -> (same: bool)
        ensures
            same == (self@ == other@),
    {
        self.task_version == other.task_version && self.task_type == other.task_type
    }
}

impl Clone for TaskFormat {
    fn clone(&self) -> (copy: Self)
        ensures
            copy@ == self@,
    {
        self.duplicate()
    }
}

/// How many times stored work is attempted before it is failed.
pub const DEFAULT_MAX_ATTEMPTS: i32 = 10;

/// Work to commit to the outbox together with domain events. The payload is the JSON text of
/// the task; the metadata written with it is an empty JSON object.
#[derive(Clone, Debug, PartialEq, Eq)]
pub struct NewOutboxTask {
    pub id: u128,
    pub task_type: String,
    pub task_version: i32,
    pub payload: Vec<u8>,
    pub schedule: Schedule,
    pub max_attempts: i32,
}

impl NewOutboxTask {
    /// New work of type `T` with a fresh random identifier, available at once and attempted
    /// at most `DEFAULT_MAX_ATTEMPTS` times.
    pub fn new<T: TaskPayload>(payload: Vec<u8>) -> (task: NewOutboxTask)
        ensures
            uuid_version(task.id) == 4,
            uuid_variant(task.id) == 2,
            task.task_type@ == T::spec_task_type(),
            task.task_version == T::spec_task_version(),
            task.payload@ == payload@,
            task.schedule == Schedule::Now,
            task.max_attempts == DEFAULT_MAX_ATTEMPTS,
    {
        NewOutboxTask {
            id: new_v4_uuid(),
            task_type: T::task_type().to_owned(),
            task_version: T::task_version(),
            payload,
            schedule: Schedule::Now,
            max_attempts: DEFAULT_MAX_ATTEMPTS,
        }
    }

    /// The same work, available as `schedule` says.
    pub fn scheduled(self, schedule: Schedule) -> (task: NewOutboxTask)
        ensures
            task.id == self.id,
            task.task_type@ == self.task_type@,
            task.task_version == self.task_version,
            task.payload@ == self.payload@,
            task.schedule == schedule,
            task.max_attempts == self.max_attempts,
    {
        NewOutboxTask { schedule, ..self }
    }

    /// The format the work is stored under.
    pub fn format(&self) -> (format: TaskFormat)
        ensures
            format@ == (TaskFormatView { task_type: self.task_type@, task_version: self.task_version }),
    {
        TaskFormat { task_type: self.task_type.clone(), task_version: self.task_version }
    }
}

} // verus!
