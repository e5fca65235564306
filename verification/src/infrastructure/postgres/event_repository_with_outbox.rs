//! The plan of one atomic write of events, an optional snapshot and outbox tasks.
use vstd::prelude::*;
use crate::application::outbox::task::Schedule;
use crate::domain::calendar::Timestamp;

verus! {

/// PostgreSQL accepts fewer than 65535 bind parameters per statement.
pub open spec fn bind_count_fits(events: int, tasks: int, snapshot_binds: int) -> bool {
    events * 7 + tasks * 11 + snapshot_binds < 65535
}

/// Seven parameters per event, eleven per task, plus those of the snapshot.
pub fn validate_bind_count(events: usize, tasks: usize, snapshot_binds: usize) -> (fits: bool)
    ensures
        fits == bind_count_fits(events as int, tasks as int, snapshot_binds as int),
{
    let event_binds = match events.checked_mul(7) {
        Some(n) => n,
        None => return false,
    };
    let task_binds = match tasks.checked_mul(11) {
        Some(n) => n,
        None => return false,
    };
    let count = match event_binds.checked_add(task_binds) {
        Some(n) => n,
        None => return false,
    };
    let count = match count.checked_add(snapshot_binds) {
        Some(n) => n,
        None => return false,
    };
    count < 65535
}

/// A sequence number as a PostgreSQL `bigint`, when it fits.
pub fn sequence_as_i64(sequence: usize) -> (converted: Option<i64>)
    ensures
        match converted {
            Some(n) => sequence <= i64::MAX && n == sequence,
            None => sequence > i64::MAX,
        },
{
    if (sequence as u64) <= 9_223_372_036_854_775_807u64 {
        Some(sequence as i64)
    } else {
        None
    }
}

#[derive(Clone, Copy, Debug, PartialEq, Eq, Structural)]
pub enum PersistPlanError {
    /// Outbox work can only be committed together with a domain event.
    OutboxWithoutEvent,
    /// The statement would exceed PostgreSQL's bind parameter limit.
    BatchTooLarge,
    /// A sequence number does not fit a `bigint`.
    SequenceOverflow,
    /// A task's delay in milliseconds does not fit a `bigint`.
    InvalidSchedule,
}

/// The snapshot row to write: inserted for the first snapshot, otherwise updated only if
/// the stored one is the previous snapshot.
#[derive(Clone, Copy, Debug, PartialEq, Eq, Structural)]
pub struct SnapshotWrite {
    pub insert: bool,
    pub current_snapshot: i64,
    pub last_sequence: i64,
}

/// When a task becomes available: at `scheduled_at` if set, otherwise `delay_ms` after the commit.
#[derive(Clone, Copy, Debug, PartialEq, Eq, Structural)]
pub struct TaskAvailability {
    pub scheduled_at: Option<Timestamp>,
    pub delay_ms: i64,
}

pub struct PersistPlan {
    pub event_sequences: Vec<i64>,
    pub snapshot: Option<SnapshotWrite>,
    pub tasks: Vec<TaskAvailability>,
}

pub open spec fn snapshot_binds(snapshot: Option<usize>) -> int {
    match snapshot {
        Some(version) => if version == 1 { 5 } else { 6 },
        None => 0,
    }
}

pub open spec fn availability(schedule: Schedule) -> Option<TaskAvailability> {
    match schedule {
        Schedule::Now => Some(TaskAvailability { scheduled_at: None, delay_ms: 0 }),
        Schedule::At(at) => Some(TaskAvailability { scheduled_at: Some(at), delay_ms: 0 }),
        Schedule::After(delay) => if delay.total_nanos() / 1_000_000 <= i64::MAX {
            Some(TaskAvailability { scheduled_at: None, delay_ms: (delay.total_nanos() / 1_000_000) as i64 })
        } else {
            None
        },
    }
}

/// Why a write is refused, in the order the checks are made; `None` when it is accepted.
pub open spec fn plan_error(events: Seq<usize>, snapshot: Option<usize>, schedules: Seq<Schedule>) -> Option<
    PersistPlanError,
> {
    if events.len() == 0 && schedules.len() > 0 {
        Some(PersistPlanError::OutboxWithoutEvent)
    } else if !bind_count_fits(events.len() as int, schedules.len() as int, snapshot_binds(snapshot)) {
        Some(PersistPlanError::BatchTooLarge)
    } else if exists|i: int| 0 <= i < events.len() && events[i] > i64::MAX {
        Some(PersistPlanError::SequenceOverflow)
    } else if exists|j: int| 0 <= j < schedules.len() && availability(#[trigger] schedules[j]) is None {
        Some(PersistPlanError::InvalidSchedule)
    } else if snapshot matches Some(version) && version > i64::MAX {
        Some(PersistPlanError::SequenceOverflow)
    } else {
        None
    }
}

/// Plans the write of `events` (their sequence numbers), the snapshot at version `snapshot`
/// and tasks with `schedules`. `Ok(None)`: there is nothing to write.
pub fn plan_persist(events: &Vec<usize>, snapshot: Option<usize>, schedules: &Vec<Schedule>) -> (plan: Result<
    Option<PersistPlan>,
    PersistPlanError,
>)
    ensures
        events@.len() == 0 && snapshot is None && schedules@.len() == 0 ==> plan matches Ok(None),
        !(events@.len() == 0 && snapshot is None && schedules@.len() == 0) ==> match plan {
            Err(error) => plan_error(events@, snapshot, schedules@) == Some(error),
            Ok(None) => false,
            Ok(Some(p)) => {
                &&& plan_error(events@, snapshot, schedules@) is None
                &&& p.event_sequences@.len() == events@.len()
                &&& forall|i: int| 0 <= i < events@.len() ==> p.event_sequences@[i] == events@[i]
                &&& p.tasks@.len() == schedules@.len()
                &&& forall|j: int| 0 <= j < schedules@.len() ==> availability(schedules@[j]) == Some(p.tasks@[j])
                &&& p.snapshot == match snapshot {
                    None => None,
                    Some(version) => Some(
                        SnapshotWrite {
                            insert: version == 1,
                            current_snapshot: version as i64,
                            last_sequence: if events@.len() == 0 { 0 } else { events@.last() as i64 },
                        },
                    ),
                }
            },
        },
{
    if events.len() == 0 && snapshot.is_none() && schedules.len() == 0 {
        return Ok(None);
    }
    if events.len() == 0 && schedules.len() > 0 {
        return Err(PersistPlanError::OutboxWithoutEvent);
    }
    let binds: usize = match snapshot {
        Some(version) => if version == 1 { 5 } else { 6 },
        None => 0,
    };
    if !validate_bind_count(events.len(), schedules.len(), binds) {
        return Err(PersistPlanError::BatchTooLarge);
    }
    let mut event_sequences: Vec<i64> = Vec::new();
    let mut i: usize = 0;
    while i < events.len()
        invariant
            i <= events@.len(),
            event_sequences@.len() == i,
            !(events@.len() == 0 && schedules@.len() > 0),
            bind_count_fits(events@.len() as int, schedules@.len() as int, snapshot_binds(snapshot)),
            forall|k: int| 0 <= k < i ==> event_sequences@[k] == events@[k] && events@[k] <= i64::MAX,
        decreases events.len() - i,
    {
        match sequence_as_i64(events[i]) {
            Some(n) => event_sequences.push(n),
            None => return Err(PersistPlanError::SequenceOverflow),
        }
        i = i + 1;
    }
    let mut tasks: Vec<TaskAvailability> = Vec::new();
    let mut j: usize = 0;
    while j < schedules.len()
        invariant
            j <= schedules@.len(),
            tasks@.len() == j,
            !(events@.len() == 0 && schedules@.len() > 0),
            bind_count_fits(events@.len() as int, schedules@.len() as int, snapshot_binds(snapshot)),
            forall|i: int| 0 <= i < events@.len() ==> events@[i] <= i64::MAX,
            forall|k: int| 0 <= k < j ==> availability(schedules@[k]) == Some(tasks@[k]),
        decreases schedules.len() - j,
    {
        let task = match schedules[j] {
            Schedule::Now => TaskAvailability { scheduled_at: None, delay_ms: 0 },
            Schedule::At(at) => TaskAvailability { scheduled_at: Some(at), delay_ms: 0 },
            Schedule::After(delay) => {
                let millis = delay.as_millis();
                if millis > 9_223_372_036_854_775_807u128 {
                    assert(availability(schedules@[j as int]) is None);
                    return Err(PersistPlanError::InvalidSchedule);
                }
                TaskAvailability { scheduled_at: None, delay_ms: millis as i64 }
            },
        };
        tasks.push(task);
        j = j + 1;
    }
    let snapshot_write = match snapshot {
        None => None,
        Some(version) => {
            let current = match sequence_as_i64(version) {
                Some(n) => n,
                None => return Err(PersistPlanError::SequenceOverflow),
            };
            let last_sequence = if event_sequences.len() == 0 {
                0
            } else {
                event_sequences[event_sequences.len() - 1]
            };
            Some(SnapshotWrite { insert: current == 1, current_snapshot: current, last_sequence })
        },
    };
    Ok(Some(PersistPlan { event_sequences, snapshot: snapshot_write, tasks }))
}

/// The write took effect only when the snapshot guard matched exactly one row.
pub fn write_committed(snapshot_count: i64) -> (committed: bool)
    ensures
        committed == (snapshot_count == 1),
{
    snapshot_count == 1
}

/// How a storage failure is reported to the event-sourcing framework.
#[derive(Clone, Copy, Debug, PartialEq, Eq, Structural)]
pub enum StorageFailure {
    /// A concurrent writer took the same sequence or snapshot: an optimistic conflict.
    OptimisticLock,
    /// The connection failed.
    Connection,
    Unknown,
}

pub open spec fn storage_failure(code: Option<Seq<char>>, constraint: Option<Seq<char>>, transport: bool) -> StorageFailure {
    if code == Some("23505"@) && (constraint == Some("events_pkey"@) || constraint == Some("snapshots_pkey"@)) {
        StorageFailure::OptimisticLock
    } else if transport {
        StorageFailure::Connection
    } else {
        StorageFailure::Unknown
    }
}

pub open spec fn str_option_view(value: Option<&str>) -> Option<Seq<char>> {
    match value {
        Some(text) => Some(text@),
        None => None,
    }
}

/// Classifies a database error: a unique violation of the events or snapshots primary key is
/// an optimistic conflict, I/O and TLS failures are connection failures.
/// `code` and `constraint` are those of a database error; `transport` is set for I/O and TLS errors.
pub fn classify_storage_error(code: Option<&str>, constraint: Option<&str>, transport: bool) -> (failure:
    StorageFailure)
    ensures
        failure == storage_failure(str_option_view(code), str_option_view(constraint), transport),
{
    let unique_violation = match code {
        Some(code) => code.to_owned() == String::from_str("23505"),
        None => false,
    };
    let primary_key = match constraint {
        Some(name) => name.to_owned() == String::from_str("events_pkey") || name.to_owned() == String::from_str(
            "snapshots_pkey",
        ),
        None => false,
    };
    if unique_violation && primary_key {
        StorageFailure::OptimisticLock
    } else if transport {
        StorageFailure::Connection
    } else {
        StorageFailure::Unknown
    }
}

} // verus!
