//! Error mapping and the bounded conflict retry of aggregate commands.
use vstd::prelude::*;
use crate::application::CommandGatewayError;
use crate::time_span::TimeSpan;

verus! {

/// How the event-sourcing framework reports a failed command.
#[derive(Clone, Copy, Debug, PartialEq, Eq)]
pub enum AggregateFailure<D> {
    UserError(D),
    AggregateConflict,
    DatabaseConnectionError,
    DeserializationError,
    UnexpectedError,
}

pub open spec fn gateway_error<D>(error: AggregateFailure<D>) -> CommandGatewayError<D> {
    match error {
        AggregateFailure::UserError(domain) => CommandGatewayError::Domain(domain),
        AggregateFailure::AggregateConflict => CommandGatewayError::Conflict,
        _ => CommandGatewayError::Unavailable,
    }
}

/// Domain refusals pass through, optimistic conflicts are conflicts, and every technical
/// failure makes the gateway unavailable.
pub fn map_aggregate_error<D>(error: AggregateFailure<D>) -> (mapped: CommandGatewayError<D>)
    ensures
        mapped == gateway_error(error),
{
    match error {
        AggregateFailure::UserError(domain) => CommandGatewayError::Domain(domain),
        AggregateFailure::AggregateConflict => CommandGatewayError::Conflict,
        AggregateFailure::DatabaseConnectionError => CommandGatewayError::Unavailable,
        AggregateFailure::DeserializationError => CommandGatewayError::Unavailable,
        AggregateFailure::UnexpectedError => CommandGatewayError::Unavailable,
    }
}

/// What to do after one execution of a command.
#[derive(Clone, Copy, Debug, PartialEq, Eq, Structural)]
pub enum RetryStep {
    /// Wait for the backoff of this retry number, then execute the same command again.
    RetryAfterBackoff { retry: usize },
    /// Hand the execution's result to the caller.
    Return,
}

/// The bounded retry of one unchanged command: only optimistic conflicts are retried, and
/// the command runs at most `max_attempts` times in all.
pub struct ConflictRetries {
    attempts: usize,
    max_attempts: usize,
}

impl ConflictRetries {
    pub closed spec fn spec_attempts(&self) -> int {
        self.attempts as int
    }

    pub closed spec fn spec_max_attempts(&self) -> int {
        self.max_attempts as int
    }

    pub open spec fn wf(&self) -> bool {
        0 <= self.spec_attempts() <= self.spec_max_attempts() && self.spec_max_attempts() > 0
    }

    /// A run that has not executed yet and may execute `max_attempts` times.
    pub closed spec fn spec_new(max_attempts: usize) -> ConflictRetries {
        ConflictRetries { attempts: 0, max_attempts }
    }

    /// The state after one more execution.
    pub closed spec fn spec_after_execution(self) -> ConflictRetries {
        ConflictRetries { attempts: (self.attempts + 1) as usize, ..self }
    }

    /// How many executions a run makes in all, from this state on, when execution `j`
    /// (counted from 0) ends in an optimistic conflict exactly when `conflicted[j]`.
    pub open spec fn executions(self, conflicted: Seq<bool>) -> int
        decreases self.spec_max_attempts() - self.spec_attempts(),
    {
        if !self.wf() || self.spec_attempts() >= self.spec_max_attempts() {
            self.spec_attempts()
        } else {
            let next = self.spec_after_execution();
            if conflicted[self.spec_attempts()] && next.spec_attempts() < next.spec_max_attempts() {
                next.executions(conflicted)
            } else {
                next.spec_attempts()
            }
        }
    }

    pub fn new(max_attempts: usize) -> (retries: ConflictRetries)
        requires
            max_attempts > 0,
        ensures
            retries.wf(),
            retries == Self::spec_new(max_attempts),
            retries.spec_attempts() == 0,
            retries.spec_max_attempts() == max_attempts,
    {
        ConflictRetries { attempts: 0, max_attempts }
    }

    /// Another execution may start.
    pub open spec fn may_execute(&self) -> bool {
        self.spec_attempts() < self.spec_max_attempts()
    }

    /// Records one execution and whether it ended in an optimistic conflict.
    pub fn record(&mut self, conflicted: bool) -> (step: RetryStep)
        requires
            old(self).wf(),
            old(self).may_execute(),
        ensures
            final(self).wf(),
            final(self).spec_max_attempts() == old(self).spec_max_attempts(),
            final(self).spec_attempts() == old(self).spec_attempts() + 1,
            step == if conflicted && final(self).spec_attempts() < final(self).spec_max_attempts() {
                RetryStep::RetryAfterBackoff { retry: final(self).spec_attempts() as usize }
            } else {
                RetryStep::Return
            },
            step is RetryAfterBackoff ==> final(self).may_execute(),
            *final(self) == old(self).spec_after_execution(),
    {
        self.attempts = self.attempts + 1;
        if conflicted && self.attempts < self.max_attempts {
            RetryStep::RetryAfterBackoff { retry: self.attempts }
        } else {
            RetryStep::Return
        }
    }
}

proof fn lemma_run_from(retries: ConflictRetries, conflicted: Seq<bool>)
    requires
        retries.wf(),
        retries.may_execute(),
    ensures
        retries.spec_attempts() < retries.executions(conflicted) <= retries.spec_max_attempts(),
        forall|j: int|
            retries.spec_attempts() <= j < retries.executions(conflicted) - 1 ==> #[trigger] conflicted[j],
        retries.executions(conflicted) < retries.spec_max_attempts() ==> !conflicted[retries.executions(conflicted)
            - 1],
    decreases retries.spec_max_attempts() - retries.spec_attempts(),
{
    let next = retries.spec_after_execution();
    if conflicted[retries.spec_attempts()] && next.spec_attempts() < next.spec_max_attempts() {
        lemma_run_from(next, conflicted);
    }
}

/// The bounded conflict retry of one command: with at most `max_attempts` executions in all,
/// a run stops at the first execution that does not conflict, or after the last allowed one.
/// So it makes `min(k + 1, max_attempts)` executions, where `k` counts the leading conflicts;
/// every execution before the last conflicted, and the last one ends in a conflict only when
/// all `max_attempts` were used.
pub proof fn lemma_conflict_retry_run(max_attempts: usize, conflicted: Seq<bool>)
    requires
        max_attempts > 0,
    ensures
        ({
            let runs = ConflictRetries::spec_new(max_attempts).executions(conflicted);
            &&& 1 <= runs <= max_attempts
            &&& forall|j: int| 0 <= j < runs - 1 ==> #[trigger] conflicted[j]
            &&& runs < max_attempts ==> !conflicted[runs - 1]
        }),
{
    lemma_run_from(ConflictRetries::spec_new(max_attempts), conflicted);
}

/// Whether a framework failure is an optimistic conflict.
pub open spec fn is_conflict<D>(result: Result<(), AggregateFailure<D>>) -> bool {
    result matches Err(AggregateFailure::AggregateConflict)
}

/// What a gateway answers once its run of executions ended with `result`.
pub open spec fn gateway_answer<D>(result: Result<(), AggregateFailure<D>>) -> Result<(), CommandGatewayError<D>> {
    match result {
        Ok(()) => Ok(()),
        Err(failure) => Err(gateway_error(failure)),
    }
}

/// The gateway's conflict retry composed with its error mapping: when the executions of one
/// command end with `results`, the gateway answers the mapping of the last execution's result.
/// It answers `Conflict` only after `max_attempts` conflicting executions; a domain refusal is
/// passed on as it came, and every technical failure makes it unavailable, at once.
pub proof fn lemma_gateway_retry<D>(max_attempts: usize, results: Seq<Result<(), AggregateFailure<D>>>)
    requires
        max_attempts > 0,
        results.len() >= max_attempts,
    ensures
        ({
            let runs = ConflictRetries::spec_new(max_attempts).executions(
                Seq::new(results.len(), |j: int| is_conflict(results[j])),
            );
            let answer = gateway_answer(results[runs - 1]);
            &&& 1 <= runs <= max_attempts
            &&& forall|j: int| 0 <= j < runs - 1 ==> #[trigger] is_conflict(results[j])
            &&& (answer == Err::<(), CommandGatewayError<D>>(CommandGatewayError::Conflict)) <==> (runs == max_attempts
                && forall|j: int| 0 <= j < max_attempts ==> #[trigger] is_conflict(results[j]))
            &&& results[runs - 1] matches Err(AggregateFailure::UserError(domain)) ==> answer == Err::<
                (),
                CommandGatewayError<D>,
            >(CommandGatewayError::Domain(domain))
            &&& results[runs - 1] is Ok ==> answer is Ok
        }),
{
    let conflicted = Seq::new(results.len(), |j: int| is_conflict(results[j]));
    lemma_conflict_retry_run(max_attempts, conflicted);
    let runs = ConflictRetries::spec_new(max_attempts).executions(conflicted);
    assert forall|j: int| 0 <= j < runs - 1 implies #[trigger] is_conflict(results[j]) by {
        assert(conflicted[j]);
    }
    let last = results[runs - 1];
    assert(conflicted[runs - 1] == is_conflict(last));
    assert((gateway_answer(last) == Err::<(), CommandGatewayError<D>>(CommandGatewayError::Conflict)) <==> is_conflict(
        last,
    ));
    if is_conflict(last) {
        assert(runs == max_attempts);
        assert forall|j: int| 0 <= j < max_attempts implies #[trigger] is_conflict(results[j]) by {
            if j < runs - 1 {
                assert(conflicted[j]);
            }
        }
    }
}

/// `2^(retry - 1)` when it fits a `u32`, otherwise `u32::MAX`.
pub open spec fn backoff_multiplier(retry: int) -> int {
    if retry - 1 <= 31 {
        vstd::arithmetic::power2::pow2((retry - 1) as nat) as int
    } else {
        u32::MAX as int
    }
}

/// The un-jittered backoff before a retry: the initial backoff doubled for each earlier
/// retry, at most the cap.
pub open spec fn backoff_base_nanos(initial: int, cap: int, retry: int) -> int {
    let grown = initial * backoff_multiplier(retry);
    if grown < cap { grown } else { cap }
}

pub fn backoff_base(initial: TimeSpan, cap: TimeSpan, retry: usize) -> (backoff: TimeSpan)
    requires
        retry > 0,
        initial.total_nanos() <= cap.total_nanos(),
    ensures
        backoff.total_nanos() == backoff_base_nanos(initial.total_nanos(), cap.total_nanos(), retry as int),
{
    let mut multiplier: u32 = 1;
    if retry - 1 <= 31 {
        proof {
            vstd::arithmetic::power2::lemma2_to64();
        }
        let mut i: usize = 0;
        while i < retry - 1
            invariant
                retry - 1 <= 31,
                i <= retry - 1,
                multiplier == vstd::arithmetic::power2::pow2(i as nat),
            decreases retry - 1 - i,
        {
            proof {
                vstd::arithmetic::power2::lemma_pow2_adds(i as nat, 1);
                vstd::arithmetic::power2::lemma2_to64();
                vstd::arithmetic::power2::lemma_pow2_strictly_increases(i as nat + 1, 32);
            }
            multiplier = multiplier * 2;
            i = i + 1;
        }
    } else {
        multiplier = 4_294_967_295;
    }
    let initial_nanos = initial.as_nanos();
    let cap_nanos = cap.as_nanos();
    assert(initial_nanos * (multiplier as int) <= 18_446_744_073_709_551_615u128 as int * 1_000_000_000 * 4_294_967_295
        + 999_999_999 * 4_294_967_295) by (nonlinear_arith)
        requires
            initial_nanos <= 18_446_744_073_709_551_615u128 as int * 1_000_000_000 + 999_999_999,
            multiplier <= 4_294_967_295,
    ;
    let grown = initial_nanos * (multiplier as u128);
    if grown < cap_nanos {
        TimeSpan::from_nanos_total(grown)
    } else {
        TimeSpan::from_nanos_total(cap_nanos)
    }
}

} // verus!
