//! The decisions of the outbox coordinator: retry delays, how a handler's
//! result becomes a task outcome, and how one claim round rotates over formats.
use vstd::prelude::*;
use crate::application::outbox::error::OutboxError;
use crate::application::outbox::queue::{TaskOutcome, TaskOutcomeView};
use crate::application::outbox::task_handler::{TaskExecutionError, TaskExecutionErrorView};
use crate::time_span::TimeSpan;

verus! {

/// `5 * 2^e`.
pub open spec fn five_doubled(e: nat) -> int
    decreases e,
{
    if e == 0 {
        5
    } else {
        2 * five_doubled((e - 1) as nat)
    }
}

/// The exponent of the retry backoff: one less than the attempt, kept within 0 to 6.
pub open spec fn retry_exponent(attempt: int) -> nat {
    if attempt - 1 < 0 {
        0
    } else if attempt - 1 > 6 {
        6
    } else {
        (attempt - 1) as nat
    }
}

/// The un-jittered retry delay in seconds for an attempt: `5 * 2^(attempt - 1)`, at most 300.
pub open spec fn retry_base_secs(attempt: int) -> int {
    let base = five_doubled(retry_exponent(attempt));
    if base < 300 { base } else { 300 }
}

/// The base of the bounded exponential retry delay, in seconds; the caller applies jitter
/// between 0.8 and 1.2 and caps the result at 300 seconds.
pub fn retry_delay_base_secs(attempt: i32) -> (secs: u64)
    ensures
        secs == retry_base_secs(attempt as int),
        5 <= secs <= 300,
{
    let exponent: u32 = if attempt <= 1 {
        0
    } else if attempt >= 7 {
        6
    } else {
        (attempt - 1) as u32
    };
    let mut base: u64 = 5;
    let mut i: u32 = 0;
    while i < exponent
        invariant
            exponent <= 6,
            i <= exponent,
            base == five_doubled(i as nat),
            base <= 320,
        decreases exponent - i,
    {
        proof {
            reveal_with_fuel(five_doubled, 2);
            assert(five_doubled(i as nat) <= 160) by {
                lemma_five_doubled_bound(i as nat);
            }
        }
        base = base * 2;
        i = i + 1;
    }
    proof {
        lemma_five_doubled_positive(exponent as nat);
    }
    if base < 300 { base } else { 300 }
}

proof fn lemma_five_doubled_bound(e: nat)
    requires
        e < 6,
    ensures
        five_doubled(e) <= 160,
    decreases e,
{
    reveal_with_fuel(five_doubled, 7);
}

proof fn lemma_five_doubled_positive(e: nat)
    ensures
        five_doubled(e) >= 5,
    decreases e,
{
    if e > 0 {
        lemma_five_doubled_positive((e - 1) as nat);
    }
}

/// Later attempts never wait less: the base delay does not decrease with the attempt.
pub proof fn lemma_retry_base_is_monotonic(earlier: int, later: int)
    requires
        earlier <= later,
    ensures
        retry_base_secs(earlier) <= retry_base_secs(later),
{
    lemma_five_doubled_monotonic(retry_exponent(earlier), retry_exponent(later));
}

proof fn lemma_five_doubled_monotonic(a: nat, b: nat)
    requires
        a <= b,
    ensures
        five_doubled(a) <= five_doubled(b),
    decreases b,
{
    if a < b {
        lemma_five_doubled_monotonic(a, (b - 1) as nat);
        lemma_five_doubled_positive((b - 1) as nat);
    }
}

/// From the seventh attempt on, the base delay is the 300-second cap.
pub proof fn lemma_retry_base_reaches_cap(attempt: int)
    requires
        attempt >= 7,
    ensures
        retry_base_secs(attempt) == 300,
{
    reveal_with_fuel(five_doubled, 7);
}

/// A handler's result, or `None` when it did not finish in time.
pub open spec fn handled_view(handled: Option<Result<(), TaskExecutionError>>) -> Option<Result<(), TaskExecutionErrorView>> {
    match handled {
        Some(Ok(())) => Some(Ok(())),
        Some(Err(error)) => Some(Err(error@)),
        None => None,
    }
}

/// The outcome written for a handler's result: success completes, a permanent error fails,
/// a retryable error retries after its own delay or the fallback, and a timeout retries after the fallback.
pub open spec fn outcome_for(handled: Option<Result<(), TaskExecutionErrorView>>, fallback_delay: TimeSpan) -> TaskOutcomeView {
    match handled {
        Some(Ok(())) => TaskOutcomeView::Completed,
        Some(Err(TaskExecutionErrorView::Permanent { reason })) => TaskOutcomeView::Failed { reason },
        Some(Err(TaskExecutionErrorView::Retry { reason, retry_after })) => TaskOutcomeView::Retry {
            delay: match retry_after {
                Some(delay) => delay,
                None => fallback_delay,
            },
            reason,
        },
        None => TaskOutcomeView::Retry { delay: fallback_delay, reason: "handler timed out"@ },
    }
}

pub fn task_outcome(handled: Option<Result<(), TaskExecutionError>>, fallback_delay: TimeSpan) -> (outcome: TaskOutcome)
    ensures
        outcome@ == outcome_for(handled_view(handled), fallback_delay),
{
    match handled {
        Some(Ok(())) => TaskOutcome::Completed,
        Some(Err(TaskExecutionError::Permanent { reason })) => TaskOutcome::Failed { reason },
        Some(Err(TaskExecutionError::Retry { reason, retry_after })) => TaskOutcome::Retry {
            delay: match retry_after {
                Some(delay) => delay,
                None => fallback_delay,
            },
            reason,
        },
        None => TaskOutcome::Retry { delay: fallback_delay, reason: "handler timed out".to_owned() },
    }
}

/// The format queried at a given offset of a round that starts at `start`.
pub open spec fn rotated_index(start: usize, offset: int, count: int) -> int {
    let sum = start as int + offset;
    let wrapped = if sum > usize::MAX as int { sum - (usize::MAX as int + 1) } else { sum };
    wrapped % count
}

/// Within one claim round whose rotation counter does not wrap, no format is asked twice:
/// the offsets of the round reach pairwise different formats.
pub proof fn lemma_round_asks_each_format_once(start: usize, count: int, first: int, second: int)
    requires
        0 <= first < second < count,
        start as int + count <= usize::MAX as int + 1,
    ensures
        rotated_index(start, first, count) != rotated_index(start, second, count),
{
    let a = start as int + first;
    let b = start as int + second;
    vstd::arithmetic::div_mod::lemma_fundamental_div_mod(a, count);
    vstd::arithmetic::div_mod::lemma_fundamental_div_mod(b, count);
    if a % count == b % count {
        let k = b / count - a / count;
        assert(b - a == count * k) by (nonlinear_arith)
            requires
                a == count * (a / count) + a % count,
                b == count * (b / count) + b % count,
                a % count == b % count,
                k == b / count - a / count,
        ;
        assert(false) by (nonlinear_arith)
            requires
                b - a == count * k,
                0 < b - a < count,
        ;
    }
}

/// One claim round over `count` formats: it starts at format `start`, asks each
/// format at most once for the capacity that is left, and never claims more than `limit`.
pub struct ClaimRound {
    count: usize,
    start: usize,
    offset: usize,
    claimed: usize,
    limit: usize,
}

/// The next thing a claim round does.
#[derive(Clone, Copy, Debug, PartialEq, Eq, Structural)]
pub enum ClaimStep {
    /// Ask the format at `format_index` for at most `limit` tasks.
    Query { format_index: usize, limit: usize },
    /// The round is over; return what was claimed.
    Finished,
}

/// What to do when a format's claim fails.
#[derive(Clone, Copy, Debug, PartialEq, Eq, Structural)]
pub enum ClaimFailure {
    /// Keep the work claimed so far and end the round.
    KeepClaimed,
    /// Nothing was claimed yet: report the error.
    Report(OutboxError),
}

impl ClaimRound {
    pub closed spec fn spec_count(self) -> int {
        self.count as int
    }

    pub closed spec fn spec_start(self) -> usize {
        self.start
    }

    pub closed spec fn spec_offset(self) -> int {
        self.offset as int
    }

    pub closed spec fn spec_claimed(self) -> int {
        self.claimed as int
    }

    pub closed spec fn spec_limit(self) -> int {
        self.limit as int
    }

    pub open spec fn wf(self) -> bool {
        &&& self.spec_offset() <= self.spec_count()
        &&& self.spec_claimed() <= self.spec_limit()
    }

    pub open spec fn spec_next_step(self) -> ClaimStep {
        if self.spec_offset() >= self.spec_count() || self.spec_claimed() == self.spec_limit() {
            ClaimStep::Finished
        } else {
            ClaimStep::Query {
                format_index: rotated_index(self.spec_start(), self.spec_offset(), self.spec_count()) as usize,
                limit: (self.spec_limit() - self.spec_claimed()) as usize,
            }
        }
    }

    /// A round that has not asked any format yet.
    pub closed spec fn spec_new(count: usize, start: usize, limit: usize) -> ClaimRound {
        ClaimRound { count, start, offset: 0, claimed: 0, limit }
    }

    /// The round after the queried format answered with `got` tasks.
    pub closed spec fn spec_after_claimed(self, got: usize) -> ClaimRound {
        ClaimRound { offset: (self.offset + 1) as usize, claimed: (self.claimed + got) as usize, ..self }
    }

    pub fn new(count: usize, start: usize, limit: usize) -> (round: ClaimRound)
        ensures
            round == Self::spec_new(count, start, limit),
            round.wf(),
            round.spec_count() == count,
            round.spec_start() == start,
            round.spec_offset() == 0,
            round.spec_claimed() == 0,
            round.spec_limit() == limit,
    {
        ClaimRound { count, start, offset: 0, claimed: 0, limit }
    }

    pub fn claimed(&self) -> (claimed: usize)
        ensures
            claimed == self.spec_claimed(),
    {
        self.claimed
    }

    pub fn next_step(&self) -> (step: ClaimStep)
        requires
            self.wf(),
        ensures
            step == self.spec_next_step(),
            step matches ClaimStep::Query { format_index, limit } ==> format_index < self.spec_count() && 0 < limit
                && limit <= self.spec_limit() - self.spec_claimed(),
    {
        if self.offset >= self.count || self.claimed == self.limit {
            ClaimStep::Finished
        } else {
            let index = self.start.wrapping_add(self.offset) % self.count;
            ClaimStep::Query { format_index: index, limit: self.limit - self.claimed }
        }
    }

    /// The queried format answered with `got` tasks; the round moves to the next format.
    pub fn record_claimed(&mut self, got: usize)
        requires
            old(self).wf(),
            old(self).spec_next_step() is Query,
            got <= old(self).spec_limit() - old(self).spec_claimed(),
        ensures
            final(self).wf(),
            final(self).spec_claimed() == old(self).spec_claimed() + got,
            final(self).spec_offset() == old(self).spec_offset() + 1,
            final(self).spec_count() == old(self).spec_count(),
            final(self).spec_start() == old(self).spec_start(),
            final(self).spec_limit() == old(self).spec_limit(),
            *final(self) == old(self).spec_after_claimed(got),
    {
        self.claimed = self.claimed + got;
        self.offset = self.offset + 1;
    }

    /// The queried format failed to answer.
    pub fn record_failure(&self, error: OutboxError) -> (failure: ClaimFailure)
        ensures
            failure == if self.spec_claimed() > 0 {
                ClaimFailure::KeepClaimed
            } else {
                ClaimFailure::Report(error)
            },
    {
        if self.claimed > 0 {
            ClaimFailure::KeepClaimed
        } else {
            ClaimFailure::Report(error)
        }
    }
}

/// A whole claim round, when the format asked at offset `j` answers `answers[j]` (a number of
/// tasks, or an error): the queries made, in order, and what the round returns (how many
/// tasks were claimed, or the error).
pub open spec fn claim_run(round: ClaimRound, answers: Seq<Result<usize, OutboxError>>) -> (Seq<ClaimStep>, Result<
    int,
    OutboxError,
>)
    decreases round.spec_count() - round.spec_offset(),
{
    match round.spec_next_step() {
        ClaimStep::Finished => (Seq::empty(), Ok(round.spec_claimed())),
        ClaimStep::Query { format_index, limit } => {
            let step = ClaimStep::Query { format_index, limit };
            match answers[round.spec_offset()] {
                Ok(got) => {
                    let rest = claim_run(round.spec_after_claimed(got), answers);
                    (seq![step] + rest.0, rest.1)
                },
                Err(error) => (
                    seq![step],
                    if round.spec_claimed() > 0 {
                        Ok(round.spec_claimed())
                    } else {
                        Err(error)
                    },
                ),
            }
        },
    }
}

/// Every format answers with at most the number of tasks it was asked for.
pub open spec fn answers_fit(round: ClaimRound, answers: Seq<Result<usize, OutboxError>>) -> bool
    decreases round.spec_count() - round.spec_offset(),
{
    match round.spec_next_step() {
        ClaimStep::Finished => true,
        ClaimStep::Query { limit, .. } => match answers[round.spec_offset()] {
            Ok(got) => got <= limit && answers_fit(round.spec_after_claimed(got), answers),
            Err(_) => true,
        },
    }
}

proof fn lemma_claim_run_from(round: ClaimRound, answers: Seq<Result<usize, OutboxError>>)
    requires
        round.wf(),
        answers_fit(round, answers),
    ensures
        ({
            let (steps, outcome) = claim_run(round, answers);
            let offset = round.spec_offset();
            &&& steps.len() <= round.spec_count() - offset
            &&& forall|j: int|
                0 <= j < steps.len() ==> (#[trigger] steps[j] matches ClaimStep::Query { format_index, limit }
                    && format_index == rotated_index(round.spec_start(), offset + j, round.spec_count())
                    && 0 < limit <= round.spec_limit())
            &&& (offset >= round.spec_count() || round.spec_claimed() == round.spec_limit()) ==> (steps.len() == 0
                && outcome == Ok::<int, OutboxError>(round.spec_claimed()))
            &&& outcome matches Ok(n) ==> round.spec_claimed() <= n <= round.spec_limit()
            &&& outcome matches Err(e) ==> {
                &&& round.spec_claimed() == 0
                &&& steps.len() >= 1
                &&& answers[offset + steps.len() - 1] == Err::<usize, OutboxError>(e)
                &&& forall|j: int| 0 <= j < steps.len() - 1 ==> #[trigger] answers[offset + j] == Ok::<usize, OutboxError>(0)
            }
        }),
    decreases round.spec_count() - round.spec_offset(),
{
    let offset = round.spec_offset();
    match round.spec_next_step() {
        ClaimStep::Finished => {},
        ClaimStep::Query { format_index, limit } => {
            let step = ClaimStep::Query { format_index, limit };
            match answers[offset] {
                Ok(got) => {
                    let next = round.spec_after_claimed(got);
                    lemma_claim_run_from(next, answers);
                    let rest = claim_run(next, answers);
                    let steps = seq![step] + rest.0;
                    assert forall|j: int| 0 <= j < steps.len() implies (#[trigger] steps[j] matches ClaimStep::Query {
                        format_index,
                        limit,
                    } && format_index == rotated_index(round.spec_start(), offset + j, round.spec_count()) && 0
                        < limit <= round.spec_limit()) by {
                        if j > 0 {
                            assert(steps[j] == rest.0[j - 1]);
                        }
                    }
                    if rest.1 is Err {
                        assert forall|j: int| 0 <= j < steps.len() - 1 implies #[trigger] answers[offset + j]
                            == Ok::<usize, OutboxError>(0) by {
                            if j > 0 {
                                assert(answers[offset + j] == answers[next.spec_offset() + (j - 1)]);
                            }
                        }
                        assert(answers[offset + steps.len() - 1] == answers[next.spec_offset() + rest.0.len() - 1]);
                    }
                },
                Err(_) => {},
            }
        },
    }
}

/// A whole claim round: it asks the formats in rotation from `start`, each at most once and
/// each for the tasks still missing, and stops once `limit` tasks are claimed. With no format or
/// a zero limit it asks nothing and claims nothing. It never claims more than `limit`; an error
/// keeps what was claimed before it, and is returned only when nothing was claimed.
pub proof fn lemma_claim_round(count: usize, start: usize, limit: usize, answers: Seq<Result<usize, OutboxError>>)
    requires
        answers_fit(ClaimRound::spec_new(count, start, limit), answers),
    ensures
        ({
            let (steps, outcome) = claim_run(ClaimRound::spec_new(count, start, limit), answers);
            &&& steps.len() <= count
            &&& forall|j: int|
                0 <= j < steps.len() ==> (#[trigger] steps[j] matches ClaimStep::Query { format_index, limit: asked }
                    && format_index == rotated_index(start, j, count as int) && 0 < asked <= limit)
            &&& (count == 0 || limit == 0) ==> (steps.len() == 0 && outcome == Ok::<int, OutboxError>(0))
            &&& outcome matches Ok(n) ==> 0 <= n <= limit
            &&& outcome matches Err(e) ==> {
                &&& steps.len() >= 1
                &&& answers[steps.len() - 1] == Err::<usize, OutboxError>(e)
                &&& forall|j: int| 0 <= j < steps.len() - 1 ==> #[trigger] answers[j] == Ok::<usize, OutboxError>(0)
            }
        }),
{
    let round = ClaimRound::spec_new(count, start, limit);
    lemma_claim_run_from(round, answers);
    let (steps, outcome) = claim_run(round, answers);
    if outcome is Err {
        assert forall|j: int| 0 <= j < steps.len() - 1 implies #[trigger] answers[j] == Ok::<usize, OutboxError>(0) by {
            assert(answers[round.spec_offset() + j] == answers[j]);
        }
    }
}

} // verus!
