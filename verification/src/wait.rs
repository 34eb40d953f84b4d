//! Waiting for a remote operation: the backoff policy and the retry engine.
//!
//! The engine is a state machine. The caller makes one attempt, measures the
//! time that has passed since the first one, and hands both to
//! [`RetryState::step`], which answers with the verdict or with the delay to
//! sleep before the next attempt. All durations are whole milliseconds.

use vstd::prelude::*;

verus! {

/// How the interval between two attempts changes.
#[derive(Debug, Clone, Copy, PartialEq, Eq, Structural)]
pub enum BackoffType {
    /// Wait the same interval every time.
    Linear,
    /// Double the interval after every wait.
    Exponential,
}

/// Options controlling how long we wait and what makes us give up.
#[derive(Debug, Clone, Copy)]
pub struct WaitOptions {
    /// Time after which we give up, in milliseconds since the first attempt.
    /// `None` waits for ever.
    pub timeout: Option<u64>,
    /// The delay before the second attempt, in milliseconds.
    pub retry_interval: u64,
    /// How the delay develops from one attempt to the next.
    pub backoff_type: BackoffType,
    /// How many temporary failures are forgiven before we give up.
    pub allowed_errors: u16,
}

impl Default for WaitOptions {
    /// No timeout, ten seconds between attempts, a fixed interval, and two
    /// temporary failures forgiven.
    fn default() -> (r: WaitOptions)
        ensures
            r.timeout is None,
            r.retry_interval == 10_000,
            r.backoff_type == BackoffType::Linear,
            r.allowed_errors == 2,
    {
        WaitOptions {
            timeout: None,
            retry_interval: 10_000,
            backoff_type: BackoffType::Linear,
            allowed_errors: 2,
        }
    }
}

impl WaitOptions {
    /// Give up once this many milliseconds have passed.
    pub fn timeout(self, timeout: u64) -> (r: WaitOptions)
        ensures
            r == (WaitOptions { timeout: Some(timeout), ..self }),
    {
        WaitOptions { timeout: Some(timeout), ..self }
    }

    /// Wait this many milliseconds before the second attempt.
    pub fn retry_interval(self, retry_interval: u64) -> (r: WaitOptions)
        ensures
            r == (WaitOptions { retry_interval, ..self }),
    {
        WaitOptions { retry_interval, ..self }
    }

    /// Choose how the interval develops.
    pub fn backoff_type(self, backoff_type: BackoffType) -> (r: WaitOptions)
        ensures
            r == (WaitOptions { backoff_type, ..self }),
    {
        WaitOptions { backoff_type, ..self }
    }

    /// Forgive this many temporary failures.
    pub fn allowed_errors(self, allowed_errors: u16) -> (r: WaitOptions)
        ensures
            r == (WaitOptions { allowed_errors, ..self }),
    {
        WaitOptions { allowed_errors, ..self }
    }

    /// The timeout has passed once the elapsed time reaches it.
    pub open spec fn spec_timed_out(self, elapsed: u64) -> bool {
        match self.timeout {
            Some(limit) => elapsed >= limit,
            None => false,
        }
    }

    /// Has the timeout passed after `elapsed` milliseconds?
    pub fn timed_out(&self, elapsed: u64) -> (r: bool)
        ensures
            r == self.spec_timed_out(elapsed),
    {
        match self.timeout {
            Some(limit) => elapsed >= limit,
            None => false,
        }
    }
}

/// What one attempt of a retried operation reports.
#[derive(Debug, Clone, PartialEq, Eq)]
pub enum WaitStatus<T, E> {
    /// The operation is done, with this value.
    Finished(T),
    /// Nothing went wrong, but the result is not there yet.
    Waiting,
    /// The attempt failed in a way that may pass; it counts against the
    /// allowed errors.
    FailedTemporarily(E),
    /// The attempt failed for good.
    FailedPermanently(E),
}

/// Why the engine gave up.
#[derive(Debug, Clone, PartialEq, Eq)]
pub enum RetryError<E> {
    /// The operation reported a permanent failure.
    Permanent(E),
    /// One temporary failure more than the policy forgives; carries the last.
    ErrorBudgetExhausted(E),
    /// The timeout passed while the operation was still not done.
    Timeout,
}

/// What the caller has to do after an attempt.
#[derive(Debug, Clone, PartialEq, Eq)]
pub enum RetryAction<T, E> {
    /// Return this value; make no further attempt.
    Done(T),
    /// Return this error; make no further attempt.
    Failed(RetryError<E>),
    /// Sleep for `delay` milliseconds, then make the next attempt.
    Retry { delay: u64 },
}

/// One attempt as the engine sees it: what the operation reported and how
/// many milliseconds had passed since the first attempt began.
#[derive(Debug, Clone, PartialEq, Eq)]
pub struct Attempt<T, E> {
    pub outcome: WaitStatus<T, E>,
    pub elapsed: u64,
}

/// The interval that follows `interval`: the same for a linear policy, twice
/// as long for an exponential one, held at the largest `u64` once doubling
/// would pass it.
pub open spec fn spec_next_interval(backoff_type: BackoffType, interval: u64) -> u64 {
    match backoff_type {
        BackoffType::Linear => interval,
        BackoffType::Exponential => if interval * 2 > u64::MAX {
            u64::MAX
        } else {
            (interval * 2) as u64
        },
    }
}

/// The interval that follows `interval` under the given backoff.
pub fn next_interval(backoff_type: BackoffType, interval: u64) -> (r: u64)
    ensures
        r == spec_next_interval(backoff_type, interval),
{
    match backoff_type {
        BackoffType::Linear => interval,
        BackoffType::Exponential => if interval > u64::MAX / 2 {
            u64::MAX
        } else {
            interval * 2
        },
    }
}

/// The interval slept before attempt `n + 2`, that is after `n` earlier sleeps.
pub open spec fn spec_interval_after(options: WaitOptions, n: nat) -> u64
    decreases n,
{
    if n == 0 {
        options.retry_interval
    } else {
        spec_next_interval(options.backoff_type, spec_interval_after(options, (n - 1) as nat))
    }
}

/// The engine's memory between two attempts.
#[derive(Debug, Clone, Copy, PartialEq, Eq, Structural)]
pub struct RetryState {
    /// The delay to sleep before the next attempt.
    pub interval: u64,
    /// Temporary failures seen so far.
    pub errors_seen: u16,
}

impl RetryState {
    /// The state before the first attempt.
    pub open spec fn spec_new(options: WaitOptions) -> RetryState {
        RetryState { interval: options.retry_interval, errors_seen: 0 }
    }

    /// The state before the first attempt: the policy's first interval, no
    /// failure seen.
    pub fn new(options: &WaitOptions) -> (r: RetryState)
        ensures
            r == Self::spec_new(*options),
    {
        RetryState { interval: options.retry_interval, errors_seen: 0 }
    }

    /// The state that follows an attempt after which the engine goes on:
    /// a temporary failure is counted, and the interval advances.
    pub open spec fn spec_advance(self, options: WaitOptions, failed: bool) -> RetryState {
        RetryState {
            interval: spec_next_interval(options.backoff_type, self.interval),
            errors_seen: if failed {
                (self.errors_seen + 1) as u16
            } else {
                self.errors_seen
            },
        }
    }

    /// The engine's rule for one attempt.
    ///
    /// * `Finished` ends the wait with the value.
    /// * `FailedPermanently` ends it with the error.
    /// * `FailedTemporarily` ends it with `ErrorBudgetExhausted` once as
    ///   many failures as the policy allows were seen before.
    /// * Otherwise, if the timeout has passed, the wait ends with `Timeout`.
    /// * Otherwise the caller sleeps for the current interval and tries again.
    ///
    /// The state changes only when the engine goes on.
    pub open spec fn spec_step<T, E>(
        self,
        options: WaitOptions,
        outcome: WaitStatus<T, E>,
        elapsed: u64,
    ) -> (RetryState, RetryAction<T, E>) {
        match outcome {
            WaitStatus::Finished(value) => (self, RetryAction::Done(value)),
            WaitStatus::FailedPermanently(e) => (
                self,
                RetryAction::Failed(RetryError::Permanent(e)),
            ),
            WaitStatus::FailedTemporarily(e) => if self.errors_seen >= options.allowed_errors {
                (self, RetryAction::Failed(RetryError::ErrorBudgetExhausted(e)))
            } else if options.spec_timed_out(elapsed) {
                (self, RetryAction::Failed(RetryError::Timeout))
            } else {
                (self.spec_advance(options, true), RetryAction::Retry { delay: self.interval })
            },
            WaitStatus::Waiting => if options.spec_timed_out(elapsed) {
                (self, RetryAction::Failed(RetryError::Timeout))
            } else {
                (self.spec_advance(options, false), RetryAction::Retry { delay: self.interval })
            },
        }
    }

    /// Take in the outcome of one attempt, made `elapsed` milliseconds after
    /// the first began, and say what to do next.
    pub fn step<T, E>(
        &mut self,
        options: &WaitOptions,
        outcome: WaitStatus<T, E>,
        elapsed: u64,
    ) -> (action: RetryAction<T, E>)
        ensures
            (*final(self), action) == old(self).spec_step(*options, outcome, elapsed),
    {
        match outcome {
            WaitStatus::Finished(value) => RetryAction::Done(value),
            WaitStatus::FailedPermanently(e) => RetryAction::Failed(RetryError::Permanent(e)),
            WaitStatus::FailedTemporarily(e) => {
                if self.errors_seen >= options.allowed_errors {
                    RetryAction::Failed(RetryError::ErrorBudgetExhausted(e))
                } else if options.timed_out(elapsed) {
                    RetryAction::Failed(RetryError::Timeout)
                } else {
                    let delay: u64 = self.interval;
                    self.errors_seen = self.errors_seen + 1;
                    self.interval = next_interval(options.backoff_type, delay);
                    RetryAction::Retry { delay }
                }
            },
            WaitStatus::Waiting => {
                if options.timed_out(elapsed) {
                    RetryAction::Failed(RetryError::Timeout)
                } else {
                    let delay: u64 = self.interval;
                    self.interval = next_interval(options.backoff_type, delay);
                    RetryAction::Retry { delay }
                }
            },
        }
    }
}

/// The engine run over a recorded series of attempts, starting in `state`:
/// the verdict, if the series reaches one, and the number of attempts that
/// were made. Attempts after the verdict are never made.
pub open spec fn spec_run<T, E>(
    state: RetryState,
    options: WaitOptions,
    attempts: Seq<Attempt<T, E>>,
) -> (Option<Result<T, RetryError<E>>>, nat)
    decreases attempts.len(),
{
    if attempts.len() == 0 {
        (None, 0)
    } else {
        let (next, action) = state.spec_step(options, attempts[0].outcome, attempts[0].elapsed);
        match action {
            RetryAction::Done(value) => (Some(Ok(value)), 1),
            RetryAction::Failed(e) => (Some(Err(e)), 1),
            RetryAction::Retry { .. } => {
                let (verdict, made) = spec_run(next, options, attempts.skip(1));
                (verdict, made + 1)
            },
        }
    }
}

/// Run the engine over a recorded series of attempts, as it would have run
/// had the operation reported them in this order: the verdict, if the
/// series reaches one, and the number of attempts that were made.
pub fn replay<T, E>(options: &WaitOptions, attempts: Vec<Attempt<T, E>>) -> (r: (
    Option<Result<T, RetryError<E>>>,
    usize,
))
    ensures
        r.0 == spec_run(RetryState::spec_new(*options), *options, attempts@).0,
        r.1 == spec_run(RetryState::spec_new(*options), *options, attempts@).1,
{
    let ghost recorded = attempts@;
    let ghost first = RetryState::spec_new(*options);
    let mut rest = attempts;
    let mut state = RetryState::new(options);
    let mut made: usize = 0;
    let total: usize = rest.len();
    while rest.len() > 0
        invariant
            recorded == attempts@,
            first == RetryState::spec_new(*options),
            recorded.len() == total,
            made + rest.len() <= recorded.len(),
            spec_run(first, *options, recorded).0 == spec_run(state, *options, rest@).0,
            spec_run(first, *options, recorded).1 == spec_run(state, *options, rest@).1 + made,
        decreases rest.len(),
    {
        let ghost before = rest@;
        let ghost entered = state;
        made = made + 1;
        let attempt = rest.remove(0);
        assert(rest@ == before.skip(1));
        assert(attempt == before[0]);
        assert(spec_run(entered, *options, before).1 >= 1);
        match state.step(options, attempt.outcome, attempt.elapsed) {
            RetryAction::Done(value) => {
                return (Some(Ok(value)), made);
            },
            RetryAction::Failed(e) => {
                return (Some(Err(e)), made);
            },
            RetryAction::Retry { .. } => {},
        }
    }
    (None, made)
}

/// Turn the result of a remote call into the outcome of an attempt: success
/// finishes the wait, and an error is temporary or permanent as `temporary`
/// says.
pub fn attempt_outcome<T, E>(result: Result<T, E>, temporary: bool) -> (r: WaitStatus<T, E>)
    ensures
        r == match result {
            Ok(value) => WaitStatus::Finished(value),
            Err(e) => if temporary {
                WaitStatus::FailedTemporarily(e)
            } else {
                WaitStatus::FailedPermanently(e)
            },
        },
{
    match result {
        Ok(value) => WaitStatus::Finished(value),
        Err(e) => if temporary {
            WaitStatus::FailedTemporarily(e)
        } else {
            WaitStatus::FailedPermanently(e)
        },
    }
}

proof fn run_of_temporary_failures<T, E>(
    state: RetryState,
    options: WaitOptions,
    attempts: Seq<Attempt<T, E>>,
)
    requires
        state.errors_seen <= options.allowed_errors,
        attempts.len() == options.allowed_errors - state.errors_seen + 1,
        forall|i: int| 0 <= i < attempts.len() ==> attempts[i].outcome is FailedTemporarily,
        forall|i: int| 0 <= i < attempts.len() - 1 ==> !options.spec_timed_out(attempts[i].elapsed),
    ensures
        spec_run(state, options, attempts) == (
            Some(
                Err::<T, RetryError<E>>(
                    RetryError::ErrorBudgetExhausted(
                        attempts.last().outcome->FailedTemporarily_0,
                    ),
                ),
            ),
            attempts.len(),
        ),
    decreases attempts.len(),
{
    if state.errors_seen < options.allowed_errors {
        let next = state.spec_advance(options, true);
        let rest = attempts.skip(1);
        assert(attempts[0].outcome is FailedTemporarily);
        assert(!options.spec_timed_out(attempts[0].elapsed));
        assert forall|i: int| 0 <= i < rest.len() implies rest[i].outcome is FailedTemporarily by {
            assert(rest[i] == attempts[i + 1]);
        }
        assert forall|i: int| 0 <= i < rest.len() - 1 implies !options.spec_timed_out(
            rest[i].elapsed,
        ) by {
            assert(rest[i] == attempts[i + 1]);
        }
        run_of_temporary_failures(next, options, rest);
        assert(rest.last() == attempts.last());
    } else {
        assert(attempts.len() == 1);
        assert(attempts[0].outcome is FailedTemporarily);
    }
}

/// With `allowed_errors = k`, an operation that fails temporarily `k + 1`
/// times in a row ends with `ErrorBudgetExhausted`, carrying the last
/// failure, on attempt `k + 1` and not before; it never succeeds. This
/// holds as long as the timeout has not passed at any of the first `k`
/// attempts (an attempt after the timeout ends the wait with `Timeout`).
pub proof fn temporary_failures_exhaust_budget<T, E>(
    options: WaitOptions,
    attempts: Seq<Attempt<T, E>>,
)
    requires
        attempts.len() == options.allowed_errors + 1,
        forall|i: int| 0 <= i < attempts.len() ==> attempts[i].outcome is FailedTemporarily,
        forall|i: int| 0 <= i < attempts.len() - 1 ==> !options.spec_timed_out(attempts[i].elapsed),
    ensures
        spec_run(RetryState::spec_new(options), options, attempts) == (
            Some(
                Err::<T, RetryError<E>>(
                    RetryError::ErrorBudgetExhausted(
                        attempts.last().outcome->FailedTemporarily_0,
                    ),
                ),
            ),
            attempts.len(),
        ),
{
    run_of_temporary_failures(RetryState::spec_new(options), options, attempts);
}

/// An operation that is finished at its first attempt yields its value
/// after exactly one attempt, whatever the policy, the clock, or anything
/// the operation would have reported later.
pub proof fn finished_at_first_attempt<T, E>(
    options: WaitOptions,
    value: T,
    elapsed: u64,
    later: Seq<Attempt<T, E>>,
)
    ensures
        spec_run(
            RetryState::spec_new(options),
            options,
            seq![Attempt { outcome: WaitStatus::<T, E>::Finished(value), elapsed }] + later,
        ) == (Some(Ok::<T, RetryError<E>>(value)), 1nat),
        RetryState::spec_new(options).spec_step(
            options,
            WaitStatus::<T, E>::Finished(value),
            elapsed,
        ).1 == RetryAction::<T, E>::Done(value),
{
    let attempts = seq![Attempt { outcome: WaitStatus::<T, E>::Finished(value), elapsed }] + later;
    assert(attempts[0] == Attempt { outcome: WaitStatus::<T, E>::Finished(value), elapsed });
}

/// A verdict is final: the engine either returns a value or reports an
/// error, and when it asks for another attempt it does neither.
pub proof fn step_gives_one_answer<T, E>(
    state: RetryState,
    options: WaitOptions,
    outcome: WaitStatus<T, E>,
    elapsed: u64,
)
    ensures
        ({
            let (next, action) = state.spec_step(options, outcome, elapsed);
            &&& (action is Done <==> outcome is Finished)
            &&& (outcome is FailedPermanently ==> action == RetryAction::<T, E>::Failed(
                RetryError::Permanent(outcome->FailedPermanently_0),
            ))
            &&& (action is Retry ==> action->delay == state.interval && next.interval
                == spec_next_interval(options.backoff_type, state.interval)
                && !options.spec_timed_out(elapsed))
            &&& (!(action is Retry) ==> next == state)
        }),
{
}

/// Successive intervals never shrink. Under exponential backoff each is
/// twice the one before, hence strictly longer, as long as the interval is
/// not zero and its double still fits in a `u64`; under linear backoff all
/// are equal.
pub proof fn intervals_grow(options: WaitOptions, n: nat)
    ensures
        spec_interval_after(options, n) <= spec_interval_after(options, n + 1),
        options.backoff_type == BackoffType::Linear ==> spec_interval_after(options, n + 1)
            == options.retry_interval,
        options.backoff_type == BackoffType::Exponential && spec_interval_after(options, n) * 2
            <= u64::MAX ==> spec_interval_after(options, n + 1) == 2 * spec_interval_after(
            options,
            n,
        ),
        options.backoff_type == BackoffType::Exponential && 0 < spec_interval_after(options, n)
            && spec_interval_after(options, n) * 2 <= u64::MAX ==> spec_interval_after(options, n)
            < spec_interval_after(options, n + 1),
    decreases n,
{
    assert(spec_interval_after(options, n + 1) == spec_next_interval(
        options.backoff_type,
        spec_interval_after(options, n),
    ));
    if n > 0 {
        intervals_grow(options, (n - 1) as nat);
    }
}

/// Intervals are non-decreasing over any distance, not only from one
/// attempt to the next.
pub proof fn intervals_are_monotonic(options: WaitOptions, m: nat, n: nat)
    requires
        m <= n,
    ensures
        spec_interval_after(options, m) <= spec_interval_after(options, n),
    decreases n - m,
{
    if m < n {
        intervals_grow(options, m);
        intervals_are_monotonic(options, m + 1, n);
    }
}

/// The state after `n` retries holds the interval that the policy gives
/// for the next sleep.
pub proof fn state_interval_follows_policy<T, E>(
    state: RetryState,
    options: WaitOptions,
    outcome: WaitStatus<T, E>,
    elapsed: u64,
    n: nat,
)
    requires
        state.interval == spec_interval_after(options, n),
        state.spec_step(options, outcome, elapsed).1 is Retry,
    ensures
        state.spec_step(options, outcome, elapsed).1->delay == spec_interval_after(options, n),
        state.spec_step(options, outcome, elapsed).0.interval == spec_interval_after(
            options,
            n + 1,
        ),
{
    assert(spec_interval_after(options, n + 1) == spec_next_interval(
        options.backoff_type,
        spec_interval_after(options, n),
    ));
}

} // verus!
