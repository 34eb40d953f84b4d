//! The workflow of one item: create the remote job, then wait until it
//! reaches a terminal state.
//!
//! Like the retry engine underneath, the workflow is a state machine. The
//! program performs the remote calls and the sleeps, and hands what came
//! back to [`Workflow::step`].

use vstd::prelude::*;
use crate::resource::status::GenericResourceStatus;
use crate::wait::{attempt_outcome, BackoffType, RetryAction, RetryError, RetryState, WaitOptions, WaitStatus};
use super::pipeline::{FailureKind, ItemOutcome, Stage};

verus! {

/// An error reported by the platform or met on the way to it.
#[derive(Debug, Clone, PartialEq, Eq)]
pub struct RemoteError {
    /// Whether the same request may succeed if sent again unchanged.
    pub temporary: bool,
    /// What went wrong, for the reader.
    pub message: String,
}

/// What stood in the way of a remote call.
#[derive(Debug, Clone, Copy, PartialEq, Eq, Structural)]
pub enum RemoteFailure {
    /// The request or its answer was lost on the network.
    Network,
    /// The platform asked the client to slow down.
    RateLimited,
    /// The platform refused the request outright.
    Rejected,
}

impl RemoteFailure {
    /// What an HTTP status says about a request: nothing stood in its way
    /// if the status is one of success (`200` to `299`); the platform asks
    /// for patience with `402` and `429`; a status from `500` to `599` is
    /// trouble on the way that may pass; any other status is a refusal.
    pub open spec fn spec_from_http_status(status: u16) -> Option<RemoteFailure> {
        if 200 <= status <= 299 {
            None
        } else if status == 402 || status == 429 {
            Some(RemoteFailure::RateLimited)
        } else if 500 <= status <= 599 {
            Some(RemoteFailure::Network)
        } else {
            Some(RemoteFailure::Rejected)
        }
    }

    /// Sort an HTTP status into success (`None`) or a cause of failure.
    pub fn from_http_status(status: u16) -> (r: Option<RemoteFailure>)
        ensures
            r == Self::spec_from_http_status(status),
    {
        if 200 <= status && status <= 299 {
            None
        } else if status == 402 || status == 429 {
            Some(RemoteFailure::RateLimited)
        } else if 500 <= status && status <= 599 {
            Some(RemoteFailure::Network)
        } else {
            Some(RemoteFailure::Rejected)
        }
    }
}

impl RemoteError {
    /// An error with its cause: failures of the network and rate limits
    /// may pass, a refusal does not.
    pub fn new(cause: RemoteFailure, message: String) -> (r: RemoteError)
        ensures
            r.temporary == !(cause is Rejected),
            r.message == message,
    {
        let temporary = match cause {
            RemoteFailure::Network | RemoteFailure::RateLimited => true,
            RemoteFailure::Rejected => false,
        };
        RemoteError { temporary, message }
    }

    /// Whether the same request may succeed if sent again unchanged.
    pub fn might_be_temporary(&self) -> (r: bool)
        ensures
            r == self.temporary,
    {
        self.temporary
    }
}

/// A resource as fetched from the platform, with its status.
#[derive(Debug, Clone)]
pub struct Polled<R> {
    pub resource: R,
    pub status: GenericResourceStatus,
}

/// The failure of a workflow: the stage at which it failed, and why.
#[derive(Debug, Clone, PartialEq, Eq)]
pub struct WorkflowError {
    /// The stage at which the workflow gave up. After a failure while
    /// submitting, the job may or may not exist on the platform.
    pub stage: Stage,
    /// Why it gave up.
    pub error: RetryError<RemoteError>,
}

/// Where a workflow stands.
#[derive(Debug, Clone, Copy, PartialEq, Eq, Structural)]
pub enum WorkflowState {
    /// Not started yet.
    Pending,
    /// Creating the remote job.
    Submitting(RetryState),
    /// Waiting for the remote job.
    Polling(RetryState),
    /// Ended with a resource.
    Completed,
    /// Ended with an error.
    Failed,
}

/// What happened since the last step.
#[derive(Debug)]
pub enum WorkflowEvent<R> {
    /// A slot was assigned to the workflow.
    Started,
    /// An attempt to create the job returned, `elapsed` milliseconds after
    /// the first attempt began.
    SubmitReturned { result: Result<R, RemoteError>, elapsed: u64 },
    /// An attempt to fetch the job returned, `elapsed` milliseconds after
    /// polling began.
    PollReturned { result: Result<Polled<R>, RemoteError>, elapsed: u64 },
}

/// What the program has to do for the workflow next.
#[derive(Debug, PartialEq, Eq)]
pub enum WorkflowAction<R> {
    /// Sleep for `delay` milliseconds, then try to create the job.
    Submit { delay: u64 },
    /// Sleep for `delay` milliseconds, then fetch the job. `created` holds
    /// the job right after its creation, and is `None` afterwards.
    Poll { created: Option<R>, delay: u64 },
    /// Emit this result; the workflow is over.
    Emit(Result<R, WorkflowError>),
    /// The event does not belong to this state; nothing is to be done.
    Ignore,
}

/// What a fetched status means to the polling loop: a ready resource ends
/// the wait, a failed one ends it with the status message as a permanent
/// error, and any other status means waiting.
pub open spec fn spec_poll_outcome<R>(polled: Polled<R>) -> WaitStatus<R, RemoteError> {
    if polled.status.code.spec_is_ready() {
        WaitStatus::Finished(polled.resource)
    } else if polled.status.code.spec_is_err() {
        WaitStatus::FailedPermanently(
            RemoteError { temporary: false, message: polled.status.message },
        )
    } else {
        WaitStatus::Waiting
    }
}

/// Turn a fetched resource into the outcome of a polling attempt.
pub fn poll_outcome<R>(polled: Polled<R>) -> (r: WaitStatus<R, RemoteError>)
    ensures
        r == spec_poll_outcome(polled),
{
    if polled.status.code.is_ready() {
        WaitStatus::Finished(polled.resource)
    } else if polled.status.code.is_err() {
        WaitStatus::FailedPermanently(
            RemoteError { temporary: false, message: polled.status.message },
        )
    } else {
        WaitStatus::Waiting
    }
}

/// The outcome of an attempt to create the job.
pub open spec fn spec_submit_outcome<R>(result: Result<R, RemoteError>) -> WaitStatus<
    R,
    RemoteError,
> {
    match result {
        Ok(resource) => WaitStatus::Finished(resource),
        Err(e) => if e.temporary {
            WaitStatus::FailedTemporarily(e)
        } else {
            WaitStatus::FailedPermanently(e)
        },
    }
}

/// The outcome of an attempt to fetch the job.
pub open spec fn spec_fetch_outcome<R>(result: Result<Polled<R>, RemoteError>) -> WaitStatus<
    R,
    RemoteError,
> {
    match result {
        Ok(polled) => spec_poll_outcome(polled),
        Err(e) => if e.temporary {
            WaitStatus::FailedTemporarily(e)
        } else {
            WaitStatus::FailedPermanently(e)
        },
    }
}

/// The workflow of one item, with the two policies it runs under.
#[derive(Debug, Clone, Copy)]
pub struct Workflow {
    /// Where the workflow stands.
    pub state: WorkflowState,
    /// The policy for creating the job.
    pub submit_options: WaitOptions,
    /// The policy for waiting for the job.
    pub poll_options: WaitOptions,
}

impl WorkflowState {
    /// Completed and failed workflows never move again.
    pub open spec fn spec_is_terminal(self) -> bool {
        self is Completed || self is Failed
    }

    /// Whether the workflow is over.
    #[verifier::when_used_as_spec(spec_is_terminal)]
    pub fn is_terminal(self) -> (r: bool)
        ensures
            r == self.spec_is_terminal(),
    {
        match self {
            WorkflowState::Completed | WorkflowState::Failed => true,
            _ => false,
        }
    }

    /// The position of a state on the way from pending to terminal.
    pub open spec fn rank(self) -> nat {
        match self {
            WorkflowState::Pending => 0,
            WorkflowState::Submitting(_) => 1,
            WorkflowState::Polling(_) => 2,
            WorkflowState::Completed => 3,
            WorkflowState::Failed => 3,
        }
    }
}

impl WorkflowError {
    /// The kind of failure, without its details.
    pub open spec fn spec_kind(self) -> FailureKind {
        match self.error {
            RetryError::Permanent(_) => FailureKind::Permanent,
            RetryError::ErrorBudgetExhausted(_) => FailureKind::ErrorBudgetExhausted,
            RetryError::Timeout => FailureKind::Timeout,
        }
    }

    /// After this failure nobody knows whether the job exists on the
    /// platform: the client gave up while creating it, without a refusal.
    pub open spec fn spec_creation_is_uncertain(self) -> bool {
        self.stage == Stage::Submitting && !(self.error is Permanent)
    }

    /// Whether the job may exist on the platform although its creation
    /// was never confirmed.
    pub fn creation_is_uncertain(&self) -> (r: bool)
        ensures
            r == self.spec_creation_is_uncertain(),
    {
        match (self.stage, &self.error) {
            (Stage::Submitting, RetryError::ErrorBudgetExhausted(_)) => true,
            (Stage::Submitting, RetryError::Timeout) => true,
            _ => false,
        }
    }

    /// The kind of failure, without its details.
    pub fn kind(&self) -> (r: FailureKind)
        ensures
            r == self.spec_kind(),
    {
        match &self.error {
            RetryError::Permanent(_) => FailureKind::Permanent,
            RetryError::ErrorBudgetExhausted(_) => FailureKind::ErrorBudgetExhausted,
            RetryError::Timeout => FailureKind::Timeout,
        }
    }
}

/// The tag under which a workflow's result is emitted.
pub open spec fn spec_item_outcome<R>(result: Result<R, WorkflowError>) -> ItemOutcome {
    match result {
        Ok(_) => ItemOutcome::Succeeded,
        Err(e) => ItemOutcome::Failed(e.stage, e.spec_kind()),
    }
}

/// The tag under which a workflow's result is emitted.
pub fn item_outcome<R>(result: &Result<R, WorkflowError>) -> (r: ItemOutcome)
    ensures
        r == spec_item_outcome(*result),
{
    match result {
        Ok(_) => ItemOutcome::Succeeded,
        Err(e) => ItemOutcome::Failed(e.stage, e.kind()),
    }
}

/// The policy under which jobs are created: the first retry after a
/// minute, each interval twice the one before, six temporary failures
/// forgiven, and two hours in all.
pub open spec fn spec_submission_options() -> WaitOptions {
    WaitOptions {
        timeout: Some(7_200_000),
        retry_interval: 60_000,
        backoff_type: BackoffType::Exponential,
        allowed_errors: 6,
    }
}

/// The policy under which jobs are created.
pub fn submission_options() -> (r: WaitOptions)
    ensures
        r == spec_submission_options(),
{
    WaitOptions::default().retry_interval(60_000).backoff_type(
        BackoffType::Exponential,
    ).allowed_errors(6).timeout(7_200_000)
}

impl Workflow {
    /// A workflow that has not started, under the usual policies: jobs
    /// are created under [`submission_options`] and awaited under the
    /// default policy, which never times out.
    pub fn standard() -> (r: Workflow)
        ensures
            r.state == WorkflowState::Pending,
            r.submit_options == spec_submission_options(),
            r.poll_options.timeout is None,
            r.poll_options.retry_interval == 10_000,
            r.poll_options.backoff_type == BackoffType::Linear,
            r.poll_options.allowed_errors == 2,
    {
        Workflow::new(submission_options(), WaitOptions::default())
    }

    /// A workflow that has not started.
    pub fn new(submit_options: WaitOptions, poll_options: WaitOptions) -> (r: Workflow)
        ensures
            r.state == WorkflowState::Pending,
            r.submit_options == submit_options,
            r.poll_options == poll_options,
    {
        Workflow { state: WorkflowState::Pending, submit_options, poll_options }
    }

    /// The workflow's rule.
    ///
    /// * A pending workflow that is started submits at once.
    /// * While submitting, each returned attempt goes through the retry
    ///   engine under the submission policy: success begins polling, at
    ///   once and with a fresh engine under the polling policy; a verdict
    ///   of failure is emitted, tagged with the submitting stage; otherwise
    ///   the job is submitted again after the engine's delay.
    /// * While polling, likewise under the polling policy: a ready
    ///   resource is emitted, a failure is emitted tagged with the polling
    ///   stage, and otherwise the job is fetched again after the delay.
    /// * Any other event is ignored and changes nothing.
    pub open spec fn spec_step<R>(self, event: WorkflowEvent<R>) -> (
        WorkflowState,
        WorkflowAction<R>,
    ) {
        match (self.state, event) {
            (WorkflowState::Pending, WorkflowEvent::Started) => (
                WorkflowState::Submitting(RetryState::spec_new(self.submit_options)),
                WorkflowAction::Submit { delay: 0 },
            ),
            (
                WorkflowState::Submitting(retry),
                WorkflowEvent::SubmitReturned { result, elapsed },
            ) => {
                let (next, action) = retry.spec_step(
                    self.submit_options,
                    spec_submit_outcome(result),
                    elapsed,
                );
                match action {
                    RetryAction::Done(resource) => (
                        WorkflowState::Polling(RetryState::spec_new(self.poll_options)),
                        WorkflowAction::Poll { created: Some(resource), delay: 0 },
                    ),
                    RetryAction::Failed(error) => (
                        WorkflowState::Failed,
                        WorkflowAction::Emit(
                            Err(WorkflowError { stage: Stage::Submitting, error }),
                        ),
                    ),
                    RetryAction::Retry { delay } => (
                        WorkflowState::Submitting(next),
                        WorkflowAction::Submit { delay },
                    ),
                }
            },
            (WorkflowState::Polling(retry), WorkflowEvent::PollReturned { result, elapsed }) => {
                let (next, action) = retry.spec_step(
                    self.poll_options,
                    spec_fetch_outcome(result),
                    elapsed,
                );
                match action {
                    RetryAction::Done(resource) => (
                        WorkflowState::Completed,
                        WorkflowAction::Emit(Ok(resource)),
                    ),
                    RetryAction::Failed(error) => (
                        WorkflowState::Failed,
                        WorkflowAction::Emit(Err(WorkflowError { stage: Stage::Polling, error })),
                    ),
                    RetryAction::Retry { delay } => (
                        WorkflowState::Polling(next),
                        WorkflowAction::Poll { created: None, delay },
                    ),
                }
            },
            _ => (self.state, WorkflowAction::Ignore),
        }
    }

    /// Take in an event and say what to do next. The policies never
    /// change.
    pub fn step<R>(&mut self, event: WorkflowEvent<R>) -> (action: WorkflowAction<R>)
        ensures
            (final(self).state, action) == old(self).spec_step(event),
            final(self).submit_options == old(self).submit_options,
            final(self).poll_options == old(self).poll_options,
    {
        match (self.state, event) {
            (WorkflowState::Pending, WorkflowEvent::Started) => {
                self.state = WorkflowState::Submitting(RetryState::new(&self.submit_options));
                WorkflowAction::Submit { delay: 0 }
            },
            (
                WorkflowState::Submitting(retry),
                WorkflowEvent::SubmitReturned { result, elapsed },
            ) => {
                let temporary = match &result {
                    Ok(_) => false,
                    Err(e) => e.might_be_temporary(),
                };
                let mut retry = retry;
                let outcome = attempt_outcome(result, temporary);
                match retry.step(&self.submit_options, outcome, elapsed) {
                    RetryAction::Done(resource) => {
                        self.state = WorkflowState::Polling(RetryState::new(&self.poll_options));
                        WorkflowAction::Poll { created: Some(resource), delay: 0 }
                    },
                    RetryAction::Failed(error) => {
                        self.state = WorkflowState::Failed;
                        WorkflowAction::Emit(
                            Err(WorkflowError { stage: Stage::Submitting, error }),
                        )
                    },
                    RetryAction::Retry { delay } => {
                        self.state = WorkflowState::Submitting(retry);
                        WorkflowAction::Submit { delay }
                    },
                }
            },
            (WorkflowState::Polling(retry), WorkflowEvent::PollReturned { result, elapsed }) => {
                let outcome = match result {
                    Ok(polled) => poll_outcome(polled),
                    Err(e) => {
                        let temporary = e.might_be_temporary();
                        attempt_outcome(Err(e), temporary)
                    },
                };
                let mut retry = retry;
                match retry.step(&self.poll_options, outcome, elapsed) {
                    RetryAction::Done(resource) => {
                        self.state = WorkflowState::Completed;
                        WorkflowAction::Emit(Ok(resource))
                    },
                    RetryAction::Failed(error) => {
                        self.state = WorkflowState::Failed;
                        WorkflowAction::Emit(Err(WorkflowError { stage: Stage::Polling, error }))
                    },
                    RetryAction::Retry { delay } => {
                        self.state = WorkflowState::Polling(retry);
                        WorkflowAction::Poll { created: None, delay }
                    },
                }
            },
            _ => WorkflowAction::Ignore,
        }
    }
}

/// A workflow only moves forward: from pending to submitting, from there
/// to polling or failure, and from polling to completion or failure. A
/// terminal state is never left, and polling is never entered but from
/// submitting.
pub proof fn workflow_moves_forward<R>(w: Workflow, event: WorkflowEvent<R>)
    ensures
        w.state.rank() <= w.spec_step(event).0.rank(),
        w.state.spec_is_terminal() ==> w.spec_step(event) == (w.state, WorkflowAction::<R>::Ignore),
        w.spec_step(event).0.rank() <= w.state.rank() + 2,
        w.spec_step(event).0 is Polling ==> w.state is Submitting || w.state is Polling,
        w.spec_step(event).0 is Completed && !(w.state is Completed) ==> w.state is Polling,
        w.state is Pending ==> !w.spec_step(event).0.spec_is_terminal(),
{
}

/// A result is emitted exactly when the workflow enters a terminal state,
/// so every workflow emits at most one; success is emitted on completion
/// and an error on failure.
pub proof fn workflow_emits_once<R>(w: Workflow, event: WorkflowEvent<R>)
    ensures
        w.spec_step(event).1 is Emit <==> !w.state.spec_is_terminal() && w.spec_step(
            event,
        ).0.spec_is_terminal(),
        w.spec_step(event).1 matches WorkflowAction::Emit(result) ==> (result is Ok <==> w.spec_step(
            event,
        ).0 is Completed),
        w.spec_step(event).1 matches WorkflowAction::Emit(Err(e)) ==> (e.stage == Stage::Submitting
            <==> w.state is Submitting),
{
}

/// The state of the workflow `w` after a series of events, and the number
/// of results it has emitted on the way.
pub open spec fn spec_after<R>(w: Workflow, events: Seq<WorkflowEvent<R>>) -> (WorkflowState, nat)
    decreases events.len(),
{
    if events.len() == 0 {
        (w.state, 0)
    } else {
        let (state, emitted) = spec_after(w, events.drop_last());
        let (next, action) = (Workflow { state, ..w }).spec_step(events.last());
        (
            next,
            emitted + if action is Emit {
                1nat
            } else {
                0nat
            },
        )
    }
}

/// One workflow yields one result: whatever events reach a workflow that
/// was pending, it has emitted one result if it is over and none if it is
/// not, and never more than one.
pub proof fn one_result_per_workflow<R>(w: Workflow, events: Seq<WorkflowEvent<R>>)
    requires
        w.state is Pending,
    ensures
        spec_after(w, events).1 <= 1,
        spec_after(w, events).1 == 1 <==> spec_after(w, events).0.spec_is_terminal(),
    decreases events.len(),
{
    if events.len() > 0 {
        one_result_per_workflow(w, events.drop_last());
        let (state, emitted) = spec_after(w, events.drop_last());
        workflow_emits_once(Workflow { state, ..w }, events.last());
        workflow_moves_forward(Workflow { state, ..w }, events.last());
    }
}

/// Under a submission policy that forgives no error, the first temporary
/// failure of the submission ends the workflow: it emits an error tagged
/// with the submitting stage and the exhausted budget, carrying that
/// failure.
pub proof fn unforgiving_policy_fails_at_once<R>(w: Workflow, error: RemoteError, elapsed: u64)
    requires
        w.state == WorkflowState::Submitting(RetryState::spec_new(w.submit_options)),
        w.submit_options.allowed_errors == 0,
        error.temporary,
    ensures
        w.spec_step(WorkflowEvent::<R>::SubmitReturned { result: Err(error), elapsed }) == (
            WorkflowState::Failed,
            WorkflowAction::<R>::Emit(
                Err(
                    WorkflowError {
                        stage: Stage::Submitting,
                        error: RetryError::ErrorBudgetExhausted(error),
                    },
                ),
            ),
        ),
{
}

} // verus!
