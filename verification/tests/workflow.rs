use bigml::parallel::pipeline::{FailureKind, ItemOutcome, Pipeline, PipelineAction, Stage};
use bigml::parallel::workflow::{
    item_outcome, poll_outcome, submission_options, Polled, RemoteError, RemoteFailure, Workflow, WorkflowAction, WorkflowError,
    WorkflowEvent, WorkflowState,
};
use bigml::resource::status::{GenericResourceStatus, ResourceStatusCode};
use bigml::wait::{BackoffType, RetryError, RetryState, WaitOptions, WaitStatus};

fn submit_options() -> WaitOptions {
    WaitOptions::default()
        .retry_interval(60_000)
        .backoff_type(BackoffType::Exponential)
        .allowed_errors(6)
        .timeout(2 * 60 * 60 * 1000)
}

fn status(code: ResourceStatusCode, message: &str) -> GenericResourceStatus {
    GenericResourceStatus { code, message: message.to_owned(), elapsed: None }
}

fn temporary(message: &str) -> RemoteError {
    RemoteError { temporary: true, message: message.to_owned() }
}

fn permanent(message: &str) -> RemoteError {
    RemoteError { temporary: false, message: message.to_owned() }
}

fn polled(id: &str, code: ResourceStatusCode, message: &str) -> Polled<String> {
    Polled { resource: id.to_owned(), status: status(code, message) }
}

#[test]
fn a_workflow_submits_then_polls_then_completes() {
    let mut w = Workflow::new(submit_options(), WaitOptions::default());
    assert_eq!(w.state, WorkflowState::Pending);
    assert_eq!(w.step(WorkflowEvent::<String>::Started), WorkflowAction::Submit { delay: 0 });
    assert_eq!(
        w.state,
        WorkflowState::Submitting(RetryState { interval: 60_000, errors_seen: 0 })
    );
    let action =
        w.step(WorkflowEvent::SubmitReturned { result: Ok("execution/1".to_owned()), elapsed: 3 });
    assert_eq!(
        action,
        WorkflowAction::Poll { created: Some("execution/1".to_owned()), delay: 0 }
    );
    assert_eq!(w.state, WorkflowState::Polling(RetryState { interval: 10_000, errors_seen: 0 }));
    let action = w.step(WorkflowEvent::PollReturned {
        result: Ok(polled("execution/1", ResourceStatusCode::Queued, "queued")),
        elapsed: 10,
    });
    assert_eq!(action, WorkflowAction::Poll { created: None, delay: 10_000 });
    let action = w.step(WorkflowEvent::PollReturned {
        result: Ok(polled("execution/1", ResourceStatusCode::Finished, "done")),
        elapsed: 10_020,
    });
    assert_eq!(action, WorkflowAction::Emit(Ok("execution/1".to_owned())));
    assert_eq!(w.state, WorkflowState::Completed);
    assert!(w.state.is_terminal());
}

#[test]
fn submission_is_retried_with_growing_delays() {
    let mut w = Workflow::new(submit_options(), WaitOptions::default());
    let _ = w.step(WorkflowEvent::<String>::Started);
    let mut delays = vec![];
    for i in 0..6 {
        match w.step(WorkflowEvent::<String>::SubmitReturned {
            result: Err(temporary("rate limit")),
            elapsed: i,
        }) {
            WorkflowAction::Submit { delay } => delays.push(delay),
            other => panic!("unexpected {:?}", other),
        }
    }
    assert_eq!(delays, vec![60_000, 120_000, 240_000, 480_000, 960_000, 1_920_000]);
    let action = w.step(WorkflowEvent::<String>::SubmitReturned {
        result: Err(temporary("last")),
        elapsed: 7,
    });
    assert_eq!(
        action,
        WorkflowAction::Emit(Err(WorkflowError {
            stage: Stage::Submitting,
            error: RetryError::ErrorBudgetExhausted(temporary("last")),
        }))
    );
    assert_eq!(w.state, WorkflowState::Failed);
}

#[test]
fn a_rejected_submission_fails_for_good() {
    let mut w = Workflow::new(submit_options(), WaitOptions::default());
    let _ = w.step(WorkflowEvent::<String>::Started);
    let action = w.step(WorkflowEvent::<String>::SubmitReturned {
        result: Err(permanent("bad request")),
        elapsed: 1,
    });
    let expected = WorkflowError {
        stage: Stage::Submitting,
        error: RetryError::Permanent(permanent("bad request")),
    };
    assert_eq!(expected.kind(), FailureKind::Permanent);
    assert_eq!(action, WorkflowAction::Emit(Err(expected)));
}

#[test]
fn a_faulty_job_fails_with_its_status_message() {
    let mut w = Workflow::new(submit_options(), WaitOptions::default());
    let _ = w.step(WorkflowEvent::<String>::Started);
    let _ = w.step(WorkflowEvent::SubmitReturned { result: Ok("e".to_owned()), elapsed: 0 });
    let action = w.step(WorkflowEvent::PollReturned {
        result: Ok(polled("e", ResourceStatusCode::Faulty, "script raised an error")),
        elapsed: 0,
    });
    assert_eq!(
        action,
        WorkflowAction::Emit(Err(WorkflowError {
            stage: Stage::Polling,
            error: RetryError::Permanent(permanent("script raised an error")),
        }))
    );
    assert_eq!(w.state, WorkflowState::Failed);
}

#[test]
fn polling_times_out_on_its_own_clock() {
    let mut w = Workflow::new(submit_options(), WaitOptions::default().timeout(500));
    let _ = w.step(WorkflowEvent::<String>::Started);
    let _ = w.step(WorkflowEvent::SubmitReturned { result: Ok("e".to_owned()), elapsed: 9_000 });
    let action = w.step(WorkflowEvent::PollReturned {
        result: Ok(polled("e", ResourceStatusCode::Started, "")),
        elapsed: 499,
    });
    assert_eq!(action, WorkflowAction::Poll { created: None, delay: 10_000 });
    let action = w.step(WorkflowEvent::PollReturned {
        result: Ok(polled("e", ResourceStatusCode::Started, "")),
        elapsed: 500,
    });
    let expected = WorkflowError { stage: Stage::Polling, error: RetryError::Timeout };
    assert_eq!(item_outcome::<String>(&Err(expected.clone())), ItemOutcome::Failed(Stage::Polling, FailureKind::Timeout));
    assert_eq!(action, WorkflowAction::Emit(Err(expected)));
}

#[test]
fn events_out_of_place_are_ignored() {
    let mut w = Workflow::new(submit_options(), WaitOptions::default());
    let action =
        w.step(WorkflowEvent::SubmitReturned { result: Ok("e".to_owned()), elapsed: 0 });
    assert_eq!(action, WorkflowAction::Ignore);
    assert_eq!(w.state, WorkflowState::Pending);
    let _ = w.step(WorkflowEvent::<String>::Started);
    let before = w.state;
    assert_eq!(w.step(WorkflowEvent::<String>::Started), WorkflowAction::Ignore);
    assert_eq!(
        w.step(WorkflowEvent::PollReturned {
            result: Ok(polled("e", ResourceStatusCode::Finished, "")),
            elapsed: 0
        }),
        WorkflowAction::Ignore
    );
    assert_eq!(w.state, before);
}

#[test]
fn terminal_states_are_never_left() {
    for terminal in [WorkflowState::Completed, WorkflowState::Failed] {
        let mut w = Workflow::new(submit_options(), WaitOptions::default());
        w.state = terminal;
        assert_eq!(w.step(WorkflowEvent::<String>::Started), WorkflowAction::Ignore);
        assert_eq!(
            w.step(WorkflowEvent::SubmitReturned { result: Ok("e".to_owned()), elapsed: 0 }),
            WorkflowAction::Ignore
        );
        assert_eq!(
            w.step(WorkflowEvent::<String>::PollReturned {
                result: Err(temporary("x")),
                elapsed: 0
            }),
            WorkflowAction::Ignore
        );
        assert_eq!(w.state, terminal);
    }
}

#[test]
fn poll_outcome_follows_the_status() {
    assert_eq!(
        poll_outcome(polled("e", ResourceStatusCode::Finished, "ok")),
        WaitStatus::Finished("e".to_owned())
    );
    assert_eq!(
        poll_outcome(polled("e", ResourceStatusCode::Unknown, "lost")),
        WaitStatus::FailedPermanently(permanent("lost"))
    );
    for code in [
        ResourceStatusCode::Waiting,
        ResourceStatusCode::Queued,
        ResourceStatusCode::Started,
        ResourceStatusCode::InProgress,
        ResourceStatusCode::Summarized,
    ] {
        assert_eq!(poll_outcome(polled("e", code, "")), WaitStatus::Waiting);
    }
}

#[test]
fn item_outcome_tags_results() {
    assert_eq!(item_outcome(&Ok::<u8, WorkflowError>(1)), ItemOutcome::Succeeded);
    let e = WorkflowError {
        stage: Stage::Submitting,
        error: RetryError::ErrorBudgetExhausted(temporary("t")),
    };
    assert_eq!(
        item_outcome::<u8>(&Err(e)),
        ItemOutcome::Failed(Stage::Submitting, FailureKind::ErrorBudgetExhausted)
    );
    assert!(temporary("t").might_be_temporary());
    assert!(!permanent("t").might_be_temporary());
}

/// One item whose submission always fails temporarily, under a policy that
/// forgives nothing, among items that succeed: it yields one result with
/// the exhausted budget, and the others are emitted all the same.
#[test]
fn a_failing_item_does_not_block_the_others() {
    let unforgiving = WaitOptions::default().allowed_errors(0);
    let mut pipeline = Pipeline::new(2).unwrap();
    let inputs = ["a", "bad", "c", "d"];
    let mut next = 0;
    let mut running: Vec<(u64, &str)> = vec![];
    let mut results: Vec<(u64, Result<String, WorkflowError>)> = vec![];
    loop {
        match pipeline.next_action() {
            PipelineAction::Pull => {
                if next < inputs.len() {
                    let ticket = pipeline.start_next().unwrap();
                    running.push((ticket, inputs[next]));
                    next += 1;
                } else {
                    pipeline.end_of_input();
                }
            }
            PipelineAction::Await => {
                let (ticket, input) = running.remove(0);
                let mut w = Workflow::new(unforgiving, WaitOptions::default());
                let mut action = w.step(WorkflowEvent::Started);
                let mut submissions = 0;
                let result = loop {
                    action = match action {
                        WorkflowAction::Submit { .. } => {
                            submissions += 1;
                            let result = if input == "bad" {
                                Err(temporary("try later"))
                            } else {
                                Ok(format!("execution/{}", input))
                            };
                            w.step(WorkflowEvent::SubmitReturned { result, elapsed: 0 })
                        }
                        WorkflowAction::Poll { .. } => w.step(WorkflowEvent::PollReturned {
                            result: Ok(Polled {
                                resource: format!("execution/{}", input),
                                status: status(ResourceStatusCode::Finished, ""),
                            }),
                            elapsed: 0,
                        }),
                        WorkflowAction::Emit(result) => break result,
                        WorkflowAction::Ignore => panic!("ignored"),
                    };
                };
                assert_eq!(submissions, 1);
                assert!(pipeline.complete(ticket, item_outcome(&result)));
                results.push((ticket, result));
            }
            PipelineAction::Done => break,
        }
    }
    assert_eq!(results.len(), 4);
    assert_eq!(pipeline.emitted_count(), 4);
    let failed: Vec<_> = results.iter().filter(|r| r.1.is_err()).collect();
    assert_eq!(failed.len(), 1);
    assert_eq!(failed[0].0, 1);
    assert_eq!(
        failed[0].1,
        Err(WorkflowError {
            stage: Stage::Submitting,
            error: RetryError::ErrorBudgetExhausted(temporary("try later")),
        })
    );
    assert_eq!(
        pipeline.emitted(1),
        Some((1, ItemOutcome::Failed(Stage::Submitting, FailureKind::ErrorBudgetExhausted)))
    );
    assert_eq!(results[3].1, Ok("execution/d".to_owned()));
}

#[test]
fn causes_decide_whether_an_error_may_pass() {
    assert!(RemoteError::new(RemoteFailure::Network, "n".to_owned()).temporary);
    assert!(RemoteError::new(RemoteFailure::RateLimited, "r".to_owned()).temporary);
    let rejected = RemoteError::new(RemoteFailure::Rejected, "bad".to_owned());
    assert!(!rejected.temporary);
    assert_eq!(rejected.message, "bad");
}

#[test]
fn only_an_unconfirmed_creation_is_uncertain() {
    let error = |stage, error| WorkflowError { stage, error };
    assert!(error(Stage::Submitting, RetryError::Timeout).creation_is_uncertain());
    assert!(error(Stage::Submitting, RetryError::ErrorBudgetExhausted(temporary("t")))
        .creation_is_uncertain());
    assert!(!error(Stage::Submitting, RetryError::Permanent(permanent("p")))
        .creation_is_uncertain());
    assert!(!error(Stage::Polling, RetryError::Timeout).creation_is_uncertain());
}

#[test]
fn the_standard_policies() {
    let options = submission_options();
    assert_eq!(options.retry_interval, 60_000);
    assert_eq!(options.backoff_type, BackoffType::Exponential);
    assert_eq!(options.allowed_errors, 6);
    assert_eq!(options.timeout, Some(7_200_000));
    let w = Workflow::standard();
    assert_eq!(w.state, WorkflowState::Pending);
    assert_eq!(w.submit_options.timeout, Some(7_200_000));
    assert_eq!(w.submit_options.allowed_errors, 6);
    assert_eq!(w.poll_options.timeout, None);
    assert_eq!(w.poll_options.retry_interval, 10_000);
    assert_eq!(w.poll_options.backoff_type, BackoffType::Linear);
    assert_eq!(w.poll_options.allowed_errors, 2);
}

#[test]
fn http_statuses_are_sorted_into_causes() {
    assert_eq!(RemoteFailure::from_http_status(200), None);
    assert_eq!(RemoteFailure::from_http_status(201), None);
    assert_eq!(RemoteFailure::from_http_status(299), None);
    assert_eq!(RemoteFailure::from_http_status(402), Some(RemoteFailure::RateLimited));
    assert_eq!(RemoteFailure::from_http_status(429), Some(RemoteFailure::RateLimited));
    assert_eq!(RemoteFailure::from_http_status(500), Some(RemoteFailure::Network));
    assert_eq!(RemoteFailure::from_http_status(503), Some(RemoteFailure::Network));
    assert_eq!(RemoteFailure::from_http_status(599), Some(RemoteFailure::Network));
    assert_eq!(RemoteFailure::from_http_status(400), Some(RemoteFailure::Rejected));
    assert_eq!(RemoteFailure::from_http_status(404), Some(RemoteFailure::Rejected));
    assert_eq!(RemoteFailure::from_http_status(199), Some(RemoteFailure::Rejected));
    assert_eq!(RemoteFailure::from_http_status(300), Some(RemoteFailure::Rejected));
    assert_eq!(RemoteFailure::from_http_status(600), Some(RemoteFailure::Rejected));
}
