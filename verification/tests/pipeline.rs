use bigml::parallel::pipeline::{FailureKind, ItemOutcome, Pipeline, PipelineAction, Stage};

/// Drives a pipeline over inputs whose workflows take the given times, and
/// returns the tickets in the order of emission together with the largest
/// number of workflows that were ever in flight.
fn simulate(durations: &[u64], max_concurrency: usize) -> (Vec<u64>, usize) {
    let mut pipeline = Pipeline::new(max_concurrency).unwrap();
    let mut now = 0u64;
    let mut next_input = 0usize;
    let mut finishing: Vec<(u64, u64)> = vec![];
    let mut peak = 0usize;
    loop {
        match pipeline.next_action() {
            PipelineAction::Pull => {
                if next_input < durations.len() {
                    let ticket = pipeline.start_next().unwrap();
                    assert_eq!(ticket, next_input as u64);
                    finishing.push((now + durations[next_input], ticket));
                    next_input += 1;
                } else {
                    pipeline.end_of_input();
                }
            }
            PipelineAction::Await => {
                finishing.sort();
                let (at, ticket) = finishing.remove(0);
                now = at;
                assert!(pipeline.complete(ticket, ItemOutcome::Succeeded));
            }
            PipelineAction::Done => break,
        }
        peak = peak.max(pipeline.in_flight_count());
        assert!(pipeline.in_flight_count() <= max_concurrency.min(durations.len()));
    }
    let order = (0..pipeline.emitted_count())
        .map(|i| pipeline.emitted(i).unwrap().0)
        .collect();
    (order, peak)
}

#[test]
fn a_pipeline_needs_a_slot() {
    assert!(Pipeline::new(0).is_none());
    let pipeline = Pipeline::new(1).unwrap();
    assert_eq!(pipeline.max_concurrency(), 1);
    assert_eq!(pipeline.started(), 0);
    assert_eq!(pipeline.in_flight_count(), 0);
    assert_eq!(pipeline.emitted_count(), 0);
    assert_eq!(pipeline.next_action(), PipelineAction::Pull);
}

#[test]
fn results_come_in_completion_order() {
    let (order, peak) = simulate(&[50, 10, 30, 20, 40], 2);
    assert_eq!(order, vec![1, 2, 0, 3, 4]);
    assert_eq!(peak, 2);
}

#[test]
fn never_more_in_flight_than_slots_or_inputs() {
    for max in 1..6usize {
        for n in 0..7usize {
            let durations: Vec<u64> = (0..n as u64).map(|i| 10 + (i * 7) % 5).collect();
            let (order, peak) = simulate(&durations, max);
            assert_eq!(peak, max.min(n));
            assert_eq!(order.len(), n);
            let mut sorted = order.clone();
            sorted.sort();
            assert_eq!(sorted, (0..n as u64).collect::<Vec<u64>>());
        }
    }
}

#[test]
fn no_input_is_pulled_while_all_slots_are_taken() {
    let mut pipeline = Pipeline::new(2).unwrap();
    assert_eq!(pipeline.start_next(), Some(0));
    assert_eq!(pipeline.start_next(), Some(1));
    assert_eq!(pipeline.next_action(), PipelineAction::Await);
    assert_eq!(pipeline.start_next(), None);
    assert_eq!(pipeline.started(), 2);
    assert_eq!(pipeline.in_flight_count(), 2);
    assert!(pipeline.complete(0, ItemOutcome::Succeeded));
    assert_eq!(pipeline.next_action(), PipelineAction::Pull);
    assert_eq!(pipeline.start_next(), Some(2));
}

#[test]
fn in_flight_workflows_are_drained_after_the_input_ends() {
    let mut pipeline = Pipeline::new(3).unwrap();
    assert_eq!(pipeline.start_next(), Some(0));
    assert_eq!(pipeline.start_next(), Some(1));
    pipeline.end_of_input();
    assert_eq!(pipeline.next_action(), PipelineAction::Await);
    assert_eq!(pipeline.start_next(), None);
    assert!(pipeline.complete(1, ItemOutcome::Succeeded));
    assert_eq!(pipeline.next_action(), PipelineAction::Await);
    assert!(pipeline.complete(
        0,
        ItemOutcome::Failed(Stage::Polling, FailureKind::Timeout)
    ));
    assert_eq!(pipeline.next_action(), PipelineAction::Done);
    assert_eq!(pipeline.emitted(0), Some((1, ItemOutcome::Succeeded)));
    assert_eq!(
        pipeline.emitted(1),
        Some((0, ItemOutcome::Failed(Stage::Polling, FailureKind::Timeout)))
    );
    assert_eq!(pipeline.emitted(2), None);
}

#[test]
fn unknown_and_repeated_completions_change_nothing() {
    let mut pipeline = Pipeline::new(2).unwrap();
    assert_eq!(pipeline.start_next(), Some(0));
    assert!(!pipeline.complete(5, ItemOutcome::Succeeded));
    assert!(pipeline.is_in_flight(0));
    assert!(!pipeline.is_in_flight(5));
    assert!(pipeline.complete(0, ItemOutcome::Succeeded));
    assert!(!pipeline.complete(0, ItemOutcome::Succeeded));
    assert_eq!(pipeline.emitted_count(), 1);
    assert_eq!(pipeline.in_flight_count(), 0);
}

#[test]
fn an_empty_input_is_done_at_once() {
    let mut pipeline = Pipeline::new(2).unwrap();
    pipeline.end_of_input();
    assert_eq!(pipeline.next_action(), PipelineAction::Done);
    assert_eq!(pipeline.emitted_count(), 0);
}
