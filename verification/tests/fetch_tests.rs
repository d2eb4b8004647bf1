use hedge_cli::download::{
    fetch_step, run_fetch_retry, AttemptOutcome, FetchFailureKind, FetchStep, MAX_FETCH_TRIES,
};

fn padded(mut script: Vec<AttemptOutcome>) -> Vec<AttemptOutcome> {
    while script.len() < MAX_FETCH_TRIES as usize {
        script.push(AttemptOutcome::Success);
    }
    script
}

#[test]
fn immediate_success_takes_one_attempt_and_no_retry() {
    let report = run_fetch_retry(&padded(vec![AttemptOutcome::Success]));
    assert_eq!(report.attempts, 1);
    assert_eq!(report.result, Ok(0));
}

#[test]
fn two_connection_refusals_then_success_count_two_retries() {
    let report = run_fetch_retry(&padded(vec![
        AttemptOutcome::Failure(FetchFailureKind::Connect),
        AttemptOutcome::Failure(FetchFailureKind::Connect),
        AttemptOutcome::Success,
    ]));
    assert_eq!(report.attempts, 3);
    assert_eq!(report.result, Ok(2));
}

#[test]
fn one_timeout_then_success_counts_one_retry() {
    let report = run_fetch_retry(&padded(vec![
        AttemptOutcome::Failure(FetchFailureKind::Timeout),
        AttemptOutcome::Success,
    ]));
    assert_eq!(report.attempts, 2);
    assert_eq!(report.result, Ok(1));
}

#[test]
fn a_non_transport_failure_is_returned_without_retry() {
    let report = run_fetch_retry(&padded(vec![AttemptOutcome::Failure(FetchFailureKind::Other)]));
    assert_eq!(report.attempts, 1);
    assert_eq!(report.result, Err(FetchFailureKind::Other));
}

#[test]
fn three_transport_failures_exhaust_the_budget_and_return_the_last() {
    let report = run_fetch_retry(&vec![
        AttemptOutcome::Failure(FetchFailureKind::Connect),
        AttemptOutcome::Failure(FetchFailureKind::Timeout),
        AttemptOutcome::Failure(FetchFailureKind::Connect),
    ]);
    assert_eq!(report.attempts, 3);
    assert_eq!(report.result, Err(FetchFailureKind::Connect));

    let report = run_fetch_retry(&vec![
        AttemptOutcome::Failure(FetchFailureKind::Connect),
        AttemptOutcome::Failure(FetchFailureKind::Connect),
        AttemptOutcome::Failure(FetchFailureKind::Timeout),
    ]);
    assert_eq!(report.attempts, 3);
    assert_eq!(report.result, Err(FetchFailureKind::Timeout));
}

#[test]
fn transport_failure_after_the_prefix_is_not_retried() {
    // The second outcome is a non-transport failure: two attempts, no third.
    let report = run_fetch_retry(&padded(vec![
        AttemptOutcome::Failure(FetchFailureKind::Connect),
        AttemptOutcome::Failure(FetchFailureKind::Other),
    ]));
    assert_eq!(report.attempts, 2);
    assert_eq!(report.result, Err(FetchFailureKind::Other));
}

#[test]
fn fetch_step_decides_as_documented() {
    let mut cnt = 0u32;
    assert_eq!(fetch_step(&mut cnt, &AttemptOutcome::Success), FetchStep::Deliver);
    assert_eq!(cnt, 0);

    assert_eq!(
        fetch_step(&mut cnt, &AttemptOutcome::Failure(FetchFailureKind::Connect)),
        FetchStep::SleepAndRetry
    );
    assert_eq!(cnt, 1);

    assert_eq!(
        fetch_step(&mut cnt, &AttemptOutcome::Failure(FetchFailureKind::Other)),
        FetchStep::GiveUp(FetchFailureKind::Other)
    );
    assert_eq!(cnt, 1);

    assert_eq!(
        fetch_step(&mut cnt, &AttemptOutcome::Failure(FetchFailureKind::Timeout)),
        FetchStep::SleepAndRetry
    );
    let step = fetch_step(&mut cnt, &AttemptOutcome::Failure(FetchFailureKind::Timeout));
    assert_eq!(step, FetchStep::GiveUp(FetchFailureKind::Timeout));
    assert_eq!(cnt, 3);
}
