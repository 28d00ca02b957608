use website_checker::retry::{Attempt, RetryState, Step, BACKOFF_MS};

fn failed(message: &str, elapsed_ms: u64) -> Attempt {
    Attempt::Failed { message: message.to_string(), elapsed_ms }
}

/// Runs the retry loop over prepared attempt results; returns the final step
/// and how many results were used.
fn drive(retries: u32, results: Vec<Attempt>) -> (Step, usize) {
    let mut state = RetryState::new(retries);
    let mut used = 0;
    for a in results {
        used += 1;
        match state.step(a) {
            Step::Retry { next, backoff_ms } => {
                assert_eq!(backoff_ms, BACKOFF_MS);
                state = next;
            }
            finish => return (finish, used),
        }
    }
    panic!("the loop asked for more attempts than were prepared");
}

#[test]
fn always_failing_url_is_tried_budget_plus_one_times() {
    let results = vec![failed("e1", 1), failed("e2", 2), failed("e3", 3), failed("e4", 4), failed("e5", 5)];
    let (step, used) = drive(3, results);
    assert_eq!(used, 4);
    match step {
        Step::Finish { status, response_time_ms, attempts } => {
            assert_eq!(status, Err("e4".to_string()));
            assert_eq!(response_time_ms, 4);
            assert_eq!(attempts, 4);
        }
        Step::Retry { .. } => panic!("expected a finish"),
    }
}

#[test]
fn no_budget_means_one_attempt() {
    let (step, used) = drive(0, vec![failed("refused", 9), failed("unused", 1)]);
    assert_eq!(used, 1);
    match step {
        Step::Finish { status, attempts, .. } => {
            assert_eq!(status, Err("refused".to_string()));
            assert_eq!(attempts, 1);
        }
        Step::Retry { .. } => panic!("expected a finish"),
    }
}

#[test]
fn success_on_third_attempt_stops_retrying() {
    let results = vec![
        failed("e1", 1),
        failed("e2", 2),
        Attempt::Response { code: 200, elapsed_ms: 33 },
        Attempt::Response { code: 500, elapsed_ms: 1 },
    ];
    let (step, used) = drive(5, results);
    assert_eq!(used, 3);
    match step {
        Step::Finish { status, response_time_ms, attempts } => {
            assert_eq!(status, Ok(200));
            assert_eq!(response_time_ms, 33);
            assert_eq!(attempts, 3);
        }
        Step::Retry { .. } => panic!("expected a finish"),
    }
}

#[test]
fn success_on_last_allowed_attempt() {
    let (step, used) = drive(1, vec![failed("e1", 1), Attempt::Response { code: 404, elapsed_ms: 8 }]);
    assert_eq!(used, 2);
    match step {
        Step::Finish { status, attempts, .. } => {
            assert_eq!(status, Ok(404));
            assert_eq!(attempts, 2);
        }
        Step::Retry { .. } => panic!("expected a finish"),
    }
}

#[test]
fn first_attempt_success_needs_no_retry() {
    let (step, used) = drive(3, vec![Attempt::Response { code: 204, elapsed_ms: 2 }]);
    assert_eq!(used, 1);
    assert!(matches!(step, Step::Finish { attempts: 1, .. }));
}

#[test]
fn retry_state_counts_failures() {
    let state = RetryState::new(2);
    assert_eq!(state.retries(), 2);
    assert_eq!(state.failed_attempts(), 0);
    match state.step(failed("x", 1)) {
        Step::Retry { next, backoff_ms } => {
            assert_eq!(backoff_ms, 100);
            assert_eq!(next.failed_attempts(), 1);
            assert_eq!(next.retries(), 2);
        }
        Step::Finish { .. } => panic!("expected a retry"),
    }
}
