use tower_retry::machine::{on_attempted, on_evaluated, on_ready, Decision, RetryState};
use tower_retry::retry::Retry;

/// Drives the retry state machine the way the asynchronous wrapper does,
/// reading the scripted answers of the service and the policy in order.
/// Returns how many service calls were issued and the final outcome.
fn drive(
    policy: u8,
    request: String,
    mut clones: Vec<Option<String>>,
    mut outcomes: Vec<Result<i32, String>>,
    mut decisions: Vec<Decision<u8>>,
    mut readiness: Vec<Result<(), String>>,
) -> (usize, Result<i32, String>) {
    let mut calls: usize = 0;
    let mut state = RetryState::Attempting { policy, request };
    loop {
        state = match state {
            RetryState::Attempting { policy, request } => {
                let _consumed_by_call = request;
                calls += 1;
                on_attempted(policy, clones.remove(0), outcomes.remove(0))
            }
            RetryState::Evaluating { next_request, outcome, .. } => {
                on_evaluated(next_request, outcome, decisions.remove(0))
            }
            RetryState::AwaitingReady { policy, next_request } => {
                on_ready(policy, next_request, readiness.remove(0))
            }
            RetryState::Done { outcome } => return (calls, outcome),
        };
    }
}

#[test]
fn new_pairs_policy_with_service() {
    let wrapper = Retry::new(7u8, 11i32);
    assert_eq!(wrapper.policy, 7);
    assert_eq!(wrapper.service, 11);
    let copy = wrapper.clone();
    assert_eq!(copy.policy, 7);
    assert_eq!(copy.service, 11);
}

#[test]
fn single_call_when_policy_declines_after_success() {
    let (calls, outcome) = drive(
        0,
        String::from("req"),
        vec![Some(String::from("req"))],
        vec![Ok(5)],
        vec![Decision::NoRetry],
        vec![],
    );
    assert_eq!(calls, 1);
    assert_eq!(outcome, Ok(5));
}

#[test]
fn single_call_when_policy_declines_after_failure() {
    let (calls, outcome) = drive(
        0,
        String::from("req"),
        vec![Some(String::from("req"))],
        vec![Err(String::from("boom"))],
        vec![Decision::NoRetry],
        vec![],
    );
    assert_eq!(calls, 1);
    assert_eq!(outcome, Err(String::from("boom")));
}

#[test]
fn single_call_when_request_not_duplicable() {
    // The policy would have retried, but the request could not be cloned.
    let (calls, outcome) = drive(
        0,
        String::from("one-shot"),
        vec![None],
        vec![Err(String::from("lost"))],
        vec![Decision::Updated(1)],
        vec![Ok(())],
    );
    assert_eq!(calls, 1);
    assert_eq!(outcome, Err(String::from("lost")));
}

#[test]
fn single_call_when_decision_fails() {
    // retry() produced a decision future, but it failed: the original
    // outcome comes back, not an error about the decision.
    let (calls, outcome) = drive(
        0,
        String::from("req"),
        vec![Some(String::from("req"))],
        vec![Err(String::from("first"))],
        vec![Decision::Failed],
        vec![],
    );
    assert_eq!(calls, 1);
    assert_eq!(outcome, Err(String::from("first")));
}

#[test]
fn exhausted_policy_returns_last_failure() {
    // Two retries permitted, every call fails: three calls, last error out.
    let (calls, outcome) = drive(
        0,
        String::from("req"),
        vec![
            Some(String::from("req")),
            Some(String::from("req")),
            Some(String::from("req")),
        ],
        vec![
            Err(String::from("e1")),
            Err(String::from("e2")),
            Err(String::from("e3")),
        ],
        vec![Decision::Updated(1), Decision::Updated(2), Decision::NoRetry],
        vec![Ok(()), Ok(())],
    );
    assert_eq!(calls, 3);
    assert_eq!(outcome, Err(String::from("e3")));
}

#[test]
fn success_on_second_attempt_ends_loop() {
    // Plenty of retries permitted, but attempt two succeeds: two calls.
    let (calls, outcome) = drive(
        0,
        String::from("req"),
        vec![Some(String::from("req")), Some(String::from("req"))],
        vec![Err(String::from("e1")), Ok(42)],
        vec![Decision::Updated(1), Decision::NoRetry],
        vec![Ok(())],
    );
    assert_eq!(calls, 2);
    assert_eq!(outcome, Ok(42));
}

#[test]
fn readiness_failure_aborts_loop() {
    // The retry was granted, but the service never became ready again:
    // the readiness error supersedes the first call's outcome and no
    // second call happens.
    let (calls, outcome) = drive(
        0,
        String::from("req"),
        vec![Some(String::from("req"))],
        vec![Err(String::from("e1"))],
        vec![Decision::Updated(1)],
        vec![Err(String::from("connection down"))],
    );
    assert_eq!(calls, 1);
    assert_eq!(outcome, Err(String::from("connection down")));
}

#[test]
fn attempt_without_duplicate_finishes() {
    let next = on_attempted(0u8, None::<String>, Ok::<i32, String>(3));
    match next {
        RetryState::Done { outcome } => assert_eq!(outcome, Ok(3)),
        _ => panic!("a non-duplicable request must end the loop"),
    }
}

#[test]
fn attempt_with_duplicate_evaluates() {
    let next = on_attempted(5u8, Some(String::from("again")), Err::<i32, String>(String::from("e")));
    match next {
        RetryState::Evaluating { policy, next_request, outcome } => {
            assert_eq!(policy, 5);
            assert_eq!(next_request, "again");
            assert_eq!(outcome, Err(String::from("e")));
        }
        _ => panic!("a duplicated request must reach the evaluation step"),
    }
}

#[test]
fn successful_decision_replaces_policy() {
    let next = on_evaluated::<u8, String, i32, String>(
        String::from("again"),
        Err(String::from("e")),
        Decision::Updated(9),
    );
    match next {
        RetryState::AwaitingReady { policy, next_request } => {
            assert_eq!(policy, 9);
            assert_eq!(next_request, "again");
        }
        _ => panic!("an updated policy must lead to the readiness wait"),
    }
}

#[test]
fn failed_decision_keeps_original_outcome() {
    let next = on_evaluated::<u8, String, i32, String>(
        String::from("again"),
        Ok(1),
        Decision::Failed,
    );
    match next {
        RetryState::Done { outcome } => assert_eq!(outcome, Ok(1)),
        _ => panic!("a failed decision must end the loop with the original outcome"),
    }
}

#[test]
fn readiness_resumes_with_duplicate() {
    let next = on_ready::<u8, String, i32, String>(4, String::from("again"), Ok(()));
    match next {
        RetryState::Attempting { policy, request } => {
            assert_eq!(policy, 4);
            assert_eq!(request, "again");
        }
        _ => panic!("readiness must re-enter the attempt state"),
    }
}

#[test]
fn readiness_error_supersedes_outcome() {
    let next = on_ready::<u8, String, i32, String>(4, String::from("again"), Err(String::from("down")));
    match next {
        RetryState::Done { outcome } => assert_eq!(outcome, Err(String::from("down"))),
        _ => panic!("a readiness failure must end the loop"),
    }
}
