use smarst_fan::retry::{RetryDecision, RetryPolicy};

#[test]
fn success_on_third_attempt_within_budget() {
    // Export usable only on the third try: the run must end in success
    // after exactly three attempts.
    let policy = RetryPolicy::new(300, 5);
    let outcomes = vec![false, false, true, false, false];
    let run = policy.run_against(&outcomes);
    assert!(run.succeeded);
    assert_eq!(run.attempts, 3);
}

#[test]
fn success_on_last_budgeted_attempt() {
    let policy = RetryPolicy::new(300, 4);
    let outcomes = vec![false, false, false, true];
    let run = policy.run_against(&outcomes);
    assert!(run.succeeded);
    assert_eq!(run.attempts, 4);
}

#[test]
fn permanent_failure_stops_after_budget() {
    // Permanent failure: the run gives up after exactly the budgeted
    // number of attempts instead of hanging.
    let policy = RetryPolicy::new(300, 3);
    let outcomes = vec![false, false, false, true, true];
    let run = policy.run_against(&outcomes);
    assert!(!run.succeeded);
    assert_eq!(run.attempts, 3);
}

#[test]
fn immediate_success_takes_one_attempt() {
    let policy = RetryPolicy::new(300, 10);
    let outcomes = vec![true; 10];
    let run = policy.run_against(&outcomes);
    assert!(run.succeeded);
    assert_eq!(run.attempts, 1);
}

#[test]
fn decide_stops_on_success() {
    let policy = RetryPolicy::new(300, 3);
    assert!(matches!(policy.decide(1, true), RetryDecision::Succeeded));
    assert!(matches!(policy.decide(3, true), RetryDecision::Succeeded));
}

#[test]
fn decide_retries_until_budget_spent() {
    let policy = RetryPolicy::new(300, 3);
    assert!(matches!(policy.decide(1, false), RetryDecision::RetryAfterDelay));
    assert!(matches!(policy.decide(2, false), RetryDecision::RetryAfterDelay));
    assert!(matches!(policy.decide(3, false), RetryDecision::GiveUp));
}

#[test]
fn single_attempt_budget_gives_up_at_once() {
    let policy = RetryPolicy::new(300, 1);
    assert!(matches!(policy.decide(1, false), RetryDecision::GiveUp));
    let run = policy.run_against(&vec![false]);
    assert!(!run.succeeded);
    assert_eq!(run.attempts, 1);
}
