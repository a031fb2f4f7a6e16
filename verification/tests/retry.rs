use certsd::retry::{bounded_retry_outcome, RetryOutcome};

#[test]
fn immediate_success_needs_no_pause() {
    let r = bounded_retry_outcome(&vec![true, false, false, false, false], 5);
    assert_eq!(r, RetryOutcome { succeeded: true, attempts_used: 1, pauses: 0 });
}

#[test]
fn three_failures_then_success() {
    let r = bounded_retry_outcome(&vec![false, false, false, true, false], 5);
    assert_eq!(r, RetryOutcome { succeeded: true, attempts_used: 4, pauses: 3 });
}

#[test]
fn budget_exhausted() {
    let r = bounded_retry_outcome(&vec![false, false, false, false, false], 5);
    assert_eq!(r, RetryOutcome { succeeded: false, attempts_used: 5, pauses: 4 });
}

#[test]
fn success_beyond_the_budget_is_not_reached() {
    let r = bounded_retry_outcome(&vec![false, false, true], 2);
    assert_eq!(r, RetryOutcome { succeeded: false, attempts_used: 2, pauses: 1 });
}
