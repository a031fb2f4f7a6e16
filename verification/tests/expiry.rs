use certsd::date::{Date, Timestamp};
use certsd::expiry::{renewal_decision, RenewalDecision};

fn ts(year: u32, month: u8, day: u8, second_of_day: u32) -> Timestamp {
    Timestamp { date: Date { year, month, day }, second_of_day }
}

#[test]
fn missing_chain_requires_renewal() {
    let now = ts(2024, 5, 10, 0);
    assert_eq!(renewal_decision(None, &now, 2), RenewalDecision::RenewalRequired);
}

#[test]
fn fresh_chain_skips_renewal() {
    let now = ts(2024, 5, 10, 0);
    let expiry = ts(2024, 8, 10, 0);
    assert_eq!(renewal_decision(Some(expiry), &now, 2), RenewalDecision::RenewalNotNeeded);
}

#[test]
fn stale_chain_requires_renewal() {
    let now = ts(2024, 5, 10, 0);
    let expiry = ts(2024, 6, 10, 0);
    assert_eq!(renewal_decision(Some(expiry), &now, 2), RenewalDecision::RenewalRequired);
}

#[test]
fn expiry_exactly_at_threshold_requires_renewal() {
    let now = ts(2024, 5, 10, 3600);
    let at_threshold = ts(2024, 7, 10, 3600);
    assert_eq!(renewal_decision(Some(at_threshold), &now, 2), RenewalDecision::RenewalRequired);
    let just_past = ts(2024, 7, 10, 3601);
    assert_eq!(renewal_decision(Some(just_past), &now, 2), RenewalDecision::RenewalNotNeeded);
}

#[test]
fn threshold_addition_clamps_month_ends() {
    // December 31st plus two months lands on the last day of February.
    let now = ts(2023, 12, 31, 0);
    let before_clamped_threshold = ts(2024, 2, 28, 0);
    assert_eq!(
        renewal_decision(Some(before_clamped_threshold), &now, 2),
        RenewalDecision::RenewalRequired
    );
    let after_clamped_threshold = ts(2024, 3, 1, 0);
    assert_eq!(
        renewal_decision(Some(after_clamped_threshold), &now, 2),
        RenewalDecision::RenewalNotNeeded
    );
}
