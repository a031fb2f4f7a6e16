use certsd::order::{
    AuthStatus, OrderAction, OrderEvent, OrderFailure, OrderMachine, OrderState,
};

fn new_machine() -> OrderMachine {
    OrderMachine::new(5, 5000, 15000)
}

/// Feeds the machine a sequence of events and returns every action it
/// emitted, in order.
fn drive(machine: &mut OrderMachine, events: &[OrderEvent]) -> Vec<OrderAction> {
    let mut trace = Vec::new();
    for e in events {
        trace.extend(machine.step(*e));
    }
    trace
}

#[test]
fn already_confirmed_order_is_csr_ready_at_once() {
    let mut m = new_machine();
    let acts = m.step(OrderEvent::ConfirmResult { confirmed: true });
    assert!(acts.is_empty());
    assert_eq!(m.state, OrderState::CsrReady);
    assert_eq!(m.attempts, 0);
}

#[test]
fn challenge_cycle_cleans_before_and_after_publishing() {
    let mut m = new_machine();
    let trace = drive(
        &mut m,
        &[
            OrderEvent::ConfirmResult { confirmed: false },
            OrderEvent::AuthObserved {
                status: AuthStatus::Pending,
                requires_challenge: true,
                challenge_available: true,
            },
            OrderEvent::DnsPublished,
            OrderEvent::StatusObserved { status: AuthStatus::Valid },
            OrderEvent::ConfirmResult { confirmed: true },
        ],
    );
    assert_eq!(
        trace,
        vec![
            OrderAction::QueryAuthorization,
            OrderAction::CleanDnsRecords,
            OrderAction::PublishDnsRecord,
            OrderAction::RefreshOrder,
            OrderAction::RequestValidation { pause_ms: 15000 },
            OrderAction::RefreshOrder,
            OrderAction::CleanDnsRecords,
            OrderAction::QueryAuthStatus,
            OrderAction::QueryConfirmations,
        ]
    );
    assert_eq!(m.state, OrderState::CsrReady);
    // every publish is directly preceded by a delete-all, and one more
    // delete-all follows before the machine reads the outcome
    let publish_at = trace.iter().position(|a| *a == OrderAction::PublishDnsRecord).unwrap();
    assert_eq!(trace[publish_at - 1], OrderAction::CleanDnsRecords);
    assert!(trace[publish_at..].contains(&OrderAction::CleanDnsRecords));
}

#[test]
fn invalid_authorization_fails_after_cleanup() {
    let mut m = new_machine();
    let trace = drive(
        &mut m,
        &[
            OrderEvent::ConfirmResult { confirmed: false },
            OrderEvent::AuthObserved {
                status: AuthStatus::Pending,
                requires_challenge: true,
                challenge_available: true,
            },
            OrderEvent::DnsPublished,
            OrderEvent::StatusObserved { status: AuthStatus::Invalid },
        ],
    );
    assert_eq!(m.state, OrderState::Failed { reason: OrderFailure::AuthorizationInvalid });
    // the record was deleted before the failure propagated
    let publish_at = trace.iter().position(|a| *a == OrderAction::PublishDnsRecord).unwrap();
    let last_clean = trace.iter().rposition(|a| *a == OrderAction::CleanDnsRecords).unwrap();
    assert!(last_clean > publish_at);
    // and no action follows the failure
    assert_eq!(trace.last(), Some(&OrderAction::QueryAuthStatus));
}

#[test]
fn pending_authorization_waits_without_resubmitting() {
    let mut m = new_machine();
    let trace = drive(
        &mut m,
        &[
            OrderEvent::ConfirmResult { confirmed: false },
            OrderEvent::AuthObserved {
                status: AuthStatus::Pending,
                requires_challenge: false,
                challenge_available: false,
            },
        ],
    );
    assert_eq!(
        trace,
        vec![
            OrderAction::QueryAuthorization,
            OrderAction::PollPause { pause_ms: 5000 },
            OrderAction::RefreshOrder,
            OrderAction::QueryConfirmations,
        ]
    );
    assert_eq!(m.state, OrderState::Created);
    assert_eq!(m.attempts, 1);
    assert!(!trace.contains(&OrderAction::PublishDnsRecord));
}

#[test]
fn polling_budget_is_bounded() {
    let mut m = new_machine();
    let wait_cycle = [
        OrderEvent::ConfirmResult { confirmed: false },
        OrderEvent::AuthObserved {
            status: AuthStatus::Pending,
            requires_challenge: false,
            challenge_available: false,
        },
    ];
    for _ in 0..5 {
        drive(&mut m, &wait_cycle);
    }
    assert_eq!(m.attempts, 5);
    let acts = m.step(OrderEvent::ConfirmResult { confirmed: false });
    assert!(acts.is_empty());
    assert_eq!(m.state, OrderState::Failed { reason: OrderFailure::RetriesExhausted });
    // terminal states absorb further events
    let acts = m.step(OrderEvent::ConfirmResult { confirmed: true });
    assert!(acts.is_empty());
    assert_eq!(m.state, OrderState::Failed { reason: OrderFailure::RetriesExhausted });
    assert_eq!(m.attempts, 5);
}

#[test]
fn no_challenge_needed_just_refreshes() {
    let mut m = new_machine();
    let trace = drive(
        &mut m,
        &[
            OrderEvent::ConfirmResult { confirmed: false },
            OrderEvent::AuthObserved {
                status: AuthStatus::Valid,
                requires_challenge: false,
                challenge_available: false,
            },
            OrderEvent::StatusObserved { status: AuthStatus::Valid },
            OrderEvent::ConfirmResult { confirmed: true },
        ],
    );
    assert_eq!(
        trace,
        vec![
            OrderAction::QueryAuthorization,
            OrderAction::RefreshOrder,
            OrderAction::QueryAuthStatus,
            OrderAction::QueryConfirmations,
        ]
    );
    assert_eq!(m.state, OrderState::CsrReady);
}
