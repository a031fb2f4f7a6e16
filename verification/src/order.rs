//! The ACME order state machine.
//!
//! One machine drives one order from creation to a CSR-ready or failed
//! terminal state.  The machine makes every decision; the driver around it
//! performs the requested [`OrderAction`]s against the ACME server and the
//! DNS provider and reports what it observed as [`OrderEvent`]s.  Polling is
//! inherent: the ACME server and the DNS provider are independently
//! eventually consistent, so the machine re-queries with pauses, under a
//! strict attempt budget.

use vstd::prelude::*;

verus! {

/// Status of an ACME authorization as reported by the server.
#[derive(Clone, Copy, Debug, PartialEq, Eq, Structural)]
pub enum AuthStatus {
    Pending,
    Valid,
    Invalid,
    Unknown,
}

/// Why an order ended in `Failed`.
#[derive(Clone, Copy, Debug, PartialEq, Eq, Structural)]
pub enum OrderFailure {
    /// The polling budget was exhausted before the order was confirmed.
    RetriesExhausted,
    /// The authorization came back `invalid`: a protocol-level failure of
    /// this attempt, surfaced to the caller instead of being retried here.
    AuthorizationInvalid,
}

/// The state of one in-flight order.  Each non-terminal state is waiting
/// for exactly one kind of [`OrderEvent`].
#[derive(Clone, Copy, Debug, PartialEq, Eq, Structural)]
pub enum OrderState {
    /// At the start of a polling iteration; a confirmation query is out.
    Created,
    /// Confirmation said no; the order's single authorization is being
    /// inspected.
    AwaitingAuthorization,
    /// Stale records were deleted and the challenge TXT record is being
    /// published.
    ChallengePending,
    /// The challenge cycle of this iteration is over (validation was
    /// requested, or no challenge was required); the authorization status
    /// is being read.
    ChallengeSubmitted,
    /// The status read back was not `invalid`; the next confirmation query
    /// is out.
    Validated,
    /// Terminal success: every validation is confirmed, a CSR can be
    /// submitted.
    CsrReady,
    /// Terminal failure.
    Failed { reason: OrderFailure },
}

/// What the driver observed in answer to the machine's last actions.
#[derive(Clone, Copy, Debug, PartialEq, Eq, Structural)]
pub enum OrderEvent {
    /// Answer to `QueryConfirmations`: whether every validation is already
    /// confirmed.
    ConfirmResult { confirmed: bool },
    /// Answer to `QueryAuthorization`: the authorization's status, whether
    /// it still requires a challenge, and whether a DNS challenge is
    /// available on it.
    AuthObserved { status: AuthStatus, requires_challenge: bool, challenge_available: bool },
    /// Answer to `PublishDnsRecord`: the TXT record was created.
    DnsPublished,
    /// Answer to `QueryAuthStatus`.
    StatusObserved { status: AuthStatus },
}

/// What the machine asks the driver to do next, in order.
#[derive(Clone, Copy, Debug, PartialEq, Eq, Structural)]
pub enum OrderAction {
    /// Ask the order whether all validations are already confirmed.
    QueryConfirmations,
    /// Fetch the order's single authorization (DNS-01 wildcard orders carry
    /// exactly one).
    QueryAuthorization,
    /// Delete every `_acme-challenge` TXT record of the domain.
    CleanDnsRecords,
    /// Create the challenge TXT record carrying the proof token.
    PublishDnsRecord,
    /// Refresh the order's state from the server.
    RefreshOrder,
    /// Ask the server to validate the challenge, granting it this pause.
    RequestValidation { pause_ms: u64 },
    /// Sleep between polling iterations.
    PollPause { pause_ms: u64 },
    /// Read the authorization's status.
    QueryAuthStatus,
}

/// The order state machine: its state, its completed polling iterations,
/// and its fixed budget and pauses.
#[derive(Clone, Copy, Debug, PartialEq, Eq, Structural)]
pub struct OrderMachine {
    pub state: OrderState,
    pub attempts: usize,
    pub max_attempts: usize,
    pub poll_pause_ms: u64,
    pub validation_pause_ms: u64,
}

impl OrderMachine {
    /// The machine's invariant: the attempt count never passes the budget,
    /// and mid-iteration states imply the budget was not yet reached (the
    /// budget check happens at the start of each iteration).
    pub open spec fn inv(self) -> bool {
        &&& self.attempts <= self.max_attempts
        &&& (self.state is AwaitingAuthorization || self.state is ChallengePending
            || self.state is ChallengeSubmitted) ==> self.attempts < self.max_attempts
    }

    /// Both terminal states.
    pub open spec fn is_terminal(self) -> bool {
        self.state is CsrReady || self.state is Failed
    }

    pub open spec fn spec_init(
        max_attempts: usize,
        poll_pause_ms: u64,
        validation_pause_ms: u64,
    ) -> OrderMachine {
        OrderMachine {
            state: OrderState::Created,
            attempts: 0,
            max_attempts,
            poll_pause_ms,
            validation_pause_ms,
        }
    }

    /// A machine for a freshly created order.  The first confirmation
    /// query is considered out: the driver's first report is a
    /// `ConfirmResult`.
    pub fn new(max_attempts: usize, poll_pause_ms: u64, validation_pause_ms: u64) -> (m:
        OrderMachine)
        requires
            max_attempts >= 1,
        ensures
            m == OrderMachine::spec_init(max_attempts, poll_pause_ms, validation_pause_ms),
            m.inv(),
    {
        OrderMachine {
            state: OrderState::Created,
            attempts: 0,
            max_attempts,
            poll_pause_ms,
            validation_pause_ms,
        }
    }

    /// One transition of the machine.  The returned actions are what the
    /// driver must perform, in order, before reporting the next event.
    /// An event that does not answer the pending query leaves the machine
    /// unchanged.
    pub fn step(&mut self, e: OrderEvent) -> (acts: Vec<OrderAction>)
        requires
            old(self).inv(),
        ensures
            *final(self) == spec_step(*old(self), e).0,
            acts@ == spec_step(*old(self), e).1,
            final(self).inv(),
    {
        let m = *self;
        match (m.state, e) {
            (OrderState::Created, OrderEvent::ConfirmResult { confirmed }) => self.step_confirm(
                confirmed,
            ),
            (OrderState::Validated, OrderEvent::ConfirmResult { confirmed }) => self.step_confirm(
                confirmed,
            ),
            (
                OrderState::AwaitingAuthorization,
                OrderEvent::AuthObserved { status, requires_challenge, challenge_available },
            ) => {
                if matches!(status, AuthStatus::Pending) && !requires_challenge {
                    // Evidence was already submitted and the CA has not
                    // noticed it yet: wait and poll again, without
                    // re-submitting the challenge.
                    self.state = OrderState::Created;
                    self.attempts = self.attempts + 1;
                    let acts = vec![
                        OrderAction::PollPause { pause_ms: m.poll_pause_ms },
                        OrderAction::RefreshOrder,
                        OrderAction::QueryConfirmations,
                    ];
                    proof {
                        assert(acts@ =~= spec_step(m, e).1);
                    }
                    acts
                } else if requires_challenge && challenge_available {
                    self.state = OrderState::ChallengePending;
                    let acts = vec![OrderAction::CleanDnsRecords, OrderAction::PublishDnsRecord];
                    proof {
                        assert(acts@ =~= spec_step(m, e).1);
                    }
                    acts
                } else if requires_challenge {
                    // A challenge is required but no DNS challenge is
                    // available: nothing can be submitted, read the status.
                    self.state = OrderState::ChallengeSubmitted;
                    let acts = vec![OrderAction::QueryAuthStatus];
                    proof {
                        assert(acts@ =~= spec_step(m, e).1);
                    }
                    acts
                } else {
                    self.state = OrderState::ChallengeSubmitted;
                    let acts = vec![OrderAction::RefreshOrder, OrderAction::QueryAuthStatus];
                    proof {
                        assert(acts@ =~= spec_step(m, e).1);
                    }
                    acts
                }
            },
            (OrderState::ChallengePending, OrderEvent::DnsPublished) => {
                // Validation is requested, and the challenge record is
                // deleted again whatever the validation outcome was.
                self.state = OrderState::ChallengeSubmitted;
                let acts = vec![
                    OrderAction::RefreshOrder,
                    OrderAction::RequestValidation { pause_ms: m.validation_pause_ms },
                    OrderAction::RefreshOrder,
                    OrderAction::CleanDnsRecords,
                    OrderAction::QueryAuthStatus,
                ];
                proof {
                    assert(acts@ =~= spec_step(m, e).1);
                }
                acts
            },
            (OrderState::ChallengeSubmitted, OrderEvent::StatusObserved { status }) => {
                if matches!(status, AuthStatus::Invalid) {
                    self.state = OrderState::Failed {
                        reason: OrderFailure::AuthorizationInvalid,
                    };
                    Vec::new()
                } else {
                    self.state = OrderState::Validated;
                    self.attempts = self.attempts + 1;
                    let acts = vec![OrderAction::QueryConfirmations];
                    proof {
                        assert(acts@ =~= spec_step(m, e).1);
                    }
                    acts
                }
            },
            _ => Vec::new(),
        }
    }

    /// The shared handling of a `ConfirmResult` at the start of an
    /// iteration: success ends the order, otherwise the budget is checked
    /// before the authorization is inspected.
    fn step_confirm(&mut self, confirmed: bool) -> (acts: Vec<OrderAction>)
        requires
            old(self).inv(),
            old(self).state is Created || old(self).state is Validated,
        ensures
            *final(self) == spec_confirm_step(*old(self), confirmed).0,
            acts@ == spec_confirm_step(*old(self), confirmed).1,
            final(self).inv(),
    {
        if confirmed {
            self.state = OrderState::CsrReady;
            Vec::new()
        } else if self.attempts >= self.max_attempts {
            self.state = OrderState::Failed { reason: OrderFailure::RetriesExhausted };
            Vec::new()
        } else {
            self.state = OrderState::AwaitingAuthorization;
            let acts = vec![OrderAction::QueryAuthorization];
            proof {
                assert(acts@ =~= spec_confirm_step(*old(self), confirmed).1);
            }
            acts
        }
    }
}

/// Start of a polling iteration: confirmed orders finish, an exhausted
/// budget fails the order, otherwise the authorization is inspected.
pub open spec fn spec_confirm_step(m: OrderMachine, confirmed: bool) -> (OrderMachine, Seq<
    OrderAction,
>) {
    if confirmed {
        (OrderMachine { state: OrderState::CsrReady, ..m }, Seq::empty())
    } else if m.attempts >= m.max_attempts {
        (
            OrderMachine { state: OrderState::Failed { reason: OrderFailure::RetriesExhausted }, ..m },
            Seq::empty(),
        )
    } else {
        (
            OrderMachine { state: OrderState::AwaitingAuthorization, ..m },
            seq![OrderAction::QueryAuthorization],
        )
    }
}

/// The machine's full transition function: next machine and emitted
/// actions, for every state and event.  Unanswered-query mismatches
/// stutter.
pub open spec fn spec_step(m: OrderMachine, e: OrderEvent) -> (OrderMachine, Seq<OrderAction>) {
    match (m.state, e) {
        (OrderState::Created, OrderEvent::ConfirmResult { confirmed }) => spec_confirm_step(
            m,
            confirmed,
        ),
        (OrderState::Validated, OrderEvent::ConfirmResult { confirmed }) => spec_confirm_step(
            m,
            confirmed,
        ),
        (
            OrderState::AwaitingAuthorization,
            OrderEvent::AuthObserved { status, requires_challenge, challenge_available },
        ) => {
            if status is Pending && !requires_challenge {
                (
                    OrderMachine {
                        state: OrderState::Created,
                        attempts: (m.attempts + 1) as usize,
                        ..m
                    },
                    seq![
                        OrderAction::PollPause { pause_ms: m.poll_pause_ms },
                        OrderAction::RefreshOrder,
                        OrderAction::QueryConfirmations,
                    ],
                )
            } else if requires_challenge && challenge_available {
                (
                    OrderMachine { state: OrderState::ChallengePending, ..m },
                    seq![OrderAction::CleanDnsRecords, OrderAction::PublishDnsRecord],
                )
            } else if requires_challenge {
                (
                    OrderMachine { state: OrderState::ChallengeSubmitted, ..m },
                    seq![OrderAction::QueryAuthStatus],
                )
            } else {
                (
                    OrderMachine { state: OrderState::ChallengeSubmitted, ..m },
                    seq![OrderAction::RefreshOrder, OrderAction::QueryAuthStatus],
                )
            }
        },
        (OrderState::ChallengePending, OrderEvent::DnsPublished) => (
            OrderMachine { state: OrderState::ChallengeSubmitted, ..m },
            seq![
                OrderAction::RefreshOrder,
                OrderAction::RequestValidation { pause_ms: m.validation_pause_ms },
                OrderAction::RefreshOrder,
                OrderAction::CleanDnsRecords,
                OrderAction::QueryAuthStatus,
            ],
        ),
        (OrderState::ChallengeSubmitted, OrderEvent::StatusObserved { status }) => {
            if status is Invalid {
                (
                    OrderMachine {
                        state: OrderState::Failed { reason: OrderFailure::AuthorizationInvalid },
                        ..m
                    },
                    Seq::empty(),
                )
            } else {
                (
                    OrderMachine {
                        state: OrderState::Validated,
                        attempts: (m.attempts + 1) as usize,
                        ..m
                    },
                    seq![OrderAction::QueryConfirmations],
                )
            }
        },
        _ => (m, Seq::empty()),
    }
}

/// The machine after consuming a sequence of events.
pub open spec fn run(m: OrderMachine, events: Seq<OrderEvent>) -> OrderMachine
    decreases events.len(),
{
    if events.len() == 0 {
        m
    } else {
        spec_step(run(m, events.drop_last()), events.last()).0
    }
}

/// Everything the machine asked of the driver while consuming a sequence
/// of events, concatenated in order.
pub open spec fn run_actions(m: OrderMachine, events: Seq<OrderEvent>) -> Seq<OrderAction>
    decreases events.len(),
{
    if events.len() == 0 {
        Seq::empty()
    } else {
        run_actions(m, events.drop_last()) + spec_step(run(m, events.drop_last()), events.last()).1
    }
}

/// The net number of challenge records standing after a trace of actions
/// is performed: publishing adds one, a delete-all removes them all.
pub open spec fn net_dns_records(tr: Seq<OrderAction>) -> nat
    decreases tr.len(),
{
    if tr.len() == 0 {
        0
    } else {
        match tr.last() {
            OrderAction::CleanDnsRecords => 0,
            OrderAction::PublishDnsRecord => net_dns_records(tr.drop_last()) + 1,
            _ => net_dns_records(tr.drop_last()),
        }
    }
}

/// How many challenge records may stand while the machine is in a given
/// state: exactly one while the published record awaits validation, none
/// otherwise.
pub open spec fn expected_records(s: OrderState) -> nat {
    if s is ChallengePending {
        1
    } else {
        0
    }
}

/// Every publish in the trace is immediately preceded by a delete-all:
/// stale records are always removed before a new record is created.
pub open spec fn publishes_follow_cleanup(tr: Seq<OrderAction>) -> bool {
    forall|i: int|
        0 <= i < tr.len() && #[trigger] tr[i] is PublishDnsRecord ==> i >= 1 && tr[i - 1]
            is CleanDnsRecords
}

proof fn lemma_net_push(tr: Seq<OrderAction>, a: OrderAction)
    ensures
        net_dns_records(tr.push(a)) == match a {
            OrderAction::CleanDnsRecords => 0nat,
            OrderAction::PublishDnsRecord => net_dns_records(tr) + 1,
            _ => net_dns_records(tr),
        },
{
    assert(tr.push(a).drop_last() =~= tr);
}

/// Appending a batch that is internally clean-before-publish keeps the
/// whole trace clean-before-publish.
proof fn lemma_pfc_append(tr: Seq<OrderAction>, batch: Seq<OrderAction>)
    requires
        publishes_follow_cleanup(tr),
        publishes_follow_cleanup(batch),
        batch.len() > 0 ==> !(batch[0] is PublishDnsRecord),
    ensures
        publishes_follow_cleanup(tr + batch),
{
    let whole = tr + batch;
    assert forall|i: int|
        0 <= i < whole.len() && #[trigger] whole[i] is PublishDnsRecord implies i >= 1 && whole[i
        - 1] is CleanDnsRecords by {
        if i < tr.len() {
            assert(whole[i] == tr[i]);
            assert(tr[i - 1] is CleanDnsRecords);
            assert(whole[i - 1] == tr[i - 1]);
        } else {
            let j = i - tr.len();
            assert(whole[i] == batch[j]);
            assert(batch[j - 1] is CleanDnsRecords);
            assert(whole[i - 1] == batch[j - 1]);
        }
    }
}

/// One step keeps the record accounting consistent: the records standing
/// after the new actions are exactly what the next state expects, and the
/// extended trace still cleans before publishing.
proof fn lemma_step_cleanup(m: OrderMachine, e: OrderEvent, tr: Seq<OrderAction>)
    requires
        net_dns_records(tr) == expected_records(m.state),
        publishes_follow_cleanup(tr),
    ensures
        net_dns_records(tr + spec_step(m, e).1) == expected_records(spec_step(m, e).0.state),
        publishes_follow_cleanup(tr + spec_step(m, e).1),
{
    let batch = spec_step(m, e).1;
    if batch.len() == 0 {
        assert(tr + batch =~= tr);
    } else if batch.len() == 1 {
        assert(tr + batch =~= tr.push(batch[0]));
        lemma_net_push(tr, batch[0]);
    } else if batch.len() == 2 {
        assert(tr + batch =~= tr.push(batch[0]).push(batch[1]));
        lemma_net_push(tr, batch[0]);
        lemma_net_push(tr.push(batch[0]), batch[1]);
    } else if batch.len() == 3 {
        assert(tr + batch =~= tr.push(batch[0]).push(batch[1]).push(batch[2]));
        lemma_net_push(tr, batch[0]);
        lemma_net_push(tr.push(batch[0]), batch[1]);
        lemma_net_push(tr.push(batch[0]).push(batch[1]), batch[2]);
    } else {
        assert(tr + batch =~= tr.push(batch[0]).push(batch[1]).push(batch[2]).push(batch[3]).push(
            batch[4],
        ));
        lemma_net_push(tr, batch[0]);
        lemma_net_push(tr.push(batch[0]), batch[1]);
        lemma_net_push(tr.push(batch[0]).push(batch[1]), batch[2]);
        lemma_net_push(tr.push(batch[0]).push(batch[1]).push(batch[2]), batch[3]);
        lemma_net_push(tr.push(batch[0]).push(batch[1]).push(batch[2]).push(batch[3]), batch[4]);
    }
    lemma_pfc_append(tr, batch);
}

/// Idempotent cleanup: in any run of the machine from its initial state,
/// (1) a challenge record is only ever published immediately after a
/// delete-all of the domain's challenge records, and (2) unless the
/// machine is mid-challenge, no published record is left standing — in
/// particular, both terminal states (including a failure on an `invalid`
/// authorization) leave zero challenge records behind.
pub proof fn lemma_idempotent_cleanup(m: OrderMachine, events: Seq<OrderEvent>)
    requires
        !(m.state is ChallengePending),
    ensures
        publishes_follow_cleanup(run_actions(m, events)),
        net_dns_records(run_actions(m, events)) == expected_records(run(m, events).state),
    decreases events.len(),
{
    if events.len() > 0 {
        lemma_idempotent_cleanup(m, events.drop_last());
        lemma_step_cleanup(run(m, events.drop_last()), events.last(), run_actions(m, events.drop_last()));
    }
}

/// A single step preserves the invariant and never touches the budget or
/// the pauses; terminal states absorb every event.
pub proof fn lemma_step_preserves_inv(m: OrderMachine, e: OrderEvent)
    requires
        m.inv(),
    ensures
        spec_step(m, e).0.inv(),
        spec_step(m, e).0.max_attempts == m.max_attempts,
        m.is_terminal() ==> spec_step(m, e) == (m, Seq::<OrderAction>::empty()),
{
}

/// Bounded retries: however the driver responds, a machine started within
/// its budget stays within it — the attempt counter never exceeds
/// `max_attempts`, so at most `max_attempts` polling iterations happen
/// before the machine terminates.
pub proof fn lemma_attempts_bounded(m: OrderMachine, events: Seq<OrderEvent>)
    requires
        m.inv(),
    ensures
        run(m, events).inv(),
        run(m, events).max_attempts == m.max_attempts,
        run(m, events).attempts <= m.max_attempts,
    decreases events.len(),
{
    if events.len() > 0 {
        lemma_attempts_bounded(m, events.drop_last());
        lemma_step_preserves_inv(run(m, events.drop_last()), events.last());
    }
}

} // verus!
