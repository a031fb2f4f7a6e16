//! The per-domain renewal orchestrator.
//!
//! One machine runs one renewal workflow for one domain variant (apex or
//! wildcard): resolve the ACME directory, load or create the account and
//! domain keys, run the expiry gate, drive an order, finalize, archive the
//! previous chain and write the new one, then notify.  The machine makes
//! the decisions; the surrounding process performs each requested
//! [`RenewalAction`] and reports the outcome as a [`RenewalEvent`].
//! Transient API problems restart the whole workflow after a cooldown,
//! under a bounded attempt budget; local I/O and parse errors are fatal,
//! never silently papered over.

use vstd::prelude::*;

use crate::consts::PRIVATE_KEY_FILE_MODE;
use crate::date::{months_addable, timestamp_wf, Timestamp};
use crate::expiry::{renewal_decision, spec_needs_renewal, RenewalDecision};
use crate::order::OrderFailure;

verus! {

/// How a collaborator failure is classified by the driver.
#[derive(Clone, Copy, Debug, PartialEq, Eq, Structural)]
pub enum RenewalError {
    /// An ACME API problem or another network-level failure; expected to
    /// be transient and worth retrying after a cooldown.
    TransientApi,
    /// A local I/O or key/certificate parsing failure; fatal, because
    /// corrupted local state must halt the workflow, not be regenerated.
    LocalIo,
}

/// The final result of a renewal workflow that succeeded.
#[derive(Clone, Copy, Debug, PartialEq, Eq, Structural)]
pub enum RenewalOutcome {
    /// A new certificate chain was downloaded and written.
    Renewed,
    /// The existing certificate is still fresh; nothing was ordered or
    /// written.
    NotNeeded,
}

/// Why a renewal workflow failed for good.
#[derive(Clone, Copy, Debug, PartialEq, Eq, Structural)]
pub enum FatalReason {
    /// A local I/O or parsing error.
    LocalError,
    /// The retry budget for the whole renewal was exhausted.
    AttemptsExhausted,
}

/// The state of one renewal workflow.  Each non-terminal state waits for
/// exactly one kind of [`RenewalEvent`].
#[derive(Clone, Copy, Debug, PartialEq, Eq, Structural)]
pub enum RenewalState {
    /// Nothing requested yet.
    Idle,
    /// The ACME directory endpoint is being resolved.
    ResolvingDirectory,
    /// The existence of the account key file is being checked.
    CheckingAccountKey,
    /// The account is being loaded, or registered and persisted.
    PreparingAccount,
    /// The domain directory is ensured and the domain key file checked.
    CheckingDomainKey,
    /// The domain key is being loaded, or generated and persisted.
    PreparingDomainKey,
    /// The existing chain file is being checked and its expiry parsed.
    CheckingChain,
    /// A new order is being created for the domain.
    CreatingOrder,
    /// The order state machine is driving the order.
    DrivingOrder,
    /// The CSR was submitted; the CA is being polled for issuance.
    Finalizing,
    /// The chain is being archived (if one existed), downloaded and
    /// written.
    Persisting,
    /// A cooldown pause before the workflow restarts.
    CoolingDown,
    /// Terminal success.
    Done { outcome: RenewalOutcome },
    /// Terminal failure.
    FatalFailure { reason: FatalReason },
}

/// What the driver observed in answer to the machine's last actions.
#[derive(Clone, Copy, Debug)]
pub enum RenewalEvent {
    /// Begin the workflow.
    Start,
    /// Answer to `ResolveDirectory`.
    DirectoryReady,
    /// Answer to `CheckAccountKey`: whether the account key file exists.
    AccountKeyChecked { exists: bool },
    /// Answer to `LoadAccount` or `RegisterAccount`/`PersistAccountKey`.
    AccountReady,
    /// Answer to `EnsureDomainDir`/`CheckDomainKey`: whether the domain
    /// key file exists.
    DomainKeyChecked { exists: bool },
    /// Answer to `LoadDomainKey` or `GenerateDomainKey`/`PersistDomainKey`.
    DomainKeyReady,
    /// Answer to `CheckChain`: the parsed expiry of the existing chain, or
    /// `None` when no chain file exists.  A chain that exists but cannot
    /// be parsed is reported as `StepFailed` with a local error instead.
    ChainChecked { expiry: Option<Timestamp> },
    /// Answer to `CreateOrder`.
    OrderCreated,
    /// Answer to `DriveOrder`: the order machine reached `CsrReady`.
    OrderCompleted,
    /// Answer to `DriveOrder`: the order machine reached `Failed`.
    OrderRejected { reason: OrderFailure },
    /// Answer to `FinalizeOrder`: the certificate was issued.
    Finalized,
    /// Answer to the persist actions: the new chain file is written.
    ChainWritten,
    /// Answer to `Cooldown`: the pause elapsed.
    CooldownDone,
    /// The pending action failed, with the driver's classification.
    StepFailed { error: RenewalError },
}

/// What the machine asks the driver to do next, in order.  Names and paths
/// are not carried here: the driver derives them from the domain variant
/// through the naming functions.
#[derive(Clone, Copy, Debug, PartialEq, Eq, Structural)]
pub enum RenewalAction {
    /// Resolve the ACME directory, staging or production.
    ResolveDirectory { staging: bool },
    /// Check whether the account key file exists.
    CheckAccountKey,
    /// Load the account from the persisted key.
    LoadAccount,
    /// Register a new ACME account.
    RegisterAccount,
    /// Persist the account private key with this file mode.
    PersistAccountKey { mode: u32 },
    /// Create the domain variant's storage directory if missing.
    EnsureDomainDir,
    /// Check whether the domain key file exists.
    CheckDomainKey,
    /// Load the domain private key from its file.
    LoadDomainKey,
    /// Generate a fresh domain private key.
    GenerateDomainKey,
    /// Persist the domain private key with this file mode.
    PersistDomainKey { mode: u32 },
    /// Check for an existing chain file and parse its expiry.
    CheckChain,
    /// Create a new ACME order for the domain variant's identifier.
    CreateOrder,
    /// Drive the order through the order state machine.
    DriveOrder,
    /// Submit the CSR and poll the CA with this pause until issuance.
    FinalizeOrder { poll_pause_ms: u64 },
    /// Copy the existing chain file to its date-suffixed archive name.
    ArchiveChain,
    /// Download the issued certificate chain.
    DownloadCertificate,
    /// Write the downloaded chain to the chain file.
    WriteChain,
    /// Send the success notification to every configured channel,
    /// best-effort.
    Notify,
    /// Sleep before retrying the whole workflow.
    Cooldown { pause_ms: u64 },
}

/// The renewal orchestrator: its state, its completed failed attempts, and
/// its fixed configuration.
#[derive(Clone, Copy, Debug, PartialEq, Eq, Structural)]
pub struct RenewalMachine {
    pub state: RenewalState,
    /// Completed, failed workflow attempts so far.
    pub attempt: usize,
    /// Whether the chain check of the current attempt found a previous
    /// chain file.
    pub chain_existed: bool,
    /// Use the staging ACME endpoint.
    pub staging: bool,
    /// The expiry gate's renewal threshold, in months.
    pub threshold_months: u32,
    /// Total attempt budget for the whole workflow.
    pub max_attempts: usize,
    /// Pause before a retry of the whole workflow.
    pub cooldown_ms: u64,
    /// Poll pause while awaiting issuance after CSR submission.
    pub finalize_poll_ms: u64,
    /// The instant the expiry gate compares against.
    pub now: Timestamp,
}

impl RenewalMachine {
    /// Configuration well-formedness plus the attempt-budget invariant.
    pub open spec fn wf(self) -> bool {
        &&& timestamp_wf(self.now)
        &&& months_addable(self.now.date, self.threshold_months as int)
        &&& self.max_attempts >= 1
        &&& self.attempt < self.max_attempts
    }

    pub open spec fn is_terminal(self) -> bool {
        self.state is Done || self.state is FatalFailure
    }

    /// States in which a collaborator operation is pending and can fail.
    pub open spec fn is_operational(self) -> bool {
        !(self.state is Idle || self.state is CoolingDown || self.is_terminal())
    }

    pub open spec fn spec_init(
        staging: bool,
        threshold_months: u32,
        max_attempts: usize,
        cooldown_ms: u64,
        finalize_poll_ms: u64,
        now: Timestamp,
    ) -> RenewalMachine {
        RenewalMachine {
            state: RenewalState::Idle,
            attempt: 0,
            chain_existed: false,
            staging,
            threshold_months,
            max_attempts,
            cooldown_ms,
            finalize_poll_ms,
            now,
        }
    }

    /// A machine for one domain variant.  The driver begins by reporting
    /// `Start`.
    pub fn new(
        staging: bool,
        threshold_months: u32,
        max_attempts: usize,
        cooldown_ms: u64,
        finalize_poll_ms: u64,
        now: Timestamp,
    ) -> (m: RenewalMachine)
        requires
            max_attempts >= 1,
            timestamp_wf(now),
            months_addable(now.date, threshold_months as int),
        ensures
            m == RenewalMachine::spec_init(
                staging,
                threshold_months,
                max_attempts,
                cooldown_ms,
                finalize_poll_ms,
                now,
            ),
            m.wf(),
    {
        RenewalMachine {
            state: RenewalState::Idle,
            attempt: 0,
            chain_existed: false,
            staging,
            threshold_months,
            max_attempts,
            cooldown_ms,
            finalize_poll_ms,
            now,
        }
    }

    /// One transition of the machine.  The returned actions are what the
    /// driver must perform, in order, before reporting the next event.  An
    /// event that does not answer the pending operation leaves the machine
    /// unchanged.
    pub fn step(&mut self, e: RenewalEvent) -> (acts: Vec<RenewalAction>)
        requires
            old(self).wf(),
        ensures
            *final(self) == spec_renewal_step(*old(self), e).0,
            acts@ == spec_renewal_step(*old(self), e).1,
            final(self).wf(),
    {
        let m = *self;
        if let RenewalEvent::StepFailed { error } = e {
            if !(matches!(m.state, RenewalState::Idle) || matches!(
                m.state,
                RenewalState::CoolingDown,
            ) || matches!(m.state, RenewalState::Done { .. }) || matches!(
                m.state,
                RenewalState::FatalFailure { .. },
            )) {
                if matches!(error, RenewalError::LocalIo) {
                    self.state = RenewalState::FatalFailure { reason: FatalReason::LocalError };
                    return Vec::new();
                } else {
                    return self.step_retry();
                }
            } else {
                return Vec::new();
            }
        }
        match (m.state, e) {
            (RenewalState::Idle, RenewalEvent::Start) => {
                self.state = RenewalState::ResolvingDirectory;
                let acts = vec![RenewalAction::ResolveDirectory { staging: m.staging }];
                proof {
                    assert(acts@ =~= spec_renewal_step(m, e).1);
                }
                acts
            },
            (RenewalState::ResolvingDirectory, RenewalEvent::DirectoryReady) => {
                self.state = RenewalState::CheckingAccountKey;
                let acts = vec![RenewalAction::CheckAccountKey];
                proof {
                    assert(acts@ =~= spec_renewal_step(m, e).1);
                }
                acts
            },
            (RenewalState::CheckingAccountKey, RenewalEvent::AccountKeyChecked { exists }) => {
                self.state = RenewalState::PreparingAccount;
                let acts = if exists {
                    vec![RenewalAction::LoadAccount]
                } else {
                    vec![
                        RenewalAction::RegisterAccount,
                        RenewalAction::PersistAccountKey { mode: PRIVATE_KEY_FILE_MODE },
                    ]
                };
                proof {
                    assert(acts@ =~= spec_renewal_step(m, e).1);
                }
                acts
            },
            (RenewalState::PreparingAccount, RenewalEvent::AccountReady) => {
                self.state = RenewalState::CheckingDomainKey;
                let acts = vec![RenewalAction::EnsureDomainDir, RenewalAction::CheckDomainKey];
                proof {
                    assert(acts@ =~= spec_renewal_step(m, e).1);
                }
                acts
            },
            (RenewalState::CheckingDomainKey, RenewalEvent::DomainKeyChecked { exists }) => {
                self.state = RenewalState::PreparingDomainKey;
                let acts = if exists {
                    vec![RenewalAction::LoadDomainKey]
                } else {
                    vec![
                        RenewalAction::GenerateDomainKey,
                        RenewalAction::PersistDomainKey { mode: PRIVATE_KEY_FILE_MODE },
                    ]
                };
                proof {
                    assert(acts@ =~= spec_renewal_step(m, e).1);
                }
                acts
            },
            (RenewalState::PreparingDomainKey, RenewalEvent::DomainKeyReady) => {
                self.state = RenewalState::CheckingChain;
                let acts = vec![RenewalAction::CheckChain];
                proof {
                    assert(acts@ =~= spec_renewal_step(m, e).1);
                }
                acts
            },
            (RenewalState::CheckingChain, RenewalEvent::ChainChecked { expiry }) => {
                self.chain_existed = expiry.is_some();
                let dec = renewal_decision(expiry, &m.now, m.threshold_months);
                if matches!(dec, RenewalDecision::RenewalRequired) {
                    self.state = RenewalState::CreatingOrder;
                    let acts = vec![RenewalAction::CreateOrder];
                    proof {
                        assert(acts@ =~= spec_renewal_step(m, e).1);
                    }
                    acts
                } else {
                    self.state = RenewalState::Done { outcome: RenewalOutcome::NotNeeded };
                    Vec::new()
                }
            },
            (RenewalState::CreatingOrder, RenewalEvent::OrderCreated) => {
                self.state = RenewalState::DrivingOrder;
                let acts = vec![RenewalAction::DriveOrder];
                proof {
                    assert(acts@ =~= spec_renewal_step(m, e).1);
                }
                acts
            },
            (RenewalState::DrivingOrder, RenewalEvent::OrderCompleted) => {
                self.state = RenewalState::Finalizing;
                let acts = vec![RenewalAction::FinalizeOrder { poll_pause_ms: m.finalize_poll_ms }];
                proof {
                    assert(acts@ =~= spec_renewal_step(m, e).1);
                }
                acts
            },
            (RenewalState::DrivingOrder, RenewalEvent::OrderRejected { .. }) => self.step_retry(),
            (RenewalState::Finalizing, RenewalEvent::Finalized) => {
                self.state = RenewalState::Persisting;
                let acts = if m.chain_existed {
                    vec![
                        RenewalAction::ArchiveChain,
                        RenewalAction::DownloadCertificate,
                        RenewalAction::WriteChain,
                    ]
                } else {
                    vec![RenewalAction::DownloadCertificate, RenewalAction::WriteChain]
                };
                proof {
                    assert(acts@ =~= spec_renewal_step(m, e).1);
                }
                acts
            },
            (RenewalState::Persisting, RenewalEvent::ChainWritten) => {
                self.state = RenewalState::Done { outcome: RenewalOutcome::Renewed };
                let acts = vec![RenewalAction::Notify];
                proof {
                    assert(acts@ =~= spec_renewal_step(m, e).1);
                }
                acts
            },
            (RenewalState::CoolingDown, RenewalEvent::CooldownDone) => {
                self.state = RenewalState::ResolvingDirectory;
                let acts = vec![RenewalAction::ResolveDirectory { staging: m.staging }];
                proof {
                    assert(acts@ =~= spec_renewal_step(m, e).1);
                }
                acts
            },
            _ => Vec::new(),
        }
    }

    /// The shared retry handling: one more failed attempt; either the
    /// budget still allows a cooldown and a fresh start, or the workflow
    /// fails for good.
    fn step_retry(&mut self) -> (acts: Vec<RenewalAction>)
        requires
            old(self).wf(),
        ensures
            *final(self) == spec_retry_step(*old(self)).0,
            acts@ == spec_retry_step(*old(self)).1,
            final(self).wf(),
    {
        if self.attempt + 1 >= self.max_attempts {
            self.state = RenewalState::FatalFailure { reason: FatalReason::AttemptsExhausted };
            Vec::new()
        } else {
            self.attempt = self.attempt + 1;
            self.state = RenewalState::CoolingDown;
            let acts = vec![RenewalAction::Cooldown { pause_ms: self.cooldown_ms }];
            proof {
                assert(acts@ =~= spec_retry_step(*old(self)).1);
            }
            acts
        }
    }
}

/// A failed attempt: retry after a cooldown while the budget lasts,
/// otherwise fail for good.
pub open spec fn spec_retry_step(m: RenewalMachine) -> (RenewalMachine, Seq<RenewalAction>) {
    if m.attempt + 1 >= m.max_attempts {
        (
            RenewalMachine {
                state: RenewalState::FatalFailure { reason: FatalReason::AttemptsExhausted },
                ..m
            },
            Seq::empty(),
        )
    } else {
        (
            RenewalMachine {
                state: RenewalState::CoolingDown,
                attempt: (m.attempt + 1) as usize,
                ..m
            },
            seq![RenewalAction::Cooldown { pause_ms: m.cooldown_ms }],
        )
    }
}

/// The orchestrator's full transition function: next machine and emitted
/// actions, for every state and event.
pub open spec fn spec_renewal_step(m: RenewalMachine, e: RenewalEvent) -> (RenewalMachine, Seq<
    RenewalAction,
>) {
    match e {
        RenewalEvent::StepFailed { error } => {
            if m.is_operational() {
                if error is LocalIo {
                    (
                        RenewalMachine {
                            state: RenewalState::FatalFailure { reason: FatalReason::LocalError },
                            ..m
                        },
                        Seq::empty(),
                    )
                } else {
                    spec_retry_step(m)
                }
            } else {
                (m, Seq::empty())
            }
        },
        _ => match (m.state, e) {
            (RenewalState::Idle, RenewalEvent::Start) => (
                RenewalMachine { state: RenewalState::ResolvingDirectory, ..m },
                seq![RenewalAction::ResolveDirectory { staging: m.staging }],
            ),
            (RenewalState::ResolvingDirectory, RenewalEvent::DirectoryReady) => (
                RenewalMachine { state: RenewalState::CheckingAccountKey, ..m },
                seq![RenewalAction::CheckAccountKey],
            ),
            (RenewalState::CheckingAccountKey, RenewalEvent::AccountKeyChecked { exists }) => (
                RenewalMachine { state: RenewalState::PreparingAccount, ..m },
                if exists {
                    seq![RenewalAction::LoadAccount]
                } else {
                    seq![
                        RenewalAction::RegisterAccount,
                        RenewalAction::PersistAccountKey { mode: PRIVATE_KEY_FILE_MODE },
                    ]
                },
            ),
            (RenewalState::PreparingAccount, RenewalEvent::AccountReady) => (
                RenewalMachine { state: RenewalState::CheckingDomainKey, ..m },
                seq![RenewalAction::EnsureDomainDir, RenewalAction::CheckDomainKey],
            ),
            (RenewalState::CheckingDomainKey, RenewalEvent::DomainKeyChecked { exists }) => (
                RenewalMachine { state: RenewalState::PreparingDomainKey, ..m },
                if exists {
                    seq![RenewalAction::LoadDomainKey]
                } else {
                    seq![
                        RenewalAction::GenerateDomainKey,
                        RenewalAction::PersistDomainKey { mode: PRIVATE_KEY_FILE_MODE },
                    ]
                },
            ),
            (RenewalState::PreparingDomainKey, RenewalEvent::DomainKeyReady) => (
                RenewalMachine { state: RenewalState::CheckingChain, ..m },
                seq![RenewalAction::CheckChain],
            ),
            (RenewalState::CheckingChain, RenewalEvent::ChainChecked { expiry }) => {
                let checked = RenewalMachine { chain_existed: expiry is Some, ..m };
                if spec_needs_renewal(expiry, m.now, m.threshold_months) {
                    (
                        RenewalMachine { state: RenewalState::CreatingOrder, ..checked },
                        seq![RenewalAction::CreateOrder],
                    )
                } else {
                    (
                        RenewalMachine {
                            state: RenewalState::Done { outcome: RenewalOutcome::NotNeeded },
                            ..checked
                        },
                        Seq::empty(),
                    )
                }
            },
            (RenewalState::CreatingOrder, RenewalEvent::OrderCreated) => (
                RenewalMachine { state: RenewalState::DrivingOrder, ..m },
                seq![RenewalAction::DriveOrder],
            ),
            (RenewalState::DrivingOrder, RenewalEvent::OrderCompleted) => (
                RenewalMachine { state: RenewalState::Finalizing, ..m },
                seq![RenewalAction::FinalizeOrder { poll_pause_ms: m.finalize_poll_ms }],
            ),
            (RenewalState::DrivingOrder, RenewalEvent::OrderRejected { .. }) => spec_retry_step(m),
            (RenewalState::Finalizing, RenewalEvent::Finalized) => (
                RenewalMachine { state: RenewalState::Persisting, ..m },
                if m.chain_existed {
                    seq![
                        RenewalAction::ArchiveChain,
                        RenewalAction::DownloadCertificate,
                        RenewalAction::WriteChain,
                    ]
                } else {
                    seq![RenewalAction::DownloadCertificate, RenewalAction::WriteChain]
                },
            ),
            (RenewalState::Persisting, RenewalEvent::ChainWritten) => (
                RenewalMachine {
                    state: RenewalState::Done { outcome: RenewalOutcome::Renewed },
                    ..m
                },
                seq![RenewalAction::Notify],
            ),
            (RenewalState::CoolingDown, RenewalEvent::CooldownDone) => (
                RenewalMachine { state: RenewalState::ResolvingDirectory, ..m },
                seq![RenewalAction::ResolveDirectory { staging: m.staging }],
            ),
            _ => (m, Seq::empty()),
        },
    }
}

/// The machine after consuming a sequence of events.
pub open spec fn run(m: RenewalMachine, events: Seq<RenewalEvent>) -> RenewalMachine
    decreases events.len(),
{
    if events.len() == 0 {
        m
    } else {
        spec_renewal_step(run(m, events.drop_last()), events.last()).0
    }
}

/// Everything the machine asked of the driver while consuming a sequence
/// of events, concatenated in order.
pub open spec fn run_actions(m: RenewalMachine, events: Seq<RenewalEvent>) -> Seq<RenewalAction>
    decreases events.len(),
{
    if events.len() == 0 {
        Seq::empty()
    } else {
        run_actions(m, events.drop_last()) + spec_renewal_step(
            run(m, events.drop_last()),
            events.last(),
        ).1
    }
}

/// How many order creations a trace of actions contains.
pub open spec fn count_orders(tr: Seq<RenewalAction>) -> nat
    decreases tr.len(),
{
    if tr.len() == 0 {
        0
    } else {
        count_orders(tr.drop_last()) + if tr.last() is CreateOrder {
            1nat
        } else {
            0nat
        }
    }
}

proof fn lemma_count_orders_append(tr: Seq<RenewalAction>, batch: Seq<RenewalAction>)
    ensures
        count_orders(tr + batch) == count_orders(tr) + count_orders(batch),
    decreases batch.len(),
{
    if batch.len() == 0 {
        assert(tr + batch =~= tr);
    } else {
        assert((tr + batch).drop_last() =~= tr + batch.drop_last());
        lemma_count_orders_append(tr, batch.drop_last());
    }
}

/// States in which an order of the current attempt exists or may already
/// have been created.
pub open spec fn order_may_exist(s: RenewalState) -> bool {
    ||| s is CreatingOrder
    ||| s is DrivingOrder
    ||| s is Finalizing
    ||| s is Persisting
    ||| s is Done
    ||| s is FatalFailure
}

/// The only step that emits an order creation is the chain check that
/// finds renewal to be required — and that step emits exactly one.  In
/// particular, when renewal is not needed, and on every other transition,
/// no order is created.
pub proof fn lemma_order_iff_renewal_required(m: RenewalMachine, e: RenewalEvent)
    ensures
        count_orders(spec_renewal_step(m, e).1) == if m.state is CheckingChain && (e matches
            RenewalEvent::ChainChecked { expiry } && spec_needs_renewal(
            expiry,
            m.now,
            m.threshold_months,
        )) {
            1nat
        } else {
            0nat
        },
{
    let batch = spec_renewal_step(m, e).1;
    assert(count_orders(Seq::<RenewalAction>::empty()) == 0);
    if batch.len() == 1 {
        assert(batch.drop_last() =~= Seq::<RenewalAction>::empty());
        assert(count_orders(batch) == if batch[0] is CreateOrder {
            1nat
        } else {
            0nat
        });
    } else if batch.len() == 2 {
        let b1 = batch.drop_last();
        assert(b1.drop_last() =~= Seq::<RenewalAction>::empty());
        assert(count_orders(b1) == if b1[0] is CreateOrder {
            1nat
        } else {
            0nat
        });
        assert(count_orders(batch) == count_orders(b1) + if batch[1] is CreateOrder {
            1nat
        } else {
            0nat
        });
    } else if batch.len() == 3 {
        let b2 = batch.drop_last();
        let b1 = b2.drop_last();
        assert(b1.drop_last() =~= Seq::<RenewalAction>::empty());
        assert(count_orders(b1) == if b1[0] is CreateOrder {
            1nat
        } else {
            0nat
        });
        assert(count_orders(b2) == count_orders(b1) + if b2[1] is CreateOrder {
            1nat
        } else {
            0nat
        });
        assert(count_orders(batch) == count_orders(b2) + if batch[2] is CreateOrder {
            1nat
        } else {
            0nat
        });
    }
}

/// One step keeps the order count within the attempt budget.
proof fn lemma_step_orders(m: RenewalMachine, e: RenewalEvent, tr: Seq<RenewalAction>)
    requires
        count_orders(tr) <= m.attempt + if order_may_exist(m.state) {
            1int
        } else {
            0int
        },
    ensures
        count_orders(tr + spec_renewal_step(m, e).1) <= spec_renewal_step(m, e).0.attempt
            + if order_may_exist(spec_renewal_step(m, e).0.state) {
            1int
        } else {
            0int
        },
{
    lemma_order_iff_renewal_required(m, e);
    lemma_count_orders_append(tr, spec_renewal_step(m, e).1);
}

/// At most one order per attempt: over any run from the initial state, the
/// number of orders created never exceeds the number of workflow attempts
/// begun, and so never the attempt budget.
pub proof fn lemma_orders_bounded(m: RenewalMachine, events: Seq<RenewalEvent>)
    requires
        m.wf(),
        m.state is Idle,
        m.attempt == 0,
    ensures
        count_orders(run_actions(m, events)) <= run(m, events).attempt + if order_may_exist(
            run(m, events).state,
        ) {
            1int
        } else {
            0int
        },
        count_orders(run_actions(m, events)) <= run(m, events).attempt + 1,
        count_orders(run_actions(m, events)) <= m.max_attempts,
    decreases events.len(),
{
    lemma_run_wf(m, events);
    if events.len() == 0 {
    } else {
        lemma_orders_bounded(m, events.drop_last());
        lemma_run_wf(m, events.drop_last());
        lemma_step_orders(run(m, events.drop_last()), events.last(), run_actions(m, events.drop_last()));
    }
}

/// Key material is never regenerated while it exists on disk: a step asks
/// for a fresh domain key exactly when the key check reported the file
/// missing, and likewise for the account key — and then pairs the fresh
/// key with a persist under the owner-only file mode.
pub proof fn lemma_keys_generated_only_when_missing(m: RenewalMachine, e: RenewalEvent)
    ensures
        spec_renewal_step(m, e).1.contains(RenewalAction::GenerateDomainKey) <==> (m.state
            is CheckingDomainKey && (e matches RenewalEvent::DomainKeyChecked { exists }
            && !exists)),
        spec_renewal_step(m, e).1.contains(RenewalAction::RegisterAccount) <==> (m.state
            is CheckingAccountKey && (e matches RenewalEvent::AccountKeyChecked { exists }
            && !exists)),
        spec_renewal_step(m, e).1.contains(RenewalAction::GenerateDomainKey)
            ==> spec_renewal_step(m, e).1.contains(
            RenewalAction::PersistDomainKey { mode: PRIVATE_KEY_FILE_MODE },
        ),
        spec_renewal_step(m, e).1.contains(RenewalAction::RegisterAccount)
            ==> spec_renewal_step(m, e).1.contains(
            RenewalAction::PersistAccountKey { mode: PRIVATE_KEY_FILE_MODE },
        ),
{
    let batch = spec_renewal_step(m, e).1;
    if batch.len() == 1 {
        assert(batch.contains(batch[0]));
    } else if batch.len() == 2 {
        assert(batch.contains(batch[0]));
        assert(batch.contains(batch[1]));
    } else if batch.len() == 3 {
        assert(batch.contains(batch[0]));
        assert(batch.contains(batch[1]));
        assert(batch.contains(batch[2]));
    }
}

/// Whether an event is a chain check reporting a certificate that is still
/// fresh at the machine's clock and threshold (other events satisfy this
/// vacuously).
pub open spec fn reports_fresh_chain(e: RenewalEvent, now: Timestamp, threshold_months: u32) -> bool {
    e matches RenewalEvent::ChainChecked { expiry } ==> !spec_needs_renewal(
        expiry,
        now,
        threshold_months,
    )
}

/// States reachable only by passing the expiry gate with renewal required.
pub open spec fn gate_passed(s: RenewalState) -> bool {
    ||| s is CreatingOrder
    ||| s is DrivingOrder
    ||| s is Finalizing
    ||| s is Persisting
    ||| (s matches RenewalState::Done { outcome } && outcome is Renewed)
}

/// Renewal skip: when every chain check of a run finds the existing
/// certificate fresh beyond the threshold, the run performs zero order
/// creations (and never reaches the order-driving states at all).
pub proof fn lemma_fresh_chain_creates_no_order(m: RenewalMachine, events: Seq<RenewalEvent>)
    requires
        !gate_passed(m.state),
        forall|i: int|
            0 <= i < events.len() ==> #[trigger] reports_fresh_chain(
                events[i],
                m.now,
                m.threshold_months,
            ),
    ensures
        count_orders(run_actions(m, events)) == 0,
        !gate_passed(run(m, events).state),
    decreases events.len(),
{
    if events.len() > 0 {
        let prefix = events.drop_last();
        assert forall|i: int| 0 <= i < prefix.len() implies #[trigger] reports_fresh_chain(
            prefix[i],
            m.now,
            m.threshold_months,
        ) by {
            assert(prefix[i] == events[i]);
        }
        lemma_fresh_chain_creates_no_order(m, prefix);
        let mid = run(m, prefix);
        let e = events.last();
        assert(reports_fresh_chain(e, m.now, m.threshold_months));
        lemma_run_now_constant(m, prefix);
        lemma_order_iff_renewal_required(mid, e);
        lemma_count_orders_append(run_actions(m, prefix), spec_renewal_step(mid, e).1);
    }
}

/// The clock and the threshold are constant along any run (even without the full
/// well-formedness assumption).
proof fn lemma_run_now_constant(m: RenewalMachine, events: Seq<RenewalEvent>)
    ensures
        run(m, events).now == m.now,
        run(m, events).threshold_months == m.threshold_months,
    decreases events.len(),
{
    if events.len() > 0 {
        lemma_run_now_constant(m, events.drop_last());
    }
}

/// Every write of the chain file in the trace is directly preceded by the
/// download of the new chain and, before that, the archive copy of the
/// previous one.
pub open spec fn archived_before_write(tr: Seq<RenewalAction>) -> bool {
    forall|i: int|
        0 <= i < tr.len() && #[trigger] tr[i] is WriteChain ==> i >= 2 && tr[i - 1]
            is DownloadCertificate && tr[i - 2] is ArchiveChain
}

proof fn lemma_abw_append(tr: Seq<RenewalAction>, batch: Seq<RenewalAction>)
    requires
        archived_before_write(tr),
        archived_before_write(batch),
        batch.len() > 0 ==> !(batch[0] is WriteChain),
        batch.len() > 1 ==> !(batch[1] is WriteChain),
    ensures
        archived_before_write(tr + batch),
{
    let whole = tr + batch;
    assert forall|i: int|
        0 <= i < whole.len() && #[trigger] whole[i] is WriteChain implies i >= 2 && whole[i - 1]
        is DownloadCertificate && whole[i - 2] is ArchiveChain by {
        if i < tr.len() {
            assert(whole[i] == tr[i]);
            assert(tr[i] is WriteChain);
            assert(whole[i - 1] == tr[i - 1]);
            assert(whole[i - 2] == tr[i - 2]);
        } else {
            let j = i - tr.len();
            assert(whole[i] == batch[j]);
            assert(batch[j] is WriteChain);
            assert(j >= 2);
            assert(whole[i - 1] == batch[j - 1]);
            assert(whole[i - 2] == batch[j - 2]);
        }
    }
}

/// Whether an event is a chain check reporting that a chain file exists
/// (other events satisfy this vacuously).
pub open spec fn reports_existing_chain(e: RenewalEvent) -> bool {
    e matches RenewalEvent::ChainChecked { expiry } ==> expiry is Some
}

/// Archive before overwrite: when every chain check of a run finds an
/// existing chain file, every write of the chain file is preceded by the
/// archive copy of the previous chain (with the download of the new chain
/// in between) — the previous certificate is never destroyed before the
/// new one is confirmed downloaded.
pub proof fn lemma_archive_before_overwrite(m: RenewalMachine, events: Seq<RenewalEvent>)
    requires
        m.state is Idle,
        forall|i: int| 0 <= i < events.len() ==> #[trigger] reports_existing_chain(events[i]),
    ensures
        archived_before_write(run_actions(m, events)),
    decreases events.len(),
{
    lemma_abw_inv(m, events);
}

/// The induction behind `lemma_archive_before_overwrite`: once renewal was
/// found to be required, the machine remembers that a chain existed, and the only batch that
/// writes the chain is the archive-download-write triple.
proof fn lemma_abw_inv(m: RenewalMachine, events: Seq<RenewalEvent>)
    requires
        gate_passed(m.state) ==> m.chain_existed,
        !(m.state is Persisting) || m.chain_existed,
        forall|i: int| 0 <= i < events.len() ==> #[trigger] reports_existing_chain(events[i]),
    ensures
        archived_before_write(run_actions(m, events)),
        gate_passed(run(m, events).state) ==> run(m, events).chain_existed,
    decreases events.len(),
{
    if events.len() > 0 {
        let prefix = events.drop_last();
        assert forall|i: int| 0 <= i < prefix.len() implies #[trigger] reports_existing_chain(
            prefix[i],
        ) by {
            assert(prefix[i] == events[i]);
        }
        lemma_abw_inv(m, prefix);
        let mid = run(m, prefix);
        let e = events.last();
        assert(reports_existing_chain(e));
        let batch = spec_renewal_step(mid, e).1;
        assert(archived_before_write(batch)) by {
            if batch.len() == 3 && batch[2] is WriteChain {
                assert(batch[1] is DownloadCertificate && batch[0] is ArchiveChain);
            }
        }
        lemma_abw_append(run_actions(m, prefix), batch);
    }
}

/// A single step preserves well-formedness and never touches the
/// configuration; terminal states absorb every event.
pub proof fn lemma_step_preserves_wf(m: RenewalMachine, e: RenewalEvent)
    requires
        m.wf(),
    ensures
        spec_renewal_step(m, e).0.wf(),
        spec_renewal_step(m, e).0.now == m.now,
        spec_renewal_step(m, e).0.threshold_months == m.threshold_months,
        spec_renewal_step(m, e).0.max_attempts == m.max_attempts,
        m.is_terminal() ==> spec_renewal_step(m, e) == (m, Seq::<RenewalAction>::empty()),
{
}

/// Well-formedness, constant configuration and the attempt bound hold
/// along every run.
pub proof fn lemma_run_wf(m: RenewalMachine, events: Seq<RenewalEvent>)
    requires
        m.wf(),
    ensures
        run(m, events).wf(),
        run(m, events).now == m.now,
        run(m, events).threshold_months == m.threshold_months,
        run(m, events).max_attempts == m.max_attempts,
        run(m, events).attempt < m.max_attempts,
    decreases events.len(),
{
    if events.len() > 0 {
        lemma_run_wf(m, events.drop_last());
        lemma_step_preserves_wf(run(m, events.drop_last()), events.last());
    }
}

} // verus!
