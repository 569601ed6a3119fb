//! The bootstrap sequence: an ordered run of phases that brings a fresh
//! development network to a funded, mining state.
//!
//! The sequencer only decides. Its driver carries out the directive of the
//! current phase, reports how the phase went, and asks again. Only the three
//! readiness gates at the start can end the sequence in failure; every later
//! phase is best effort, so that a network which funds slowly still comes up.

use vstd::prelude::*;
use crate::balance::{BalanceView, WalletBalance};
use crate::probe::ProbeOutcome;
use crate::service::{Backend, Service};
use crate::text::str_eq;

verus! {

/// Seconds the node is given to become ready.
pub const NODE_DEADLINE_SECS: u64 = 120;

/// Seconds the indexing backend is given to become ready.
pub const BACKEND_DEADLINE_SECS: u64 = 180;

/// Seconds the faucet is given to become ready.
pub const FAUCET_DEADLINE_SECS: u64 = 120;

/// Seconds between two polls of a readiness gate.
pub const GATE_POLL_SECS: u64 = 1;

/// Chain height at which the first mined funds are spendable.
pub const MATURITY_HEIGHT: u64 = 101;

/// Seconds after which the wait for maturity is given up.
pub const MATURITY_CEILING_SECS: u64 = 60000;

/// Seconds between two readings of the chain height.
pub const MATURITY_POLL_SECS: u64 = 2;

/// Blocks requested on top of maturity.
pub const EXTRA_BLOCKS: u32 = 100;

/// Progress of block production is reported once per this many requests.
pub const REPORT_EVERY: u32 = 10;

/// Seconds left for the new blocks to reach every service.
pub const PROPAGATION_SECS: u64 = 10;

/// Seconds the wallet rests before and after a sync.
pub const SYNC_SETTLE_SECS: u64 = 5;

/// Seconds between a failed sync and its one retry.
pub const SYNC_BACKOFF_SECS: u64 = 10;

/// Seconds between a shield and the sync that follows it.
pub const RESYNC_WAIT_SECS: u64 = 15;

/// Seconds a broadcast shield is left to confirm.
pub const SHIELD_CONFIRM_SECS: u64 = 20;

/// Seconds between two blocks of the continuous miner.
pub const MINER_INTERVAL_SECS: u64 = 15;

/// Why a phase did not go cleanly.
#[derive(Clone, Copy, Debug, PartialEq, Eq, Structural)]
pub enum Reason {
    /// The service did not answer before its deadline.
    ServiceNotReady(Service),
    /// The chain did not reach maturity before the ceiling.
    MaturityCeiling,
    /// The address fixtures could not be produced.
    FixturesUnavailable,
    /// The wallet did not sync, retry included.
    SyncFailed,
    /// The balance could not be read.
    BalanceUnavailable,
    /// The wallet holds nothing.
    EmptyWallet,
    /// There were no transparent funds to shield.
    NoFunds,
    /// The shield transaction was not broadcast.
    ShieldFailed,
}

/// How a phase went.
#[derive(Clone, Copy, Debug, PartialEq, Eq, Structural)]
pub enum PhaseOutcome {
    Success,
    /// The phase fell short; the sequence goes on.
    Warning(Reason),
    /// The phase failed. At a readiness gate this ends the sequence; anywhere
    /// else it counts as a warning.
    Fatal(Reason),
}

/// The phases, in the order in which they run.
#[derive(Clone, Copy, Debug, PartialEq, Eq, Structural)]
pub enum BootstrapPhase {
    WaitNode,
    WaitBackend,
    WaitWalletService,
    MineToMaturity,
    MineExtra,
    PropagateDelay,
    GenerateFixtures,
    SyncWallet,
    CheckBalancePre,
    ShieldFunds,
    ResyncPostShield,
    CheckBalancePost,
    StartContinuousMiner,
    Done,
    Failed(Reason),
}

/// What the driver has to do in a phase.
#[derive(Clone, Copy, Debug, PartialEq, Eq, Structural)]
pub enum Directive {
    /// Probe the service until it is ready or the deadline has passed.
    Probe { service: Service, max_elapsed_secs: u64, poll_secs: u64 },
    /// Read the chain height until it reaches the target or the ceiling has
    /// passed.
    AwaitHeight { target: u64, ceiling_secs: u64, poll_secs: u64 },
    /// Ask for this many blocks, one request after the other.
    ProduceBlocks { count: u32, report_every: u32 },
    /// Wait.
    Pause { secs: u64 },
    /// Fetch the unified address and write the fixtures.
    GenerateFixtures,
    /// Wait, sync the wallet with this many retries after a failure, rest.
    Sync { wait_secs: u64, retries: u32, backoff_secs: u64, rest_secs: u64 },
    /// Read the balance.
    CheckBalance,
    /// Shield the transparent funds and leave the transaction to confirm.
    Shield { confirm_secs: u64 },
    /// Start the continuous miner.
    SpawnMiner { interval_secs: u64 },
    /// Nothing is left to do.
    Halt,
}

impl BootstrapPhase {
    /// The place of the phase in the order.
    pub open spec fn index(self) -> nat {
        match self {
            BootstrapPhase::WaitNode => 0,
            BootstrapPhase::WaitBackend => 1,
            BootstrapPhase::WaitWalletService => 2,
            BootstrapPhase::MineToMaturity => 3,
            BootstrapPhase::MineExtra => 4,
            BootstrapPhase::PropagateDelay => 5,
            BootstrapPhase::GenerateFixtures => 6,
            BootstrapPhase::SyncWallet => 7,
            BootstrapPhase::CheckBalancePre => 8,
            BootstrapPhase::ShieldFunds => 9,
            BootstrapPhase::ResyncPostShield => 10,
            BootstrapPhase::CheckBalancePost => 11,
            BootstrapPhase::StartContinuousMiner => 12,
            BootstrapPhase::Done => 13,
            BootstrapPhase::Failed(_) => 14,
        }
    }

    /// The readiness gates: the only phases that can end the sequence in
    /// failure.
    pub open spec fn is_gate(self) -> bool {
        self is WaitNode || self is WaitBackend || self is WaitWalletService
    }

    /// `Done` and `Failed`: nothing follows them.
    pub open spec fn is_terminal(self) -> bool {
        self is Done || self is Failed
    }

    /// The phase that follows this one, given how it went.
    pub open spec fn next(self, backend: Backend, outcome: PhaseOutcome) -> BootstrapPhase {
        if self.is_gate() && outcome is Fatal {
            BootstrapPhase::Failed(outcome->Fatal_0)
        } else {
            match self {
                BootstrapPhase::WaitNode => if backend is Absent {
                    BootstrapPhase::WaitWalletService
                } else {
                    BootstrapPhase::WaitBackend
                },
                BootstrapPhase::WaitBackend => BootstrapPhase::WaitWalletService,
                BootstrapPhase::WaitWalletService => BootstrapPhase::MineToMaturity,
                BootstrapPhase::MineToMaturity => BootstrapPhase::MineExtra,
                BootstrapPhase::MineExtra => BootstrapPhase::PropagateDelay,
                BootstrapPhase::PropagateDelay => BootstrapPhase::GenerateFixtures,
                BootstrapPhase::GenerateFixtures => BootstrapPhase::SyncWallet,
                BootstrapPhase::SyncWallet => BootstrapPhase::CheckBalancePre,
                BootstrapPhase::CheckBalancePre => BootstrapPhase::ShieldFunds,
                BootstrapPhase::ShieldFunds => if outcome is Success {
                    BootstrapPhase::ResyncPostShield
                } else {
                    BootstrapPhase::CheckBalancePost
                },
                BootstrapPhase::ResyncPostShield => BootstrapPhase::CheckBalancePost,
                BootstrapPhase::CheckBalancePost => BootstrapPhase::StartContinuousMiner,
                BootstrapPhase::StartContinuousMiner => BootstrapPhase::Done,
                BootstrapPhase::Done => BootstrapPhase::Done,
                BootstrapPhase::Failed(reason) => BootstrapPhase::Failed(reason),
            }
        }
    }

    /// What the driver has to do in this phase.
    pub open spec fn directive(self, backend: Backend) -> Directive {
        match self {
            BootstrapPhase::WaitNode => Directive::Probe {
                service: Service::Node,
                max_elapsed_secs: NODE_DEADLINE_SECS,
                poll_secs: GATE_POLL_SECS,
            },
            BootstrapPhase::WaitBackend => match backend.service_view() {
                Some(service) => Directive::Probe {
                    service,
                    max_elapsed_secs: BACKEND_DEADLINE_SECS,
                    poll_secs: GATE_POLL_SECS,
                },
                None => Directive::Pause { secs: 0 },
            },
            BootstrapPhase::WaitWalletService => Directive::Probe {
                service: Service::Faucet,
                max_elapsed_secs: FAUCET_DEADLINE_SECS,
                poll_secs: GATE_POLL_SECS,
            },
            BootstrapPhase::MineToMaturity => Directive::AwaitHeight {
                target: MATURITY_HEIGHT,
                ceiling_secs: MATURITY_CEILING_SECS,
                poll_secs: MATURITY_POLL_SECS,
            },
            BootstrapPhase::MineExtra => Directive::ProduceBlocks {
                count: EXTRA_BLOCKS,
                report_every: REPORT_EVERY,
            },
            BootstrapPhase::PropagateDelay => Directive::Pause { secs: PROPAGATION_SECS },
            BootstrapPhase::GenerateFixtures => Directive::GenerateFixtures,
            BootstrapPhase::SyncWallet => Directive::Sync {
                wait_secs: SYNC_SETTLE_SECS,
                retries: 1,
                backoff_secs: SYNC_BACKOFF_SECS,
                rest_secs: SYNC_SETTLE_SECS,
            },
            BootstrapPhase::CheckBalancePre => Directive::CheckBalance,
            BootstrapPhase::ShieldFunds => Directive::Shield { confirm_secs: SHIELD_CONFIRM_SECS },
            BootstrapPhase::ResyncPostShield => Directive::Sync {
                wait_secs: RESYNC_WAIT_SECS,
                retries: 0,
                backoff_secs: 0,
                rest_secs: SYNC_SETTLE_SECS,
            },
            BootstrapPhase::CheckBalancePost => Directive::CheckBalance,
            BootstrapPhase::StartContinuousMiner => Directive::SpawnMiner {
                interval_secs: MINER_INTERVAL_SECS,
            },
            BootstrapPhase::Done => Directive::Halt,
            BootstrapPhase::Failed(_) => Directive::Halt,
        }
    }

    /// The phase reached from this one after the given outcomes, one per
    /// phase, in order.
    pub open spec fn run(self, backend: Backend, outcomes: Seq<PhaseOutcome>) -> BootstrapPhase
        decreases outcomes.len(),
    {
        if outcomes.len() == 0 {
            self
        } else {
            self.next(backend, outcomes[0]).run(backend, outcomes.drop_first())
        }
    }
}

/// The sequence only moves forward: every phase but the last ones is
/// followed by a later phase, and nothing follows `Done` or `Failed`.
pub proof fn lemma_advance_is_monotonic(
    phase: BootstrapPhase,
    backend: Backend,
    outcome: PhaseOutcome,
)
    ensures
        phase.is_terminal() ==> phase.next(backend, outcome) == phase,
        !phase.is_terminal() ==> phase.index() < phase.next(backend, outcome).index(),
{
}

/// A phase leads to `Failed` exactly when it is a readiness gate and its
/// outcome was fatal; the failure keeps the reason given.
pub proof fn lemma_only_gates_fail(phase: BootstrapPhase, backend: Backend, outcome: PhaseOutcome)
    requires
        !(phase is Failed),
    ensures
        phase.next(backend, outcome) is Failed <==> phase.is_gate() && outcome is Fatal,
        phase.next(backend, outcome) matches BootstrapPhase::Failed(reason) ==> outcome
            == PhaseOutcome::Fatal(reason),
{
}

/// `Done` is entered from the start of the continuous miner and from nowhere
/// else.
pub proof fn lemma_done_follows_miner(
    phase: BootstrapPhase,
    backend: Backend,
    outcome: PhaseOutcome,
)
    requires
        phase.next(backend, outcome) is Done,
    ensures
        phase is StartContinuousMiner || phase is Done,
{
}

/// Once failed, the sequence stays failed whatever is reported to it.
pub proof fn lemma_failed_is_final(
    reason: Reason,
    backend: Backend,
    outcomes: Seq<PhaseOutcome>,
)
    ensures
        BootstrapPhase::Failed(reason).run(backend, outcomes) == BootstrapPhase::Failed(reason),
    decreases outcomes.len(),
{
    if outcomes.len() > 0 {
        lemma_failed_is_final(reason, backend, outcomes.drop_first());
    }
}

/// A readiness gate that fails ends the sequence there: whatever is reported
/// afterwards, no later phase is entered.
pub proof fn lemma_failed_gate_ends_sequence(
    gate: BootstrapPhase,
    backend: Backend,
    reason: Reason,
    later: Seq<PhaseOutcome>,
)
    requires
        gate.is_gate(),
    ensures
        gate.run(backend, seq![PhaseOutcome::Fatal(reason)] + later) == BootstrapPhase::Failed(
            reason,
        ),
{
    let outcomes = seq![PhaseOutcome::Fatal(reason)] + later;
    assert(outcomes[0] == PhaseOutcome::Fatal(reason));
    assert(outcomes.drop_first() =~= later);
    lemma_failed_is_final(reason, backend, later);
}

/// Past the readiness gates nothing can fail the sequence, and eleven
/// reports, however bad, are enough to have started the continuous miner and
/// finished.
pub proof fn lemma_miner_always_starts(
    phase: BootstrapPhase,
    backend: Backend,
    outcomes: Seq<PhaseOutcome>,
)
    requires
        !phase.is_gate(),
        !(phase is Failed),
    ensures
        !(phase.run(backend, outcomes) is Failed),
        !phase.run(backend, outcomes).is_gate(),
        phase.run(backend, outcomes).index() >= phase.index(),
        phase.index() + outcomes.len() >= 13 ==> phase.run(backend, outcomes) is Done,
    decreases outcomes.len(),
{
    if outcomes.len() > 0 {
        lemma_miner_always_starts(
            phase.next(backend, outcomes[0]),
            backend,
            outcomes.drop_first(),
        );
    }
}

/// What a `BootstrapSequencer` holds, as plain values.
pub struct BootstrapView {
    pub backend: Backend,
    pub phase: BootstrapPhase,
    /// Phases so far that did not go cleanly.
    pub warnings: nat,
}

impl BootstrapView {
    /// Whether reporting `outcome` now adds a warning: the phase is not over
    /// already, did not succeed, and did not end the sequence.
    pub open spec fn warns(self, outcome: PhaseOutcome) -> bool {
        &&& !self.phase.is_terminal()
        &&& !(outcome is Success)
        &&& !(self.phase.next(self.backend, outcome) is Failed)
    }

    /// The sequencer after `outcome` was reported for the current phase.
    pub open spec fn after(self, outcome: PhaseOutcome) -> BootstrapView {
        BootstrapView {
            backend: self.backend,
            phase: self.phase.next(self.backend, outcome),
            warnings: if self.warns(outcome) {
                self.warnings + 1
            } else {
                self.warnings
            },
        }
    }
}

/// Walks the bootstrap phases in order.
pub struct BootstrapSequencer {
    backend: Backend,
    phase: BootstrapPhase,
    warnings: u32,
}

impl View for BootstrapSequencer {
    type V = BootstrapView;

    closed spec fn view(&self) -> BootstrapView {
        BootstrapView { backend: self.backend, phase: self.phase, warnings: self.warnings as nat }
    }
}

impl BootstrapSequencer {
    #[verifier::type_invariant]
    spec fn counted(self) -> bool {
        self.warnings <= self.phase.index()
    }

    /// A sequencer at the first phase.
    pub fn new(backend: Backend) -> (sequencer: Self)
        ensures
            sequencer@ == (BootstrapView { backend, phase: BootstrapPhase::WaitNode, warnings: 0 }),
    {
        BootstrapSequencer { backend, phase: BootstrapPhase::WaitNode, warnings: 0 }
    }

    pub fn backend(&self) -> (backend: Backend)
        ensures
            backend == self@.backend,
    {
        self.backend
    }

    pub fn phase(&self) -> (phase: BootstrapPhase)
        ensures
            phase == self@.phase,
    {
        self.phase
    }

    /// The number of phases so far that did not go cleanly; never more than
    /// the phases passed.
    pub fn warnings(&self) -> (count: u32)
        ensures
            count == self@.warnings,
            count <= self@.phase.index(),
    {
        proof {
            use_type_invariant(self);
        }
        self.warnings
    }

    /// Whether the sequence is over, in `Done` or in `Failed`.
    pub fn is_finished(&self) -> (finished: bool)
        ensures
            finished == self@.phase.is_terminal(),
    {
        match self.phase {
            BootstrapPhase::Done => true,
            BootstrapPhase::Failed(_) => true,
            _ => false,
        }
    }

    /// What the driver has to do now.
    pub fn directive(&self) -> (directive: Directive)
        ensures
            directive == self@.phase.directive(self@.backend),
    {
        match self.phase {
            BootstrapPhase::WaitNode => Directive::Probe {
                service: Service::Node,
                max_elapsed_secs: NODE_DEADLINE_SECS,
                poll_secs: GATE_POLL_SECS,
            },
            BootstrapPhase::WaitBackend => match self.backend.service() {
                Some(service) => Directive::Probe {
                    service,
                    max_elapsed_secs: BACKEND_DEADLINE_SECS,
                    poll_secs: GATE_POLL_SECS,
                },
                None => Directive::Pause { secs: 0 },
            },
            BootstrapPhase::WaitWalletService => Directive::Probe {
                service: Service::Faucet,
                max_elapsed_secs: FAUCET_DEADLINE_SECS,
                poll_secs: GATE_POLL_SECS,
            },
            BootstrapPhase::MineToMaturity => Directive::AwaitHeight {
                target: MATURITY_HEIGHT,
                ceiling_secs: MATURITY_CEILING_SECS,
                poll_secs: MATURITY_POLL_SECS,
            },
            BootstrapPhase::MineExtra => Directive::ProduceBlocks {
                count: EXTRA_BLOCKS,
                report_every: REPORT_EVERY,
            },
            BootstrapPhase::PropagateDelay => Directive::Pause { secs: PROPAGATION_SECS },
            BootstrapPhase::GenerateFixtures => Directive::GenerateFixtures,
            BootstrapPhase::SyncWallet => Directive::Sync {
                wait_secs: SYNC_SETTLE_SECS,
                retries: 1,
                backoff_secs: SYNC_BACKOFF_SECS,
                rest_secs: SYNC_SETTLE_SECS,
            },
            BootstrapPhase::CheckBalancePre => Directive::CheckBalance,
            BootstrapPhase::ShieldFunds => Directive::Shield { confirm_secs: SHIELD_CONFIRM_SECS },
            BootstrapPhase::ResyncPostShield => Directive::Sync {
                wait_secs: RESYNC_WAIT_SECS,
                retries: 0,
                backoff_secs: 0,
                rest_secs: SYNC_SETTLE_SECS,
            },
            BootstrapPhase::CheckBalancePost => Directive::CheckBalance,
            BootstrapPhase::StartContinuousMiner => Directive::SpawnMiner {
                interval_secs: MINER_INTERVAL_SECS,
            },
            BootstrapPhase::Done => Directive::Halt,
            BootstrapPhase::Failed(_) => Directive::Halt,
        }
    }

    /// Takes the outcome of the current phase and enters the next one. A
    /// fatal outcome at a readiness gate enters `Failed` with its reason;
    /// everywhere else the sequence goes on to a later phase, and an outcome
    /// short of success is counted as a warning. `Done` and `Failed` are
    /// left by nothing.
    pub fn advance(&mut self, outcome: PhaseOutcome) -> (entered: BootstrapPhase)
        ensures
            final(self)@ == old(self)@.after(outcome),
            entered == final(self)@.phase,
    {
        proof {
            use_type_invariant(&*self);
        }
        let gate_failure = match outcome {
            PhaseOutcome::Fatal(reason) => match self.phase {
                BootstrapPhase::WaitNode => Some(reason),
                BootstrapPhase::WaitBackend => Some(reason),
                BootstrapPhase::WaitWalletService => Some(reason),
                _ => None,
            },
            _ => None,
        };
        let clean = match outcome {
            PhaseOutcome::Success => true,
            _ => false,
        };
        let finished = self.is_finished();
        let next = match gate_failure {
            Some(reason) => BootstrapPhase::Failed(reason),
            None => match self.phase {
                BootstrapPhase::WaitNode => match self.backend {
                    Backend::Absent => BootstrapPhase::WaitWalletService,
                    _ => BootstrapPhase::WaitBackend,
                },
                BootstrapPhase::WaitBackend => BootstrapPhase::WaitWalletService,
                BootstrapPhase::WaitWalletService => BootstrapPhase::MineToMaturity,
                BootstrapPhase::MineToMaturity => BootstrapPhase::MineExtra,
                BootstrapPhase::MineExtra => BootstrapPhase::PropagateDelay,
                BootstrapPhase::PropagateDelay => BootstrapPhase::GenerateFixtures,
                BootstrapPhase::GenerateFixtures => BootstrapPhase::SyncWallet,
                BootstrapPhase::SyncWallet => BootstrapPhase::CheckBalancePre,
                BootstrapPhase::CheckBalancePre => BootstrapPhase::ShieldFunds,
                BootstrapPhase::ShieldFunds => if clean {
                    BootstrapPhase::ResyncPostShield
                } else {
                    BootstrapPhase::CheckBalancePost
                },
                BootstrapPhase::ResyncPostShield => BootstrapPhase::CheckBalancePost,
                BootstrapPhase::CheckBalancePost => BootstrapPhase::StartContinuousMiner,
                BootstrapPhase::StartContinuousMiner => BootstrapPhase::Done,
                BootstrapPhase::Done => BootstrapPhase::Done,
                BootstrapPhase::Failed(reason) => BootstrapPhase::Failed(reason),
            },
        };
        self.phase = next;
        if !finished && !clean && gate_failure.is_none() {
            self.warnings = self.warnings + 1;
        }
        next
    }
}

/// The outcome of a readiness gate, from the probe of its service: a probe
/// that timed out is fatal and names the service.
pub fn gate_outcome(service: Service, probe: ProbeOutcome) -> (outcome: PhaseOutcome)
    ensures
        outcome == match probe {
            ProbeOutcome::Ready => PhaseOutcome::Success,
            ProbeOutcome::TimedOut => PhaseOutcome::Fatal(Reason::ServiceNotReady(service)),
        },
{
    match probe {
        ProbeOutcome::Ready => PhaseOutcome::Success,
        ProbeOutcome::TimedOut => PhaseOutcome::Fatal(Reason::ServiceNotReady(service)),
    }
}

/// What follows one attempt to sync the wallet.
#[derive(Clone, Copy, Debug, PartialEq, Eq, Structural)]
pub enum SyncStep {
    /// Wait, then try once more.
    Retry { backoff_secs: u64 },
    /// The phase is over.
    Finished(PhaseOutcome),
}

/// What follows attempt number `attempt` (from 1) of a sync that is allowed
/// `retries` retries. A sync that went through ends the phase in success.
/// One that failed is retried after the backoff while retries are left;
/// after the last it ends the phase in a warning, never in a failure.
pub open spec fn sync_step(attempt: u32, retries: u32, backoff_secs: u64, synced: bool) -> SyncStep {
    if synced {
        SyncStep::Finished(PhaseOutcome::Success)
    } else if attempt <= retries {
        SyncStep::Retry { backoff_secs }
    } else {
        SyncStep::Finished(PhaseOutcome::Warning(Reason::SyncFailed))
    }
}

/// Decides what follows one attempt to sync: see `sync_step`.
pub fn after_sync_attempt(attempt: u32, retries: u32, backoff_secs: u64, synced: bool) -> (step:
    SyncStep)
    ensures
        step == sync_step(attempt, retries, backoff_secs, synced),
{
    if synced {
        SyncStep::Finished(PhaseOutcome::Success)
    } else if attempt <= retries {
        SyncStep::Retry { backoff_secs }
    } else {
        SyncStep::Finished(PhaseOutcome::Warning(Reason::SyncFailed))
    }
}

/// A sync with `retries` retries is attempted at most `retries + 1` times:
/// the attempt after the last retry ends the phase whatever it came to.
pub proof fn lemma_sync_attempts_are_bounded(retries: u32, backoff_secs: u64, synced: bool)
    requires
        retries < u32::MAX,
    ensures
        sync_step((retries + 1) as u32, retries, backoff_secs, synced) is Finished,
        forall|attempt: u32|
            #[trigger] sync_step(attempt, retries, backoff_secs, synced) is Retry ==> attempt
                <= retries && !synced,
{
}

/// The outcome of a balance check for what was read: a balance that could
/// not be read and an empty wallet are warnings.
pub open spec fn balance_outcome(reading: Option<BalanceView>) -> PhaseOutcome {
    match reading {
        None => PhaseOutcome::Warning(Reason::BalanceUnavailable),
        Some(balance) => if balance.total() == 0 {
            PhaseOutcome::Warning(Reason::EmptyWallet)
        } else {
            PhaseOutcome::Success
        },
    }
}

/// Judges a balance check: see `balance_outcome`.
pub fn judge_balance(reading: Option<&WalletBalance>) -> (outcome: PhaseOutcome)
    ensures
        outcome == balance_outcome(
            match reading {
                Some(balance) => Some(balance@),
                None => None,
            },
        ),
{
    match reading {
        None => PhaseOutcome::Warning(Reason::BalanceUnavailable),
        Some(balance) => if balance.is_empty() {
            PhaseOutcome::Warning(Reason::EmptyWallet)
        } else {
            PhaseOutcome::Success
        },
    }
}

/// The outcome of the fixtures phase: a warning where the fixtures were not
/// written.
pub fn judge_fixtures(written: bool) -> (outcome: PhaseOutcome)
    ensures
        outcome == if written {
            PhaseOutcome::Success
        } else {
            PhaseOutcome::Warning(Reason::FixturesUnavailable)
        },
{
    if written {
        PhaseOutcome::Success
    } else {
        PhaseOutcome::Warning(Reason::FixturesUnavailable)
    }
}

/// The outcome of the shield phase for a reply of the faucet with these
/// fields: the `no_funds` status and a reply without a transaction id are
/// warnings, a transaction id is success.
pub open spec fn shield_reply_outcome(status: Option<Seq<char>>, has_txid: bool) -> PhaseOutcome {
    if status == Some("no_funds"@) {
        PhaseOutcome::Warning(Reason::NoFunds)
    } else if has_txid {
        PhaseOutcome::Success
    } else {
        PhaseOutcome::Warning(Reason::ShieldFailed)
    }
}

/// Judges the faucet's reply to a shield request: see `shield_reply_outcome`.
pub fn judge_shield_reply(status: Option<&str>, has_txid: bool) -> (outcome: PhaseOutcome)
    ensures
        outcome == shield_reply_outcome(
            match status {
                Some(s) => Some(s@),
                None => None,
            },
            has_txid,
        ),
{
    let no_funds = match status {
        Some(s) => str_eq(s, "no_funds"),
        None => false,
    };
    if no_funds {
        PhaseOutcome::Warning(Reason::NoFunds)
    } else if has_txid {
        PhaseOutcome::Success
    } else {
        PhaseOutcome::Warning(Reason::ShieldFailed)
    }
}

} // verus!
