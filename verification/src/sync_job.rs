//! The background wallet sync: once per interval it tries for the wallet
//! with a short bounded wait, syncs if it got it, and skips the cycle if it
//! did not. A skipped cycle is gone; nothing piles up for later.

use vstd::prelude::*;
use crate::coordinator::{Acquire, WalletAccessToken, WalletCoordinator};

verus! {

/// Seconds the job waits after startup before its first cycle.
pub const SYNC_STARTUP_DELAY_SECS: u64 = 10;

/// Seconds between two cycles.
pub const SYNC_INTERVAL_SECS: u64 = 60;

/// Seconds a cycle waits for the wallet before it is skipped.
pub const SYNC_ACQUIRE_TIMEOUT_SECS: u64 = 2;

/// Seconds a background sync is given before it counts as timed out.
pub const SYNC_TIMEOUT_SECS: u64 = 90;

/// Seconds the sync at startup is given before it counts as timed out.
pub const INITIAL_SYNC_TIMEOUT_SECS: u64 = 120;

/// When the job runs and how long it waits.
#[derive(Clone, Copy, Debug, PartialEq, Eq, Structural)]
pub struct SyncSchedule {
    /// Seconds from startup to the first cycle.
    pub startup_delay_secs: u64,
    /// Seconds between two cycles; a tick that was missed is not made up.
    pub interval_secs: u64,
    /// Seconds a cycle waits for the wallet before it is skipped.
    pub acquire_timeout_secs: u64,
}

/// What a cycle does once it knows whether it has the wallet.
#[derive(Clone, Copy, Debug, PartialEq, Eq, Structural)]
pub enum CycleStep {
    /// Sync now, for at most this many seconds.
    Sync { cycle: u64, timeout_secs: u64 },
    /// The wallet is busy: do nothing until the next tick, and mention it at
    /// this level only.
    Skip { cycle: u64, level: LogLevel },
}

/// How a sync ended.
#[derive(Clone, Copy, Debug, PartialEq, Eq, Structural)]
pub enum SyncOutcome {
    Completed,
    Failed,
    TimedOut,
}

/// How loudly something is logged.
#[derive(Clone, Copy, Debug, PartialEq, Eq, Structural)]
pub enum LogLevel {
    Debug,
    Info,
    Warn,
    Error,
}

/// What follows a sync, once the exclusive hold has been given back.
#[derive(Clone, Copy, Debug, PartialEq, Eq, Structural)]
pub struct FollowUp {
    /// Whether to read the balance, under a shared hold, and log it.
    pub report_balance: bool,
    /// The level at which the end of the sync is logged.
    pub level: LogLevel,
}

/// What follows a background sync that ended in `outcome`: a completed sync
/// has its balance reported; a failed one is a warning and one that timed
/// out an error, and either is simply tried again at the next tick.
pub open spec fn follow_up(outcome: SyncOutcome) -> FollowUp {
    match outcome {
        SyncOutcome::Completed => FollowUp { report_balance: true, level: LogLevel::Info },
        SyncOutcome::Failed => FollowUp { report_balance: false, level: LogLevel::Warn },
        SyncOutcome::TimedOut => FollowUp { report_balance: false, level: LogLevel::Error },
    }
}

/// What follows the sync at startup: the balance is read whatever happened,
/// and a sync that failed or timed out is a warning only.
pub open spec fn initial_follow_up(outcome: SyncOutcome) -> FollowUp {
    match outcome {
        SyncOutcome::Completed => FollowUp { report_balance: true, level: LogLevel::Info },
        _ => FollowUp { report_balance: true, level: LogLevel::Warn },
    }
}

/// Computes `initial_follow_up`.
pub fn after_initial_sync(outcome: SyncOutcome) -> (next: FollowUp)
    ensures
        next == initial_follow_up(outcome),
{
    match outcome {
        SyncOutcome::Completed => FollowUp { report_balance: true, level: LogLevel::Info },
        _ => FollowUp { report_balance: true, level: LogLevel::Warn },
    }
}

/// What a `BackgroundSyncJob` holds, as plain values. The job stops counting
/// at the largest `u64`.
pub struct SyncJobView {
    /// Cycles begun.
    pub cycles: nat,
    /// Cycles that went on to sync.
    pub syncs: nat,
    /// Cycles that were skipped.
    pub skips: nat,
}

impl SyncJobView {
    /// Every cycle counted was either a sync or a skip.
    pub open spec fn consistent(self) -> bool {
        self.syncs + self.skips == self.cycles && self.cycles <= u64::MAX
    }

    /// The number of the next cycle.
    pub open spec fn next_cycle(self) -> nat {
        if self.cycles < u64::MAX {
            self.cycles + 1
        } else {
            self.cycles
        }
    }

    /// What the next cycle does, given whether it got the wallet.
    pub open spec fn step_for(self, acquired: bool) -> CycleStep {
        if acquired {
            CycleStep::Sync { cycle: self.next_cycle() as u64, timeout_secs: SYNC_TIMEOUT_SECS }
        } else {
            CycleStep::Skip { cycle: self.next_cycle() as u64, level: LogLevel::Debug }
        }
    }

    /// The job after that cycle.
    pub open spec fn after(self, acquired: bool) -> SyncJobView {
        if self.cycles >= u64::MAX {
            self
        } else if acquired {
            SyncJobView { cycles: self.cycles + 1, syncs: self.syncs + 1, skips: self.skips }
        } else {
            SyncJobView { cycles: self.cycles + 1, syncs: self.syncs, skips: self.skips + 1 }
        }
    }

    /// The job after one cycle for each entry of `acquired`, in order.
    pub open spec fn after_all(self, acquired: Seq<bool>) -> SyncJobView
        decreases acquired.len(),
    {
        if acquired.len() == 0 {
            self
        } else {
            self.after(acquired[0]).after_all(acquired.drop_first())
        }
    }
}

/// How many entries of `flags` equal `flag`.
pub open spec fn occurrences(flags: Seq<bool>, flag: bool) -> nat
    decreases flags.len(),
{
    if flags.len() == 0 {
        0
    } else {
        occurrences(flags.drop_first(), flag) + if flags[0] == flag {
            1nat
        } else {
            0nat
        }
    }
}

/// Every cycle either syncs once or is skipped, and nothing else: after any
/// run of cycles the job has synced once for each cycle that got the wallet
/// and skipped once for each that did not. A skipped cycle leaves no sync
/// behind to be made up later.
pub proof fn lemma_no_backlog(job: SyncJobView, acquired: Seq<bool>)
    requires
        job.consistent(),
        job.cycles + acquired.len() <= u64::MAX,
    ensures
        job.after_all(acquired).consistent(),
        job.after_all(acquired).cycles == job.cycles + acquired.len(),
        job.after_all(acquired).syncs == job.syncs + occurrences(acquired, true),
        job.after_all(acquired).skips == job.skips + occurrences(acquired, false),
        occurrences(acquired, true) + occurrences(acquired, false) == acquired.len(),
    decreases acquired.len(),
{
    if acquired.len() > 0 {
        lemma_no_backlog(job.after(acquired[0]), acquired.drop_first());
    }
}

/// The periodic sync of the wallet in the background.
pub struct BackgroundSyncJob {
    cycles: u64,
    syncs: u64,
    skips: u64,
}

impl View for BackgroundSyncJob {
    type V = SyncJobView;

    closed spec fn view(&self) -> SyncJobView {
        SyncJobView {
            cycles: self.cycles as nat,
            syncs: self.syncs as nat,
            skips: self.skips as nat,
        }
    }
}

impl BackgroundSyncJob {
    #[verifier::type_invariant]
    spec fn tallied(self) -> bool {
        self.syncs + self.skips == self.cycles
    }

    /// A job that has not run yet.
    pub fn new() -> (job: Self)
        ensures
            job@ == (SyncJobView { cycles: 0, syncs: 0, skips: 0 }),
    {
        BackgroundSyncJob { cycles: 0, syncs: 0, skips: 0 }
    }

    /// The schedule of the job: a cycle every minute, each with two seconds
    /// to get the wallet.
    pub fn schedule(&self) -> (schedule: SyncSchedule)
        ensures
            schedule == (SyncSchedule {
                startup_delay_secs: SYNC_STARTUP_DELAY_SECS,
                interval_secs: SYNC_INTERVAL_SECS,
                acquire_timeout_secs: SYNC_ACQUIRE_TIMEOUT_SECS,
            }),
            schedule.interval_secs == 60,
            schedule.acquire_timeout_secs == 2,
    {
        SyncSchedule {
            startup_delay_secs: SYNC_STARTUP_DELAY_SECS,
            interval_secs: SYNC_INTERVAL_SECS,
            acquire_timeout_secs: SYNC_ACQUIRE_TIMEOUT_SECS,
        }
    }

    /// Cycles begun so far: the syncs and the skips together.
    pub fn cycles(&self) -> (cycles: u64)
        ensures
            cycles == self@.cycles,
            self@.consistent(),
    {
        proof {
            use_type_invariant(self);
        }
        self.cycles
    }

    pub fn syncs(&self) -> (syncs: u64)
        ensures
            syncs == self@.syncs,
    {
        self.syncs
    }

    pub fn skips(&self) -> (skips: u64)
        ensures
            skips == self@.skips,
    {
        self.skips
    }

    /// Begins a cycle, knowing whether the bounded wait for the wallet got
    /// it. With the wallet the cycle syncs, once; without it the cycle is
    /// skipped. What earlier cycles did has no bearing on it.
    pub fn begin_cycle(&mut self, acquired: bool) -> (step: CycleStep)
        ensures
            step == old(self)@.step_for(acquired),
            final(self)@ == old(self)@.after(acquired),
    {
        proof {
            use_type_invariant(&*self);
        }
        if self.cycles < u64::MAX {
            *self = if acquired {
                BackgroundSyncJob {
                    cycles: self.cycles + 1,
                    syncs: self.syncs + 1,
                    skips: self.skips,
                }
            } else {
                BackgroundSyncJob {
                    cycles: self.cycles + 1,
                    syncs: self.syncs,
                    skips: self.skips + 1,
                }
            };
        }
        if acquired {
            CycleStep::Sync { cycle: self.cycles, timeout_secs: SYNC_TIMEOUT_SECS }
        } else {
            CycleStep::Skip { cycle: self.cycles, level: LogLevel::Debug }
        }
    }

    /// One look of a cycle's bounded wait at the coordinator, `waited_ms`
    /// after the tick. While the wallet is held and the wait is not over
    /// there is no step yet. Otherwise the cycle begins: with the hold, if
    /// the wallet was free, and as a skip if it was not.
    pub fn try_cycle(&mut self, coordinator: &mut WalletCoordinator, waited_ms: u64) -> (step: Option<
        (CycleStep, Option<WalletAccessToken>),
    >)
        ensures
            final(coordinator)@ == old(coordinator)@.with_writer(),
            old(coordinator)@.idle() ==> (step matches Some((taken, Some(_))) && taken == old(
                self,
            )@.step_for(true) && final(self)@ == old(self)@.after(true)),
            !old(coordinator)@.idle() && waited_ms >= SYNC_ACQUIRE_TIMEOUT_SECS * 1000 ==> (step
                matches Some((taken, None)) && taken == old(self)@.step_for(false) && final(self)@
                == old(self)@.after(false)),
            !old(coordinator)@.idle() && waited_ms < SYNC_ACQUIRE_TIMEOUT_SECS * 1000 ==> step
                is None && final(self)@ == old(self)@,
    {
        match coordinator.acquire_exclusive(waited_ms, SYNC_ACQUIRE_TIMEOUT_SECS * 1000) {
            Acquire::Granted(token) => Some((self.begin_cycle(true), Some(token))),
            Acquire::Busy => Some((self.begin_cycle(false), None)),
            Acquire::Wait => None,
        }
    }
}

/// Computes `follow_up`.
pub fn conclude_sync(outcome: SyncOutcome) -> (next: FollowUp)
    ensures
        next == follow_up(outcome),
{
    match outcome {
        SyncOutcome::Completed => FollowUp { report_balance: true, level: LogLevel::Info },
        SyncOutcome::Failed => FollowUp { report_balance: false, level: LogLevel::Warn },
        SyncOutcome::TimedOut => FollowUp { report_balance: false, level: LogLevel::Error },
    }
}

} // verus!
