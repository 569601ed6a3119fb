use zeckit::balance::WalletBalance;
use zeckit::bootstrap::{
    after_sync_attempt, gate_outcome, judge_balance, judge_fixtures, judge_shield_reply,
    BootstrapPhase, BootstrapSequencer, Directive, PhaseOutcome, Reason, SyncStep,
};
use zeckit::mining::{
    height_percent, judge_height, maturity_outcome, BlockBatch, BlockRequest, ContinuousMiner,
    HeightSignal, MinerTick,
};
use zeckit::probe::{probe, ProbeOutcome};
use zeckit::service::{Backend, Service};

fn run_all(backend: Backend, outcomes: &[PhaseOutcome]) -> Vec<BootstrapPhase> {
    let mut sequencer = BootstrapSequencer::new(backend);
    let mut entered = vec![sequencer.phase()];
    for outcome in outcomes {
        entered.push(sequencer.advance(*outcome));
    }
    entered
}

#[test]
fn clean_run_visits_every_phase_in_order() {
    let entered = run_all(Backend::Zaino, &[PhaseOutcome::Success; 13]);
    assert_eq!(
        entered,
        vec![
            BootstrapPhase::WaitNode,
            BootstrapPhase::WaitBackend,
            BootstrapPhase::WaitWalletService,
            BootstrapPhase::MineToMaturity,
            BootstrapPhase::MineExtra,
            BootstrapPhase::PropagateDelay,
            BootstrapPhase::GenerateFixtures,
            BootstrapPhase::SyncWallet,
            BootstrapPhase::CheckBalancePre,
            BootstrapPhase::ShieldFunds,
            BootstrapPhase::ResyncPostShield,
            BootstrapPhase::CheckBalancePost,
            BootstrapPhase::StartContinuousMiner,
            BootstrapPhase::Done,
        ]
    );
}

#[test]
fn without_a_backend_its_gate_is_passed_over() {
    let entered = run_all(Backend::Absent, &[PhaseOutcome::Success; 2]);
    assert_eq!(
        entered,
        vec![
            BootstrapPhase::WaitNode,
            BootstrapPhase::WaitWalletService,
            BootstrapPhase::MineToMaturity,
        ]
    );
}

#[test]
fn node_timeout_fails_before_the_backend_starts() {
    let report = probe(Service::Node, |_t: u64| false, 1, 120);
    assert_eq!(report.outcome, ProbeOutcome::TimedOut);
    let outcome = gate_outcome(Service::Node, report.outcome);
    assert_eq!(outcome, PhaseOutcome::Fatal(Reason::ServiceNotReady(Service::Node)));
    let mut sequencer = BootstrapSequencer::new(Backend::Lightwalletd);
    let entered = sequencer.advance(outcome);
    assert_eq!(entered, BootstrapPhase::Failed(Reason::ServiceNotReady(Service::Node)));
    assert!(sequencer.is_finished());
    assert_eq!(sequencer.directive(), Directive::Halt);
    assert_eq!(sequencer.advance(PhaseOutcome::Success), entered);
    assert_eq!(sequencer.advance(PhaseOutcome::Fatal(Reason::SyncFailed)), entered);
    assert_eq!(sequencer.warnings(), 0);
}

#[test]
fn every_gate_can_fail_the_sequence() {
    let reason = Reason::ServiceNotReady(Service::Zaino);
    let entered = run_all(Backend::Zaino, &[PhaseOutcome::Success, PhaseOutcome::Fatal(reason)]);
    assert_eq!(entered[2], BootstrapPhase::Failed(reason));
    let reason = Reason::ServiceNotReady(Service::Faucet);
    let entered = run_all(
        Backend::Zaino,
        &[PhaseOutcome::Success, PhaseOutcome::Success, PhaseOutcome::Fatal(reason)],
    );
    assert_eq!(entered[3], BootstrapPhase::Failed(reason));
}

#[test]
fn later_phases_never_fail_the_sequence() {
    let mut outcomes = vec![PhaseOutcome::Success; 3];
    outcomes.extend(vec![PhaseOutcome::Fatal(Reason::ShieldFailed); 9]);
    let mut sequencer = BootstrapSequencer::new(Backend::Lightwalletd);
    for outcome in &outcomes {
        sequencer.advance(*outcome);
    }
    assert_eq!(sequencer.phase(), BootstrapPhase::Done);
    assert_eq!(sequencer.warnings(), 9);
}

#[test]
fn miner_starts_whatever_the_warnings() {
    let outcomes = [
        PhaseOutcome::Success,
        PhaseOutcome::Success,
        PhaseOutcome::Success,
        PhaseOutcome::Warning(Reason::MaturityCeiling),
        PhaseOutcome::Success,
        PhaseOutcome::Success,
        PhaseOutcome::Warning(Reason::FixturesUnavailable),
        PhaseOutcome::Warning(Reason::SyncFailed),
        PhaseOutcome::Warning(Reason::EmptyWallet),
        PhaseOutcome::Warning(Reason::NoFunds),
        PhaseOutcome::Warning(Reason::BalanceUnavailable),
    ];
    let entered = run_all(Backend::Zaino, &outcomes);
    assert_eq!(entered[outcomes.len()], BootstrapPhase::StartContinuousMiner);
    assert!(!entered.contains(&BootstrapPhase::ResyncPostShield));
}

#[test]
fn a_warning_at_a_gate_lets_the_sequence_go_on() {
    let entered = run_all(Backend::Zaino, &[PhaseOutcome::Warning(Reason::SyncFailed)]);
    assert_eq!(entered[1], BootstrapPhase::WaitBackend);
}

#[test]
fn shield_success_forces_a_resync() {
    let mut sequencer = BootstrapSequencer::new(Backend::Absent);
    for _ in 0..8 {
        sequencer.advance(PhaseOutcome::Success);
    }
    assert_eq!(sequencer.phase(), BootstrapPhase::ShieldFunds);
    assert_eq!(sequencer.advance(PhaseOutcome::Success), BootstrapPhase::ResyncPostShield);
    assert_eq!(
        sequencer.directive(),
        Directive::Sync { wait_secs: 15, retries: 0, backoff_secs: 0, rest_secs: 5 }
    );
    assert_eq!(sequencer.advance(PhaseOutcome::Success), BootstrapPhase::CheckBalancePost);
}

#[test]
fn directives_carry_the_timings() {
    let mut sequencer = BootstrapSequencer::new(Backend::Lightwalletd);
    assert_eq!(sequencer.backend(), Backend::Lightwalletd);
    let mut seen = vec![sequencer.directive()];
    for _ in 0..13 {
        sequencer.advance(PhaseOutcome::Success);
        seen.push(sequencer.directive());
    }
    assert_eq!(
        seen,
        vec![
            Directive::Probe { service: Service::Node, max_elapsed_secs: 120, poll_secs: 1 },
            Directive::Probe { service: Service::Lightwalletd, max_elapsed_secs: 180, poll_secs: 1 },
            Directive::Probe { service: Service::Faucet, max_elapsed_secs: 120, poll_secs: 1 },
            Directive::AwaitHeight { target: 101, ceiling_secs: 60000, poll_secs: 2 },
            Directive::ProduceBlocks { count: 100, report_every: 10 },
            Directive::Pause { secs: 10 },
            Directive::GenerateFixtures,
            Directive::Sync { wait_secs: 5, retries: 1, backoff_secs: 10, rest_secs: 5 },
            Directive::CheckBalance,
            Directive::Shield { confirm_secs: 20 },
            Directive::Sync { wait_secs: 15, retries: 0, backoff_secs: 0, rest_secs: 5 },
            Directive::CheckBalance,
            Directive::SpawnMiner { interval_secs: 15 },
            Directive::Halt,
        ]
    );
}

#[test]
fn gate_outcome_names_the_service() {
    assert_eq!(gate_outcome(Service::Faucet, ProbeOutcome::Ready), PhaseOutcome::Success);
    assert_eq!(
        gate_outcome(Service::Faucet, ProbeOutcome::TimedOut),
        PhaseOutcome::Fatal(Reason::ServiceNotReady(Service::Faucet))
    );
}

#[test]
fn sync_is_retried_exactly_once() {
    assert_eq!(after_sync_attempt(1, 1, 10, true), SyncStep::Finished(PhaseOutcome::Success));
    assert_eq!(after_sync_attempt(1, 1, 10, false), SyncStep::Retry { backoff_secs: 10 });
    assert_eq!(after_sync_attempt(2, 1, 10, true), SyncStep::Finished(PhaseOutcome::Success));
    assert_eq!(
        after_sync_attempt(2, 1, 10, false),
        SyncStep::Finished(PhaseOutcome::Warning(Reason::SyncFailed))
    );
    assert_eq!(
        after_sync_attempt(1, 0, 0, false),
        SyncStep::Finished(PhaseOutcome::Warning(Reason::SyncFailed))
    );
}

#[test]
fn zero_balance_is_a_warning() {
    let empty = WalletBalance::zero();
    assert_eq!(judge_balance(Some(&empty)), PhaseOutcome::Warning(Reason::EmptyWallet));
    let funded = WalletBalance::new(0, 0, 1).unwrap();
    assert_eq!(judge_balance(Some(&funded)), PhaseOutcome::Success);
    assert_eq!(judge_balance(None), PhaseOutcome::Warning(Reason::BalanceUnavailable));
    assert_eq!(judge_fixtures(true), PhaseOutcome::Success);
    assert_eq!(judge_fixtures(false), PhaseOutcome::Warning(Reason::FixturesUnavailable));
}

#[test]
fn shield_replies_are_judged() {
    assert_eq!(
        judge_shield_reply(Some("no_funds"), false),
        PhaseOutcome::Warning(Reason::NoFunds)
    );
    assert_eq!(
        judge_shield_reply(Some("no_funds"), true),
        PhaseOutcome::Warning(Reason::NoFunds)
    );
    assert_eq!(judge_shield_reply(Some("shielded"), true), PhaseOutcome::Success);
    assert_eq!(judge_shield_reply(None, true), PhaseOutcome::Success);
    assert_eq!(
        judge_shield_reply(Some("shielded"), false),
        PhaseOutcome::Warning(Reason::ShieldFailed)
    );
    assert_eq!(judge_shield_reply(None, false), PhaseOutcome::Warning(Reason::ShieldFailed));
}

#[test]
fn maturity_is_read_from_the_chain_height() {
    assert_eq!(judge_height(Some(101), 10, 101, 60000), HeightSignal::Reached { height: 101 });
    assert_eq!(judge_height(Some(250), 10, 101, 60000), HeightSignal::Reached { height: 250 });
    assert_eq!(judge_height(Some(100), 10, 101, 60000), HeightSignal::Waiting);
    assert_eq!(judge_height(None, 10, 101, 60000), HeightSignal::Waiting);
    assert_eq!(judge_height(Some(100), 60000, 101, 60000), HeightSignal::Waiting);
    assert_eq!(judge_height(Some(100), 60001, 101, 60000), HeightSignal::CeilingPassed);
    assert_eq!(judge_height(None, 60001, 101, 60000), HeightSignal::CeilingPassed);
    assert_eq!(
        judge_height(Some(101), 60001, 101, 60000),
        HeightSignal::Reached { height: 101 }
    );
    assert_eq!(judge_height(Some(0), 0, 0, 0), HeightSignal::Reached { height: 0 });
}

#[test]
fn maturity_ceiling_is_only_a_warning() {
    assert_eq!(
        maturity_outcome(HeightSignal::Reached { height: 101 }),
        Some(PhaseOutcome::Success)
    );
    assert_eq!(
        maturity_outcome(HeightSignal::CeilingPassed),
        Some(PhaseOutcome::Warning(Reason::MaturityCeiling))
    );
    assert_eq!(maturity_outcome(HeightSignal::Waiting), None);
}

#[test]
fn height_percent_rounds_down() {
    assert_eq!(height_percent(0, 101), 0);
    assert_eq!(height_percent(50, 101), 49);
    assert_eq!(height_percent(100, 101), 99);
    assert_eq!(height_percent(u64::MAX - 1, u64::MAX), 99);
}

#[test]
fn extra_blocks_are_exactly_one_hundred() {
    let mut batch = BlockBatch::new(100, 10);
    let mut requests = Vec::new();
    while let Some(request) = batch.next_request() {
        requests.push(request);
    }
    assert_eq!(requests.len(), 100);
    assert_eq!(requests[0], BlockRequest { ordinal: 1, report: false });
    assert_eq!(requests[9], BlockRequest { ordinal: 10, report: true });
    assert_eq!(requests[99], BlockRequest { ordinal: 100, report: true });
    assert_eq!(requests.iter().filter(|r| r.report).count(), 10);
    assert_eq!(batch.next_request(), None);
    assert_eq!(batch.issued(), 100);
    assert_eq!(batch.remaining(), 0);
}

#[test]
fn empty_batch_issues_nothing() {
    let mut batch = BlockBatch::new(0, 10);
    assert_eq!(batch.next_request(), None);
    let mut silent = BlockBatch::new(3, 0);
    assert_eq!(silent.remaining(), 3);
    assert_eq!(silent.next_request(), Some(BlockRequest { ordinal: 1, report: false }));
}

#[test]
fn miner_asks_for_one_block_every_tick() {
    let mut miner = ContinuousMiner::new(15);
    assert_eq!(miner.interval_secs(), 15);
    let expected = MinerTick { blocks: 1, next_tick_secs: 15 };
    assert_eq!(miner.on_tick(None), expected);
    assert_eq!(miner.on_tick(Some(false)), expected);
    assert_eq!(miner.on_tick(Some(false)), expected);
    assert_eq!(miner.on_tick(Some(true)), expected);
    assert_eq!(miner.ticks(), 4);
}
