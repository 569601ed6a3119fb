use zeckit::coordinator::{AccessMode, Acquire, Busy, MutateError, WalletCoordinator};
use zeckit::sync_job::{
    after_initial_sync, conclude_sync, BackgroundSyncJob, CycleStep, FollowUp, LogLevel,
    SyncOutcome, SyncSchedule,
};

#[test]
fn mutate_releases_after_success() {
    let mut coordinator = WalletCoordinator::new();
    let mut wallet: u64 = 5;
    let result: Result<u64, MutateError<String>> = coordinator.mutate(&mut wallet, |w: &mut u64| {
        *w += 1;
        Ok(*w)
    });
    assert!(matches!(result, Ok(6)));
    assert_eq!(wallet, 6);
    assert!(!coordinator.is_exclusively_held());
    assert_eq!(coordinator.readers(), 0);
    assert_eq!(coordinator.completed(), 1);
}

#[test]
fn mutate_releases_after_a_domain_error() {
    let mut coordinator = WalletCoordinator::new();
    let mut wallet: u64 = 5;
    let result: Result<u64, MutateError<String>> =
        coordinator.mutate(&mut wallet, |_w: &mut u64| Err("insufficient".to_string()));
    match result {
        Err(MutateError::Failed(message)) => assert_eq!(message, "insufficient"),
        other => panic!("unexpected result: {:?}", other),
    }
    assert!(!coordinator.is_exclusively_held());
    assert_eq!(coordinator.completed(), 1);
    assert!(coordinator.begin_mutate().is_ok());
}

#[test]
fn mutate_is_busy_while_the_wallet_is_held() {
    let mut coordinator = WalletCoordinator::new();
    let token = coordinator.begin_mutate().unwrap();
    let mut wallet: u64 = 5;
    let result: Result<u64, MutateError<String>> = coordinator.mutate(&mut wallet, |w: &mut u64| {
        *w = 99;
        Ok(*w)
    });
    assert!(matches!(result, Err(MutateError::Busy)));
    assert_eq!(wallet, 5);
    assert!(coordinator.is_exclusively_held());
    assert_eq!(coordinator.completed(), 0);
    assert!(coordinator.release(token));
    assert!(!coordinator.is_exclusively_held());
}

#[test]
fn readers_do_not_block_each_other() {
    let mut coordinator = WalletCoordinator::new();
    let first = coordinator.begin_query().unwrap();
    let second = coordinator.begin_query().unwrap();
    let third = coordinator.begin_query().unwrap();
    assert_eq!(first.mode(), AccessMode::Shared);
    assert_eq!(coordinator.readers(), 3);
    let wallet: u64 = 7;
    assert_eq!(coordinator.query(&wallet, |w: &u64| *w + 1), Ok(8));
    assert_eq!(coordinator.readers(), 3);
    assert!(coordinator.release(first));
    assert!(coordinator.release(second));
    assert!(coordinator.release(third));
    assert_eq!(coordinator.readers(), 0);
}

#[test]
fn no_mutation_while_a_reader_is_inside() {
    let mut coordinator = WalletCoordinator::new();
    let reader = coordinator.begin_query().unwrap();
    assert_eq!(coordinator.begin_mutate().err(), Some(Busy));
    let mut wallet: u64 = 1;
    let result: Result<(), MutateError<()>> = coordinator.mutate(&mut wallet, |w: &mut u64| {
        *w = 2;
        Ok(())
    });
    assert!(matches!(result, Err(MutateError::Busy)));
    assert_eq!(wallet, 1);
    assert!(coordinator.release(reader));
    assert!(coordinator.begin_mutate().is_ok());
}

#[test]
fn no_reader_while_a_mutation_is_inside() {
    let mut coordinator = WalletCoordinator::new();
    let writer = coordinator.begin_mutate().unwrap();
    assert_eq!(writer.mode(), AccessMode::Exclusive);
    assert!(coordinator.begin_query().is_none());
    let wallet: u64 = 7;
    assert_eq!(coordinator.query(&wallet, |w: &u64| *w), Err(Busy));
    assert!(coordinator.begin_mutate().is_err());
    assert!(coordinator.release(writer));
    assert!(coordinator.begin_query().is_some());
}

#[test]
fn release_without_a_hold_changes_nothing() {
    let mut a = WalletCoordinator::new();
    let mut b = WalletCoordinator::new();
    let from_a = a.begin_mutate().unwrap();
    assert!(!b.release(from_a));
    assert!(!b.is_exclusively_held());
    assert_eq!(b.completed(), 0);
    let reader = a.begin_query();
    assert!(reader.is_none());
}

#[test]
fn bounded_wait_ends_in_busy() {
    let mut coordinator = WalletCoordinator::new();
    let holder = coordinator.begin_mutate().unwrap();
    assert!(matches!(coordinator.acquire_exclusive(0, 2000), Acquire::Wait));
    assert!(matches!(coordinator.acquire_exclusive(1999, 2000), Acquire::Wait));
    assert!(matches!(coordinator.acquire_exclusive(2000, 2000), Acquire::Busy));
    assert!(matches!(coordinator.acquire_exclusive(0, 0), Acquire::Busy));
    coordinator.release(holder);
    match coordinator.acquire_exclusive(5000, 2000) {
        Acquire::Granted(token) => assert_eq!(token.mode(), AccessMode::Exclusive),
        other => panic!("unexpected: {:?}", other),
    }
    assert!(coordinator.is_exclusively_held());
}

#[test]
fn job_runs_every_minute() {
    let schedule = BackgroundSyncJob::new().schedule();
    assert_eq!(
        schedule,
        SyncSchedule { startup_delay_secs: 10, interval_secs: 60, acquire_timeout_secs: 2 }
    );
}

#[test]
fn busy_cycles_are_skipped_without_backlog() {
    let mut job = BackgroundSyncJob::new();
    assert_eq!(job.begin_cycle(false), CycleStep::Skip { cycle: 1, level: LogLevel::Debug });
    assert_eq!(job.begin_cycle(false), CycleStep::Skip { cycle: 2, level: LogLevel::Debug });
    assert_eq!(job.begin_cycle(false), CycleStep::Skip { cycle: 3, level: LogLevel::Debug });
    assert_eq!(job.syncs(), 0);
    assert_eq!(job.skips(), 3);
    assert_eq!(job.begin_cycle(true), CycleStep::Sync { cycle: 4, timeout_secs: 90 });
    assert_eq!(job.syncs(), 1);
    assert_eq!(job.skips(), 3);
    assert_eq!(job.cycles(), 4);
}

#[test]
fn cycle_takes_the_wallet_or_skips() {
    let mut coordinator = WalletCoordinator::new();
    let mut job = BackgroundSyncJob::new();
    let holder = coordinator.begin_mutate().unwrap();
    assert!(job.try_cycle(&mut coordinator, 0).is_none());
    assert!(job.try_cycle(&mut coordinator, 1999).is_none());
    assert_eq!(job.cycles(), 0);
    match job.try_cycle(&mut coordinator, 2000) {
        Some((CycleStep::Skip { cycle: 1, level: LogLevel::Debug }, None)) => {}
        other => panic!("unexpected: {:?}", other),
    }
    assert_eq!(job.skips(), 1);
    coordinator.release(holder);
    match job.try_cycle(&mut coordinator, 0) {
        Some((CycleStep::Sync { cycle: 2, timeout_secs: 90 }, Some(token))) => {
            assert!(coordinator.is_exclusively_held());
            assert!(coordinator.release(token));
        }
        other => panic!("unexpected: {:?}", other),
    }
    assert_eq!(job.syncs(), 1);
    assert!(!coordinator.is_exclusively_held());
}

#[test]
fn sync_outcomes_are_followed_up() {
    assert_eq!(
        conclude_sync(SyncOutcome::Completed),
        FollowUp { report_balance: true, level: LogLevel::Info }
    );
    assert_eq!(
        conclude_sync(SyncOutcome::Failed),
        FollowUp { report_balance: false, level: LogLevel::Warn }
    );
    assert_eq!(
        conclude_sync(SyncOutcome::TimedOut),
        FollowUp { report_balance: false, level: LogLevel::Error }
    );
    assert_eq!(
        after_initial_sync(SyncOutcome::Completed),
        FollowUp { report_balance: true, level: LogLevel::Info }
    );
    assert_eq!(
        after_initial_sync(SyncOutcome::Failed),
        FollowUp { report_balance: true, level: LogLevel::Warn }
    );
    assert_eq!(
        after_initial_sync(SyncOutcome::TimedOut),
        FollowUp { report_balance: true, level: LogLevel::Warn }
    );
}
