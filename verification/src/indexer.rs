//! The wait for the indexing backend at the start of the faucet: a light
//! ping, repeated a bounded number of times.

use vstd::prelude::*;
use vstd::string::StringExecFns;
use crate::sync_job::LogLevel;
use crate::text::{decimal, decimal_text};

verus! {

/// Seconds one ping is given, connection included.
pub const PING_TIMEOUT_SECS: u64 = 5;

/// Seconds the connection of a ping is given.
pub const PING_CONNECT_TIMEOUT_SECS: u64 = 3;

/// Seconds between two pings; also what one attempt counts for in the
/// reports of time waited.
pub const PING_INTERVAL_SECS: u64 = 5;

/// Attempts the faucet makes before it gives up.
pub const PING_MAX_ATTEMPTS: u32 = 60;

/// Every so many attempts a failure is logged where the operator sees it.
pub const PING_REPORT_EVERY: u32 = 6;

/// What one ping of the backend came to.
#[derive(Clone, Copy, Debug, PartialEq, Eq, Structural)]
pub enum Ping {
    /// The backend answered with the height it has indexed.
    Height(u64),
    /// The backend answered with an error, or could not be reached.
    Failed,
    /// The ping ran out of time.
    TimedOut,
}

/// What follows one ping.
#[derive(Clone, Copy, Debug, PartialEq, Eq, Structural)]
pub enum PingStep {
    /// The backend is ready.
    Ready { height: u64, took_secs: u64 },
    /// Log the failure, pause, ping again.
    Retry { level: LogLevel, waited_secs: u64, pause_secs: u64 },
    /// Log the failure and give up.
    GiveUp { level: LogLevel, waited_secs: u64 },
}

/// The backend did not become ready.
#[derive(Clone, Copy, Debug, PartialEq, Eq, Structural)]
pub struct BackendNotReady {
    pub attempts: u32,
    pub waited_secs: u64,
}

/// The time that `attempts` attempts count for.
pub open spec fn waited_secs(attempts: u32) -> u64 {
    (attempts * PING_INTERVAL_SECS) as u64
}

/// The level at which the failure of an attempt is logged: every sixth at
/// `Info`, the others at `Debug`.
pub open spec fn failure_level(attempt: u32) -> LogLevel {
    if attempt % PING_REPORT_EVERY == 0 {
        LogLevel::Info
    } else {
        LogLevel::Debug
    }
}

/// What follows the ping of attempt number `attempt` (from 1) out of
/// `max_attempts`.
pub open spec fn ping_step(attempt: u32, max_attempts: u32, ping: Ping) -> PingStep {
    match ping {
        Ping::Height(height) => PingStep::Ready { height, took_secs: waited_secs(attempt) },
        _ => if attempt < max_attempts {
            PingStep::Retry {
                level: failure_level(attempt),
                waited_secs: waited_secs(attempt),
                pause_secs: PING_INTERVAL_SECS,
            }
        } else {
            PingStep::GiveUp { level: failure_level(attempt), waited_secs: waited_secs(attempt) }
        },
    }
}

/// Decides what follows one ping: see `ping_step`. An answer ends the wait;
/// a failure is followed by a pause and another ping while attempts are
/// left, and by giving up after the last.
pub fn after_ping(attempt: u32, max_attempts: u32, ping: Ping) -> (step: PingStep)
    ensures
        step == ping_step(attempt, max_attempts, ping),
{
    let waited = (attempt as u64) * PING_INTERVAL_SECS;
    let level = if attempt % PING_REPORT_EVERY == 0 {
        LogLevel::Info
    } else {
        LogLevel::Debug
    };
    match ping {
        Ping::Height(height) => PingStep::Ready { height, took_secs: waited },
        _ => if attempt < max_attempts {
            PingStep::Retry { level, waited_secs: waited, pause_secs: PING_INTERVAL_SECS }
        } else {
            PingStep::GiveUp { level, waited_secs: waited }
        },
    }
}

/// The ping can only be answered with a height at this attempt.
pub open spec fn surely_answers<F: Fn(u32) -> Ping>(ping: F, attempt: u32) -> bool {
    forall|result: Ping| call_ensures(ping, (attempt,), result) ==> result is Height
}

/// The ping could fail at this attempt.
pub open spec fn failed_at<F: Fn(u32) -> Ping>(ping: F, attempt: u32) -> bool {
    exists|result: Ping| call_ensures(ping, (attempt,), result) && !(result is Height)
}

/// The ping could be answered with `height` at this attempt, one of the
/// `max_attempts` allowed, after it could fail at every attempt before.
pub open spec fn first_answer_at<F: Fn(u32) -> Ping>(
    ping: F,
    attempt: u32,
    max_attempts: u32,
    height: u64,
) -> bool {
    &&& 1 <= attempt <= max_attempts
    &&& call_ensures(ping, (attempt,), Ping::Height(height))
    &&& forall|earlier: u32| 1 <= earlier < attempt ==> #[trigger] failed_at(ping, earlier)
}

/// Pings the backend, calling `ping` with the number of the attempt, from 1
/// up to `max_attempts`, until it answers.
///
/// The height of the first answer is returned, and every attempt before it
/// failed. If all attempts fail the wait ends in `BackendNotReady`, which
/// counts the attempts made; with no attempts allowed it ends so at once. A
/// backend that is sure to answer at some allowed attempt is never given up
/// on.
pub fn wait_for_zaino<F: Fn(u32) -> Ping>(ping: F, max_attempts: u32) -> (result: Result<
    u64,
    BackendNotReady,
>)
    requires
        forall|attempt: u32| call_requires(ping, (attempt,)),
    ensures
        result is Ok ==> exists|attempt: u32|
            first_answer_at(ping, attempt, max_attempts, result->Ok_0),
        result matches Err(error) ==> {
            &&& error == (BackendNotReady {
                attempts: max_attempts,
                waited_secs: waited_secs(max_attempts),
            })
            &&& forall|attempt: u32|
                1 <= attempt <= max_attempts ==> #[trigger] failed_at(ping, attempt)
        },
        forall|attempt: u32|
            1 <= attempt <= max_attempts && #[trigger] surely_answers(ping, attempt) ==> result is Ok,
{
    let mut attempt: u32 = 0;
    while attempt < max_attempts
        invariant
            attempt <= max_attempts,
            forall|a: u32| call_requires(ping, (a,)),
            forall|earlier: u32| 1 <= earlier <= attempt ==> #[trigger] failed_at(ping, earlier),
        decreases max_attempts - attempt,
    {
        attempt = attempt + 1;
        let answer = ping(attempt);
        match after_ping(attempt, max_attempts, answer) {
            PingStep::Ready { height, .. } => {
                let answered: Result<u64, BackendNotReady> = Ok(height);
                assert(first_answer_at(ping, attempt, max_attempts, answered->Ok_0));
                return answered;
            },
            _ => {
                assert(failed_at(ping, attempt));
            },
        }
    }
    proof {
        assert forall|a: u32| 1 <= a <= max_attempts implies !#[trigger] surely_answers(ping, a) by {
            assert(failed_at(ping, a));
        }
    }
    Err(
        BackendNotReady {
            attempts: max_attempts,
            waited_secs: (max_attempts as u64) * PING_INTERVAL_SECS,
        },
    )
}

impl BackendNotReady {
    /// The failure in words.
    pub fn message(&self) -> (text: String)
        ensures
            text@ == "Zaino not ready after "@ + decimal_text(self.waited_secs as nat)
                + " seconds"@,
    {
        String::from_str("Zaino not ready after ").concat(decimal(self.waited_secs).as_str()).concat(
            " seconds",
        )
    }
}

} // verus!
