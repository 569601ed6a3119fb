//! Readiness probing: poll one service at a fixed interval until it answers
//! or a deadline passes.

use vstd::prelude::*;
use crate::service::Service;

verus! {

/// The highest percentage a probe reports while its service is not ready.
pub const PROGRESS_CAP: u32 = 99;

/// How a finished probe ended.
#[derive(Clone, Copy, Debug, PartialEq, Eq, Structural)]
pub enum ProbeOutcome {
    Ready,
    TimedOut,
}

/// What a probe tells its driver after one poll.
#[derive(Clone, Copy, Debug, PartialEq, Eq, Structural)]
pub enum ProbeSignal {
    /// The service answered: stop polling.
    Ready,
    /// Not ready yet: show the percentage, wait one interval, poll again.
    Progress { percent: u32 },
    /// The deadline passed without an answer: stop polling.
    TimedOut,
    /// The probe had already finished; the poll was ignored.
    Closed,
}

/// The share of the deadline that has passed, in percent, capped at 99.
pub open spec fn percent_elapsed(elapsed: u64, max_elapsed: u64) -> int {
    if max_elapsed == 0 {
        PROGRESS_CAP as int
    } else if elapsed * 100 / (max_elapsed as int) >= PROGRESS_CAP {
        PROGRESS_CAP as int
    } else {
        elapsed * 100 / (max_elapsed as int)
    }
}

/// Computes `percent_elapsed`.
pub fn progress_percent(elapsed: u64, max_elapsed: u64) -> (percent: u32)
    ensures
        percent == percent_elapsed(elapsed, max_elapsed),
        percent <= PROGRESS_CAP,
{
    if max_elapsed == 0 {
        return PROGRESS_CAP;
    }
    let scaled: u128 = (elapsed as u128) * 100 / (max_elapsed as u128);
    if scaled >= PROGRESS_CAP as u128 {
        PROGRESS_CAP
    } else {
        scaled as u32
    }
}

/// The percentage never goes down as time passes.
pub proof fn lemma_percent_monotonic(earlier: u64, later: u64, max_elapsed: u64)
    requires
        earlier <= later,
    ensures
        percent_elapsed(earlier, max_elapsed) <= percent_elapsed(later, max_elapsed),
{
    if max_elapsed > 0 {
        let m = max_elapsed as int;
        assert(earlier * 100 / m <= later * 100 / m) by (nonlinear_arith)
            requires earlier * 100 <= later * 100, m > 0;
    }
}

/// What a `ReadinessProbe` holds, as plain values.
pub struct ProbeView {
    pub service: Service,
    /// Seconds between two polls.
    pub poll_interval: u64,
    /// Seconds after which an unanswered probe gives up.
    pub max_elapsed: u64,
    /// The percentage shown last.
    pub shown: u32,
    /// `None` while the probe is still polling.
    pub outcome: Option<ProbeOutcome>,
}

impl ProbeView {
    /// The signal for a poll that found the service `ready` or not, `elapsed`
    /// seconds after the probe began.
    pub open spec fn signal_for(self, ready: bool, elapsed: u64) -> ProbeSignal {
        if self.outcome is Some {
            ProbeSignal::Closed
        } else if ready {
            ProbeSignal::Ready
        } else if elapsed < self.max_elapsed {
            let percent = percent_elapsed(elapsed, self.max_elapsed);
            ProbeSignal::Progress {
                percent: if percent < self.shown { self.shown } else { percent as u32 },
            }
        } else {
            ProbeSignal::TimedOut
        }
    }

    /// The probe after that poll.
    pub open spec fn after(self, ready: bool, elapsed: u64) -> ProbeView {
        match self.signal_for(ready, elapsed) {
            ProbeSignal::Ready => ProbeView { outcome: Some(ProbeOutcome::Ready), ..self },
            ProbeSignal::TimedOut => ProbeView { outcome: Some(ProbeOutcome::TimedOut), ..self },
            ProbeSignal::Progress { percent } => ProbeView { shown: percent, ..self },
            ProbeSignal::Closed => self,
        }
    }
}

/// One poll: whether it found the service ready, and the seconds that had
/// passed since the probe began.
pub struct Poll {
    pub ready: bool,
    pub elapsed: u64,
}

impl ProbeView {
    /// The signals for a run of polls, in order.
    pub open spec fn signals(self, polls: Seq<Poll>) -> Seq<ProbeSignal>
        decreases polls.len(),
    {
        if polls.len() == 0 {
            Seq::<ProbeSignal>::empty()
        } else {
            seq![self.signal_for(polls[0].ready, polls[0].elapsed)] + self.after(
                polls[0].ready,
                polls[0].elapsed,
            ).signals(polls.drop_first())
        }
    }
}

/// A probe ends once: after the poll that found the service ready or the
/// deadline passed, every poll is ignored, so that `Ready` or `TimedOut` is
/// signalled at most one time in any run. The percentages shown up to then
/// never go down and never exceed 99.
pub proof fn lemma_probe_ends_once(probe: ProbeView, polls: Seq<Poll>)
    requires
        probe.shown <= PROGRESS_CAP,
    ensures
        probe.signals(polls).len() == polls.len(),
        probe.outcome is Some ==> forall|i: int|
            #![trigger probe.signals(polls)[i]]
            0 <= i < polls.len() ==> probe.signals(polls)[i] is Closed,
        forall|i: int, j: int|
            #![trigger probe.signals(polls)[i], probe.signals(polls)[j]]
            0 <= i < j < polls.len() && (probe.signals(polls)[i] is Ready || probe.signals(
                polls,
            )[i] is TimedOut) ==> probe.signals(polls)[j] is Closed,
        forall|i: int|
            #![trigger probe.signals(polls)[i]]
            0 <= i < polls.len() ==> (probe.signals(polls)[i] matches ProbeSignal::Progress {
                percent,
            } ==> probe.shown <= percent <= PROGRESS_CAP),
        forall|i: int, j: int|
            #![trigger probe.signals(polls)[i], probe.signals(polls)[j]]
            0 <= i <= j < polls.len() ==> (probe.signals(polls)[i] matches ProbeSignal::Progress {
                percent: earlier,
            } ==> (probe.signals(polls)[j] matches ProbeSignal::Progress { percent: later }
                ==> earlier <= later)),
    decreases polls.len(),
{
    if polls.len() > 0 {
        let next = probe.after(polls[0].ready, polls[0].elapsed);
        let rest = polls.drop_first();
        lemma_probe_ends_once(next, rest);
        let all = probe.signals(polls);
        assert forall|i: int| 1 <= i < polls.len() implies #[trigger] all[i] == next.signals(
            rest,
        )[i - 1] by {}
    }
}

/// Polls one service until it is ready or its deadline has passed. The driver
/// performs each poll and reads the clock; the probe decides what follows.
pub struct ReadinessProbe {
    service: Service,
    poll_interval: u64,
    max_elapsed: u64,
    shown: u32,
    outcome: Option<ProbeOutcome>,
}

impl View for ReadinessProbe {
    type V = ProbeView;

    closed spec fn view(&self) -> ProbeView {
        ProbeView {
            service: self.service,
            poll_interval: self.poll_interval,
            max_elapsed: self.max_elapsed,
            shown: self.shown,
            outcome: self.outcome,
        }
    }
}

impl ReadinessProbe {
    #[verifier::type_invariant]
    spec fn capped(self) -> bool {
        self.shown <= PROGRESS_CAP
    }

    /// A probe that has not polled yet.
    pub fn new(service: Service, poll_interval: u64, max_elapsed: u64) -> (probe: Self)
        ensures
            probe@ == (ProbeView { service, poll_interval, max_elapsed, shown: 0, outcome: None }),
    {
        ReadinessProbe { service, poll_interval, max_elapsed, shown: 0, outcome: None }
    }

    pub fn service(&self) -> (service: Service)
        ensures
            service == self@.service,
    {
        self.service
    }

    pub fn poll_interval(&self) -> (secs: u64)
        ensures
            secs == self@.poll_interval,
    {
        self.poll_interval
    }

    pub fn max_elapsed(&self) -> (secs: u64)
        ensures
            secs == self@.max_elapsed,
    {
        self.max_elapsed
    }

    /// The percentage shown last; never above 99.
    pub fn progress(&self) -> (percent: u32)
        ensures
            percent == self@.shown,
            percent <= PROGRESS_CAP,
    {
        proof {
            use_type_invariant(self);
        }
        self.shown
    }

    pub fn outcome(&self) -> (outcome: Option<ProbeOutcome>)
        ensures
            outcome == self@.outcome,
    {
        self.outcome
    }

    /// Takes the result of one poll, made `elapsed` seconds after the probe
    /// began. A ready service ends the probe at once, whatever the clock
    /// says; otherwise the probe goes on while `elapsed` is below the
    /// deadline and times out at the first poll at or after it. A finished
    /// probe ignores further polls. The percentage shown never goes down and
    /// never exceeds 99.
    pub fn observe(&mut self, ready: bool, elapsed: u64) -> (signal: ProbeSignal)
        ensures
            signal == old(self)@.signal_for(ready, elapsed),
            final(self)@ == old(self)@.after(ready, elapsed),
            old(self)@.shown <= final(self)@.shown <= PROGRESS_CAP,
    {
        proof {
            use_type_invariant(&*self);
        }
        if self.outcome.is_some() {
            ProbeSignal::Closed
        } else if ready {
            self.outcome = Some(ProbeOutcome::Ready);
            ProbeSignal::Ready
        } else if elapsed < self.max_elapsed {
            let percent = progress_percent(elapsed, self.max_elapsed);
            if percent > self.shown {
                self.shown = percent;
            }
            ProbeSignal::Progress { percent: self.shown }
        } else {
            self.outcome = Some(ProbeOutcome::TimedOut);
            ProbeSignal::TimedOut
        }
    }
}

/// How a whole probe went.
pub struct ProbeReport {
    /// The service that was probed; a timeout is this service's failure.
    pub service: Service,
    pub outcome: ProbeOutcome,
    /// Seconds from the start of the probe to the poll that ended it.
    pub elapsed: u64,
    /// The percentage shown after each earlier poll, in order.
    pub progress: Vec<u32>,
}

/// When poll number `k` (from 0) is made, in seconds after the start: polls
/// lie one interval apart, and the clock stops at the largest `u64`.
pub open spec fn poll_time(k: nat, poll_interval: u64) -> u64 {
    if k * poll_interval >= u64::MAX {
        u64::MAX
    } else {
        (k * poll_interval) as u64
    }
}

/// Later polls are made later.
pub proof fn lemma_poll_time_monotonic(j: nat, k: nat, poll_interval: u64)
    requires
        j <= k,
    ensures
        poll_time(j, poll_interval) <= poll_time(k, poll_interval),
{
    assert(j * poll_interval <= k * poll_interval) by (nonlinear_arith)
        requires j <= k, poll_interval >= 0;
}

/// The predicate can only answer "ready" at time `t`.
pub open spec fn surely_ready<F: Fn(u64) -> bool>(predicate: F, t: u64) -> bool {
    forall|answer: bool| call_ensures(predicate, (t,), answer) ==> answer
}

/// The predicate can never answer "ready".
pub open spec fn never_ready<F: Fn(u64) -> bool>(predicate: F) -> bool {
    forall|t: u64, answer: bool| call_ensures(predicate, (t,), answer) ==> !answer
}

/// Probes `service` by calling `predicate` with the seconds elapsed, first at
/// 0 and then once per `poll_interval`, until the predicate holds or a poll
/// falls at or after `max_elapsed`.
///
/// Every poll before the last one found the service not ready, before the
/// deadline. If the predicate surely holds at some poll time before the
/// deadline, the probe ends `Ready` no later than that. If the predicate
/// never holds, the probe ends `TimedOut`, at the first poll at or after the
/// deadline. The percentages reported never go down and stay below 100.
pub fn probe<F: Fn(u64) -> bool>(
    service: Service,
    predicate: F,
    poll_interval: u64,
    max_elapsed: u64,
) -> (report: ProbeReport)
    requires
        poll_interval > 0,
        forall|t: u64| call_requires(predicate, (t,)),
    ensures
        report.service == service,
        report.elapsed == poll_time(report.progress@.len(), poll_interval),
        call_ensures(predicate, (report.elapsed,), report.outcome is Ready),
        report.outcome is TimedOut ==> report.elapsed >= max_elapsed,
        forall|j: nat|
            j < report.progress@.len() ==> {
                &&& #[trigger] poll_time(j, poll_interval) < max_elapsed
                &&& call_ensures(predicate, (poll_time(j, poll_interval),), false)
            },
        forall|j: int|
            0 <= j < report.progress@.len() ==> {
                &&& #[trigger] report.progress@[j] <= PROGRESS_CAP
                &&& report.progress@[j] == percent_elapsed(
                    poll_time(j as nat, poll_interval),
                    max_elapsed,
                )
            },
        forall|i: int, j: int|
            0 <= i <= j < report.progress@.len() ==> report.progress@[i] <= report.progress@[j],
        forall|k: nat|
            poll_time(k, poll_interval) < max_elapsed && surely_ready(
                predicate,
                #[trigger] poll_time(k, poll_interval),
            ) ==> report.outcome is Ready && report.elapsed <= poll_time(k, poll_interval),
        never_ready(predicate) ==> report.outcome is TimedOut,
{
    let mut state = ReadinessProbe::new(service, poll_interval, max_elapsed);
    let mut progress: Vec<u32> = Vec::new();
    let mut now: u64 = 0;
    loop
        invariant
            poll_interval > 0,
            forall|t: u64| call_requires(predicate, (t,)),
            state@.service == service,
            state@.poll_interval == poll_interval,
            state@.max_elapsed == max_elapsed,
            state@.outcome is None,
            now == poll_time(progress@.len(), poll_interval),
            progress@.len() > 0 ==> state@.shown == progress@[progress@.len() - 1],
            progress@.len() == 0 ==> state@.shown == 0,
            forall|j: nat|
                j < progress@.len() ==> {
                    &&& #[trigger] poll_time(j, poll_interval) < max_elapsed
                    &&& call_ensures(predicate, (poll_time(j, poll_interval),), false)
                },
            forall|j: int|
                0 <= j < progress@.len() ==> {
                    &&& #[trigger] progress@[j] <= PROGRESS_CAP
                    &&& progress@[j] == percent_elapsed(
                        poll_time(j as nat, poll_interval),
                        max_elapsed,
                    )
                },
            forall|i: int, j: int|
                0 <= i <= j < progress@.len() ==> progress@[i] <= progress@[j],
        decreases
            (if now < max_elapsed { max_elapsed - now } else { 0 }),
    {
        let ready = predicate(now);
        let ghost polls = progress@.len();
        let signal = state.observe(ready, now);
        match signal {
            ProbeSignal::Progress { percent } => {
                proof {
                    if polls > 0 {
                        lemma_poll_time_monotonic((polls - 1) as nat, polls, poll_interval);
                        lemma_percent_monotonic(
                            poll_time((polls - 1) as nat, poll_interval),
                            now,
                            max_elapsed,
                        );
                    }
                    assert((polls + 1) * poll_interval == polls * poll_interval + poll_interval)
                        by (nonlinear_arith);
                }
                progress.push(percent);
                now = if poll_interval > u64::MAX - now {
                    u64::MAX
                } else {
                    now + poll_interval
                };
            },
            _ => {
                let outcome = if ready {
                    ProbeOutcome::Ready
                } else {
                    ProbeOutcome::TimedOut
                };
                proof {
                    assert forall|k: nat|
                        poll_time(k, poll_interval) < max_elapsed && surely_ready(
                            predicate,
                            #[trigger] poll_time(k, poll_interval),
                        ) implies outcome is Ready && now <= poll_time(k, poll_interval) by {
                        if k >= polls {
                            lemma_poll_time_monotonic(polls, k, poll_interval);
                        }
                    }
                }
                return ProbeReport { service, outcome, elapsed: now, progress };
            },
        }
    }
}

} // verus!
