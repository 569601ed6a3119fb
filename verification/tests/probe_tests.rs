use zeckit::probe::{
    probe, progress_percent, ProbeOutcome, ProbeSignal, ReadinessProbe, PROGRESS_CAP,
};
use zeckit::service::{Backend, Service, ServiceHealthStatus};

#[test]
fn progress_is_the_share_of_the_deadline() {
    assert_eq!(progress_percent(0, 120), 0);
    assert_eq!(progress_percent(3, 120), 2);
    assert_eq!(progress_percent(60, 120), 50);
    assert_eq!(progress_percent(119, 120), 99);
    assert_eq!(progress_percent(90, 180), 50);
}

#[test]
fn progress_is_capped_below_one_hundred() {
    assert_eq!(PROGRESS_CAP, 99);
    assert_eq!(progress_percent(120, 120), 99);
    assert_eq!(progress_percent(u64::MAX, 120), 99);
    assert_eq!(progress_percent(5, 0), 99);
    assert_eq!(progress_percent(u64::MAX, u64::MAX), 99);
}

#[test]
fn probe_is_ready_before_the_deadline() {
    let report = probe(Service::Node, |t: u64| t >= 30, 1, 120);
    assert_eq!(report.outcome, ProbeOutcome::Ready);
    assert_eq!(report.elapsed, 30);
    assert!(report.elapsed < 120);
    assert_eq!(report.progress.len(), 30);
    assert_eq!(report.progress[0], 0);
    assert_eq!(report.progress[29], 24);
    for pair in report.progress.windows(2) {
        assert!(pair[0] <= pair[1]);
    }
    for percent in &report.progress {
        assert!(*percent <= 99);
    }
}

#[test]
fn probe_ready_at_once_shows_no_progress() {
    let report = probe(Service::Faucet, |_t: u64| true, 1, 120);
    assert_eq!(report.outcome, ProbeOutcome::Ready);
    assert_eq!(report.elapsed, 0);
    assert!(report.progress.is_empty());
}

#[test]
fn probe_times_out_once_at_the_deadline() {
    let report = probe(Service::Node, |_t: u64| false, 1, 120);
    assert_eq!(report.outcome, ProbeOutcome::TimedOut);
    assert_eq!(report.elapsed, 120);
    assert_eq!(report.progress.len(), 120);
    assert_eq!(report.progress[119], 99);
}

#[test]
fn probe_times_out_at_the_first_poll_after_the_deadline() {
    let report = probe(Service::Zaino, |_t: u64| false, 7, 180);
    assert_eq!(report.service, Service::Zaino);
    assert_eq!(report.outcome, ProbeOutcome::TimedOut);
    assert_eq!(report.elapsed, 182);
    assert_eq!(report.progress.len(), 26);
}

#[test]
fn probe_with_no_time_at_all_polls_once() {
    let timed_out = probe(Service::Node, |_t: u64| false, 1, 0);
    assert_eq!(timed_out.outcome, ProbeOutcome::TimedOut);
    assert_eq!(timed_out.elapsed, 0);
    let ready = probe(Service::Node, |_t: u64| true, 1, 0);
    assert_eq!(ready.outcome, ProbeOutcome::Ready);
}

#[test]
fn probe_clock_stops_at_the_largest_value() {
    let report = probe(Service::Node, |_t: u64| false, u64::MAX - 1, u64::MAX);
    assert_eq!(report.outcome, ProbeOutcome::TimedOut);
    assert_eq!(report.elapsed, u64::MAX);
    assert_eq!(report.progress.len(), 2);
}

#[test]
fn observe_follows_the_polls() {
    let mut p = ReadinessProbe::new(Service::Node, 1, 120);
    assert_eq!(p.service(), Service::Node);
    assert_eq!(p.poll_interval(), 1);
    assert_eq!(p.max_elapsed(), 120);
    assert_eq!(p.outcome(), None);
    assert_eq!(p.observe(false, 0), ProbeSignal::Progress { percent: 0 });
    assert_eq!(p.observe(false, 60), ProbeSignal::Progress { percent: 50 });
    assert_eq!(p.progress(), 50);
    assert_eq!(p.observe(true, 61), ProbeSignal::Ready);
    assert_eq!(p.outcome(), Some(ProbeOutcome::Ready));
}

#[test]
fn observe_never_shows_less_than_before() {
    let mut p = ReadinessProbe::new(Service::Faucet, 1, 120);
    assert_eq!(p.observe(false, 90), ProbeSignal::Progress { percent: 75 });
    assert_eq!(p.observe(false, 30), ProbeSignal::Progress { percent: 75 });
    assert_eq!(p.observe(false, 96), ProbeSignal::Progress { percent: 80 });
}

#[test]
fn observe_times_out_exactly_once() {
    let mut p = ReadinessProbe::new(Service::Node, 1, 120);
    assert_eq!(p.observe(false, 119), ProbeSignal::Progress { percent: 99 });
    assert_eq!(p.observe(false, 120), ProbeSignal::TimedOut);
    assert_eq!(p.outcome(), Some(ProbeOutcome::TimedOut));
    assert_eq!(p.observe(false, 121), ProbeSignal::Closed);
    assert_eq!(p.observe(true, 122), ProbeSignal::Closed);
    assert_eq!(p.outcome(), Some(ProbeOutcome::TimedOut));
}

#[test]
fn a_ready_service_beats_a_passed_deadline() {
    let mut p = ReadinessProbe::new(Service::Node, 1, 120);
    assert_eq!(p.observe(true, 500), ProbeSignal::Ready);
}

#[test]
fn services_have_their_labels() {
    assert_eq!(Service::Node.label(), "Zebra");
    assert_eq!(Service::Lightwalletd.label(), "Lightwalletd");
    assert_eq!(Service::Zaino.label(), "Zaino");
    assert_eq!(Service::Faucet.label(), "Faucet");
    assert_eq!(Service::Node.not_ready_message(), "Zebra not ready");
    assert_eq!(Service::Zaino.not_ready_message(), "Zaino not ready");
}

#[test]
fn backends_are_read_from_their_names() {
    assert_eq!(Backend::parse("lwd"), Some(Backend::Lightwalletd));
    assert_eq!(Backend::parse("zaino"), Some(Backend::Zaino));
    assert_eq!(Backend::parse("none"), Some(Backend::Absent));
    assert_eq!(Backend::parse("LWD"), None);
    assert_eq!(Backend::parse(""), None);
    assert_eq!(Backend::parse("zainoo"), None);
    assert_eq!(Backend::Lightwalletd.service(), Some(Service::Lightwalletd));
    assert_eq!(Backend::Zaino.service(), Some(Service::Zaino));
    assert_eq!(Backend::Absent.service(), None);
}

#[test]
fn health_status_follows_the_check() {
    let up = ServiceHealthStatus::from_check(Service::Node, Ok(()));
    assert!(up.ready);
    assert_eq!(up.service, Service::Node);
    assert_eq!(up.last_error, None);
    let down = ServiceHealthStatus::from_check(Service::Faucet, Err("refused".to_string()));
    assert!(!down.ready);
    assert_eq!(down.last_error, Some("refused".to_string()));
}
