use backend_supervisor::launcher::{assess_launch, output_target, LaunchError, OutputTarget, SpawnReport};
use backend_supervisor::prober::{ProbeStatus, ProbeVerdict, Prober};
use backend_supervisor::supervisor::{
    backend_url_for, event_of_launch, event_of_probe, Directive, Event, Phase, StartupOutcome,
    Step, Supervisor, SupervisorConfig, DEFAULT_PORT,
};

fn step(terminate: bool, directive: Directive) -> Step {
    Step { terminate, directive }
}

#[test]
fn probe_gives_up_after_all_attempts() {
    let mut p = Prober::new(3);
    let mut waits = 0u32;
    let mut verdict = ProbeVerdict::RetryAfterInterval;
    while !p.is_finished() {
        verdict = p.record(false);
        if verdict == ProbeVerdict::RetryAfterInterval {
            waits += 1;
        }
    }
    assert_eq!(verdict, ProbeVerdict::Exhausted);
    assert_eq!(p.attempts, 3);
    assert_eq!(waits, 2);
    assert!(!p.succeeded());
    // two waits of 10 ms each between three attempts
    assert!(waits as u64 * 10 >= 20);
}

#[test]
fn probe_stops_at_first_listener() {
    let mut p = Prober::new(3);
    assert_eq!(p.record(false), ProbeVerdict::RetryAfterInterval);
    assert_eq!(p.record(false), ProbeVerdict::RetryAfterInterval);
    assert_eq!(p.record(true), ProbeVerdict::Ready);
    assert_eq!(p.attempts, 3);
    assert!(p.is_finished());
    assert!(p.succeeded());
    let mut q = Prober::new(5);
    assert_eq!(q.record(false), ProbeVerdict::RetryAfterInterval);
    assert_eq!(q.record(true), ProbeVerdict::Ready);
    assert_eq!(q.attempts, 2);
    assert_eq!(q.status, ProbeStatus::Ready);
}

#[test]
fn probe_with_no_attempts_is_exhausted() {
    let p = Prober::new(0);
    assert!(p.is_finished());
    assert!(!p.succeeded());
    assert_eq!(p.status, ProbeStatus::Exhausted);
}

#[test]
fn launch_verdicts() {
    assert_eq!(assess_launch(SpawnReport::NotSpawned), Err(LaunchError::SpawnFailed));
    assert_eq!(assess_launch(SpawnReport::ExitedDuringGrace), Err(LaunchError::ExitedEarly));
    assert_eq!(assess_launch(SpawnReport::Running), Ok(()));
    assert_eq!(assess_launch(SpawnReport::StatusUnknown), Ok(()));
    assert_eq!(output_target(true), OutputTarget::LogFile);
    assert_eq!(output_target(false), OutputTarget::Inherited);
    assert_eq!(event_of_launch(Ok(())), Event::Launched);
    assert_eq!(event_of_launch(Err(LaunchError::ExitedEarly)), Event::LaunchFailed);
    assert_eq!(event_of_probe(true), Event::ProbeSucceeded);
    assert_eq!(event_of_probe(false), Event::ProbeFailed);
}

#[test]
fn fallback_to_second_candidate() {
    let mut s = Supervisor::new(SupervisorConfig::default(), 3);
    assert_eq!(s.start(), Directive::Launch(0));
    assert_eq!(s.on_event(Event::LaunchFailed), step(false, Directive::Launch(1)));
    assert_eq!(s.phase(), Phase::Attempting(1));
    assert_eq!(s.on_event(Event::Launched), step(false, Directive::Probe));
    assert_eq!(
        s.on_event(Event::ProbeSucceeded),
        step(false, Directive::Finished(StartupOutcome::Ready(1)))
    );
    assert_eq!(s.phase(), Phase::Ready(1));
    assert!(s.holds_process());
    // further events launch nothing
    assert_eq!(s.on_event(Event::LaunchFailed), step(false, Directive::Nothing));
    assert_eq!(s.start(), Directive::Nothing);
    assert_eq!(s.phase(), Phase::Ready(1));
}

#[test]
fn failed_probe_terminates_before_next_candidate() {
    let mut s = Supervisor::new(SupervisorConfig::default(), 2);
    assert_eq!(s.start(), Directive::Launch(0));
    assert_eq!(s.on_event(Event::Launched), step(false, Directive::Probe));
    assert_eq!(s.on_event(Event::ProbeFailed), step(true, Directive::Launch(1)));
    assert!(!s.holds_process());
    assert_eq!(s.on_event(Event::Launched), step(false, Directive::Probe));
    assert_eq!(
        s.on_event(Event::ProbeFailed),
        step(true, Directive::Finished(StartupOutcome::Degraded))
    );
    assert_eq!(s.phase(), Phase::Failed);
}

#[test]
fn no_candidates_means_degraded() {
    let mut s = Supervisor::new(SupervisorConfig::default(), 0);
    assert_eq!(s.start(), Directive::Finished(StartupOutcome::Degraded));
    assert_eq!(s.phase(), Phase::Failed);
    assert!(!s.shutdown());
    assert_eq!(s.phase(), Phase::Failed);
}

#[test]
fn shutdown_twice_terminates_once() {
    let mut s = Supervisor::new(SupervisorConfig::default(), 1);
    s.start();
    s.on_event(Event::Launched);
    s.on_event(Event::ProbeSucceeded);
    assert!(s.shutdown());
    assert_eq!(s.phase(), Phase::Terminated);
    assert!(!s.shutdown());
    assert_eq!(s.phase(), Phase::Terminated);
}

#[test]
fn shutdown_when_idle_is_noop() {
    let mut s = Supervisor::new(SupervisorConfig::default(), 2);
    assert!(!s.shutdown());
    assert_eq!(s.phase(), Phase::Idle);
}

#[test]
fn base_url_same_in_every_phase() {
    let expected = "http://127.0.0.1:55001".to_string();
    let mut idle = Supervisor::new(SupervisorConfig::default(), 1);
    assert_eq!(idle.backend_base_url(), expected);
    let mut ready = Supervisor::new(SupervisorConfig::default(), 1);
    ready.start();
    ready.on_event(Event::Launched);
    ready.on_event(Event::ProbeSucceeded);
    assert_eq!(ready.phase(), Phase::Ready(0));
    assert_eq!(ready.backend_base_url(), expected);
    let mut failed = Supervisor::new(SupervisorConfig::default(), 1);
    failed.start();
    failed.on_event(Event::LaunchFailed);
    assert_eq!(failed.phase(), Phase::Failed);
    assert_eq!(failed.backend_base_url(), expected);
    idle.shutdown();
    assert_eq!(idle.backend_base_url(), expected);
    assert_eq!(backend_url_for(5001), "http://127.0.0.1:5001");
}

#[test]
fn default_config_and_budget() {
    let c = SupervisorConfig::default();
    assert_eq!(c.port, DEFAULT_PORT);
    assert_eq!(c.port, 55001);
    assert_eq!(c.probe_attempts, 10);
    assert_eq!(c.attempt_budget_ms(), Some(1000 + 2000 + 10 * (250 + 500)));
    let huge = SupervisorConfig { probe_attempts: u32::MAX, probe_interval_ms: u64::MAX, ..c };
    assert_eq!(huge.attempt_budget_ms(), None);
    let s = Supervisor::new(c, 4);
    assert_eq!(s.config(), c);
    assert_eq!(s.candidate_count(), 4);
}
