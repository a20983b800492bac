//! Supervisor: the state machine that tries the candidates in order, has each
//! launched process health-checked, keeps the one that answers, and releases it
//! exactly once. The caller performs what each step directs and reports back.
use vstd::prelude::*;
use crate::launcher::LaunchError;
use crate::text::{decimal, decimal_string};

verus! {

/// The port on which the companion process listens unless configured otherwise.
pub const DEFAULT_PORT: u16 = 55001;

/// Timings and limits of a supervised start.
#[derive(Clone, Copy, Debug, PartialEq, Eq, Structural)]
pub struct SupervisorConfig {
    pub port: u16,
    pub probe_attempts: u32,
    pub probe_interval_ms: u64,
    pub connect_timeout_ms: u64,
    /// Delay after spawning before the process's exit status is polled.
    pub grace_ms: u64,
    /// Delay after a successful launch before the first health probe.
    pub settle_ms: u64,
}

/// Upper bound, in milliseconds, on the time one candidate's attempt takes.
pub open spec fn attempt_budget(c: SupervisorConfig) -> int {
    c.grace_ms + c.settle_ms + c.probe_attempts * (c.connect_timeout_ms + c.probe_interval_ms)
}

impl Default for SupervisorConfig {
    fn default() -> (r: SupervisorConfig)
        ensures
            r == (SupervisorConfig {
                port: DEFAULT_PORT,
                probe_attempts: 10,
                probe_interval_ms: 500,
                connect_timeout_ms: 250,
                grace_ms: 1000,
                settle_ms: 2000,
            }),
    {
        SupervisorConfig {
            port: DEFAULT_PORT,
            probe_attempts: 10,
            probe_interval_ms: 500,
            connect_timeout_ms: 250,
            grace_ms: 1000,
            settle_ms: 2000,
        }
    }
}

impl SupervisorConfig {
    /// The bound on one candidate's attempt, or `None` where it exceeds `u64`.
    pub fn attempt_budget_ms(&self) -> (r: Option<u64>)
        ensures
            r == (if attempt_budget(*self) <= u64::MAX {
                Some(attempt_budget(*self) as u64)
            } else {
                None::<u64>
            }),
    {
        let per_attempt = self.connect_timeout_ms as u128 + self.probe_interval_ms as u128;
        let attempts = self.probe_attempts as u128;
        assert(attempts * per_attempt <= 0xffff_ffffu128 * 0x1_ffff_ffff_ffff_fffeu128) by (nonlinear_arith)
            requires
                0 <= per_attempt <= 0x1_ffff_ffff_ffff_fffeu128,
                0 <= attempts <= 0xffff_ffffu128,
        ;
        let probing = attempts * per_attempt;
        let total = self.grace_ms as u128 + self.settle_ms as u128 + probing;
        if total <= u64::MAX as u128 {
            Some(total as u64)
        } else {
            None
        }
    }
}

/// Where the supervisor stands.
#[derive(Clone, Copy, Debug, PartialEq, Eq, Structural)]
pub enum Phase {
    Idle,
    /// Candidate `i` is being launched.
    Attempting(usize),
    /// Candidate `i` is running and being probed.
    HealthChecking(usize),
    /// Candidate `i` is running and answered the probe.
    Ready(usize),
    /// Every candidate failed.
    Failed,
    /// The process was released by a shutdown.
    Terminated,
}

/// What the caller reports after performing a directive.
#[derive(Clone, Copy, Debug, PartialEq, Eq, Structural)]
pub enum Event {
    Launched,
    LaunchFailed,
    ProbeSucceeded,
    ProbeFailed,
}

/// The result of a start: the candidate that serves, or a degraded run in
/// which backend-dependent features will not work.
#[derive(Clone, Copy, Debug, PartialEq, Eq, Structural)]
pub enum StartupOutcome {
    Ready(usize),
    Degraded,
}

/// What the caller does next.
#[derive(Clone, Copy, Debug, PartialEq, Eq, Structural)]
pub enum Directive {
    /// Launch candidate `i`.
    Launch(usize),
    /// Probe the configured port.
    Probe,
    /// The start is over.
    Finished(StartupOutcome),
    /// Nothing: the event did not fit the phase.
    Nothing,
}

/// One transition: whether to terminate the process started by the current
/// candidate first, and what to do then.
#[derive(Clone, Copy, Debug, PartialEq, Eq, Structural)]
pub struct Step {
    pub terminate: bool,
    pub directive: Directive,
}

/// What a supervisor is, as its contracts speak of it.
#[derive(Clone, Copy, Debug, PartialEq, Eq, Structural)]
pub struct SupervisorModel {
    pub config: SupervisorConfig,
    pub candidate_count: usize,
    pub phase: Phase,
}

/// The candidate whose process the supervisor holds, if any.
pub open spec fn live_candidate(p: Phase) -> Option<usize> {
    match p {
        Phase::HealthChecking(i) => Some(i),
        Phase::Ready(i) => Some(i),
        _ => None,
    }
}

/// Every candidate index that the phase names is a candidate.
pub open spec fn phase_in_range(p: Phase, n: usize) -> bool {
    match p {
        Phase::Attempting(i) => i < n,
        Phase::HealthChecking(i) => i < n,
        Phase::Ready(i) => i < n,
        _ => true,
    }
}

/// Moving on from failed candidate `i`: the next one, or a degraded finish.
pub open spec fn after_failure(m: SupervisorModel, i: usize, terminate: bool) -> (SupervisorModel, Step) {
    if i + 1 < m.candidate_count {
        (
            SupervisorModel { phase: Phase::Attempting((i + 1) as usize), ..m },
            Step { terminate, directive: Directive::Launch((i + 1) as usize) },
        )
    } else {
        (
            SupervisorModel { phase: Phase::Failed, ..m },
            Step { terminate, directive: Directive::Finished(StartupOutcome::Degraded) },
        )
    }
}

/// Beginning a start from `Idle`: the first candidate, or a degraded finish
/// when there is none. In any other phase nothing happens.
pub open spec fn start_step(m: SupervisorModel) -> (SupervisorModel, Directive) {
    if m.phase != Phase::Idle {
        (m, Directive::Nothing)
    } else if m.candidate_count == 0 {
        (SupervisorModel { phase: Phase::Failed, ..m }, Directive::Finished(StartupOutcome::Degraded))
    } else {
        (SupervisorModel { phase: Phase::Attempting(0), ..m }, Directive::Launch(0))
    }
}

/// The transition on an event. A launched candidate is probed; a probe that
/// succeeds makes it the serving one; a failed launch, or a failed probe after
/// which the process is terminated, moves on to the next candidate.
pub open spec fn advance(m: SupervisorModel, e: Event) -> (SupervisorModel, Step) {
    let ignore = (m, Step { terminate: false, directive: Directive::Nothing });
    match m.phase {
        Phase::Attempting(i) => match e {
            Event::Launched => (
                SupervisorModel { phase: Phase::HealthChecking(i), ..m },
                Step { terminate: false, directive: Directive::Probe },
            ),
            Event::LaunchFailed => after_failure(m, i, false),
            _ => ignore,
        },
        Phase::HealthChecking(i) => match e {
            Event::ProbeSucceeded => (
                SupervisorModel { phase: Phase::Ready(i), ..m },
                Step { terminate: false, directive: Directive::Finished(StartupOutcome::Ready(i)) },
            ),
            Event::ProbeFailed => after_failure(m, i, true),
            _ => ignore,
        },
        _ => ignore,
    }
}

/// A shutdown: a held process is terminated and the phase becomes
/// `Terminated`; without one nothing changes. The flag says whether to
/// terminate.
pub open spec fn shutdown_step(m: SupervisorModel) -> (SupervisorModel, bool) {
    if live_candidate(m.phase) is Some {
        (SupervisorModel { phase: Phase::Terminated, ..m }, true)
    } else {
        (m, false)
    }
}

/// The backend's base URL: scheme, loopback address and port.
pub open spec fn base_url(port: u16) -> Seq<char> {
    "http://127.0.0.1:"@ + decimal(port as nat)
}

/// The event that a launch verdict reports.
pub open spec fn launch_event(r: Result<(), LaunchError>) -> Event {
    match r {
        Ok(()) => Event::Launched,
        Err(_) => Event::LaunchFailed,
    }
}

/// The event that reports a launch verdict to the supervisor.
pub fn event_of_launch(r: Result<(), LaunchError>) -> (e: Event)
    ensures
        e == launch_event(r),
{
    match r {
        Ok(()) => Event::Launched,
        Err(_) => Event::LaunchFailed,
    }
}

/// The event that reports a probe's result to the supervisor.
pub fn event_of_probe(ready: bool) -> (e: Event)
    ensures
        e == (if ready { Event::ProbeSucceeded } else { Event::ProbeFailed }),
{
    if ready {
        Event::ProbeSucceeded
    } else {
        Event::ProbeFailed
    }
}

/// Owner of the companion process's lifecycle. It holds at most one process at
/// a time; which one the caller holds for it is named by the phase.
pub struct Supervisor {
    config: SupervisorConfig,
    candidate_count: usize,
    phase: Phase,
}

impl View for Supervisor {
    type V = SupervisorModel;

    closed spec fn view(&self) -> SupervisorModel {
        SupervisorModel { config: self.config, candidate_count: self.candidate_count, phase: self.phase }
    }
}

impl Supervisor {
    #[verifier::type_invariant]
    closed spec fn indices_in_range(self) -> bool {
        phase_in_range(self.phase, self.candidate_count)
    }

    /// An idle supervisor over `candidate_count` candidates.
    pub fn new(config: SupervisorConfig, candidate_count: usize) -> (r: Supervisor)
        ensures
            r@ == (SupervisorModel { config, candidate_count, phase: Phase::Idle }),
    {
        Supervisor { config, candidate_count, phase: Phase::Idle }
    }

    /// Begins a start.
    pub fn start(&mut self) -> (d: Directive)
        ensures
            (final(self)@, d) == start_step(old(self)@),
    {
        if self.phase != Phase::Idle {
            Directive::Nothing
        } else if self.candidate_count == 0 {
            self.phase = Phase::Failed;
            Directive::Finished(StartupOutcome::Degraded)
        } else {
            self.phase = Phase::Attempting(0);
            Directive::Launch(0)
        }
    }

    fn fail_candidate(&mut self, i: usize, terminate: bool) -> (s: Step)
        requires
            i < old(self)@.candidate_count,
        ensures
            (final(self)@, s) == after_failure(old(self)@, i, terminate),
    {
        if i + 1 < self.candidate_count {
            self.phase = Phase::Attempting(i + 1);
            Step { terminate, directive: Directive::Launch(i + 1) }
        } else {
            self.phase = Phase::Failed;
            Step { terminate, directive: Directive::Finished(StartupOutcome::Degraded) }
        }
    }

    /// Takes in what the caller observed and says what to do next.
    pub fn on_event(&mut self, e: Event) -> (s: Step)
        ensures
            (final(self)@, s) == advance(old(self)@, e),
    {
        proof {
            use_type_invariant(&*self);
        }
        let ignore = Step { terminate: false, directive: Directive::Nothing };
        match self.phase {
            Phase::Attempting(i) => match e {
                Event::Launched => {
                    self.phase = Phase::HealthChecking(i);
                    Step { terminate: false, directive: Directive::Probe }
                },
                Event::LaunchFailed => self.fail_candidate(i, false),
                _ => ignore,
            },
            Phase::HealthChecking(i) => match e {
                Event::ProbeSucceeded => {
                    self.phase = Phase::Ready(i);
                    Step { terminate: false, directive: Directive::Finished(StartupOutcome::Ready(i)) }
                },
                Event::ProbeFailed => self.fail_candidate(i, true),
                _ => ignore,
            },
            _ => ignore,
        }
    }

    /// Releases the held process, if any. Returns whether the caller is to
    /// terminate it; a second call returns `false`.
    pub fn shutdown(&mut self) -> (terminate: bool)
        ensures
            (final(self)@, terminate) == shutdown_step(old(self)@),
    {
        match self.phase {
            Phase::HealthChecking(_) | Phase::Ready(_) => {
                self.phase = Phase::Terminated;
                true
            },
            _ => false,
        }
    }

    /// Where the supervisor stands.
    pub fn phase(&self) -> (r: Phase)
        ensures
            r == self@.phase,
    {
        self.phase
    }

    /// The configuration it was made with.
    pub fn config(&self) -> (r: SupervisorConfig)
        ensures
            r == self@.config,
    {
        self.config
    }

    /// The number of candidates it tries.
    pub fn candidate_count(&self) -> (r: usize)
        ensures
            r == self@.candidate_count,
    {
        self.candidate_count
    }

    /// Whether it holds a live process.
    pub fn holds_process(&self) -> (r: bool)
        ensures
            r == (live_candidate(self@.phase) is Some),
    {
        match self.phase {
            Phase::HealthChecking(_) | Phase::Ready(_) => true,
            _ => false,
        }
    }

    /// The backend's base URL; it depends on the configured port alone.
    pub fn backend_base_url(&self) -> (r: String)
        ensures
            r@ == base_url(self@.config.port),
    {
        backend_url_for(self.config.port)
    }
}

/// The base URL of a backend that listens on `port`.
pub fn backend_url_for(port: u16) -> (r: String)
    ensures
        r@ == base_url(port),
{
    let digits = decimal_string(port as u64);
    String::from_str("http://127.0.0.1:").concat(digits.as_str())
}

/// The candidate being launched or probed, if any.
pub open spec fn current_candidate(p: Phase) -> Option<usize> {
    match p {
        Phase::Attempting(i) => Some(i),
        Phase::HealthChecking(i) => Some(i),
        _ => None,
    }
}

/// The candidates that the supervisor directs to launch while it takes in the
/// events `es`, in order.
pub open spec fn launches(m: SupervisorModel, es: Seq<Event>) -> Seq<usize>
    decreases es.len(),
{
    if es.len() == 0 {
        Seq::empty()
    } else {
        let next = advance(m, es[0]);
        let rest = launches(next.0, es.skip(1));
        match next.1.directive {
            Directive::Launch(j) => seq![j] + rest,
            _ => rest,
        }
    }
}

/// The candidates launched by a start from `Idle` followed by the events `es`.
pub open spec fn launches_of_start(m: SupervisorModel, es: Seq<Event>) -> Seq<usize> {
    let first = start_step(m);
    let head = match first.1 {
        Directive::Launch(j) => seq![j],
        _ => Seq::empty(),
    };
    head + launches(first.0, es)
}

pub open spec fn strictly_increasing(s: Seq<usize>) -> bool {
    forall|a: int, b: int| 0 <= a < b < s.len() ==> s[a] < s[b]
}

proof fn lemma_launches_after(m: SupervisorModel, es: Seq<Event>)
    ensures
        strictly_increasing(launches(m, es)),
        current_candidate(m.phase) is None ==> launches(m, es).len() == 0,
        current_candidate(m.phase) is Some ==> forall|k: int|
            0 <= k < launches(m, es).len() ==> launches(m, es)[k] > current_candidate(m.phase)->0,
    decreases es.len(),
{
    if es.len() > 0 {
        let next = advance(m, es[0]);
        lemma_launches_after(next.0, es.skip(1));
        let rest = launches(next.0, es.skip(1));
        match next.1.directive {
            Directive::Launch(j) => {
                let all = seq![j] + rest;
                assert(all == launches(m, es));
                assert forall|a: int, b: int| 0 <= a < b < all.len() implies all[a] < all[b] by {
                    if a > 0 {
                        assert(all[a] == rest[a - 1]);
                    }
                    assert(all[b] == rest[b - 1]);
                }
            },
            _ => {},
        }
    }
}

/// A start tries each candidate at most once, in increasing order: whatever
/// events follow, no candidate is launched again.
pub proof fn lemma_no_candidate_retried(m: SupervisorModel, es: Seq<Event>)
    requires
        m.phase == Phase::Idle,
    ensures
        strictly_increasing(launches_of_start(m, es)),
{
    let first = start_step(m);
    lemma_launches_after(first.0, es);
    let rest = launches(first.0, es);
    if m.candidate_count > 0 {
        let all = seq![0usize] + rest;
        assert(all == launches_of_start(m, es));
        assert forall|a: int, b: int| 0 <= a < b < all.len() implies all[a] < all[b] by {
            if a > 0 {
                assert(all[a] == rest[a - 1]);
            }
            assert(all[b] == rest[b - 1]);
        }
    } else {
        assert(launches_of_start(m, es) == rest);
    }
}

/// The supervisor never holds two processes: a launch is directed only when no
/// process is held or the held one is terminated first; a termination is
/// directed only for a held process; and a step never exchanges one held
/// process for another.
pub proof fn lemma_one_process_at_a_time(m: SupervisorModel, e: Event)
    ensures
        advance(m, e).1.directive is Launch ==> (live_candidate(m.phase) is None || advance(m, e).1.terminate),
        advance(m, e).1.terminate ==> live_candidate(m.phase) is Some,
        live_candidate(advance(m, e).0.phase) is Some ==> (live_candidate(m.phase) is None
            || live_candidate(advance(m, e).0.phase) == live_candidate(m.phase)),
        start_step(m).1 is Launch ==> live_candidate(m.phase) is None,
{
}

/// A second shutdown right after a first is a no-op: it directs no
/// termination and changes nothing, so the process is terminated at most once.
pub proof fn lemma_shutdown_idempotent(m: SupervisorModel)
    ensures
        shutdown_step(shutdown_step(m).0) == (shutdown_step(m).0, false),
        live_candidate(shutdown_step(m).0.phase) is None,
{
}

/// The base URL is the same in every phase: it depends on the configured port
/// alone.
pub proof fn lemma_url_ignores_phase(a: SupervisorModel, b: SupervisorModel)
    requires
        a.config.port == b.config.port,
    ensures
        base_url(a.config.port) == base_url(b.config.port),
{
}

} // verus!
