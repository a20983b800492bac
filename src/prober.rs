//! Health Prober: the decisions of a bounded sequence of TCP connection
//! attempts. The caller makes each attempt and waits between them; the prober
//! says after each attempt whether to stop or to wait and try again.
use vstd::prelude::*;

verus! {

#[derive(Clone, Copy, Debug, PartialEq, Eq, Structural)]
pub enum ProbeStatus {
    Probing,
    Ready,
    Exhausted,
}

/// What the caller does after an attempt.
#[derive(Clone, Copy, Debug, PartialEq, Eq, Structural)]
pub enum ProbeVerdict {
    /// A listener accepted the connection.
    Ready,
    /// Every attempt failed.
    Exhausted,
    /// Wait the interval, then attempt again.
    RetryAfterInterval,
}

#[derive(Clone, Copy, Debug, PartialEq, Eq, Structural)]
pub struct Prober {
    pub max_attempts: u32,
    pub attempts: u32,
    pub status: ProbeStatus,
}

/// A prober that has made no attempt yet.
pub open spec fn initial(max_attempts: u32) -> Prober {
    Prober {
        max_attempts,
        attempts: 0,
        status: if max_attempts == 0 { ProbeStatus::Exhausted } else { ProbeStatus::Probing },
    }
}

/// The prober after one more attempt, which connected or not.
pub open spec fn step(p: Prober, connected: bool) -> Prober {
    if p.status != ProbeStatus::Probing {
        p
    } else {
        let a = (p.attempts + 1) as u32;
        Prober {
            max_attempts: p.max_attempts,
            attempts: a,
            status: if connected {
                ProbeStatus::Ready
            } else if a >= p.max_attempts {
                ProbeStatus::Exhausted
            } else {
                ProbeStatus::Probing
            },
        }
    }
}

pub open spec fn verdict_of(p: Prober) -> ProbeVerdict {
    match p.status {
        ProbeStatus::Ready => ProbeVerdict::Ready,
        ProbeStatus::Exhausted => ProbeVerdict::Exhausted,
        ProbeStatus::Probing => ProbeVerdict::RetryAfterInterval,
    }
}

/// The prober after the attempts whose outcomes are given, in order, and the
/// number of waits between them. Outcomes after the prober stopped are never
/// consumed.
pub open spec fn run(p: Prober, outcomes: Seq<bool>) -> (Prober, nat)
    decreases outcomes.len(),
{
    if outcomes.len() == 0 || p.status != ProbeStatus::Probing {
        (p, 0)
    } else {
        let q = step(p, outcomes[0]);
        let rest = run(q, outcomes.skip(1));
        (rest.0, rest.1 + if q.status == ProbeStatus::Probing { 1nat } else { 0nat })
    }
}

impl Prober {
    pub open spec fn wf(self) -> bool {
        &&& self.attempts <= self.max_attempts
        &&& self.status == ProbeStatus::Probing ==> self.attempts < self.max_attempts
        &&& self.status == ProbeStatus::Exhausted ==> self.attempts == self.max_attempts
    }

    /// A prober that allows up to `max_attempts` attempts.
    pub fn new(max_attempts: u32) -> (r: Prober)
        ensures
            r == initial(max_attempts),
            r.wf(),
    {
        Prober {
            max_attempts,
            attempts: 0,
            status: if max_attempts == 0 { ProbeStatus::Exhausted } else { ProbeStatus::Probing },
        }
    }

    /// Records the outcome of one attempt and says what to do next.
    pub fn record(&mut self, connected: bool) -> (v: ProbeVerdict)
        requires
            old(self).wf(),
            old(self).status == ProbeStatus::Probing,
        ensures
            *final(self) == step(*old(self), connected),
            final(self).wf(),
            v == verdict_of(*final(self)),
    {
        self.attempts = self.attempts + 1;
        if connected {
            self.status = ProbeStatus::Ready;
            ProbeVerdict::Ready
        } else if self.attempts >= self.max_attempts {
            self.status = ProbeStatus::Exhausted;
            ProbeVerdict::Exhausted
        } else {
            ProbeVerdict::RetryAfterInterval
        }
    }

    /// Whether no further attempt is to be made.
    pub fn is_finished(&self) -> (r: bool)
        ensures
            r == (self.status != ProbeStatus::Probing),
    {
        self.status != ProbeStatus::Probing
    }

    /// Whether an attempt found a listener.
    pub fn succeeded(&self) -> (r: bool)
        ensures
            r == (self.status == ProbeStatus::Ready),
    {
        self.status == ProbeStatus::Ready
    }
}

proof fn lemma_run_all_failing(p: Prober, outcomes: Seq<bool>)
    requires
        p.wf(),
        p.status == ProbeStatus::Probing,
        outcomes.len() >= p.max_attempts - p.attempts,
        forall|i: int| 0 <= i < p.max_attempts - p.attempts ==> !outcomes[i],
    ensures
        run(p, outcomes).0.status == ProbeStatus::Exhausted,
        run(p, outcomes).0.attempts == p.max_attempts,
        run(p, outcomes).1 == p.max_attempts - p.attempts - 1,
    decreases outcomes.len(),
{
    let q = step(p, outcomes[0]);
    if q.status == ProbeStatus::Probing {
        assert forall|i: int| 0 <= i < q.max_attempts - q.attempts implies !outcomes.skip(1)[i] by {
            assert(outcomes.skip(1)[i] == outcomes[i + 1]);
        }
        lemma_run_all_failing(q, outcomes.skip(1));
    } else {
        assert(run(q, outcomes.skip(1)) == (q, 0nat));
    }
}

/// Against a port where no listener ever appears, the prober makes exactly
/// `max_attempts` attempts, waits the interval between each two of them, so
/// `max_attempts - 1` times, and reports failure.
pub proof fn lemma_probe_exhausts(max_attempts: u32, outcomes: Seq<bool>)
    requires
        max_attempts >= 1,
        outcomes.len() >= max_attempts,
        forall|i: int| 0 <= i < max_attempts ==> !outcomes[i],
    ensures
        run(initial(max_attempts), outcomes).0.status == ProbeStatus::Exhausted,
        run(initial(max_attempts), outcomes).0.attempts == max_attempts,
        run(initial(max_attempts), outcomes).1 == max_attempts - 1,
{
    lemma_run_all_failing(initial(max_attempts), outcomes);
}

proof fn lemma_run_first_success(p: Prober, outcomes: Seq<bool>, k: int)
    requires
        p.wf(),
        p.status == ProbeStatus::Probing,
        0 <= k < outcomes.len(),
        k < p.max_attempts - p.attempts,
        outcomes[k],
        forall|i: int| 0 <= i < k ==> !outcomes[i],
    ensures
        run(p, outcomes).0.status == ProbeStatus::Ready,
        run(p, outcomes).0.attempts == p.attempts + k + 1,
        run(p, outcomes).1 == k,
    decreases outcomes.len(),
{
    let q = step(p, outcomes[0]);
    if k > 0 {
        assert forall|i: int| 0 <= i < k - 1 implies !outcomes.skip(1)[i] by {
            assert(outcomes.skip(1)[i] == outcomes[i + 1]);
        }
        lemma_run_first_success(q, outcomes.skip(1), k - 1);
    } else {
        assert(run(q, outcomes.skip(1)) == (q, 0nat));
    }
}

/// When the first attempt to find a listener is attempt `k + 1` (counting from
/// one) and that is within the allowance, the prober reports success there: it
/// makes no further attempt and has waited `k` times.
pub proof fn lemma_probe_stops_at_first_success(max_attempts: u32, outcomes: Seq<bool>, k: int)
    requires
        0 <= k < max_attempts,
        k < outcomes.len(),
        outcomes[k],
        forall|i: int| 0 <= i < k ==> !outcomes[i],
    ensures
        run(initial(max_attempts), outcomes).0.status == ProbeStatus::Ready,
        run(initial(max_attempts), outcomes).0.attempts == k + 1,
        run(initial(max_attempts), outcomes).1 == k,
{
    lemma_run_first_success(initial(max_attempts), outcomes, k);
}

} // verus!
