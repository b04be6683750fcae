//! Readiness probing: a bounded number of attempts, each judged by a
//! protocol-specific predicate. Network errors and non-matching answers
//! alike only use up an attempt; running out of attempts yields `NotReady`,
//! which is an answer, not an error.

use vstd::prelude::*;
use crate::text::{contains_seq, contains_str};

verus! {

/// How a service is polled.
#[derive(Clone, Copy, Debug, PartialEq, Eq, Structural)]
pub struct ReadinessCheck {
    /// Pause between attempts, in milliseconds.
    pub interval_ms: u64,
    /// Most attempts made before giving up.
    pub max_attempts: u32,
}

/// The inference daemon after a spawn: 120 attempts, 200 ms apart.
pub fn daemon_readiness() -> (r: ReadinessCheck)
    ensures
        r.interval_ms == 200 && r.max_attempts == 120,
{
    ReadinessCheck { interval_ms: 200, max_attempts: 120 }
}

/// The daemon while the companion application starts before a create
/// retry: 50 attempts, 200 ms apart.
pub fn companion_create_readiness() -> (r: ReadinessCheck)
    ensures
        r.interval_ms == 200 && r.max_attempts == 50,
{
    ReadinessCheck { interval_ms: 200, max_attempts: 50 }
}

/// The application server: 80 attempts, 300 ms apart.
pub fn app_server_readiness() -> (r: ReadinessCheck)
    ensures
        r.interval_ms == 300 && r.max_attempts == 80,
{
    ReadinessCheck { interval_ms: 300, max_attempts: 80 }
}

/// A successful HTTP status: the 2xx class.
pub open spec fn success_status(status: u16) -> bool {
    200 <= status <= 299
}

/// Whether the status is in the 2xx class.
pub fn is_success_status(status: u16) -> (r: bool)
    ensures
        r == success_status(status),
{
    200 <= status && status <= 299
}

/// A JSON API health surface is ready once its well-known path answers 2xx.
pub fn api_ready(status: u16) -> (r: bool)
    ensures
        r == success_status(status),
{
    is_success_status(status)
}

/// A rendered page: the body holds an HTML document marker.
pub open spec fn looks_like_page(body: Seq<char>) -> bool {
    contains_seq(body, "<!DOCTYPE html"@) || contains_seq(body, "<html"@)
}

/// The application server is ready once `/` answers 2xx with a rendered
/// page; a bare success status is not enough.
pub fn page_ready(status: u16, body: &str) -> (r: bool)
    ensures
        r == (success_status(status) && looks_like_page(body@)),
{
    if !is_success_status(status) {
        return false;
    }
    contains_str(body, "<!DOCTYPE html") || contains_str(body, "<html")
}

/// Where a probing run stands.
#[derive(Clone, Copy, Debug, PartialEq, Eq, Structural)]
pub enum ProbeVerdict {
    /// The predicate held.
    Ready,
    /// Not yet; another attempt may be made after the interval.
    Pending,
    /// The budget is spent.
    NotReady,
}

/// One probing run.
#[derive(Clone, Copy, Debug, PartialEq, Eq, Structural)]
pub struct Prober {
    pub max_attempts: u32,
    /// Attempts made so far.
    pub attempts: u32,
    /// Whether an attempt matched.
    pub ready: bool,
}

/// The verdict of a run's state.
pub open spec fn verdict_of(p: Prober) -> ProbeVerdict {
    if p.ready {
        ProbeVerdict::Ready
    } else if p.attempts >= p.max_attempts {
        ProbeVerdict::NotReady
    } else {
        ProbeVerdict::Pending
    }
}

/// The state after an attempt whose answer `matched` the predicate or not;
/// a run that is over counts nothing more.
pub open spec fn probe_step(p: Prober, matched: bool) -> Prober {
    if verdict_of(p) != ProbeVerdict::Pending {
        p
    } else {
        Prober { attempts: (p.attempts + 1) as u32, ready: matched, ..p }
    }
}

/// The state after a sequence of attempts.
pub open spec fn probe_run(p: Prober, answers: Seq<bool>) -> Prober
    decreases answers.len(),
{
    if answers.len() == 0 {
        p
    } else {
        probe_run(probe_step(p, answers[0]), answers.drop_first())
    }
}

/// A fresh run.
pub open spec fn probe_start(max_attempts: u32) -> Prober {
    Prober { max_attempts, attempts: 0, ready: false }
}

impl Prober {
    /// A run with the check's budget and no attempt made.
    pub fn new(check: ReadinessCheck) -> (r: Prober)
        ensures
            r == probe_start(check.max_attempts),
    {
        Prober { max_attempts: check.max_attempts, attempts: 0, ready: false }
    }

    /// Where the run stands.
    pub fn verdict(&self) -> (r: ProbeVerdict)
        ensures
            r == verdict_of(*self),
    {
        if self.ready {
            ProbeVerdict::Ready
        } else if self.attempts >= self.max_attempts {
            ProbeVerdict::NotReady
        } else {
            ProbeVerdict::Pending
        }
    }

    /// Whether another attempt may be made.
    pub fn may_attempt(&self) -> (r: bool)
        ensures
            r == (verdict_of(*self) == ProbeVerdict::Pending),
    {
        !self.ready && self.attempts < self.max_attempts
    }

    /// Records one attempt and returns the verdict after it.
    pub fn record(&mut self, matched: bool) -> (r: ProbeVerdict)
        ensures
            *final(self) == probe_step(*old(self), matched),
            r == verdict_of(*final(self)),
    {
        if self.may_attempt() {
            self.attempts = self.attempts + 1;
            self.ready = matched;
        }
        self.verdict()
    }
}

proof fn lemma_failing_run(p: Prober, answers: Seq<bool>)
    requires
        !p.ready,
        p.attempts <= p.max_attempts,
        forall|i: int| 0 <= i < answers.len() ==> !answers[i],
    ensures
        !probe_run(p, answers).ready,
        probe_run(p, answers).max_attempts == p.max_attempts,
        probe_run(p, answers).attempts as int == if p.attempts + answers.len() > p.max_attempts {
            p.max_attempts as int
        } else {
            p.attempts + answers.len()
        },
    decreases answers.len(),
{
    if answers.len() > 0 {
        lemma_failing_run(probe_step(p, answers[0]), answers.drop_first());
    }
}

/// With a predicate that never matches, a run makes at most `max_attempts`
/// attempts, makes exactly that many once given the chance, and then
/// reports `NotReady`.
pub proof fn lemma_never_matching_gives_not_ready(max_attempts: u32, answers: Seq<bool>)
    requires
        forall|i: int| 0 <= i < answers.len() ==> !answers[i],
    ensures
        probe_run(probe_start(max_attempts), answers).attempts <= max_attempts,
        answers.len() >= max_attempts ==> probe_run(probe_start(max_attempts), answers).attempts
            == max_attempts && verdict_of(probe_run(probe_start(max_attempts), answers))
            == ProbeVerdict::NotReady,
        verdict_of(probe_run(probe_start(max_attempts), answers)) != ProbeVerdict::Ready,
{
    lemma_failing_run(probe_start(max_attempts), answers);
}

} // verus!
