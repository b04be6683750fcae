//! Bringing the inference daemon up: try each candidate binary in priority
//! order, wait for its health surface after each spawn, discard a spawned
//! process that never became ready, and fall back to a packaged companion
//! application where the platform has one.
//!
//! The machine decides; the caller performs each requested action and reports
//! how it went.

use vstd::prelude::*;

verus! {

/// Why the daemon could not be brought up.
#[derive(Clone, Copy, Debug, PartialEq, Eq, Structural)]
pub enum BringUpError {
    /// No candidate binary was available to try.
    NotFound,
    /// The last candidate tried could not be spawned.
    SpawnFailed,
    /// The last process tried never passed its readiness probe.
    NotReady,
}

/// What ended up serving the daemon's health surface.
#[derive(Clone, Copy, Debug, PartialEq, Eq, Structural)]
pub enum DaemonSource {
    /// A daemon was already answering before anything was spawned.
    AlreadyServing,
    /// The candidate at this index was spawned and became ready.
    Spawned { index: usize },
    /// The packaged companion application was launched and became ready.
    Companion,
}

/// Where the bring-up stands.
#[derive(Clone, Copy, Debug, PartialEq, Eq, Structural)]
pub enum BringUpPhase {
    /// One health request before touching anything.
    PreCheck,
    /// About to spawn the candidate at `index`.
    Launch { index: usize },
    /// The candidate at `index` was spawned; waiting for readiness.
    Await { index: usize },
    /// The candidate at `index` never became ready; it must be stopped.
    Discard { index: usize },
    /// Every candidate failed; the companion application is being tried.
    Companion,
    /// The daemon is serving.
    Serving { source: DaemonSource },
    /// The bring-up failed.
    Failed { error: BringUpError },
}

/// The action the caller performs next.
#[derive(Clone, Copy, Debug, PartialEq, Eq, Structural)]
pub enum BringUpAction {
    /// Issue one request to the health surface and report `Ready` or `NotReady`.
    ProbeHealth,
    /// Replace the slot's process by the candidate at `index`; report
    /// `Spawned` or `SpawnFailed`.
    Spawn { index: usize },
    /// Run a bounded readiness probe; report `Ready` or `NotReady`.
    AwaitReadiness,
    /// Stop the process that was just spawned; report `Stopped`.
    StopSpawned,
    /// Launch the companion application, run a bounded readiness probe and
    /// report `Ready` or `NotReady`.
    LaunchCompanion,
    /// The bring-up is over: the daemon is serving.
    Done { source: DaemonSource },
    /// The bring-up is over: it failed.
    GiveUp { error: BringUpError },
}

/// How the last requested action went.
#[derive(Clone, Copy, Debug, PartialEq, Eq, Structural)]
pub enum BringUpOutcome {
    Ready,
    NotReady,
    Spawned,
    SpawnFailed,
    Stopped,
}

/// State of one bring-up run.
#[derive(Clone, Copy, Debug, PartialEq, Eq, Structural)]
pub struct DaemonBringUp {
    /// Number of candidate binaries, in priority order.
    pub candidates: usize,
    /// Whether the platform has a companion application to fall back on.
    pub companion: bool,
    pub phase: BringUpPhase,
}

/// The phase after the candidate at `index` failed with `failure`: the next
/// candidate, else the companion application, else the failure itself.
pub open spec fn phase_after_failure(
    candidates: usize,
    companion: bool,
    index: usize,
    failure: BringUpError,
) -> BringUpPhase {
    if index + 1 < candidates {
        BringUpPhase::Launch { index: (index + 1) as usize }
    } else if companion {
        BringUpPhase::Companion
    } else {
        BringUpPhase::Failed { error: failure }
    }
}

/// The phase once the pre-check found nothing serving.
pub open spec fn first_launch_phase(candidates: usize, companion: bool) -> BringUpPhase {
    if candidates > 0 {
        BringUpPhase::Launch { index: 0 }
    } else if companion {
        BringUpPhase::Companion
    } else {
        BringUpPhase::Failed { error: BringUpError::NotFound }
    }
}

/// One transition; an outcome that does not answer the current phase's
/// action leaves the state as it is.
pub open spec fn bring_up_step(s: DaemonBringUp, o: BringUpOutcome) -> DaemonBringUp {
    let phase = match (s.phase, o) {
        (BringUpPhase::PreCheck, BringUpOutcome::Ready) => BringUpPhase::Serving { source: DaemonSource::AlreadyServing },
        (BringUpPhase::PreCheck, BringUpOutcome::NotReady) => first_launch_phase(
            s.candidates,
            s.companion,
        ),
        (BringUpPhase::Launch { index }, BringUpOutcome::Spawned) => BringUpPhase::Await { index },
        (BringUpPhase::Launch { index }, BringUpOutcome::SpawnFailed) => phase_after_failure(
            s.candidates,
            s.companion,
            index,
            BringUpError::SpawnFailed,
        ),
        (BringUpPhase::Await { index }, BringUpOutcome::Ready) => BringUpPhase::Serving { source: DaemonSource::Spawned { index } },
        (BringUpPhase::Await { index }, BringUpOutcome::NotReady) => BringUpPhase::Discard { index },
        (BringUpPhase::Discard { index }, BringUpOutcome::Stopped) => phase_after_failure(
            s.candidates,
            s.companion,
            index,
            BringUpError::NotReady,
        ),
        (BringUpPhase::Companion, BringUpOutcome::Ready) => BringUpPhase::Serving { source: DaemonSource::Companion },
        (BringUpPhase::Companion, BringUpOutcome::NotReady) => BringUpPhase::Failed { error: BringUpError::NotReady },
        _ => s.phase,
    };
    DaemonBringUp { phase, ..s }
}

/// The action that the phase asks for.
pub open spec fn bring_up_action(s: DaemonBringUp) -> BringUpAction {
    match s.phase {
        BringUpPhase::PreCheck => BringUpAction::ProbeHealth,
        BringUpPhase::Launch { index } => BringUpAction::Spawn { index },
        BringUpPhase::Await { .. } => BringUpAction::AwaitReadiness,
        BringUpPhase::Discard { .. } => BringUpAction::StopSpawned,
        BringUpPhase::Companion => BringUpAction::LaunchCompanion,
        BringUpPhase::Serving { source } => BringUpAction::Done { source },
        BringUpPhase::Failed { error } => BringUpAction::GiveUp { error },
    }
}

/// The state after feeding `outcomes` one by one.
pub open spec fn bring_up_run(s: DaemonBringUp, outcomes: Seq<BringUpOutcome>) -> DaemonBringUp
    decreases outcomes.len(),
{
    if outcomes.len() == 0 {
        s
    } else {
        bring_up_run(bring_up_step(s, outcomes[0]), outcomes.drop_first())
    }
}

/// How many of `outcomes` moved the run on.
pub open spec fn effective_steps(s: DaemonBringUp, outcomes: Seq<BringUpOutcome>) -> nat
    decreases outcomes.len(),
{
    if outcomes.len() == 0 {
        0
    } else {
        let t = bring_up_step(s, outcomes[0]);
        (if t != s {
            1nat
        } else {
            0nat
        }) + effective_steps(t, outcomes.drop_first())
    }
}

/// How many bounded readiness waits the run asked for and completed: the
/// outcomes that moved it on from waiting on a spawned process or on the
/// companion application.
pub open spec fn readiness_waits(s: DaemonBringUp, outcomes: Seq<BringUpOutcome>) -> nat
    decreases outcomes.len(),
{
    if outcomes.len() == 0 {
        0
    } else {
        let t = bring_up_step(s, outcomes[0]);
        let waited = t != s && (s.phase is Await || s.phase is Companion);
        (if waited {
            1nat
        } else {
            0nat
        }) + readiness_waits(t, outcomes.drop_first())
    }
}

/// Every candidate index that a phase names is a valid index.
pub open spec fn bring_up_wf(s: DaemonBringUp) -> bool {
    match s.phase {
        BringUpPhase::Launch { index } => index < s.candidates,
        BringUpPhase::Await { index } => index < s.candidates,
        BringUpPhase::Discard { index } => index < s.candidates,
        _ => true,
    }
}

/// Steps left at most: it drops with every outcome that moves the run on.
pub open spec fn steps_left(s: DaemonBringUp) -> int {
    match s.phase {
        BringUpPhase::PreCheck => 3 * s.candidates + 3,
        BringUpPhase::Launch { index } => 3 * (s.candidates - index) + 1,
        BringUpPhase::Await { index } => 3 * (s.candidates - index),
        BringUpPhase::Discard { index } => 3 * (s.candidates - index) - 1,
        BringUpPhase::Companion => 1,
        _ => 0,
    }
}

/// Readiness waits left at most.
pub open spec fn waits_left(s: DaemonBringUp) -> int {
    let c: int = if s.companion {
        1
    } else {
        0
    };
    match s.phase {
        BringUpPhase::PreCheck => s.candidates + c,
        BringUpPhase::Launch { index } => s.candidates - index + c,
        BringUpPhase::Await { index } => s.candidates - index + c,
        BringUpPhase::Discard { index } => s.candidates - index - 1 + c,
        BringUpPhase::Companion => 1,
        _ => 0,
    }
}

proof fn lemma_step_bounded(s: DaemonBringUp, o: BringUpOutcome)
    requires
        bring_up_wf(s),
    ensures
        bring_up_wf(bring_up_step(s, o)),
        bring_up_step(s, o).candidates == s.candidates,
        bring_up_step(s, o).companion == s.companion,
        steps_left(s) >= 0,
        waits_left(s) >= 0,
        bring_up_step(s, o) != s ==> steps_left(bring_up_step(s, o)) < steps_left(s),
        waits_left(bring_up_step(s, o)) <= waits_left(s),
        bring_up_step(s, o) != s && (s.phase is Await || s.phase is Companion) ==> waits_left(
            bring_up_step(s, o),
        ) < waits_left(s),
{
}

proof fn lemma_run_bounded(s: DaemonBringUp, outcomes: Seq<BringUpOutcome>)
    requires
        bring_up_wf(s),
    ensures
        effective_steps(s, outcomes) <= steps_left(s),
        readiness_waits(s, outcomes) <= waits_left(s),
    decreases outcomes.len(),
{
    lemma_step_bounded(s, BringUpOutcome::Ready);
    if outcomes.len() > 0 {
        let t = bring_up_step(s, outcomes[0]);
        lemma_step_bounded(s, outcomes[0]);
        lemma_run_bounded(t, outcomes.drop_first());
        lemma_step_bounded(t, BringUpOutcome::Ready);
    }
}

/// Whatever the services answer, a bring-up over `candidates` binaries moves
/// on at most `3 * candidates + 3` times, and runs at most one bounded
/// readiness wait per candidate plus one for the companion application; with
/// each wait capped by its budget, the health requests of a whole run are
/// bounded too, and a run never waits on any process without end.
pub proof fn lemma_bring_up_is_bounded(
    candidates: usize,
    companion: bool,
    outcomes: Seq<BringUpOutcome>,
)
    ensures
        ({
            let s = DaemonBringUp { candidates, companion, phase: BringUpPhase::PreCheck };
            &&& effective_steps(s, outcomes) <= 3 * candidates + 3
            &&& readiness_waits(s, outcomes) <= candidates + if companion {
                1int
            } else {
                0int
            }
        }),
{
    lemma_run_bounded(DaemonBringUp { candidates, companion, phase: BringUpPhase::PreCheck }, outcomes);
}

proof fn lemma_run_append(s: DaemonBringUp, a: Seq<BringUpOutcome>, b: Seq<BringUpOutcome>)
    ensures
        bring_up_run(s, a + b) == bring_up_run(bring_up_run(s, a), b),
    decreases a.len(),
{
    if a.len() > 0 {
        assert((a + b).drop_first() =~= a.drop_first() + b);
        lemma_run_append(bring_up_step(s, a[0]), a.drop_first(), b);
    } else {
        assert(a + b =~= b);
    }
}

proof fn lemma_run_one(s: DaemonBringUp, o: BringUpOutcome)
    ensures
        bring_up_run(s, seq![o]) == bring_up_step(s, o),
{
    assert(seq![o].drop_first() =~= Seq::<BringUpOutcome>::empty());
    assert(bring_up_run(bring_up_step(s, o), Seq::<BringUpOutcome>::empty()) == bring_up_step(s, o));
}

proof fn lemma_failed_spawns(s: DaemonBringUp, j: usize, i: nat)
    requires
        s.phase == (BringUpPhase::Launch { index: j }),
        j + i < s.candidates,
    ensures
        bring_up_run(s, Seq::new(i, |k: int| BringUpOutcome::SpawnFailed)) == (DaemonBringUp {
            phase: BringUpPhase::Launch { index: (j + i) as usize },
            ..s
        }),
    decreases i,
{
    let fails = Seq::new(i, |k: int| BringUpOutcome::SpawnFailed);
    if i > 0 {
        let t = bring_up_step(s, BringUpOutcome::SpawnFailed);
        assert(fails.drop_first() =~= Seq::new((i - 1) as nat, |k: int| BringUpOutcome::SpawnFailed));
        lemma_failed_spawns(t, (j + 1) as usize, (i - 1) as nat);
    } else {
        assert(fails =~= Seq::<BringUpOutcome>::empty());
    }
}

/// With nothing serving yet, where the candidates before `first` cannot be
/// spawned and the one at `first` spawns and passes its readiness wait, the
/// run ends serving that candidate.
pub proof fn lemma_first_working_candidate_serves(candidates: usize, companion: bool, first: usize)
    requires
        first < candidates,
    ensures
        bring_up_run(
            DaemonBringUp { candidates, companion, phase: BringUpPhase::PreCheck },
            seq![BringUpOutcome::NotReady] + Seq::new(first as nat, |k: int| BringUpOutcome::SpawnFailed)
                + seq![BringUpOutcome::Spawned, BringUpOutcome::Ready],
        ).phase == (BringUpPhase::Serving { source: DaemonSource::Spawned { index: first } }),
{
    let s = DaemonBringUp { candidates, companion, phase: BringUpPhase::PreCheck };
    let fails = Seq::new(first as nat, |k: int| BringUpOutcome::SpawnFailed);
    let tail = seq![BringUpOutcome::Spawned, BringUpOutcome::Ready];
    lemma_run_append(s, seq![BringUpOutcome::NotReady] + fails, tail);
    lemma_run_append(s, seq![BringUpOutcome::NotReady], fails);
    let s1 = bring_up_step(s, BringUpOutcome::NotReady);
    lemma_run_one(s, BringUpOutcome::NotReady);
    lemma_failed_spawns(s1, 0, first as nat);
    let s2 = bring_up_run(s1, fails);
    let s3 = bring_up_step(s2, BringUpOutcome::Spawned);
    assert(tail =~= seq![BringUpOutcome::Spawned] + seq![BringUpOutcome::Ready]);
    lemma_run_append(s2, seq![BringUpOutcome::Spawned], seq![BringUpOutcome::Ready]);
    lemma_run_one(s2, BringUpOutcome::Spawned);
    lemma_run_one(s3, BringUpOutcome::Ready);
}

fn after_failure(candidates: usize, companion: bool, index: usize, failure: BringUpError) -> (r:
    BringUpPhase)
    ensures
        r == phase_after_failure(candidates, companion, index, failure),
{
    if index < candidates && index + 1 < candidates {
        BringUpPhase::Launch { index: index + 1 }
    } else if companion {
        BringUpPhase::Companion
    } else {
        BringUpPhase::Failed { error: failure }
    }
}

impl DaemonBringUp {
    /// A run over `candidates` binaries that starts with the pre-check.
    pub fn new(candidates: usize, companion: bool) -> (r: DaemonBringUp)
        ensures
            r == (DaemonBringUp { candidates, companion, phase: BringUpPhase::PreCheck }),
    {
        DaemonBringUp { candidates, companion, phase: BringUpPhase::PreCheck }
    }

    /// The action the caller performs next.
    pub fn action(&self) -> (r: BringUpAction)
        ensures
            r == bring_up_action(*self),
    {
        match self.phase {
            BringUpPhase::PreCheck => BringUpAction::ProbeHealth,
            BringUpPhase::Launch { index } => BringUpAction::Spawn { index },
            BringUpPhase::Await { .. } => BringUpAction::AwaitReadiness,
            BringUpPhase::Discard { .. } => BringUpAction::StopSpawned,
            BringUpPhase::Companion => BringUpAction::LaunchCompanion,
            BringUpPhase::Serving { source } => BringUpAction::Done { source },
        BringUpPhase::Failed { error } => BringUpAction::GiveUp { error },
        }
    }

    /// Takes in how the last action went.
    pub fn advance(&mut self, o: BringUpOutcome)
        ensures
            *final(self) == bring_up_step(*old(self), o),
    {
        let n = self.candidates;
        let c = self.companion;
        let phase = match (self.phase, o) {
            (BringUpPhase::PreCheck, BringUpOutcome::Ready) => BringUpPhase::Serving { source: DaemonSource::AlreadyServing },
            (BringUpPhase::PreCheck, BringUpOutcome::NotReady) => {
                if n > 0 {
                    BringUpPhase::Launch { index: 0 }
                } else if c {
                    BringUpPhase::Companion
                } else {
                    BringUpPhase::Failed { error: BringUpError::NotFound }
                }
            },
            (BringUpPhase::Launch { index }, BringUpOutcome::Spawned) => BringUpPhase::Await {
                index,
            },
            (BringUpPhase::Launch { index }, BringUpOutcome::SpawnFailed) => after_failure(
                n,
                c,
                index,
                BringUpError::SpawnFailed,
            ),
            (BringUpPhase::Await { index }, BringUpOutcome::Ready) => BringUpPhase::Serving { source: DaemonSource::Spawned { index } },
            (BringUpPhase::Await { index }, BringUpOutcome::NotReady) => BringUpPhase::Discard {
                index,
            },
            (BringUpPhase::Discard { index }, BringUpOutcome::Stopped) => after_failure(
                n,
                c,
                index,
                BringUpError::NotReady,
            ),
            (BringUpPhase::Companion, BringUpOutcome::Ready) => BringUpPhase::Serving { source: DaemonSource::Companion },
            (BringUpPhase::Companion, BringUpOutcome::NotReady) => BringUpPhase::Failed { error: BringUpError::NotReady },
            _ => self.phase,
        };
        self.phase = phase;
    }
}

} // verus!
