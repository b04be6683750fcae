//! Making sure a model tag is registered with the inference daemon and
//! answers a real request: an existing tag is probed, a corrupt one is
//! deleted, the tag is (re)created from a weights file through each candidate
//! daemon binary in turn, and every successful run ends in a functional probe
//! that passed during that run.
//!
//! No action of this machine starts or stops the daemon: the tag commands it
//! asks for run to completion, so the daemon's slot keeps its process.

use vstd::prelude::*;

verus! {

/// What is known of the tag during one run.
#[derive(Clone, Copy, Debug, PartialEq, Eq, Structural)]
pub enum ModelStatus {
    Unregistered,
    RegisteredUnverified,
    VerifiedWorking,
    KnownCorrupt,
}

/// Why the model could not be made usable.
#[derive(Clone, Copy, Debug, PartialEq, Eq, Structural)]
pub enum EnsureError {
    /// No weights file was supplied and none was found locally.
    NoWeightsAvailable,
    /// The manifest file could not be written.
    ManifestNotWritten,
    /// No daemon binary managed to create the tag.
    CreateFailed,
    /// The tag was created but its functional probe failed; the weights must
    /// be acquired again.
    ModelUnusable,
}

/// Where the run stands.
#[derive(Clone, Copy, Debug, PartialEq, Eq, Structural)]
pub enum EnsurePhase {
    /// Read the daemon's listing of tags.
    QueryListing,
    /// The tag is listed: probe it.
    ProbeExisting,
    /// The listed tag failed its probe: delete it.
    DeleteCorrupt,
    /// Find a weights file, unless one was supplied.
    ResolveWeights,
    /// Write the manifest that references the weights file.
    WriteManifest,
    /// Delete, then create the tag with the candidate binary at `index`.
    Create { index: usize },
    /// Launch the companion application and create the tag once more through
    /// the binary found on the search path.
    Companion,
    /// The tag was created: probe it.
    ProbeCreated,
    /// The created tag failed its probe: delete it.
    DeleteUnusable,
    /// The tag answered a probe during this run.
    Verified,
    Failed { error: EnsureError },
}

/// The action the caller performs next.
#[derive(Clone, Copy, Debug, PartialEq, Eq, Structural)]
pub enum EnsureAction {
    /// Fetch the listing; report `Listed` or `NotListed`.
    QueryListing,
    /// Send the functional probe; report `ProbePassed`, `ProbeRejected` or
    /// `ProbeUnreachable`.
    Probe,
    /// Delete the tag, ignoring any failure; report `Deleted`.
    DeleteTag,
    /// Look for the largest local weights file; report `WeightsFound` or
    /// `NoWeights`.
    ResolveWeights,
    /// Write the manifest; report `ManifestWritten` or `ManifestFailed`.
    WriteManifest,
    /// With the candidate at `index`: delete the tag (best effort), then
    /// create it from the manifest; report `Created` or `CreateFailed`.
    Recreate { index: usize },
    /// Launch the companion application, wait a bounded time for the daemon,
    /// then delete and create through the search-path binary; report
    /// `Created` or `CreateFailed`.
    CompanionRecreate,
    /// The model is usable.
    Done,
    /// The model could not be made usable.
    GiveUp { error: EnsureError },
}

/// How the last requested action went.
#[derive(Clone, Copy, Debug, PartialEq, Eq, Structural)]
pub enum EnsureOutcome {
    Listed,
    NotListed,
    ProbePassed,
    /// The daemon answered the probe with a failure status.
    ProbeRejected,
    /// The probe got no answer at all.
    ProbeUnreachable,
    Deleted,
    WeightsFound,
    NoWeights,
    ManifestWritten,
    ManifestFailed,
    Created,
    CreateFailed,
}

/// One run of the ensurer.
#[derive(Clone, Copy, Debug, PartialEq, Eq, Structural)]
pub struct ModelEnsurer {
    /// Number of candidate daemon binaries, in priority order.
    pub candidates: usize,
    /// Whether the platform has a companion application to fall back on.
    pub companion: bool,
    /// Whether the caller supplied a weights path.
    pub weights_supplied: bool,
    pub phase: EnsurePhase,
    pub status: ModelStatus,
    /// A functional probe passed during this run.
    pub probe_passed: bool,
    /// The listed tag was found corrupt during this run.
    pub corrupt_seen: bool,
    /// The corrupt tag was deleted.
    pub corrupt_deleted: bool,
    /// The tag was created during this run.
    pub created: bool,
}

/// The phase after the weights are settled.
pub open spec fn phase_after_listing(s: ModelEnsurer) -> EnsurePhase {
    if s.weights_supplied {
        EnsurePhase::WriteManifest
    } else {
        EnsurePhase::ResolveWeights
    }
}

/// The phase after the candidate at `index` failed to create the tag.
pub open spec fn phase_after_create_failure(s: ModelEnsurer, index: usize) -> EnsurePhase {
    if index + 1 < s.candidates {
        EnsurePhase::Create { index: (index + 1) as usize }
    } else if s.companion {
        EnsurePhase::Companion
    } else {
        EnsurePhase::Failed { error: EnsureError::CreateFailed }
    }
}

/// The phase once the manifest is written.
pub open spec fn first_create_phase(s: ModelEnsurer) -> EnsurePhase {
    if s.candidates > 0 {
        EnsurePhase::Create { index: 0 }
    } else if s.companion {
        EnsurePhase::Companion
    } else {
        EnsurePhase::Failed { error: EnsureError::CreateFailed }
    }
}

/// One transition; an outcome that does not answer the current phase's
/// action leaves the state as it is.
pub open spec fn ensure_step(s: ModelEnsurer, o: EnsureOutcome) -> ModelEnsurer {
    match (s.phase, o) {
        (EnsurePhase::QueryListing, EnsureOutcome::Listed) => ModelEnsurer {
            phase: EnsurePhase::ProbeExisting,
            status: ModelStatus::RegisteredUnverified,
            ..s
        },
        (EnsurePhase::QueryListing, EnsureOutcome::NotListed) => ModelEnsurer {
            phase: phase_after_listing(s),
            status: ModelStatus::Unregistered,
            ..s
        },
        (EnsurePhase::ProbeExisting, EnsureOutcome::ProbePassed) => ModelEnsurer {
            phase: EnsurePhase::Verified,
            status: ModelStatus::VerifiedWorking,
            probe_passed: true,
            ..s
        },
        (EnsurePhase::ProbeExisting, EnsureOutcome::ProbeRejected) => ModelEnsurer {
            phase: EnsurePhase::DeleteCorrupt,
            status: ModelStatus::KnownCorrupt,
            corrupt_seen: true,
            ..s
        },
        (EnsurePhase::ProbeExisting, EnsureOutcome::ProbeUnreachable) => ModelEnsurer {
            phase: phase_after_listing(s),
            ..s
        },
        (EnsurePhase::DeleteCorrupt, EnsureOutcome::Deleted) => ModelEnsurer {
            phase: phase_after_listing(s),
            status: ModelStatus::Unregistered,
            corrupt_deleted: true,
            ..s
        },
        (EnsurePhase::ResolveWeights, EnsureOutcome::WeightsFound) => ModelEnsurer {
            phase: EnsurePhase::WriteManifest,
            ..s
        },
        (EnsurePhase::ResolveWeights, EnsureOutcome::NoWeights) => ModelEnsurer {
            phase: EnsurePhase::Failed { error: EnsureError::NoWeightsAvailable },
            ..s
        },
        (EnsurePhase::WriteManifest, EnsureOutcome::ManifestWritten) => ModelEnsurer {
            phase: first_create_phase(s),
            ..s
        },
        (EnsurePhase::WriteManifest, EnsureOutcome::ManifestFailed) => ModelEnsurer {
            phase: EnsurePhase::Failed { error: EnsureError::ManifestNotWritten },
            ..s
        },
        (EnsurePhase::Create { .. }, EnsureOutcome::Created) => ModelEnsurer {
            phase: EnsurePhase::ProbeCreated,
            status: ModelStatus::RegisteredUnverified,
            created: true,
            ..s
        },
        (EnsurePhase::Create { index }, EnsureOutcome::CreateFailed) => ModelEnsurer {
            phase: phase_after_create_failure(s, index),
            status: ModelStatus::Unregistered,
            ..s
        },
        (EnsurePhase::Companion, EnsureOutcome::Created) => ModelEnsurer {
            phase: EnsurePhase::ProbeCreated,
            status: ModelStatus::RegisteredUnverified,
            created: true,
            ..s
        },
        (EnsurePhase::Companion, EnsureOutcome::CreateFailed) => ModelEnsurer {
            phase: EnsurePhase::Failed { error: EnsureError::CreateFailed },
            status: ModelStatus::Unregistered,
            ..s
        },
        (EnsurePhase::ProbeCreated, EnsureOutcome::ProbePassed) => ModelEnsurer {
            phase: EnsurePhase::Verified,
            status: ModelStatus::VerifiedWorking,
            probe_passed: true,
            ..s
        },
        (EnsurePhase::ProbeCreated, EnsureOutcome::ProbeRejected) => ModelEnsurer {
            phase: EnsurePhase::DeleteUnusable,
            status: ModelStatus::KnownCorrupt,
            ..s
        },
        (EnsurePhase::ProbeCreated, EnsureOutcome::ProbeUnreachable) => ModelEnsurer {
            phase: EnsurePhase::DeleteUnusable,
            status: ModelStatus::KnownCorrupt,
            ..s
        },
        (EnsurePhase::DeleteUnusable, EnsureOutcome::Deleted) => ModelEnsurer {
            phase: EnsurePhase::Failed { error: EnsureError::ModelUnusable },
            status: ModelStatus::Unregistered,
            ..s
        },
        _ => s,
    }
}

/// The action that the phase asks for.
pub open spec fn ensure_action(s: ModelEnsurer) -> EnsureAction {
    match s.phase {
        EnsurePhase::QueryListing => EnsureAction::QueryListing,
        EnsurePhase::ProbeExisting => EnsureAction::Probe,
        EnsurePhase::DeleteCorrupt => EnsureAction::DeleteTag,
        EnsurePhase::ResolveWeights => EnsureAction::ResolveWeights,
        EnsurePhase::WriteManifest => EnsureAction::WriteManifest,
        EnsurePhase::Create { index } => EnsureAction::Recreate { index },
        EnsurePhase::Companion => EnsureAction::CompanionRecreate,
        EnsurePhase::ProbeCreated => EnsureAction::Probe,
        EnsurePhase::DeleteUnusable => EnsureAction::DeleteTag,
        EnsurePhase::Verified => EnsureAction::Done,
        EnsurePhase::Failed { error } => EnsureAction::GiveUp { error },
    }
}

/// A fresh run.
pub open spec fn ensure_start(candidates: usize, companion: bool, weights_supplied: bool)
    -> ModelEnsurer {
    ModelEnsurer {
        candidates,
        companion,
        weights_supplied,
        phase: EnsurePhase::QueryListing,
        status: ModelStatus::Unregistered,
        probe_passed: false,
        corrupt_seen: false,
        corrupt_deleted: false,
        created: false,
    }
}

/// The state after feeding `outcomes` one by one.
pub open spec fn ensure_run(s: ModelEnsurer, outcomes: Seq<EnsureOutcome>) -> ModelEnsurer
    decreases outcomes.len(),
{
    if outcomes.len() == 0 {
        s
    } else {
        ensure_run(ensure_step(s, outcomes[0]), outcomes.drop_first())
    }
}

/// What every reachable state satisfies.
pub open spec fn ensure_inv(s: ModelEnsurer) -> bool {
    &&& s.status == ModelStatus::VerifiedWorking ==> s.probe_passed
    &&& s.phase == EnsurePhase::Verified ==> s.status == ModelStatus::VerifiedWorking
    &&& (s.phase == EnsurePhase::QueryListing || s.phase == EnsurePhase::ProbeExisting)
        ==> !s.corrupt_seen
    &&& s.corrupt_seen && s.phase != EnsurePhase::DeleteCorrupt ==> s.corrupt_deleted
    &&& s.phase == EnsurePhase::ProbeCreated ==> s.created
    &&& s.phase == EnsurePhase::Verified && s.corrupt_seen ==> s.created
    &&& (s.status == ModelStatus::KnownCorrupt <==> (s.phase == EnsurePhase::DeleteCorrupt
        || s.phase == EnsurePhase::DeleteUnusable))
}

proof fn lemma_step_keeps_inv(s: ModelEnsurer, o: EnsureOutcome)
    requires
        ensure_inv(s),
    ensures
        ensure_inv(ensure_step(s, o)),
{
}

proof fn lemma_run_keeps_inv(s: ModelEnsurer, outcomes: Seq<EnsureOutcome>)
    requires
        ensure_inv(s),
    ensures
        ensure_inv(ensure_run(s, outcomes)),
    decreases outcomes.len(),
{
    if outcomes.len() > 0 {
        lemma_step_keeps_inv(s, outcomes[0]);
        lemma_run_keeps_inv(ensure_step(s, outcomes[0]), outcomes.drop_first());
    }
}

/// Whatever the daemon answers, a run never reports the model as working
/// without a functional probe that passed during that run, and a run that
/// found the listed tag corrupt succeeds only after deleting it and creating
/// it again.
pub proof fn lemma_success_needs_probe(
    candidates: usize,
    companion: bool,
    weights_supplied: bool,
    outcomes: Seq<EnsureOutcome>,
)
    ensures
        ({
            let s = ensure_run(ensure_start(candidates, companion, weights_supplied), outcomes);
            &&& s.status == ModelStatus::VerifiedWorking ==> s.probe_passed
            &&& s.phase == EnsurePhase::Verified ==> s.status == ModelStatus::VerifiedWorking
                && s.probe_passed
            &&& s.phase == EnsurePhase::Verified && s.corrupt_seen ==> s.corrupt_deleted
                && s.created
        }),
{
    lemma_run_keeps_inv(ensure_start(candidates, companion, weights_supplied), outcomes);
}

/// A tag known to be corrupt leaves that status only by being deleted,
/// which makes it unregistered.
pub proof fn lemma_corrupt_leaves_only_by_deletion(
    candidates: usize,
    companion: bool,
    weights_supplied: bool,
    outcomes: Seq<EnsureOutcome>,
    o: EnsureOutcome,
)
    ensures
        ({
            let s = ensure_run(ensure_start(candidates, companion, weights_supplied), outcomes);
            let t = ensure_step(s, o);
            s.status == ModelStatus::KnownCorrupt && t.status != ModelStatus::KnownCorrupt ==> o
                == EnsureOutcome::Deleted && t.status == ModelStatus::Unregistered
        }),
{
    lemma_run_keeps_inv(ensure_start(candidates, companion, weights_supplied), outcomes);
}

proof fn lemma_run_append(s: ModelEnsurer, a: Seq<EnsureOutcome>, b: Seq<EnsureOutcome>)
    ensures
        ensure_run(s, a + b) == ensure_run(ensure_run(s, a), b),
    decreases a.len(),
{
    if a.len() > 0 {
        assert((a + b).drop_first() =~= a.drop_first() + b);
        lemma_run_append(ensure_step(s, a[0]), a.drop_first(), b);
    } else {
        assert(a + b =~= b);
    }
}

proof fn lemma_run_one(s: ModelEnsurer, o: EnsureOutcome)
    ensures
        ensure_run(s, seq![o]) == ensure_step(s, o),
{
    assert(seq![o].drop_first() =~= Seq::<EnsureOutcome>::empty());
    assert(ensure_run(ensure_step(s, o), Seq::<EnsureOutcome>::empty()) == ensure_step(s, o));
}

proof fn lemma_failed_creates(s: ModelEnsurer, j: usize, i: nat)
    requires
        s.phase == (EnsurePhase::Create { index: j }),
        j + i < s.candidates,
    ensures
        ensure_run(s, Seq::new(i, |k: int| EnsureOutcome::CreateFailed)).phase == (EnsurePhase::Create {
            index: (j + i) as usize,
        }),
        ensure_run(s, Seq::new(i, |k: int| EnsureOutcome::CreateFailed)).candidates == s.candidates,
    decreases i,
{
    let fails = Seq::new(i, |k: int| EnsureOutcome::CreateFailed);
    if i > 0 {
        let t = ensure_step(s, EnsureOutcome::CreateFailed);
        assert(fails.drop_first() =~= Seq::new((i - 1) as nat, |k: int| EnsureOutcome::CreateFailed));
        lemma_failed_creates(t, (j + 1) as usize, (i - 1) as nat);
    } else {
        assert(fails =~= Seq::<EnsureOutcome>::empty());
    }
}

/// With the tag not listed and no weights path supplied: once a weights file
/// is found and the manifest written, where the binaries before `first` fail
/// to create the tag and the one at `first` creates it, a passing probe ends
/// the run verified, with the tag created during the run.
pub proof fn lemma_fresh_tag_is_created_and_verified(
    candidates: usize,
    companion: bool,
    first: usize,
)
    requires
        first < candidates,
    ensures
        ({
            let s = ensure_run(
                ensure_start(candidates, companion, false),
                seq![EnsureOutcome::NotListed, EnsureOutcome::WeightsFound, EnsureOutcome::ManifestWritten]
                    + Seq::new(first as nat, |k: int| EnsureOutcome::CreateFailed)
                    + seq![EnsureOutcome::Created, EnsureOutcome::ProbePassed],
            );
            &&& s.phase == EnsurePhase::Verified
            &&& s.status == ModelStatus::VerifiedWorking
            &&& s.created && s.probe_passed
        }),
{
    let s0 = ensure_start(candidates, companion, false);
    let head = seq![EnsureOutcome::NotListed, EnsureOutcome::WeightsFound, EnsureOutcome::ManifestWritten];
    let fails = Seq::new(first as nat, |k: int| EnsureOutcome::CreateFailed);
    lemma_run_append(s0, head + fails, seq![EnsureOutcome::Created] + seq![EnsureOutcome::ProbePassed]);
    assert(seq![EnsureOutcome::Created] + seq![EnsureOutcome::ProbePassed] =~= seq![
        EnsureOutcome::Created,
        EnsureOutcome::ProbePassed,
    ]);
    lemma_run_append(s0, head, fails);
    assert(head =~= seq![EnsureOutcome::NotListed] + (seq![EnsureOutcome::WeightsFound] + seq![
        EnsureOutcome::ManifestWritten,
    ]));
    lemma_run_append(s0, seq![EnsureOutcome::NotListed], seq![EnsureOutcome::WeightsFound] + seq![
        EnsureOutcome::ManifestWritten,
    ]);
    lemma_run_one(s0, EnsureOutcome::NotListed);
    let s1 = ensure_step(s0, EnsureOutcome::NotListed);
    lemma_run_append(s1, seq![EnsureOutcome::WeightsFound], seq![EnsureOutcome::ManifestWritten]);
    lemma_run_one(s1, EnsureOutcome::WeightsFound);
    let s2 = ensure_step(s1, EnsureOutcome::WeightsFound);
    lemma_run_one(s2, EnsureOutcome::ManifestWritten);
    let s3 = ensure_step(s2, EnsureOutcome::ManifestWritten);
    lemma_failed_creates(s3, 0, first as nat);
    let s4 = ensure_run(s3, fails);
    lemma_run_append(s4, seq![EnsureOutcome::Created], seq![EnsureOutcome::ProbePassed]);
    lemma_run_one(s4, EnsureOutcome::Created);
    lemma_run_one(ensure_step(s4, EnsureOutcome::Created), EnsureOutcome::ProbePassed);
}

impl ModelEnsurer {
    /// A run that starts by reading the daemon's listing.
    pub fn new(candidates: usize, companion: bool, weights_supplied: bool) -> (r: ModelEnsurer)
        ensures
            r == ensure_start(candidates, companion, weights_supplied),
    {
        ModelEnsurer {
            candidates,
            companion,
            weights_supplied,
            phase: EnsurePhase::QueryListing,
            status: ModelStatus::Unregistered,
            probe_passed: false,
            corrupt_seen: false,
            corrupt_deleted: false,
            created: false,
        }
    }

    /// The action the caller performs next.
    pub fn action(&self) -> (r: EnsureAction)
        ensures
            r == ensure_action(*self),
    {
        match self.phase {
            EnsurePhase::QueryListing => EnsureAction::QueryListing,
            EnsurePhase::ProbeExisting => EnsureAction::Probe,
            EnsurePhase::DeleteCorrupt => EnsureAction::DeleteTag,
            EnsurePhase::ResolveWeights => EnsureAction::ResolveWeights,
            EnsurePhase::WriteManifest => EnsureAction::WriteManifest,
            EnsurePhase::Create { index } => EnsureAction::Recreate { index },
            EnsurePhase::Companion => EnsureAction::CompanionRecreate,
            EnsurePhase::ProbeCreated => EnsureAction::Probe,
            EnsurePhase::DeleteUnusable => EnsureAction::DeleteTag,
            EnsurePhase::Verified => EnsureAction::Done,
            EnsurePhase::Failed { error } => EnsureAction::GiveUp { error },
        }
    }

    fn settled_weights_phase(&self) -> (r: EnsurePhase)
        ensures
            r == phase_after_listing(*self),
    {
        if self.weights_supplied {
            EnsurePhase::WriteManifest
        } else {
            EnsurePhase::ResolveWeights
        }
    }

    /// Takes in how the last action went.
    pub fn advance(&mut self, o: EnsureOutcome)
        ensures
            *final(self) == ensure_step(*old(self), o),
    {
        match (self.phase, o) {
            (EnsurePhase::QueryListing, EnsureOutcome::Listed) => {
                self.phase = EnsurePhase::ProbeExisting;
                self.status = ModelStatus::RegisteredUnverified;
            },
            (EnsurePhase::QueryListing, EnsureOutcome::NotListed) => {
                self.phase = self.settled_weights_phase();
                self.status = ModelStatus::Unregistered;
            },
            (EnsurePhase::ProbeExisting, EnsureOutcome::ProbePassed) => {
                self.phase = EnsurePhase::Verified;
                self.status = ModelStatus::VerifiedWorking;
                self.probe_passed = true;
            },
            (EnsurePhase::ProbeExisting, EnsureOutcome::ProbeRejected) => {
                self.phase = EnsurePhase::DeleteCorrupt;
                self.status = ModelStatus::KnownCorrupt;
                self.corrupt_seen = true;
            },
            (EnsurePhase::ProbeExisting, EnsureOutcome::ProbeUnreachable) => {
                self.phase = self.settled_weights_phase();
            },
            (EnsurePhase::DeleteCorrupt, EnsureOutcome::Deleted) => {
                self.phase = self.settled_weights_phase();
                self.status = ModelStatus::Unregistered;
                self.corrupt_deleted = true;
            },
            (EnsurePhase::ResolveWeights, EnsureOutcome::WeightsFound) => {
                self.phase = EnsurePhase::WriteManifest;
            },
            (EnsurePhase::ResolveWeights, EnsureOutcome::NoWeights) => {
                self.phase = EnsurePhase::Failed { error: EnsureError::NoWeightsAvailable };
            },
            (EnsurePhase::WriteManifest, EnsureOutcome::ManifestWritten) => {
                self.phase = if self.candidates > 0 {
                    EnsurePhase::Create { index: 0 }
                } else if self.companion {
                    EnsurePhase::Companion
                } else {
                    EnsurePhase::Failed { error: EnsureError::CreateFailed }
                };
            },
            (EnsurePhase::WriteManifest, EnsureOutcome::ManifestFailed) => {
                self.phase = EnsurePhase::Failed { error: EnsureError::ManifestNotWritten };
            },
            (EnsurePhase::Create { .. }, EnsureOutcome::Created) => {
                self.phase = EnsurePhase::ProbeCreated;
                self.status = ModelStatus::RegisteredUnverified;
                self.created = true;
            },
            (EnsurePhase::Create { index }, EnsureOutcome::CreateFailed) => {
                self.phase = if index < self.candidates && index + 1 < self.candidates {
                    EnsurePhase::Create { index: index + 1 }
                } else if self.companion {
                    EnsurePhase::Companion
                } else {
                    EnsurePhase::Failed { error: EnsureError::CreateFailed }
                };
                self.status = ModelStatus::Unregistered;
            },
            (EnsurePhase::Companion, EnsureOutcome::Created) => {
                self.phase = EnsurePhase::ProbeCreated;
                self.status = ModelStatus::RegisteredUnverified;
                self.created = true;
            },
            (EnsurePhase::Companion, EnsureOutcome::CreateFailed) => {
                self.phase = EnsurePhase::Failed { error: EnsureError::CreateFailed };
                self.status = ModelStatus::Unregistered;
            },
            (EnsurePhase::ProbeCreated, EnsureOutcome::ProbePassed) => {
                self.phase = EnsurePhase::Verified;
                self.status = ModelStatus::VerifiedWorking;
                self.probe_passed = true;
            },
            (EnsurePhase::ProbeCreated, EnsureOutcome::ProbeRejected) => {
                self.phase = EnsurePhase::DeleteUnusable;
                self.status = ModelStatus::KnownCorrupt;
            },
            (EnsurePhase::ProbeCreated, EnsureOutcome::ProbeUnreachable) => {
                self.phase = EnsurePhase::DeleteUnusable;
                self.status = ModelStatus::KnownCorrupt;
            },
            (EnsurePhase::DeleteUnusable, EnsureOutcome::Deleted) => {
                self.phase = EnsurePhase::Failed { error: EnsureError::ModelUnusable };
                self.status = ModelStatus::Unregistered;
            },
            _ => {},
        }
    }
}

} // verus!
