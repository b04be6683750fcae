use runtime_supervisor::ensurer::{
    EnsureAction, EnsureError, EnsureOutcome, ModelEnsurer, ModelStatus,
};

fn drive(e: &mut ModelEnsurer, steps: &[(EnsureAction, EnsureOutcome)]) {
    for (expected, outcome) in steps {
        assert_eq!(e.action(), *expected);
        e.advance(*outcome);
    }
}

#[test]
fn working_tag_is_verified_by_a_probe() {
    let mut e = ModelEnsurer::new(4, false, false);
    drive(&mut e, &[
        (EnsureAction::QueryListing, EnsureOutcome::Listed),
        (EnsureAction::Probe, EnsureOutcome::ProbePassed),
    ]);
    assert_eq!(e.action(), EnsureAction::Done);
    assert_eq!(e.status, ModelStatus::VerifiedWorking);
    assert!(e.probe_passed);
    assert!(!e.created);
}

#[test]
fn corrupt_tag_is_deleted_and_recreated_before_success() {
    let mut e = ModelEnsurer::new(2, false, true);
    drive(&mut e, &[
        (EnsureAction::QueryListing, EnsureOutcome::Listed),
        (EnsureAction::Probe, EnsureOutcome::ProbeRejected),
    ]);
    assert_eq!(e.status, ModelStatus::KnownCorrupt);
    drive(&mut e, &[
        (EnsureAction::DeleteTag, EnsureOutcome::Deleted),
        (EnsureAction::WriteManifest, EnsureOutcome::ManifestWritten),
        (EnsureAction::Recreate { index: 0 }, EnsureOutcome::CreateFailed),
        (EnsureAction::Recreate { index: 1 }, EnsureOutcome::Created),
    ]);
    assert_eq!(e.status, ModelStatus::RegisteredUnverified);
    drive(&mut e, &[(EnsureAction::Probe, EnsureOutcome::ProbePassed)]);
    assert_eq!(e.action(), EnsureAction::Done);
    assert!(e.corrupt_seen && e.corrupt_deleted && e.created && e.probe_passed);
}

#[test]
fn missing_weights_fail_the_run() {
    let mut e = ModelEnsurer::new(1, false, false);
    drive(&mut e, &[
        (EnsureAction::QueryListing, EnsureOutcome::NotListed),
        (EnsureAction::ResolveWeights, EnsureOutcome::NoWeights),
    ]);
    assert_eq!(e.action(), EnsureAction::GiveUp { error: EnsureError::NoWeightsAvailable });
}

#[test]
fn unusable_created_tag_is_deleted_and_reported() {
    let mut e = ModelEnsurer::new(1, false, true);
    drive(&mut e, &[
        (EnsureAction::QueryListing, EnsureOutcome::NotListed),
        (EnsureAction::WriteManifest, EnsureOutcome::ManifestWritten),
        (EnsureAction::Recreate { index: 0 }, EnsureOutcome::Created),
        (EnsureAction::Probe, EnsureOutcome::ProbeUnreachable),
        (EnsureAction::DeleteTag, EnsureOutcome::Deleted),
    ]);
    assert_eq!(e.action(), EnsureAction::GiveUp { error: EnsureError::ModelUnusable });
    assert_ne!(e.status, ModelStatus::VerifiedWorking);
}

#[test]
fn companion_is_the_last_resort_for_creation() {
    let mut e = ModelEnsurer::new(1, true, true);
    drive(&mut e, &[
        (EnsureAction::QueryListing, EnsureOutcome::NotListed),
        (EnsureAction::WriteManifest, EnsureOutcome::ManifestWritten),
        (EnsureAction::Recreate { index: 0 }, EnsureOutcome::CreateFailed),
        (EnsureAction::CompanionRecreate, EnsureOutcome::CreateFailed),
    ]);
    assert_eq!(e.action(), EnsureAction::GiveUp { error: EnsureError::CreateFailed });
}

#[test]
fn manifest_failure_is_reported() {
    let mut e = ModelEnsurer::new(1, false, true);
    drive(&mut e, &[
        (EnsureAction::QueryListing, EnsureOutcome::NotListed),
        (EnsureAction::WriteManifest, EnsureOutcome::ManifestFailed),
    ]);
    assert_eq!(e.action(), EnsureAction::GiveUp { error: EnsureError::ManifestNotWritten });
}

#[test]
fn unrelated_outcome_changes_nothing() {
    let mut e = ModelEnsurer::new(1, false, true);
    let before = e;
    e.advance(EnsureOutcome::Created);
    assert_eq!(e, before);
}
