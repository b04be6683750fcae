use runtime_supervisor::bringup::{
    BringUpAction, BringUpError, BringUpOutcome, DaemonBringUp, DaemonSource,
};

#[test]
fn daemon_already_serving_is_left_alone() {
    let mut b = DaemonBringUp::new(3, false);
    assert_eq!(b.action(), BringUpAction::ProbeHealth);
    b.advance(BringUpOutcome::Ready);
    assert_eq!(b.action(), BringUpAction::Done { source: DaemonSource::AlreadyServing });
}

#[test]
fn failed_candidates_are_skipped_in_order() {
    let mut b = DaemonBringUp::new(3, false);
    b.advance(BringUpOutcome::NotReady);
    assert_eq!(b.action(), BringUpAction::Spawn { index: 0 });
    b.advance(BringUpOutcome::SpawnFailed);
    assert_eq!(b.action(), BringUpAction::Spawn { index: 1 });
    b.advance(BringUpOutcome::Spawned);
    assert_eq!(b.action(), BringUpAction::AwaitReadiness);
    b.advance(BringUpOutcome::NotReady);
    assert_eq!(b.action(), BringUpAction::StopSpawned);
    b.advance(BringUpOutcome::Stopped);
    assert_eq!(b.action(), BringUpAction::Spawn { index: 2 });
    b.advance(BringUpOutcome::Spawned);
    b.advance(BringUpOutcome::Ready);
    assert_eq!(b.action(), BringUpAction::Done { source: DaemonSource::Spawned { index: 2 } });
}

#[test]
fn last_failure_is_reported() {
    let mut b = DaemonBringUp::new(1, false);
    b.advance(BringUpOutcome::NotReady);
    b.advance(BringUpOutcome::SpawnFailed);
    assert_eq!(b.action(), BringUpAction::GiveUp { error: BringUpError::SpawnFailed });
    let mut b = DaemonBringUp::new(0, false);
    b.advance(BringUpOutcome::NotReady);
    assert_eq!(b.action(), BringUpAction::GiveUp { error: BringUpError::NotFound });
}

#[test]
fn companion_is_tried_after_every_candidate() {
    let mut b = DaemonBringUp::new(1, true);
    b.advance(BringUpOutcome::NotReady);
    b.advance(BringUpOutcome::Spawned);
    b.advance(BringUpOutcome::NotReady);
    b.advance(BringUpOutcome::Stopped);
    assert_eq!(b.action(), BringUpAction::LaunchCompanion);
    b.advance(BringUpOutcome::NotReady);
    assert_eq!(b.action(), BringUpAction::GiveUp { error: BringUpError::NotReady });
}
