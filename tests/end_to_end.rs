use runtime_supervisor::artifact::MODEL_MIN_SIZE;
use runtime_supervisor::bringup::{BringUpAction, BringUpOutcome, DaemonBringUp, DaemonSource};
use runtime_supervisor::daemon::{chat_url, create_args, manifest_text, tags_url};
use runtime_supervisor::ensurer::{EnsureAction, EnsureOutcome, ModelEnsurer, ModelStatus};
use runtime_supervisor::readiness::{api_ready, daemon_readiness, ProbeVerdict, Prober};
use runtime_supervisor::resolver::{
    daemon_binary_candidates, first_usable, select_largest_weights, TargetOs, WeightsCandidate,
};
use runtime_supervisor::supervisor::Supervisor;

#[test]
fn weights_and_binary_present_daemon_down_ends_with_one_verified_daemon() {
    // The weights file and the daemon binary are on disk; nothing listens yet.
    let files = vec![WeightsCandidate {
        file_name: "w.gguf".to_string(),
        path: "/data/models/w.gguf".to_string(),
        size: 200 * 1024 * 1024,
    }];
    let candidates = daemon_binary_candidates(None, &Vec::new(), TargetOs::Other, "");
    let present: Vec<bool> = candidates.iter().map(|c| c == "/usr/bin/ollama").collect();
    let mut supervisor = Supervisor::new();
    let slot = supervisor.add_slot("inference-daemon".to_string(), 11434, "/logs/ollama.log".to_string());
    let mut live: Vec<u32> = Vec::new();

    // Bring-up: the pre-check finds nothing, candidates that are absent fail
    // to spawn, the binary that exists is spawned and polled on /api/tags.
    assert_eq!(tags_url(11434), "http://127.0.0.1:11434/api/tags");
    let mut bring_up = DaemonBringUp::new(candidates.len(), false);
    let mut next_pid: u32 = 500;
    loop {
        match bring_up.action() {
            BringUpAction::ProbeHealth => bring_up.advance(BringUpOutcome::NotReady),
            BringUpAction::Spawn { index } => {
                if let Some(old) = supervisor.take_for_replace(slot) {
                    live.retain(|p| *p != old);
                }
                if present[index] {
                    supervisor.record_spawned(slot, next_pid);
                    live.push(next_pid);
                    next_pid += 1;
                    bring_up.advance(BringUpOutcome::Spawned);
                } else {
                    bring_up.advance(BringUpOutcome::SpawnFailed);
                }
            }
            BringUpAction::AwaitReadiness => {
                let mut prober = Prober::new(daemon_readiness());
                let statuses = [0u16, 503, 200];
                let mut k = 0;
                while prober.may_attempt() {
                    let status = statuses[k.min(statuses.len() - 1)];
                    k += 1;
                    if prober.record(api_ready(status)) == ProbeVerdict::Ready {
                        break;
                    }
                }
                assert_eq!(prober.verdict(), ProbeVerdict::Ready);
                assert_eq!(prober.attempts, 3);
                bring_up.advance(BringUpOutcome::Ready);
            }
            BringUpAction::Done { source } => {
                assert_eq!(source, DaemonSource::Spawned { index: first_usable(&present).unwrap() });
                break;
            }
            other => panic!("unexpected action {:?}", other),
        }
    }

    // Ensure: the tag is not listed, the weights are resolved, the manifest
    // is written, the tag is created and a chat probe succeeds.
    let weights = &files[select_largest_weights(&files, MODEL_MIN_SIZE).unwrap()].path;
    let mut ensure = ModelEnsurer::new(candidates.len(), false, false);
    let mut created_with = None;
    loop {
        match ensure.action() {
            EnsureAction::QueryListing => ensure.advance(EnsureOutcome::NotListed),
            EnsureAction::ResolveWeights => ensure.advance(EnsureOutcome::WeightsFound),
            EnsureAction::WriteManifest => {
                assert_eq!(manifest_text(weights), "FROM \"/data/models/w.gguf\"\n");
                ensure.advance(EnsureOutcome::ManifestWritten);
            }
            EnsureAction::Recreate { index } => {
                if present[index] {
                    created_with = Some(create_args("deepseek:latest", "/data/Modelfile"));
                    ensure.advance(EnsureOutcome::Created);
                } else {
                    ensure.advance(EnsureOutcome::CreateFailed);
                }
            }
            EnsureAction::Probe => {
                assert_eq!(chat_url(11434), "http://127.0.0.1:11434/api/chat");
                ensure.advance(EnsureOutcome::ProbePassed);
            }
            EnsureAction::Done => break,
            other => panic!("unexpected action {:?}", other),
        }
    }
    assert_eq!(created_with.unwrap(), vec!["create", "deepseek:latest", "-f", "/data/Modelfile"]);
    assert_eq!(ensure.status, ModelStatus::VerifiedWorking);
    assert_eq!(live.len(), 1);
    assert!(supervisor.is_current(slot, live[0]));
}
