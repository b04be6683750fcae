use runtime_supervisor::readiness::{
    api_ready, app_server_readiness, daemon_readiness, page_ready, ProbeVerdict, Prober,
    ReadinessCheck,
};

#[test]
fn never_matching_predicate_gives_not_ready_after_five_attempts() {
    let mut p = Prober::new(ReadinessCheck { interval_ms: 1, max_attempts: 5 });
    let mut made = 0;
    while p.may_attempt() {
        made += 1;
        let v = p.record(false);
        if made < 5 {
            assert_eq!(v, ProbeVerdict::Pending);
        }
    }
    assert_eq!(made, 5);
    assert_eq!(p.verdict(), ProbeVerdict::NotReady);
    assert_eq!(p.record(false), ProbeVerdict::NotReady);
    assert_eq!(p.attempts, 5);
}

#[test]
fn matching_attempt_is_ready() {
    let mut p = Prober::new(daemon_readiness());
    assert_eq!(p.record(false), ProbeVerdict::Pending);
    assert_eq!(p.record(true), ProbeVerdict::Ready);
    assert!(!p.may_attempt());
    assert_eq!(p.attempts, 2);
}

#[test]
fn zero_budget_is_not_ready_at_once() {
    let p = Prober::new(ReadinessCheck { interval_ms: 0, max_attempts: 0 });
    assert!(!p.may_attempt());
    assert_eq!(p.verdict(), ProbeVerdict::NotReady);
}

#[test]
fn page_needs_success_and_markup() {
    assert!(page_ready(200, "<!DOCTYPE html><html></html>"));
    assert!(page_ready(204, "<html lang=\"en\">"));
    assert!(!page_ready(200, "{\"status\":\"ok\"}"));
    assert!(!page_ready(500, "<html>error</html>"));
    assert!(!page_ready(301, "<html>"));
}

#[test]
fn api_needs_a_2xx_status() {
    assert!(api_ready(200));
    assert!(api_ready(299));
    assert!(!api_ready(199));
    assert!(!api_ready(300));
    assert!(!api_ready(503));
}

#[test]
fn budgets_of_each_service() {
    assert_eq!(daemon_readiness(), ReadinessCheck { interval_ms: 200, max_attempts: 120 });
    assert_eq!(app_server_readiness(), ReadinessCheck { interval_ms: 300, max_attempts: 80 });
}
