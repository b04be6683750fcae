use runtime_supervisor::supervisor::Supervisor;

#[test]
fn second_start_replaces_the_first_process() {
    let mut s = Supervisor::new();
    let slot = s.add_slot("inference-daemon".to_string(), 11434, "/logs/d.log".to_string());
    assert_eq!(s.take_for_replace(slot), None);
    s.record_spawned(slot, 100);
    let to_terminate = s.take_for_replace(slot);
    assert_eq!(to_terminate, Some(100));
    s.record_spawned(slot, 200);
    assert_eq!(s.current(slot), Some(200));
    assert!(s.is_current(slot, 200));
    assert!(!s.is_current(slot, 100));
}

#[test]
fn stop_clears_the_record() {
    let mut s = Supervisor::new();
    let slot = s.add_slot("app-server".to_string(), 4317, "/logs/a.log".to_string());
    s.record_spawned(slot, 7);
    assert_eq!(s.stop(slot), Some(7));
    assert_eq!(s.current(slot), None);
    assert_eq!(s.stop(slot), None);
}

#[test]
fn stop_all_clears_every_slot() {
    let mut s = Supervisor::new();
    let a = s.add_slot("app-server".to_string(), 4317, "a".to_string());
    let b = s.add_slot("inference-daemon".to_string(), 11434, "b".to_string());
    let c = s.add_slot("inference-server".to_string(), 8080, "c".to_string());
    s.record_spawned(a, 1);
    s.record_spawned(c, 3);
    assert_eq!(s.stop_all(), vec![1, 3]);
    assert_eq!(s.current(a), None);
    assert_eq!(s.current(b), None);
    assert_eq!(s.current(c), None);
    assert_eq!(s.slot_count(), 3);
    assert_eq!(s.slot(b).unwrap().port, 11434);
    assert!(s.slot(3).is_none());
}

#[test]
fn missing_slot_records_nothing() {
    let mut s = Supervisor::new();
    assert_eq!(s.take_for_replace(0), None);
    s.record_spawned(0, 9);
    assert_eq!(s.current(0), None);
    assert!(!s.is_current(0, 9));
    assert_eq!(s.slot_count(), 0);
}
