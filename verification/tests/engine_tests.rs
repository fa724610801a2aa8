use digital_twin::engine::events::{Event, EventKind, EventQueue, EventSource, QueueError};
use digital_twin::engine::sync::{mapping_failure, MappingIoError, SyncError, Synchronizer};
use digital_twin::engine::workflow::{WorkflowEngine, DEFAULT_MAX_PER_TICK};
use digital_twin::time::Timestamp;

fn event(n: &str) -> Event {
    Event::new(EventKind::Custom(n.to_string()), EventSource::Gateway).unwrap()
}

fn kind_name(k: &EventKind) -> String {
    match k {
        EventKind::Custom(s) => s.clone(),
        EventKind::PositionChanged => "position".to_string(),
        EventKind::SyncCompleted => "sync".to_string(),
    }
}

#[test]
fn queue_pops_in_push_order() {
    let mut q = EventQueue::new(4);
    q.try_push_at(event("a"), Timestamp::from_secs(1)).unwrap();
    q.try_push_at(event("b"), Timestamp::from_secs(2)).unwrap();
    q.try_push_at(event("c"), Timestamp::from_secs(3)).unwrap();
    let first = q.try_pop().unwrap();
    assert_eq!(kind_name(&first.event.kind), "a");
    assert_eq!(first.arrived_at, Timestamp::from_secs(1));
    q.try_push_at(event("d"), Timestamp::from_secs(4)).unwrap();
    let rest: Vec<String> = (0..3).map(|_| kind_name(&q.try_pop().unwrap().event.kind)).collect();
    assert_eq!(rest, vec!["b", "c", "d"]);
    assert!(q.is_empty());
}

#[test]
fn queue_wraps_around_its_ring() {
    let mut q = EventQueue::new(2);
    for round in 0..5 {
        q.try_push_at(event(&format!("x{round}")), Timestamp::from_secs(round)).unwrap();
        q.try_push_at(event(&format!("y{round}")), Timestamp::from_secs(round)).unwrap();
        assert!(q.is_full());
        assert_eq!(kind_name(&q.try_pop().unwrap().event.kind), format!("x{round}"));
        assert_eq!(kind_name(&q.try_pop().unwrap().event.kind), format!("y{round}"));
    }
}

#[test]
fn queue_full_rejects_and_keeps_contents() {
    let mut q = EventQueue::new(1);
    assert_eq!(q.capacity(), 1);
    q.try_push(event("a")).unwrap();
    assert!(q.is_full());
    assert_eq!(q.try_push(event("b")).unwrap_err(), QueueError::Full);
    assert_eq!(q.len(), 1);
    assert_eq!(kind_name(&q.try_pop().unwrap().event.kind), "a");
}

#[test]
fn queue_empty_pop_fails() {
    let mut q = EventQueue::new(3);
    assert!(q.is_empty());
    assert_eq!(q.try_pop().unwrap_err(), QueueError::Empty);
    assert_eq!(q.len(), 0);
}

#[test]
fn event_new_keeps_kind_and_source() {
    let e = Event::new(EventKind::PositionChanged, EventSource::Database).unwrap();
    assert_eq!(e.kind, EventKind::PositionChanged);
    assert_eq!(e.source, EventSource::Database);
    let other = Event::new(EventKind::PositionChanged, EventSource::Database).unwrap();
    assert_ne!(e.id, other.id);
}

#[test]
fn workflow_tick_takes_at_most_its_budget() {
    let mut q = EventQueue::new(8);
    for i in 0..5 {
        q.try_push_at(event(&format!("e{i}")), Timestamp::from_secs(i)).unwrap();
    }
    let w = WorkflowEngine::new().with_budget(2);
    assert_eq!(w.max_per_tick(), 2);
    let batch: Vec<String> = w.tick(&mut q).iter().map(|e| kind_name(&e.event.kind)).collect();
    assert_eq!(batch, vec!["e0", "e1"]);
    assert_eq!(q.len(), 3);
    let batch: Vec<String> = w.tick(&mut q).iter().map(|e| kind_name(&e.event.kind)).collect();
    assert_eq!(batch, vec!["e2", "e3"]);
    let batch: Vec<String> = w.tick(&mut q).iter().map(|e| kind_name(&e.event.kind)).collect();
    assert_eq!(batch, vec!["e4"]);
    assert!(w.tick(&mut q).is_empty());
}

#[test]
fn workflow_budget_defaults_and_zero_becomes_one() {
    assert_eq!(WorkflowEngine::new().max_per_tick(), DEFAULT_MAX_PER_TICK);
    assert_eq!(DEFAULT_MAX_PER_TICK, 32);
    assert_eq!(WorkflowEngine::new().with_budget(0).max_per_tick(), 1);
    assert_eq!(WorkflowEngine::new().with_budget(7).max_per_tick(), 7);
}

#[test]
fn sync_error_texts() {
    assert_eq!(SyncError::Mapping("boom".to_string()).message(), "mapping failed: boom");
    assert_eq!(MappingIoError::Gateway("x".to_string()).message(), "gateway read failed: x");
    assert_eq!(MappingIoError::DbWrite("mockdb busy (dropped)".to_string()).message(), "db write failed: mockdb busy (dropped)");
    let e = mapping_failure("PositionMapping", "db", &MappingIoError::DbWrite("busy".to_string()));
    match &e {
        SyncError::Mapping(m) => assert_eq!(m, "PositionMapping (db): db write failed: busy"),
    }
    assert_eq!(e.message(), "mapping failed: PositionMapping (db): db write failed: busy");
}

#[test]
fn synchronizer_keeps_mapping_order() {
    let s = Synchronizer::new(vec!["first", "second"]);
    assert_eq!(s.mappings(), &vec!["first", "second"]);
}
