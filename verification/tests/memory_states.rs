use springql::event_queue::Event;
use springql::event_queue::EventQueue;
use springql::memory_state_machine::MemoryState;
use springql::memory_state_machine::MemoryStateMachine;
use springql::memory_state_machine::MemoryThresholds;
use springql::name::ColumnName;
use springql::row::Row;
use springql::row::RowField;
use springql::row_repository::NaiveRowRepository;
use springql::scheduler::SchedulerKind;
use springql::task::TaskId;
use springql::value::SqlValue;

fn default_thresholds() -> MemoryThresholds {
    MemoryThresholds {
        moderate_to_severe_percent: 60,
        severe_to_critical_percent: 95,
        critical_to_severe_percent: 80,
        severe_to_moderate_percent: 40,
    }
}

#[test]
fn test_severe_transition_publishes_one_scheduler_swap() {
    let mut m = MemoryStateMachine::new(default_thresholds());
    let mut queues = NaiveRowRepository::default();
    let mut bus = EventQueue::new();
    assert_eq!(m.state, MemoryState::Moderate);

    // past the up-threshold: one swap to the memory-reducing scheduler
    let t1 = m.on_memory_tick(65, &mut queues, &mut bus);
    assert_eq!(t1.state, MemoryState::Severe);
    assert_eq!(
        bus.poll(),
        Some(Event::UpdateScheduler { kind: SchedulerKind::MemoryReducing })
    );
    assert_eq!(bus.poll(), None);

    // constant memory between the hysteresis bounds: no further transition
    let t2 = m.on_memory_tick(65, &mut queues, &mut bus);
    assert_eq!(t2.state, MemoryState::Severe);
    assert_eq!(t2.swap_scheduler, None);
    assert_eq!(bus.poll(), None);
    let t3 = m.on_memory_tick(50, &mut queues, &mut bus);
    assert_eq!(t3.state, MemoryState::Severe);
    assert_eq!(bus.poll(), None);

    // below the down-threshold: back to Moderate, flow-efficient again
    let t4 = m.on_memory_tick(39, &mut queues, &mut bus);
    assert_eq!(t4.state, MemoryState::Moderate);
    assert_eq!(
        bus.poll(),
        Some(Event::UpdateScheduler { kind: SchedulerKind::FlowEfficient })
    );
}

#[test]
fn test_critical_entry_purges_intermediate_queues_in_one_tick() {
    let pump = TaskId::new("pu_passthrough".to_string());
    let mut m = MemoryStateMachine::new(default_thresholds());
    let mut queues = NaiveRowRepository::default();
    queues.reset(vec![pump.clone()]);
    let r = Row::new(vec![RowField::new(
        ColumnName::new("amount".to_string()),
        SqlValue::Integer { v: 1 },
    )]);
    queues.emit(r, &[pump.clone()]).unwrap();
    assert_eq!(queues.queue_len(&pump), 1);
    let mut bus = EventQueue::new();

    // memory at 100%: Moderate -> Severe on one tick...
    let t1 = m.on_memory_tick(100, &mut queues, &mut bus);
    assert_eq!(t1.state, MemoryState::Severe);
    assert!(!t1.purge);
    assert_eq!(queues.queue_len(&pump), 1);

    // ...and Severe -> Critical on the next: the entry itself drains the
    // intermediate queues
    let t2 = m.on_memory_tick(100, &mut queues, &mut bus);
    assert_eq!(t2.state, MemoryState::Critical);
    assert!(t2.purge);
    assert_eq!(queues.queue_len(&pump), 0);

    // staying at 100% does not oscillate and purges nothing further
    let t3 = m.on_memory_tick(100, &mut queues, &mut bus);
    assert_eq!(t3.state, MemoryState::Critical);
    assert!(!t3.purge);
}

#[test]
fn test_critical_leaves_through_severe_only() {
    let mut m = MemoryStateMachine::new(default_thresholds());
    let mut queues = NaiveRowRepository::default();
    let mut bus = EventQueue::new();
    m.on_memory_tick(70, &mut queues, &mut bus);
    m.on_memory_tick(96, &mut queues, &mut bus);
    assert_eq!(m.state, MemoryState::Critical);

    // between the Critical hysteresis bounds: stays Critical
    let t1 = m.on_memory_tick(85, &mut queues, &mut bus);
    assert_eq!(t1.state, MemoryState::Critical);

    // below critical-to-severe: Severe, still memory-reducing; even a very
    // low reading leaves Critical only into Severe, never straight to
    // Moderate within one tick
    let t2 = m.on_memory_tick(10, &mut queues, &mut bus);
    assert_eq!(t2.state, MemoryState::Severe);
    assert_eq!(t2.swap_scheduler, Some(SchedulerKind::MemoryReducing));
    let t3 = m.on_memory_tick(10, &mut queues, &mut bus);
    assert_eq!(t3.state, MemoryState::Moderate);
}

#[test]
fn test_event_queue_is_fifo() {
    let mut bus = EventQueue::new();
    assert_eq!(bus.poll(), None);
    bus.publish(Event::UpdatePipeline);
    bus.publish(Event::ReportMetricsSummary { used_percent: 12 });
    bus.publish(Event::Stop);
    assert_eq!(bus.poll(), Some(Event::UpdatePipeline));
    assert_eq!(bus.poll(), Some(Event::ReportMetricsSummary { used_percent: 12 }));
    assert_eq!(bus.poll(), Some(Event::Stop));
    assert_eq!(bus.poll(), None);
}
