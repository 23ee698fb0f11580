use proctor_core::bus::TriggerBus;
use proctor_core::scheduler::Scheduler;
use proctor_core::slot::HandleSlot;
use proctor_core::types::Triggers;

#[test]
fn task_is_retried_after_an_error_tick() {
    let mut s = Scheduler::new();
    assert!(s.register("input_checker".to_string(), 10));
    s.start(0);
    let due = s.due_tasks(10);
    assert_eq!(due, vec![0]);
    // the unit of work fails on this tick
    s.record_tick(0, 10, false);
    // the task was not unregistered and is due again one interval later
    assert!(s.has_task(&"input_checker".to_string()));
    assert!(s.due_tasks(19).is_empty());
    assert_eq!(s.due_tasks(20), vec![0]);
    // and a success is scheduled exactly the same way
    s.record_tick(0, 20, true);
    assert_eq!(s.due_tasks(30), vec![0]);
}

#[test]
fn duplicate_task_name_is_refused() {
    let mut s = Scheduler::new();
    assert!(s.register("poll".to_string(), 5));
    assert!(!s.register("poll".to_string(), 60));
    assert!(s.register("other".to_string(), 5));
}

#[test]
fn nothing_is_due_before_start_or_after_stop() {
    let mut s = Scheduler::new();
    assert!(s.register("poll".to_string(), 5));
    assert!(s.due_tasks(1000).is_empty());
    s.start(0);
    assert_eq!(s.due_tasks(5), vec![0]);
    s.stop();
    assert!(s.due_tasks(1000).is_empty());
}

#[test]
fn failing_task_does_not_delay_another() {
    let mut s = Scheduler::new();
    assert!(s.register("devices".to_string(), 10));
    assert!(s.register("remote".to_string(), 60));
    s.start(0);
    s.record_tick(0, 10, false);
    // the second unit's schedule is untouched by the first unit's failure
    let due = s.due_tasks(60);
    assert_eq!(due, vec![0, 1]);
}

#[test]
fn two_independent_scheduler_instances_coexist() {
    let mut slot_a: HandleSlot<Scheduler> = HandleSlot::empty();
    let mut slot_b: HandleSlot<Scheduler> = HandleSlot::empty();
    let mut a = Scheduler::new();
    let mut b = Scheduler::new();
    assert!(a.register("devices".to_string(), 10));
    assert!(b.register("remote".to_string(), 60));
    a.start(0);
    b.start(0);
    assert!(slot_a.install(a));
    assert!(slot_b.install(b));
    let mut a_back = slot_a.take().unwrap();
    let mut b_back = slot_b.take().unwrap();
    a_back.stop();
    b_back.stop();
    assert!(slot_a.take().is_none());
    assert!(slot_b.take().is_none());
}

#[test]
fn bus_delivers_in_send_order_exactly_once() {
    let mut bus = TriggerBus::new();
    assert_eq!(bus.recv(), None);
    bus.send(Triggers::AdditionalDisplayDetected(vec!["DP-1".to_string()]));
    bus.send(Triggers::RemoteApplicationDetected(proctor_core::types::WebRtcReport {
        ports: Vec::new(),
        processes: Vec::new(),
    }));
    let first = bus.recv();
    assert_eq!(
        first,
        Some(Triggers::AdditionalDisplayDetected(vec!["DP-1".to_string()]))
    );
    let second = bus.recv();
    assert!(matches!(second, Some(Triggers::RemoteApplicationDetected(_))));
    // both triggers were delivered once and are not replayed
    assert_eq!(bus.recv(), None);
}
