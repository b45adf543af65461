use satellite_ocs::diagnostic::Diagnostic;
use satellite_ocs::clock::elapsed_ms;
use satellite_ocs::task_scheduler::{has_unique_names, Arbitration, ArbitrationSlot, ScheduledTask, TaskPriority};

#[test]
fn priority_order() {
    assert!(TaskPriority::High.outranks(&TaskPriority::Medium));
    assert!(TaskPriority::Medium.outranks(&TaskPriority::Low));
    assert!(!TaskPriority::Low.outranks(&TaskPriority::High));
    assert!(!TaskPriority::Medium.outranks(&TaskPriority::Medium));
    assert_eq!(TaskPriority::High.rank(), 2);
    assert_eq!(TaskPriority::Low.rank(), 0);
}

#[test]
fn not_due_before_period() {
    let t = ScheduledTask::new("Thermal Control", 100, TaskPriority::High, 0);
    let mut slot = ArbitrationSlot::new();
    let s = t.begin(99, &mut slot);
    assert_eq!(s.arbitration, None);
    assert!(!s.should_run());
    assert_eq!(slot.occupant, None);
}

#[test]
fn drift_of_six_ms_is_reported() {
    let t = ScheduledTask::new("Thermal Control", 100, TaskPriority::High, 0);
    let mut slot = ArbitrationSlot::new();
    let s = t.begin(106, &mut slot);
    assert!(s.should_run());
    assert_eq!(s.drift, Some(Diagnostic::Drift { task: "Thermal Control".to_string(), drift_ms: 6 }));
}

#[test]
fn drift_at_threshold_is_silent() {
    let t = ScheduledTask::new("Thermal Control", 100, TaskPriority::High, 0);
    let mut slot = ArbitrationSlot::new();
    assert_eq!(t.begin(105, &mut slot).drift, None);
}

#[test]
fn empty_slot_is_claimed() {
    let t = ScheduledTask::new("Health Monitoring", 250, TaskPriority::Medium, 0);
    let mut slot = ArbitrationSlot::new();
    let s = t.begin(250, &mut slot);
    assert_eq!(s.arbitration, Some(Arbitration::Claimed));
    assert!(s.should_run());
    assert_eq!(s.preemption, None);
    assert_eq!(slot.occupant, Some(("Health Monitoring".to_string(), TaskPriority::Medium)));
}

#[test]
fn high_preempts_low() {
    let b = ScheduledTask::new("B", 100, TaskPriority::High, 0);
    let mut slot = ArbitrationSlot { occupant: Some(("A".to_string(), TaskPriority::Low)) };
    let s = b.begin(100, &mut slot);
    assert_eq!(s.arbitration, Some(Arbitration::Preempted));
    assert!(s.should_run());
    assert_eq!(s.preemption, Some(Diagnostic::Preemption { task: "B".to_string(), preempted: "A".to_string() }));
    assert_eq!(slot.occupant, Some(("B".to_string(), TaskPriority::High)));
}

#[test]
fn equal_priority_is_skipped() {
    let mut c = ScheduledTask::new("C", 100, TaskPriority::Medium, 0);
    let mut slot = ArbitrationSlot { occupant: Some(("A".to_string(), TaskPriority::Medium)) };
    let s = c.begin(100, &mut slot);
    assert_eq!(s.arbitration, Some(Arbitration::Contended));
    assert!(!s.should_run());
    assert_eq!(s.preemption, None);
    assert_eq!(c.last_run, 0);
    assert_eq!(slot.occupant, Some(("A".to_string(), TaskPriority::Medium)));
    // Still due on the next tick.
    assert!(c.begin(110, &mut ArbitrationSlot::new()).should_run());
}

#[test]
fn lower_priority_is_skipped() {
    let c = ScheduledTask::new("C", 100, TaskPriority::Low, 0);
    let mut slot = ArbitrationSlot { occupant: Some(("A".to_string(), TaskPriority::High)) };
    let s = c.begin(100, &mut slot);
    assert_eq!(s.arbitration, Some(Arbitration::Contended));
    assert_eq!(slot.occupant, Some(("A".to_string(), TaskPriority::High)));
}

#[test]
fn same_task_in_slot_is_already_running() {
    let a = ScheduledTask::new("A", 100, TaskPriority::Low, 0);
    let mut slot = ArbitrationSlot { occupant: Some(("A".to_string(), TaskPriority::Low)) };
    let s = a.begin(100, &mut slot);
    assert_eq!(s.arbitration, Some(Arbitration::AlreadyRunning));
    assert!(!s.should_run());
    assert_eq!(slot.occupant, Some(("A".to_string(), TaskPriority::Low)));
}

#[test]
fn deadline_miss_reports_overrun() {
    let mut t = ScheduledTask::new("Health Monitoring", 250, TaskPriority::Medium, 0);
    let mut slot = ArbitrationSlot::new();
    assert!(t.begin(250, &mut slot).should_run());
    let r = t.finish(250, 510, &mut slot);
    assert_eq!(r, Some(Diagnostic::DeadlineMiss { task: "Health Monitoring".to_string(), overrun_ms: 10 }));
    assert_eq!(slot.occupant, None);
    assert_eq!(t.last_run, 510);
}

#[test]
fn run_within_period_meets_deadline() {
    let mut t = ScheduledTask::new("Health Monitoring", 250, TaskPriority::Medium, 0);
    let mut slot = ArbitrationSlot::new();
    assert!(t.begin(250, &mut slot).should_run());
    assert_eq!(t.finish(250, 490, &mut slot), None);
    assert_eq!(t.last_run, 490);
    assert_eq!(slot.occupant, None);
}

#[test]
fn unique_task_names_accepted() {
    let tasks = vec![
        ScheduledTask::new("Thermal Control", 100, TaskPriority::High, 0),
        ScheduledTask::new("Health Monitoring", 250, TaskPriority::Medium, 0),
        ScheduledTask::new("Antenna Alignment", 500, TaskPriority::Low, 0),
    ];
    assert!(has_unique_names(&tasks));
    assert!(has_unique_names(&Vec::new()));
}

#[test]
fn duplicate_task_name_rejected() {
    let tasks = vec![
        ScheduledTask::new("Thermal Control", 100, TaskPriority::High, 0),
        ScheduledTask::new("Health Monitoring", 250, TaskPriority::Medium, 0),
        ScheduledTask::new("Thermal Control", 500, TaskPriority::Low, 0),
    ];
    assert!(!has_unique_names(&tasks));
}

#[test]
fn elapsed_saturates_at_zero() {
    assert_eq!(elapsed_ms(350, 100), 250);
    assert_eq!(elapsed_ms(100, 350), 0);
}
