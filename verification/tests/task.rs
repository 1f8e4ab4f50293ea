use e1000_core::task::Task;
use e1000_core::task::TaskRef;
use e1000_core::task::TASK_INTERRUPTIBLE;
use e1000_core::task::TASK_NORMAL;
use e1000_core::task::TASK_RUNNING;
use e1000_core::task::TASK_UNINTERRUPTIBLE;

#[test]
fn task_reports_what_it_was_made_of() {
    let t = Task::new(42, true, TASK_RUNNING);
    assert_eq!(t.pid(), 42);
    assert!(t.signal_pending());
    assert_eq!(t.group_leader().pid(), 42);
    let worker = Task::in_group(43, false, TASK_INTERRUPTIBLE, t);
    assert_eq!(worker.pid(), 43);
    assert!(!worker.signal_pending());
    assert_eq!(worker.group_leader().pid(), 42);
    assert!(worker.group_leader().signal_pending());
}

#[test]
fn wake_up_ends_an_ordinary_sleep() {
    let mut t = Task::new(1, false, TASK_INTERRUPTIBLE);
    assert!(t.wake_up());
    assert!(!t.wake_up());
    let mut t = Task::new(1, false, TASK_UNINTERRUPTIBLE);
    assert!(t.wake_up());
    let mut t = Task::new(1, false, TASK_RUNNING);
    assert!(!t.wake_up());
    let mut t = Task::new(1, false, 0x80);
    assert!(!t.wake_up());
    assert!(!t.wake_up_state(TASK_NORMAL));
    assert!(t.wake_up_state(0x80));
    assert!(!t.wake_up_state(0x80));
}

#[test]
fn wake_up_state_looks_at_the_mask() {
    let mut t = Task::new(1, false, TASK_UNINTERRUPTIBLE);
    assert!(!t.wake_up_state(TASK_INTERRUPTIBLE));
    assert!(!t.wake_up_state(0));
    assert!(t.wake_up_state(TASK_UNINTERRUPTIBLE));
    assert_eq!(t.pid(), 1);
}

#[test]
fn handles_are_counted() {
    let mut t = Task::new(5, false, TASK_RUNNING);
    assert!(t.inc_ref());
    assert!(t.inc_ref());
    assert!(!t.dec_ref());
    assert!(!t.dec_ref());
    assert!(t.dec_ref());
    assert!(!t.dec_ref());
    assert!(t.inc_ref());
    assert!(t.dec_ref());
}

#[test]
fn borrowed_handle_leads_to_the_task() {
    let t = Task::new(77, true, TASK_RUNNING);
    let r = TaskRef::new(&t);
    assert_eq!(r.deref().pid(), 77);
    assert!(r.deref().signal_pending());
}
