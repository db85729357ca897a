use axtask::task::{Task, TaskIdGen, TaskStack, TaskState};

#[test]
fn new_common_starts_ready() {
    let t = Task::new_common(5, "worker".to_string());
    assert_eq!(t.id, 5);
    assert_eq!(t.name, "worker");
    assert_eq!(t.state, TaskState::Ready);
    assert!(t.entry.is_none());
    assert!(t.kstack.is_none());
    assert!(!t.is_idle);
    assert!(!t.is_init);
    assert!(!t.preempt_pending);
    assert_eq!(t.exit_code, 0);
}

#[test]
fn new_init_is_init_only() {
    let t = Task::new_init(0, "boot".to_string());
    assert!(t.is_init);
    assert!(!t.is_idle);
    assert_eq!(t.state, TaskState::Ready);
    assert!(t.entry.is_none());
    assert!(t.kstack.is_none());
}

#[test]
fn new_idle_is_idle_only() {
    let t = Task::new_idle(1, "idle".to_string());
    assert!(t.is_idle);
    assert!(!t.is_init);
    assert_eq!(t.state, TaskState::Ready);
}

#[test]
fn new_builds_context_on_stack_top() {
    let stack = TaskStack { base: 0x8000_0000, size: 0x4000 };
    let t = Task::new(7, "worker".to_string(), 0x1234, stack);
    assert_eq!(t.entry, Some(0x1234));
    assert_eq!(t.kstack, Some(stack));
    assert_eq!(t.ctx.ra, 0x1234);
    assert_eq!(t.ctx.sp, 0x8000_4000);
    assert_eq!(t.state, TaskState::Ready);
}

#[test]
fn set_state_changes_only_state() {
    let mut t = Task::new_common(3, "t".to_string());
    t.set_state(TaskState::Running);
    assert_eq!(t.state, TaskState::Running);
    assert_eq!(t.id, 3);
    assert_eq!(t.name, "t");
    t.set_state(TaskState::Blocked);
    assert!(t.is_blocked());
    t.set_state(TaskState::Exited);
    assert!(t.is_exited());
    assert!(!t.is_running());
    assert!(!t.is_ready());
}

#[test]
fn id_gen_is_monotonic_and_never_reuses() {
    let mut gen = TaskIdGen::new();
    let a = gen.fresh();
    let b = gen.fresh();
    let c = gen.fresh();
    assert_eq!(a, 0);
    assert_eq!(b, 1);
    assert_eq!(c, 2);
    assert!(a < b && b < c);
}
