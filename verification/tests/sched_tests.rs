use axtask::cpu::Cpu;
use axtask::run_queue::AxRunQueue;
use axtask::spinlock::SpinNoIrq;
use axtask::task::{current, CurrentTask, Task, TaskState};
use axtask::yield_now;

/// A booted single-hart scheduler: the init task runs, the idle task is
/// parked, the ready queue is empty.
fn boot() -> (AxRunQueue, Cpu) {
    let idle = Task::new_idle(u64::MAX, "idle".to_string());
    let rq = AxRunQueue::new(idle);
    let mut cpu = Cpu::new();
    let boot = Task::new_init(0, "boot".to_string());
    CurrentTask::init_current(&mut cpu, boot);
    (rq, cpu)
}

fn spawn(rq: &mut AxRunQueue, id: u64, name: &str) {
    rq.put_prev_task(Task::new_common(id, name.to_string()), false);
}

/// Checks the observable state invariant: the current task is the one
/// `Running` task, every queued task is `Ready` and not idle, queue
/// identities are unique, and no `Exited` task is queued.
fn assert_state_invariant(rq: &AxRunQueue, cpu: &Cpu) {
    let cur = cpu.current_task.as_ref().expect("a task is current");
    assert_eq!(cur.state, TaskState::Running);
    let ids: Vec<u64> = rq.ready_queue.iter().map(|t| t.id).collect();
    for t in rq.ready_queue.iter() {
        assert_eq!(t.state, TaskState::Ready);
        assert!(!t.is_idle);
        assert_ne!(t.id, cur.id);
    }
    for (i, a) in ids.iter().enumerate() {
        for b in ids.iter().skip(i + 1) {
            assert_ne!(a, b);
        }
    }
    if let Some(idle) = &rq.idle_task {
        assert!(idle.is_idle);
        assert_eq!(idle.state, TaskState::Ready);
        assert!(!cur.is_idle);
    } else {
        assert!(cur.is_idle);
    }
}

#[test]
fn fifo_yield_drains_in_admission_order() {
    // Tasks admitted in order 1..=4 are selected in exactly that order
    // by successive yields, before any task is revisited.
    let (mut rq, mut cpu) = boot();
    for id in 1..=4 {
        spawn(&mut rq, id, &format!("t{id}"));
    }
    for expected in 1..=4u64 {
        let switch = rq.yield_current(&mut cpu);
        assert_state_invariant(&rq, &cpu);
        let cur = current(&cpu);
        assert_eq!(cur.id, expected);
        assert!(switch.is_some());
    }
    // The fifth yield revisits the first yielder: the full round-robin.
    rq.yield_current(&mut cpu);
    assert_eq!(current(&cpu).id, 0);
}

#[test]
fn yielder_goes_to_the_tail() {
    let (mut rq, mut cpu) = boot();
    spawn(&mut rq, 1, "a");
    spawn(&mut rq, 2, "b");
    let switch = rq.yield_current(&mut cpu);
    assert_eq!(switch, Some((0, 1)));
    // The yielding boot task is now last, behind the older task 2.
    let ids: Vec<u64> = rq.ready_queue.iter().map(|t| t.id).collect();
    assert_eq!(ids, vec![2, 0]);
}

#[test]
fn self_yield_is_a_noop_switch() {
    // With an empty ready queue, yielding round-trips the running task
    // through Ready back to Running, performs no context switch, and
    // leaves the state as it was.
    let (mut rq, mut cpu) = boot();
    let before_id = current(&cpu).id;
    let switch = rq.yield_current(&mut cpu);
    assert!(switch.is_none());
    assert_eq!(current(&cpu).id, before_id);
    assert_eq!(cpu.current_task.as_ref().unwrap().state, TaskState::Running);
    assert_eq!(rq.ready_queue.len(), 0);
    assert!(rq.idle_task.is_some());
    assert_state_invariant(&rq, &cpu);
}

#[test]
fn empty_queue_selection_falls_back_to_idle() {
    // Exiting with nothing ready selects the designated idle task —
    // no panic, and the selected task is Running, nothing else.
    let (mut rq, mut cpu) = boot();
    let exited = rq.exit_current(&mut cpu, 0);
    assert_eq!(exited.state, TaskState::Exited);
    let cur = cpu.current_task.as_ref().unwrap();
    assert!(cur.is_idle);
    assert_eq!(cur.state, TaskState::Running);
    assert_state_invariant(&rq, &cpu);
}

#[test]
fn pick_next_task_on_empty_queue_is_none() {
    let idle = Task::new_idle(9, "idle".to_string());
    let mut rq = AxRunQueue::new(idle);
    assert!(rq.pick_next_task().is_none());
    assert_eq!(rq.ready_queue.len(), 0);
}

#[test]
fn exited_task_is_never_requeued() {
    let (mut rq, mut cpu) = boot();
    spawn(&mut rq, 1, "a");
    let exited = rq.exit_current(&mut cpu, 3);
    assert_eq!(exited.state, TaskState::Exited);
    assert_eq!(exited.exit_code, 3);
    // The exited task is in no queue and not current.
    assert!(rq.ready_queue.iter().all(|t| t.id != exited.id));
    assert_ne!(cpu.current_task.as_ref().unwrap().id, exited.id);
    assert_state_invariant(&rq, &cpu);
}

#[test]
fn yield_now_releases_lock_and_restores_irqs() {
    let (rq, mut cpu) = boot();
    cpu.set_irq_enabled(true);
    let mut locked_rq = SpinNoIrq::new(rq);
    let switch = yield_now(&mut locked_rq, &mut cpu);
    assert!(switch.is_none());
    assert!(!locked_rq.locked);
    assert!(cpu.irq_enabled);
    assert_eq!(current(&cpu).id, 0);
}

#[test]
fn boot_two_workers_run_in_fifo_order_then_exit_to_idle() {
    // The init task boots, two workers each yield once and then exit;
    // the hart observes boot → A → B → A (which exits) → B (which
    // exits) → idle, ending with an empty ready queue and both workers
    // Exited.  The test plays the part of each task's entry thunk,
    // yielding or exiting as that task would.
    let (mut rq, mut cpu) = boot();
    spawn(&mut rq, 1, "A");
    spawn(&mut rq, 2, "B");
    assert_eq!(current(&cpu).id, 0, "boot runs first");

    // boot yields to let the workers in.
    rq.yield_current(&mut cpu);
    assert_eq!(current(&cpu).id, 1, "A runs next");
    assert_state_invariant(&rq, &cpu);

    // A's entry yields once.
    rq.yield_current(&mut cpu);
    assert_eq!(current(&cpu).id, 2, "B runs next");
    assert_state_invariant(&rq, &cpu);

    // B's entry yields once; the queue brings boot back.
    rq.yield_current(&mut cpu);
    assert_eq!(current(&cpu).id, 0);

    // boot, done spawning, exits; A resumes from its yield.
    let boot_exited = rq.exit_current(&mut cpu, 0);
    assert_eq!(boot_exited.state, TaskState::Exited);
    assert_eq!(current(&cpu).id, 1, "A resumes and exits");

    // A exits; B resumes from its yield.
    let a = rq.exit_current(&mut cpu, 0);
    assert_eq!(current(&cpu).id, 2, "B resumes and exits");

    // B exits; nothing is ready, so the idle task takes over.
    let b = rq.exit_current(&mut cpu, 0);
    let cur = cpu.current_task.as_ref().unwrap();
    assert!(cur.is_idle, "idle task runs last");
    assert_eq!(cur.state, TaskState::Running);
    assert_eq!(rq.ready_queue.len(), 0);
    assert_eq!(a.state, TaskState::Exited);
    assert_eq!(b.state, TaskState::Exited);
    assert_eq!(a.id, 1);
    assert_eq!(b.id, 2);
    assert_state_invariant(&rq, &cpu);
}

#[test]
fn idle_yield_with_ready_task_parks_idle_again() {
    // Run the idle task, make a task ready, then yield: the ready task
    // is selected and the idle task is parked, not queued.
    let (mut rq, mut cpu) = boot();
    let _ = rq.exit_current(&mut cpu, 0);
    assert!(cpu.current_task.as_ref().unwrap().is_idle);
    assert!(rq.idle_task.is_none());
    spawn(&mut rq, 5, "late");
    let switch = rq.yield_current(&mut cpu);
    assert!(switch.is_some());
    assert_eq!(current(&cpu).id, 5);
    let idle = rq.idle_task.as_ref().expect("idle task parked again");
    assert!(idle.is_idle);
    assert_eq!(idle.state, TaskState::Ready);
    assert!(rq.ready_queue.iter().all(|t| !t.is_idle));
    assert_state_invariant(&rq, &cpu);
}

#[test]
fn try_get_is_empty_before_boot() {
    let cpu = Cpu::new();
    assert!(CurrentTask::try_get(&cpu).is_none());
    let (_, cpu) = boot();
    let got = CurrentTask::try_get(&cpu).expect("current after boot");
    assert_eq!(got.id, 0);
    let t = Task::new_common(0, "same id".to_string());
    assert!(got.ptr_eq(&t));
    let other = Task::new_common(1, "other".to_string());
    assert!(!got.ptr_eq(&other));
}
