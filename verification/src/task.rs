//! The task entity: identity, scheduling state, saved context, the
//! distinguished init and idle classifications, and the current-task
//! accessor protocol.
use vstd::prelude::*;

use crate::cpu::Cpu;

verus! {

/// Scheduling state of a task.
///
/// Exactly one task per hardware thread is `Running` at any instant; all
/// other live tasks are `Ready` or `Blocked`.  `Exited` is terminal: an
/// exited task is never rescheduled.
#[derive(Clone, Copy, Debug, PartialEq, Eq, Structural)]
pub enum TaskState {
    Running,
    Ready,
    Blocked,
    Exited,
}

/// An owned kernel stack, recorded as the plain region the external byte
/// allocator handed out.  The init task has none: it adopts the stack the
/// hardware thread booted on.
#[derive(Clone, Copy, Debug, PartialEq, Eq, Structural)]
pub struct TaskStack {
    pub base: u64,
    pub size: u64,
}

/// The saved execution context of a task: the resume point and the stack
/// pointer.  It is meaningful only while the task is *not* running; the
/// platform's context-switch step saves and restores it.
#[derive(Clone, Copy, Debug, PartialEq, Eq, Structural)]
pub struct TaskContext {
    pub ra: u64,
    pub sp: u64,
}

/// The schedulable unit.
pub struct Task {
    /// Process-wide unique identity; compared, never reused.
    pub id: u64,
    /// Human-readable name.
    pub name: String,
    /// Current scheduling state.
    pub state: TaskState,
    /// Entry point invoked on first run; absent for a task that never
    /// runs user code (the init and idle tasks).
    pub entry: Option<u64>,
    /// Owned kernel stack, if any.
    pub kstack: Option<TaskStack>,
    /// Saved hardware context, valid only while the task is not running.
    pub ctx: TaskContext,
    /// Fixed at construction: the idle task is never an ordinary ready
    /// queue entry and is selected only when the queue is empty.
    pub is_idle: bool,
    /// Fixed at construction: the task that bootstrapped this hardware
    /// thread.
    pub is_init: bool,
    /// Preemption was requested but not yet acted on.
    pub preempt_pending: bool,
    /// Exit status, meaningful once `state` is `Exited`.
    pub exit_code: i32,
}

/// `t` with its scheduling state replaced by `s` and nothing else changed.
pub open spec fn with_state(t: Task, s: TaskState) -> Task {
    Task { state: s, ..t }
}

/// `t` as the scheduler hands it to the hardware thread: state `Running`,
/// any pending-preemption marker cleared.
pub open spec fn as_running(t: Task) -> Task {
    Task { state: TaskState::Running, preempt_pending: false, ..t }
}

impl Task {
    /// Construct the fields shared by every constructor: state `Ready`,
    /// no entry, no stack, an empty context, no distinguished role.
    pub fn new_common(id: u64, name: String) -> (t: Task)
        ensures
            t == (Task {
                id,
                name,
                state: TaskState::Ready,
                entry: None,
                kstack: None,
                ctx: TaskContext { ra: 0, sp: 0 },
                is_idle: false,
                is_init: false,
                preempt_pending: false,
                exit_code: 0,
            }),
    {
        Task {
            id,
            name,
            state: TaskState::Ready,
            entry: None,
            kstack: None,
            ctx: TaskContext { ra: 0, sp: 0 },
            is_idle: false,
            is_init: false,
            preempt_pending: false,
            exit_code: 0,
        }
    }

    /// Construct the distinguished "already running" task that bootstraps
    /// a hardware thread: no entry, no separately allocated stack, state
    /// `Ready` until the scheduler init path promotes it.
    pub fn new_init(id: u64, name: String) -> (t: Task)
        ensures
            t == (Task { is_init: true, ..Task::new_common_spec(id, name) }),
    {
        let mut t = Task::new_common(id, name);
        t.is_init = true;
        t
    }

    /// Construct the idle task: never enqueued as an ordinary entry,
    /// selected only when the ready queue is empty.
    pub fn new_idle(id: u64, name: String) -> (t: Task)
        ensures
            t == (Task { is_idle: true, ..Task::new_common_spec(id, name) }),
    {
        let mut t = Task::new_common(id, name);
        t.is_idle = true;
        t
    }

    /// Construct an ordinary task in state `Ready`, on the given stack,
    /// with an initial context that resumes at `entry` on the top of that
    /// stack.  The stack itself comes from the external byte allocator;
    /// its allocation failure is fatal there and never reaches this
    /// constructor.
    pub fn new(id: u64, name: String, entry: u64, kstack: TaskStack) -> (t: Task)
        requires
            kstack.base + kstack.size <= u64::MAX,
        ensures
            t == (Task {
                entry: Some(entry),
                kstack: Some(kstack),
                ctx: TaskContext { ra: entry, sp: (kstack.base + kstack.size) as u64 },
                ..Task::new_common_spec(id, name)
            }),
    {
        let sp = kstack.base + kstack.size;
        let mut t = Task::new_common(id, name);
        t.entry = Some(entry);
        t.kstack = Some(kstack);
        t.ctx = TaskContext { ra: entry, sp };
        t
    }

    /// What `new_common` returns, as a spec-level value.
    pub open spec fn new_common_spec(id: u64, name: String) -> Task {
        Task {
            id,
            name,
            state: TaskState::Ready,
            entry: None,
            kstack: None,
            ctx: TaskContext { ra: 0, sp: 0 },
            is_idle: false,
            is_init: false,
            preempt_pending: false,
            exit_code: 0,
        }
    }

    /// Store a new scheduling state.  On hardware this store carries
    /// release ordering, so that another hardware thread observing the
    /// new state also observes the writes that preceded it; the
    /// transition itself is what the contract pins down.
    pub fn set_state(&mut self, state: TaskState)
        ensures
            *final(self) == with_state(*old(self), state),
    {
        self.state = state;
    }

    /// Set or clear the pending-preemption marker.
    pub fn set_preempt_pending(&mut self, pending: bool)
        ensures
            *final(self) == (Task { preempt_pending: pending, ..*old(self) }),
    {
        self.preempt_pending = pending;
    }

    pub fn is_running(&self) -> (r: bool)
        ensures
            r == (self.state is Running),
    {
        self.state == TaskState::Running
    }

    pub fn is_ready(&self) -> (r: bool)
        ensures
            r == (self.state is Ready),
    {
        self.state == TaskState::Ready
    }

    pub fn is_blocked(&self) -> (r: bool)
        ensures
            r == (self.state is Blocked),
    {
        self.state == TaskState::Blocked
    }

    pub fn is_exited(&self) -> (r: bool)
        ensures
            r == (self.state is Exited),
    {
        self.state == TaskState::Exited
    }

    pub fn is_idle(&self) -> (r: bool)
        ensures
            r == self.is_idle,
    {
        self.is_idle
    }

    pub fn is_init(&self) -> (r: bool)
        ensures
            r == self.is_init,
    {
        self.is_init
    }
}

/// A borrowed view of "the task presently executing on this hardware
/// thread": an identity handle resolved from the slot, taking no
/// ownership, so that routine reads do not perturb the task's lifetime.
pub struct CurrentTask {
    pub id: u64,
}

impl CurrentTask {
    /// Initialize scheduled execution on this hardware thread: consume
    /// ownership of the init task into the slot and promote it to
    /// `Running`.  Called exactly once per hardware thread, during boot.
    pub fn init_current(cpu: &mut Cpu, init_task: Task)
        requires
            old(cpu).current_task is None,
            init_task.is_init,
            !init_task.is_idle,
            init_task.state is Ready,
        ensures
            *final(cpu) == (Cpu {
                current_task: Some(with_state(init_task, TaskState::Running)),
                ..*old(cpu)
            }),
    {
        let mut t = init_task;
        t.set_state(TaskState::Running);
        cpu.current_task = Some(t);
    }

    /// Read the slot; `None` when the scheduler has not yet been
    /// initialized on this hardware thread, as in early boot.
    pub fn try_get(cpu: &Cpu) -> (r: Option<CurrentTask>)
        ensures
            match r {
                Some(c) => cpu.current_task is Some && c.id == cpu.current_task.unwrap().id,
                None => cpu.current_task is None,
            },
    {
        match &cpu.current_task {
            Some(t) => Some(CurrentTask { id: t.id }),
            None => None,
        }
    }

    /// `try_get`, for use only after boot is known complete: reading the
    /// slot before scheduler initialization is a fatal error, so that
    /// state is excluded by precondition.
    pub fn get(cpu: &Cpu) -> (r: CurrentTask)
        requires
            cpu.current_task is Some,
        ensures
            r.id == cpu.current_task.unwrap().id,
    {
        let r = CurrentTask::try_get(cpu);
        r.unwrap()
    }

    /// Identity comparison with a task, as the scheduler uses it to
    /// detect "switching to myself".
    pub fn ptr_eq(&self, other: &Task) -> (r: bool)
        ensures
            r == (self.id == other.id),
    {
        self.id == other.id
    }
}

/// The task presently executing on this hardware thread.
pub fn current(cpu: &Cpu) -> (r: CurrentTask)
    requires
        cpu.current_task is Some,
    ensures
        r.id == cpu.current_task.unwrap().id,
{
    CurrentTask::get(cpu)
}

/// Issues task identities: monotonically increasing, so no identity is
/// ever reused.
pub struct TaskIdGen {
    pub next: u64,
}

impl TaskIdGen {
    pub fn new() -> (g: TaskIdGen)
        ensures
            g.next == 0,
    {
        TaskIdGen { next: 0 }
    }

    /// Issue a fresh identity.  Successive calls return strictly
    /// increasing values, so an identity, once issued, never comes back.
    pub fn fresh(&mut self) -> (id: u64)
        requires
            old(self).next < u64::MAX,
        ensures
            id == old(self).next,
            final(self).next == old(self).next + 1,
    {
        let id = self.next;
        self.next = self.next + 1;
        id
    }
}

} // verus!
