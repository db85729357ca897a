//! The run queue and its task-selection policy: FIFO admission, FIFO
//! selection, idle fallback, and the yield/exit protocols.
use vstd::prelude::*;

use std::collections::VecDeque;

use crate::cpu::Cpu;
use crate::task::CurrentTask;
use crate::task::Task;
use crate::task::TaskState;
use crate::task::as_running;
use crate::task::with_state;

verus! {

/// The identities of the tasks of `q`, in queue order.
pub open spec fn queue_ids(q: Seq<Task>) -> Seq<u64> {
    q.map_values(|t: Task| t.id)
}

/// Whether some task of `q` bears the identity `id`.
pub open spec fn id_in(q: Seq<Task>, id: u64) -> bool {
    exists|i: int| 0 <= i < q.len() && q[i].id == id
}

/// The ready set of one scheduling domain: an ordered collection of
/// `Ready` tasks, FIFO, plus the parked idle task that selection falls
/// back to when the collection is empty.
pub struct AxRunQueue {
    /// Insertion order is admission order; the head is selected first.
    pub ready_queue: VecDeque<Task>,
    /// The designated idle task, parked here whenever it is not the one
    /// running.  Never an ordinary ready-queue entry.
    pub idle_task: Option<Task>,
}

impl AxRunQueue {
    /// Every queued task is `Ready` and not the idle task; identities are
    /// unique; the parked idle task is `Ready`, marked idle, and absent
    /// from the queue.
    pub open spec fn queue_wf(self) -> bool {
        &&& forall|i: int|
            0 <= i < self.ready_queue@.len() ==> (#[trigger] self.ready_queue@[i]).state is Ready
                && !self.ready_queue@[i].is_idle
        &&& forall|i: int, j: int|
            0 <= i < j < self.ready_queue@.len() ==> #[trigger] self.ready_queue@[i].id
                != #[trigger] self.ready_queue@[j].id
        &&& self.idle_task matches Some(t) ==> t.is_idle && t.state is Ready && !id_in(
            self.ready_queue@,
            t.id,
        )
    }

    /// An empty ready queue with the given task as the idle fallback.
    pub fn new(idle_task: Task) -> (rq: AxRunQueue)
        requires
            idle_task.is_idle,
            idle_task.state is Ready,
        ensures
            rq.ready_queue@ =~= Seq::<Task>::empty(),
            rq.idle_task == Some(idle_task),
            rq.queue_wf(),
    {
        AxRunQueue { ready_queue: VecDeque::new(), idle_task: Some(idle_task) }
    }

    /// Pop the head of the ready queue: the oldest admitted task wins.
    /// An empty queue is not an error; the caller's policy falls back to
    /// the idle task.
    pub fn pick_next_task(&mut self) -> (r: Option<Task>)
        ensures
            final(self).idle_task == old(self).idle_task,
            match r {
                Some(t) => old(self).ready_queue@.len() > 0 && t == old(self).ready_queue@[0]
                    && final(self).ready_queue@ == old(self).ready_queue@.drop_first(),
                None => old(self).ready_queue@.len() == 0 && final(self).ready_queue@ == old(
                    self,
                ).ready_queue@,
            },
    {
        let r = self.ready_queue.pop_front();
        proof {
            if r is Some {
                assert(final(self).ready_queue@ =~= old(self).ready_queue@.drop_first());
            }
        }
        r
    }

    /// Append a task that gave up the hardware thread to the tail of the
    /// ready queue: a task that yields goes to the back of the line.  The
    /// `preempt` flag tells a preempted task from one that yielded; both
    /// go to the tail, keeping admission order FIFO.
    pub fn put_prev_task(&mut self, prev: Task, preempt: bool)
        requires
            prev.state is Ready,
            !prev.is_idle,
            !id_in(old(self).ready_queue@, prev.id),
        ensures
            final(self).ready_queue@ == old(self).ready_queue@.push(prev),
            final(self).idle_task == old(self).idle_task,
    {
        self.ready_queue.push_back(prev)
    }

    /// Transition the selected task to `Running`, clear its
    /// pending-preemption marker, and install it in the hardware thread's
    /// current-task slot.  When the selected task is the one that was
    /// already running, no directive is returned: a self-switch needs no
    /// context switch.  Otherwise the directive names the outgoing and
    /// incoming task, and the embedder performs the register/stack swap —
    /// the one irreversible hardware operation — after the scheduler has
    /// let go of its lock.
    pub fn switch_to(&mut self, cpu: &mut Cpu, prev_task: CurrentTask, next_task: Task) -> (switch:
        Option<(u64, u64)>)
        requires
            old(cpu).current_task is None,
        ensures
            *final(self) == *old(self),
            *final(cpu) == (Cpu { current_task: Some(as_running(next_task)), ..*old(cpu) }),
            switch == if prev_task.id == next_task.id {
                Option::<(u64, u64)>::None
            } else {
                Some((prev_task.id, next_task.id))
            },
    {
        let mut next = next_task;
        next.set_preempt_pending(false);
        next.set_state(TaskState::Running);
        let no_switch = prev_task.ptr_eq(&next);
        let next_id = next.id;
        cpu.current_task = Some(next);
        if no_switch {
            None
        } else {
            Some((prev_task.id, next_id))
        }
    }

    /// The reschedule routine: re-admit the yielding task (to the queue
    /// tail, or to the idle parking slot), select the head of the ready
    /// queue — falling back to the idle task when the queue is empty —
    /// and install the selection.  Returns the context-switch directive,
    /// or nothing when the selection resolved to the task already
    /// running.
    pub fn resched(&mut self, cpu: &mut Cpu) -> (switch: Option<(u64, u64)>)
        requires
            sched_wf(*old(self), *old(cpu)),
        ensures
            sched_wf(*final(self), *final(cpu)),
            final(cpu).irq_enabled == old(cpu).irq_enabled,
            final(cpu).pending_irq == old(cpu).pending_irq,
            resched_spec(*old(self), *old(cpu), *final(self), *final(cpu), switch),
    {
        let mut prev = cpu.current_task.take().unwrap();
        let prev_handle = CurrentTask { id: prev.id };
        let ghost old_q = self.ready_queue@;
        if prev.is_running() {
            prev.set_state(TaskState::Ready);
            if !prev.is_idle() {
                self.put_prev_task(prev, false);
            } else {
                self.idle_task = Some(prev);
            }
        }
        let next = match self.pick_next_task() {
            Some(t) => t,
            None => self.idle_task.take().unwrap(),
        };
        let switch = self.switch_to(cpu, prev_handle, next);
        proof {
            if old_q.len() > 0 {
                assert(self.ready_queue@ =~= old_q.drop_first() + (if !old(
                    cpu,
                ).current_task.unwrap().is_idle {
                    seq![with_state(old(cpu).current_task.unwrap(), TaskState::Ready)]
                } else {
                    Seq::<Task>::empty()
                }));
            } else {
                assert(self.ready_queue@ =~= old_q);
            }
        }
        switch
    }

    /// `resched`, as the public yield entry point uses it.  The identity
    /// refinement clause restates the transition over task identities
    /// alone, in the form the FIFO-fairness lemma iterates.
    pub fn yield_current(&mut self, cpu: &mut Cpu) -> (switch: Option<(u64, u64)>)
        requires
            sched_wf(*old(self), *old(cpu)),
        ensures
            sched_wf(*final(self), *final(cpu)),
            final(cpu).irq_enabled == old(cpu).irq_enabled,
            final(cpu).pending_irq == old(cpu).pending_irq,
            resched_spec(*old(self), *old(cpu), *final(self), *final(cpu), switch),
            !old(cpu).current_task.unwrap().is_idle ==> {
                let step = yield_step_ids(
                    old(cpu).current_task.unwrap().id,
                    queue_ids(old(self).ready_queue@),
                );
                final(cpu).current_task.unwrap().id == step.0 && queue_ids(
                    final(self).ready_queue@,
                ) =~= step.1
            },
    {
        let switch = self.resched(cpu);
        proof {
            let prev = old(cpu).current_task.unwrap();
            let q = old(self).ready_queue@;
            if !prev.is_idle {
                if q.len() > 0 {
                    assert(queue_ids(self.ready_queue@) =~= queue_ids(q).drop_first().push(
                        prev.id,
                    ));
                } else {
                    assert(queue_ids(self.ready_queue@) =~= queue_ids(q));
                }
            }
        }
        switch
    }

    /// Mark the calling task `Exited` with the given code, select what
    /// runs next — the queue head, or the idle task when the queue is
    /// empty — and hand the exited task back to the caller, whose drop of
    /// the last reference reclaims its stack.  The exiting task is never
    /// re-admitted to the queue; the idle task itself never exits.
    pub fn exit_current(&mut self, cpu: &mut Cpu, exit_code: i32) -> (exited: Task)
        requires
            sched_wf(*old(self), *old(cpu)),
            !old(cpu).current_task.unwrap().is_idle,
        ensures
            sched_wf(*final(self), *final(cpu)),
            final(cpu).irq_enabled == old(cpu).irq_enabled,
            final(cpu).pending_irq == old(cpu).pending_irq,
            exited == (Task {
                state: TaskState::Exited,
                exit_code,
                ..old(cpu).current_task.unwrap()
            }),
            ({
                let q = old(self).ready_queue@;
                if q.len() > 0 {
                    &&& final(cpu).current_task == Some(as_running(q[0]))
                    &&& final(self).ready_queue@ == q.drop_first()
                    &&& final(self).idle_task == old(self).idle_task
                } else {
                    &&& final(cpu).current_task == Some(
                        as_running(old(self).idle_task.unwrap()),
                    )
                    &&& final(self).ready_queue@ == q
                    &&& final(self).idle_task is None
                }
            }),
    {
        let mut prev = cpu.current_task.take().unwrap();
        prev.set_state(TaskState::Exited);
        prev.exit_code = exit_code;
        let next = match self.pick_next_task() {
            Some(t) => t,
            None => self.idle_task.take().unwrap(),
        };
        let prev_handle = CurrentTask { id: prev.id };
        let _ = self.switch_to(cpu, prev_handle, next);
        prev
    }
}

/// Exactly one task is current on the hardware thread and it is
/// `Running`; the queue holds only `Ready`, non-idle tasks with unique
/// identities, none of them the current task; the idle task is parked
/// exactly while a non-idle task runs, and is nobody's double.
pub open spec fn sched_wf(rq: AxRunQueue, cpu: Cpu) -> bool {
    &&& rq.queue_wf()
    &&& cpu.current_task is Some
    &&& cpu.current_task.unwrap().state is Running
    &&& (cpu.current_task.unwrap().is_idle <==> rq.idle_task is None)
    &&& !id_in(rq.ready_queue@, cpu.current_task.unwrap().id)
    &&& (rq.idle_task matches Some(t) ==> t.id != cpu.current_task.unwrap().id)
}

/// The reschedule transition, stated over the old and new states: with a
/// non-empty queue the head is selected and the yielding task rejoins at
/// the tail (or is parked when it is the idle task) and a switch
/// directive is returned; with an empty queue the selection resolves to
/// the yielding task itself, every piece of state round-trips unchanged
/// — but for the cleared preemption marker — and no directive is
/// returned.
pub open spec fn resched_spec(
    pre_rq: AxRunQueue,
    pre_cpu: Cpu,
    post_rq: AxRunQueue,
    post_cpu: Cpu,
    switch: Option<(u64, u64)>,
) -> bool {
    let prev = pre_cpu.current_task.unwrap();
    let q = pre_rq.ready_queue@;
    if q.len() > 0 {
        &&& post_cpu.current_task == Some(as_running(q[0]))
        &&& post_rq.ready_queue@ == q.drop_first() + (if !prev.is_idle {
            seq![with_state(prev, TaskState::Ready)]
        } else {
            Seq::<Task>::empty()
        })
        &&& post_rq.idle_task == (if prev.is_idle {
            Some(with_state(prev, TaskState::Ready))
        } else {
            pre_rq.idle_task
        })
        &&& switch == Some((prev.id, q[0].id))
    } else {
        &&& post_cpu.current_task == Some(as_running(prev))
        &&& post_rq.ready_queue@ == q
        &&& post_rq.idle_task == pre_rq.idle_task
        &&& switch is None
    }
}

/// The state invariant, unfolded from `sched_wf` for a reader: at every
/// observable instant exactly one task is current on the hardware thread
/// and it is the one `Running` task; every task in the ready queue is
/// `Ready`; and no `Exited` task appears in the ready queue — so
/// selection, which draws only from the queue and the parked idle task,
/// can never return one.
pub proof fn lemma_state_invariant(rq: AxRunQueue, cpu: Cpu)
    requires
        sched_wf(rq, cpu),
    ensures
        cpu.current_task is Some,
        cpu.current_task.unwrap().state is Running,
        forall|i: int|
            0 <= i < rq.ready_queue@.len() ==> (#[trigger] rq.ready_queue@[i]).state is Ready,
        forall|i: int|
            0 <= i < rq.ready_queue@.len() ==> !((#[trigger] rq.ready_queue@[i]).state is Exited),
        rq.idle_task matches Some(t) ==> t.state is Ready,
{
}

/// Selection safety and idle fallback: whatever the reschedule
/// transition selected — the queue head, the yielding task itself, or
/// through `exit_current` the idle task — the newly current task is in
/// state `Running` and is not `Exited`; and an empty queue never makes
/// selection fail, it resolves to the yielding task or the idle task.
pub proof fn lemma_selection_is_running(
    pre_rq: AxRunQueue,
    pre_cpu: Cpu,
    post_rq: AxRunQueue,
    post_cpu: Cpu,
    switch: Option<(u64, u64)>,
)
    requires
        sched_wf(pre_rq, pre_cpu),
        resched_spec(pre_rq, pre_cpu, post_rq, post_cpu, switch),
    ensures
        post_cpu.current_task is Some,
        post_cpu.current_task.unwrap().state is Running,
        !(post_cpu.current_task.unwrap().state is Exited),
{
}

/// A self-yield is a no-op switch: when the ready queue is empty, the
/// reschedule transition resolves the selection back to the task that
/// was already running, returns no context-switch directive, and leaves
/// the whole scheduling state as it was — the yielding task round-trips
/// `Running → Ready → Running` with only a pending-preemption marker
/// cleared, so when none was pending, nothing at all has changed.
pub proof fn lemma_self_yield_noop(
    pre_rq: AxRunQueue,
    pre_cpu: Cpu,
    post_rq: AxRunQueue,
    post_cpu: Cpu,
    switch: Option<(u64, u64)>,
)
    requires
        sched_wf(pre_rq, pre_cpu),
        resched_spec(pre_rq, pre_cpu, post_rq, post_cpu, switch),
        pre_rq.ready_queue@.len() == 0,
        !pre_cpu.current_task.unwrap().preempt_pending,
    ensures
        switch is None,
        post_cpu.current_task == pre_cpu.current_task,
        post_rq.ready_queue@ =~= pre_rq.ready_queue@,
        post_rq.idle_task == pre_rq.idle_task,
{
    let prev = pre_cpu.current_task.unwrap();
    assert(as_running(prev) == prev);
}

/// One yield, over task identities alone: with an empty queue nothing
/// moves; otherwise the head becomes current and the yielding identity
/// goes to the back of the line.
pub open spec fn yield_step_ids(cur: u64, q: Seq<u64>) -> (u64, Seq<u64>) {
    if q.len() == 0 {
        (cur, q)
    } else {
        (q[0], q.drop_first().push(cur))
    }
}

/// `k` yields in a row, over task identities alone.
pub open spec fn yields_after(cur: u64, q: Seq<u64>, k: nat) -> (u64, Seq<u64>)
    decreases k,
{
    if k == 0 {
        (cur, q)
    } else {
        let prior = yields_after(cur, q, (k - 1) as nat);
        yield_step_ids(prior.0, prior.1)
    }
}

/// FIFO fairness: starting from current task `cur` and ready queue
/// `q = [t1, .., tn]`, the task selected by the `k`-th of `n` successive
/// yields is exactly `tk` — repeated yielding drains the queue in
/// admission order, and when the queued identities are distinct from one
/// another and from `cur`, no task is revisited before the drain is
/// complete.  After the `k`-th yield the queue holds, in order, the
/// not-yet-selected `t(k+1), .., tn`, then `cur`, then the already
/// re-admitted `t1, .., t(k-1)`.
pub proof fn lemma_fifo_fairness(cur: u64, q: Seq<u64>, k: nat)
    requires
        1 <= k <= q.len(),
    ensures
        yields_after(cur, q, k).0 == q[k - 1],
        yields_after(cur, q, k).1 =~= q.skip(k as int) + seq![cur] + q.take(k - 1),
    decreases k,
{
    if k == 1 {
        assert(yields_after(cur, q, 0) == (cur, q));
        assert(yields_after(cur, q, 1) == yield_step_ids(cur, q));
        assert(yields_after(cur, q, 1).1 =~= q.skip(1) + seq![cur] + q.take(0));
    } else {
        lemma_fifo_fairness(cur, q, (k - 1) as nat);
        let prior = yields_after(cur, q, (k - 1) as nat);
        assert(yields_after(cur, q, k) == yield_step_ids(prior.0, prior.1));
        assert(prior.1 =~= q.skip(k - 1) + seq![cur] + q.take(k - 2));
        assert(prior.1.len() > 0);
        assert(prior.1[0] == q[k - 1]);
        assert(yields_after(cur, q, k).1 =~= q.skip(k as int) + seq![cur] + q.take(k - 1));
    }
}

} // verus!
