//! Cooperative task-scheduling core of a minimal kernel, modeled as an
//! explicit state machine so that every transition carries a proof.
//!
//! The crate covers the task entity and its state machine, the FIFO run
//! queue and its selection policy, the spinlock family (raw and
//! interrupt-masking), the current-task accessor protocol, trap
//! dispatch, and tick/time conversion.  Hardware work — reading the time
//! counter, the physical register/stack switch, SBI calls — belongs to
//! the embedder, which drives this library with plain values and acts on
//! the switch directives it returns.
use vstd::prelude::*;

pub mod cpu;
pub mod run_queue;
pub mod spinlock;
pub mod task;
pub mod time;
pub mod trap;

verus! {

use crate::cpu::Cpu;
use crate::run_queue::AxRunQueue;
use crate::run_queue::resched_spec;
use crate::run_queue::sched_wf;
use crate::spinlock::SpinNoIrq;
use crate::spinlock::SpinNoIrqGuard;

/// Voluntarily give up the remainder of the current task's turn.
///
/// Acquires the run queue's interrupt-masking lock, reschedules, and
/// releases the lock — restoring the interrupt-enable state — before
/// returning.  The returned directive, if any, names the outgoing and
/// incoming task; the embedder performs the physical register/stack
/// switch *after* this function returns, when the lock is already free,
/// so the guard is never released on a stack that is no longer live.
pub fn yield_now(rq: &mut SpinNoIrq<AxRunQueue>, cpu: &mut Cpu) -> (switch: Option<(u64, u64)>)
    requires
        old(rq).wf(),
        !old(rq).locked,
        sched_wf(old(rq).data.unwrap(), *old(cpu)),
    ensures
        final(rq).wf(),
        !final(rq).locked,
        final(rq).data is Some,
        sched_wf(final(rq).data.unwrap(), *final(cpu)),
        final(cpu).irq_enabled == old(cpu).irq_enabled,
        final(cpu).pending_irq == old(cpu).pending_irq,
        resched_spec(
            old(rq).data.unwrap(),
            *old(cpu),
            final(rq).data.unwrap(),
            *final(cpu),
            switch,
        ),
{
    let guard = rq.lock(cpu);
    let SpinNoIrqGuard { data: mut queue, saved_irq } = guard;
    let switch = queue.yield_current(cpu);
    rq.unlock(cpu, SpinNoIrqGuard { data: queue, saved_irq });
    switch
}

} // verus!
