//! Per-hardware-thread state: the current-task slot and the
//! interrupt-enable flag, with a one-deep latch for an interrupt that
//! arrived while delivery was masked.
use vstd::prelude::*;

use crate::task::Task;

verus! {

/// One hardware thread's private state.
///
/// The current-task slot is mutated only by the owning hardware thread,
/// so it needs no lock; only ordering with respect to interrupts on the
/// same thread matters, which the interrupt-masking lock provides while
/// the scheduler holds it.
pub struct Cpu {
    /// The task presently executing on this hardware thread.  Owned by
    /// the slot itself once scheduling has been initialized; `None` only
    /// during early boot.
    pub current_task: Option<Task>,
    /// Whether interrupt delivery is enabled on this hardware thread.
    pub irq_enabled: bool,
    /// An interrupt that arrived while delivery was masked, held until
    /// the embedder re-delivers it.
    pub pending_irq: Option<u64>,
}

impl Cpu {
    /// A hardware thread as it boots: no current task, interrupts masked,
    /// nothing pending.
    pub fn new() -> (cpu: Cpu)
        ensures
            cpu.current_task is None,
            !cpu.irq_enabled,
            cpu.pending_irq is None,
    {
        Cpu { current_task: None, irq_enabled: false, pending_irq: None }
    }

    /// Enable or disable interrupt delivery on this hardware thread.
    pub fn set_irq_enabled(&mut self, enabled: bool)
        ensures
            *final(self) == (Cpu { irq_enabled: enabled, ..*old(self) }),
    {
        self.irq_enabled = enabled;
    }
}

} // verus!
