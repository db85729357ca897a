//! Trap dispatch: decode the trap cause into exactly one of a breakpoint
//! exception, an interrupt routed to the registered handler, or an
//! unrecognized cause that the embedder treats as fatal.
use vstd::prelude::*;

use crate::cpu::Cpu;

verus! {

/// The high bit of the trap-cause register, set for an asynchronous
/// interrupt and clear for a synchronous exception.
pub const INTERRUPT_FLAG: u64 = 0x8000_0000_0000_0000;

/// Exception code of a synchronous breakpoint trap.
pub const EXCEPTION_BREAKPOINT: u64 = 3;

/// Encoded width of the breakpoint instruction, the amount the saved
/// program counter advances to resume past it.
pub const BREAKPOINT_INSN_LEN: u64 = 2;

/// The saved state a trap entry hands the dispatcher; only the saved
/// program counter matters to it, the register file is restored
/// untouched.
#[derive(Clone, Copy, Debug, PartialEq, Eq, Structural)]
pub struct TrapFrame {
    pub sepc: u64,
}

/// What decoding and handling a trap came to.
#[derive(Clone, Copy, Debug, PartialEq, Eq, Structural)]
pub enum TrapOutcome {
    /// A breakpoint exception, handled locally and completely.
    Breakpoint,
    /// An asynchronous interrupt: the raw cause bits were forwarded to
    /// the registered handler.
    Irq(u64),
    /// An unrecognized cause.  The kernel cannot safely continue; the
    /// embedder reports the cause and the saved state, then halts.
    Unhandled(u64),
}

/// Whether the trap-cause bits name an asynchronous interrupt.
pub open spec fn scause_is_interrupt(scause: u64) -> bool {
    scause & INTERRUPT_FLAG != 0
}

/// Whether an interrupt arriving at this hardware thread would be
/// delivered — reach the dispatcher and through it the registered
/// handler — rather than be latched as pending.
pub open spec fn irq_deliverable(cpu: Cpu) -> bool {
    cpu.irq_enabled
}

/// Interrupt-masking correctness: on a hardware thread whose
/// interrupt-enable state an interrupt-masking lock guard has saved and
/// cleared — which is every hardware thread between its `SpinNoIrq::lock`
/// and the matching `unlock` — no interrupt is deliverable, so the
/// registered handler cannot run there until the guard is released and
/// the saved state restored.  The state of every other hardware thread
/// is not consulted and not touched.
pub proof fn lemma_masked_irq_not_deliverable(cpu: Cpu)
    requires
        !cpu.irq_enabled,
    ensures
        !irq_deliverable(cpu),
{
}

/// Handler interface for interrupt requests.  Exactly one implementation
/// is registered for the kernel's lifetime, by the platform's timer or
/// device code; the dispatcher forwards every interrupt to it and makes
/// no scheduling decision of its own.
pub trait TrapHandler {
    /// Handle the interrupt request named by the raw cause bits.
    fn handle_irq(irq_num: u64);
}

/// Forward an interrupt to the registered handler.
pub fn handle_irq_extern<H: TrapHandler>(irq_num: u64) {
    H::handle_irq(irq_num);
}

/// Advance the saved program counter past the breakpoint instruction, so
/// that resuming continues after it.
pub fn handle_breakpoint(sepc: &mut u64)
    requires
        *old(sepc) + BREAKPOINT_INSN_LEN <= u64::MAX,
    ensures
        *final(sepc) == *old(sepc) + BREAKPOINT_INSN_LEN,
{
    *sepc = *sepc + BREAKPOINT_INSN_LEN;
}

/// Decode the trap cause and handle it: a breakpoint advances the saved
/// program counter by exactly the instruction's width and touches
/// nothing else; an interrupt forwards the raw cause bits to the
/// registered handler, leaving the frame alone; any other cause is
/// returned as unrecognized, untouched, for the embedder to report and
/// halt on.
pub fn riscv_trap_handler<H: TrapHandler>(tf: &mut TrapFrame, scause: u64) -> (r: TrapOutcome)
    requires
        !scause_is_interrupt(scause) && scause == EXCEPTION_BREAKPOINT ==> old(tf).sepc
            + BREAKPOINT_INSN_LEN <= u64::MAX,
    ensures
        scause_is_interrupt(scause) ==> r == TrapOutcome::Irq(scause) && *final(tf) == *old(tf),
        !scause_is_interrupt(scause) && scause == EXCEPTION_BREAKPOINT ==> r
            == TrapOutcome::Breakpoint && final(tf).sepc == old(tf).sepc + BREAKPOINT_INSN_LEN,
        !scause_is_interrupt(scause) && scause != EXCEPTION_BREAKPOINT ==> r
            == TrapOutcome::Unhandled(scause) && *final(tf) == *old(tf),
{
    if scause & INTERRUPT_FLAG != 0 {
        handle_irq_extern::<H>(scause);
        TrapOutcome::Irq(scause)
    } else if scause == EXCEPTION_BREAKPOINT {
        handle_breakpoint(&mut tf.sepc);
        TrapOutcome::Breakpoint
    } else {
        TrapOutcome::Unhandled(scause)
    }
}

/// Simulated arrival of an interrupt at a hardware thread: delivery
/// reaches the dispatcher — and through it the registered handler — only
/// while the thread has interrupt delivery enabled.  While delivery is
/// masked, as it is for the whole lifetime of an interrupt-masking lock
/// guard on this thread, the interrupt is latched as pending instead and
/// the handler does not run.  Other hardware threads are untouched
/// either way.
pub fn deliver_irq<H: TrapHandler>(cpu: &mut Cpu, tf: &mut TrapFrame, scause: u64) -> (delivered:
    bool)
    requires
        scause_is_interrupt(scause),
    ensures
        delivered == irq_deliverable(*old(cpu)),
        delivered ==> *final(cpu) == *old(cpu) && *final(tf) == *old(tf),
        !delivered ==> *final(cpu) == (Cpu { pending_irq: Some(scause), ..*old(cpu) })
            && *final(tf) == *old(tf),
{
    if cpu.irq_enabled {
        let _ = riscv_trap_handler::<H>(tf, scause);
        true
    } else {
        cpu.pending_irq = Some(scause);
        false
    }
}

/// Take the interrupt, if any, that arrived while delivery was masked;
/// the embedder re-delivers it once interrupts are enabled again.
pub fn take_pending_irq(cpu: &mut Cpu) -> (r: Option<u64>)
    ensures
        r == old(cpu).pending_irq,
        *final(cpu) == (Cpu { pending_irq: None, ..*old(cpu) }),
{
    cpu.pending_irq.take()
}

} // verus!
