//! The spinlock family: a raw mutual-exclusion primitive and an
//! interrupt-masking variant.
//!
//! A lock is modeled as a flag plus its payload; acquiring moves the
//! payload into the guard and releasing moves it back.  Because the
//! payload is an affine value, at most one guard for a lock is ever
//! live — mutual exclusion is structural, and the `wf` predicate records
//! it: the payload is absent exactly while the lock is held.
//!
//! No lock is re-entrant: a hardware thread acquiring a lock it already
//! holds spins forever, by design, so `lock` excludes that state by
//! precondition, and `try_lock` returns nothing for it, which is how a
//! spinning hardware thread looks from one probe's point of view.
use vstd::prelude::*;

use crate::cpu::Cpu;

verus! {

/// A raw spinlock around a payload, with no interrupt masking.
pub struct SpinRaw<T> {
    /// The shared flag a contending hardware thread spins on.
    pub locked: bool,
    /// The payload; absent exactly while a guard holds it.
    pub data: Option<T>,
}

/// Scoped exclusive access to a raw spinlock's payload.
pub struct SpinRawGuard<T> {
    pub data: T,
}

impl<T> SpinRaw<T> {
    /// The payload is out with a guard if and only if the flag is held.
    pub open spec fn wf(self) -> bool {
        self.locked <==> self.data is None
    }

    /// Construct the primitive around a payload, unlocked.
    pub fn new(data: T) -> (s: Self)
        ensures
            !s.locked,
            s.data == Some(data),
            s.wf(),
    {
        SpinRaw { locked: false, data: Some(data) }
    }

    /// Claim the flag and take the payload.  On contended hardware this
    /// spins until the flag is observed unlocked; a hardware thread
    /// re-acquiring a lock it already holds deadlocks by design, so a
    /// held lock is excluded by precondition.
    pub fn lock(&mut self) -> (guard: SpinRawGuard<T>)
        requires
            !old(self).locked,
            old(self).wf(),
        ensures
            final(self).locked,
            final(self).wf(),
            guard.data == old(self).data.unwrap(),
    {
        self.locked = true;
        let data = self.data.take();
        SpinRawGuard { data: data.unwrap() }
    }

    /// One atomic attempt to claim the flag: what a spinning hardware
    /// thread does repeatedly.  Fails exactly while the lock is held
    /// elsewhere, so an acquire can succeed only after the release that
    /// freed the flag.
    pub fn try_lock(&mut self) -> (r: Option<SpinRawGuard<T>>)
        requires
            old(self).wf(),
        ensures
            final(self).wf(),
            old(self).locked ==> r is None && *final(self) == *old(self),
            !old(self).locked ==> r is Some && r.unwrap().data == old(self).data.unwrap()
                && final(self).locked,
    {
        if self.locked {
            None
        } else {
            Some(self.lock())
        }
    }

    /// Release the flag, returning the payload.  This is the guard going
    /// out of scope, on whichever exit path drops it.
    pub fn unlock(&mut self, guard: SpinRawGuard<T>)
        requires
            old(self).locked,
            old(self).wf(),
        ensures
            !final(self).locked,
            final(self).wf(),
            final(self).data == Some(guard.data),
    {
        self.data = Some(guard.data);
        self.locked = false;
    }
}

/// Mutual exclusion for the raw spinlock: while the lock is held, the
/// payload is out with the unique guard that took it, and `try_lock`
/// yields nothing, so no second guard can come to exist before the
/// release that puts the payload back.
pub proof fn lemma_spinraw_mutual_exclusion<T>(s: SpinRaw<T>)
    requires
        s.wf(),
    ensures
        s.locked <==> s.data is None,
{
}

/// Mutual exclusion for the interrupt-masking spinlock, as for the raw
/// one: a held lock has its payload out with the unique guard, and every
/// further acquisition attempt comes back empty until the release that
/// returns it.
pub proof fn lemma_spinnoirq_mutual_exclusion<T>(s: SpinNoIrq<T>)
    requires
        s.wf(),
    ensures
        s.locked <==> s.data is None,
{
}

/// The interrupt-masking spinlock: in addition to the flag, acquisition
/// saves and disables the acquiring hardware thread's interrupt-enable
/// state, and release restores it.  This makes the critical section
/// atomic with respect to interrupts on the same hardware thread; other
/// hardware threads still spin on the flag.
pub struct SpinNoIrq<T> {
    /// The shared flag a contending hardware thread spins on.
    pub locked: bool,
    /// The payload; absent exactly while a guard holds it.
    pub data: Option<T>,
}

/// Scoped exclusive access to an interrupt-masking spinlock's payload,
/// carrying the interrupt-enable state to restore on release.
pub struct SpinNoIrqGuard<T> {
    pub data: T,
    pub saved_irq: bool,
}

impl<T> SpinNoIrq<T> {
    /// The payload is out with a guard if and only if the flag is held.
    pub open spec fn wf(self) -> bool {
        self.locked <==> self.data is None
    }

    /// Construct the primitive around a payload, unlocked.
    pub fn new(data: T) -> (s: Self)
        ensures
            !s.locked,
            s.data == Some(data),
            s.wf(),
    {
        SpinNoIrq { locked: false, data: Some(data) }
    }

    /// Claim the flag, disabling interrupt delivery on the acquiring
    /// hardware thread first and remembering its prior state in the
    /// guard.  Re-acquiring a held lock deadlocks by design, so that
    /// state is excluded by precondition.
    pub fn lock(&mut self, cpu: &mut Cpu) -> (guard: SpinNoIrqGuard<T>)
        requires
            !old(self).locked,
            old(self).wf(),
        ensures
            final(self).locked,
            final(self).wf(),
            guard.data == old(self).data.unwrap(),
            guard.saved_irq == old(cpu).irq_enabled,
            *final(cpu) == (Cpu { irq_enabled: false, ..*old(cpu) }),
    {
        let saved_irq = cpu.irq_enabled;
        cpu.set_irq_enabled(false);
        self.locked = true;
        let data = self.data.take();
        SpinNoIrqGuard { data: data.unwrap(), saved_irq }
    }

    /// One atomic attempt from the given hardware thread: fails exactly
    /// while the lock is held elsewhere, leaving that thread's interrupt
    /// state untouched.
    pub fn try_lock(&mut self, cpu: &mut Cpu) -> (r: Option<SpinNoIrqGuard<T>>)
        requires
            old(self).wf(),
        ensures
            final(self).wf(),
            old(self).locked ==> r is None && *final(self) == *old(self) && *final(cpu) == *old(
                cpu,
            ),
            !old(self).locked ==> r is Some && r.unwrap().data == old(self).data.unwrap()
                && r.unwrap().saved_irq == old(cpu).irq_enabled && final(self).locked && *final(cpu)
                == (Cpu { irq_enabled: false, ..*old(cpu) }),
    {
        if self.locked {
            None
        } else {
            Some(self.lock(cpu))
        }
    }

    /// Release the flag and restore the interrupt-enable state the guard
    /// saved.  The scheduler must not hold this lock across a physical
    /// context switch; its callers release before the switch is acted on.
    pub fn unlock(&mut self, cpu: &mut Cpu, guard: SpinNoIrqGuard<T>)
        requires
            old(self).locked,
            old(self).wf(),
        ensures
            !final(self).locked,
            final(self).wf(),
            final(self).data == Some(guard.data),
            *final(cpu) == (Cpu { irq_enabled: guard.saved_irq, ..*old(cpu) }),
    {
        self.data = Some(guard.data);
        self.locked = false;
        cpu.set_irq_enabled(guard.saved_irq);
    }
}

} // verus!
