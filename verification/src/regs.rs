//! Register primitives: direct access to the current core's stack-pointer
//! register.
//!
//! The stack pointer is per-core hardware state owned by no kernel data
//! structure.  Here that state is modelled as a plain value, [`CoreRegs`],
//! so that the read and the overwrite can carry exact contracts; the
//! unverified entry code owns the one `CoreRegs` value that mirrors the
//! hardware register of the core it runs on.  Overwriting the stack pointer
//! is inherently dangerous: the new value must reference a valid, writable,
//! live stack for the current core — a precondition no software check can
//! establish, so it is the calling layer's stated responsibility, not a
//! clause here.

use vstd::prelude::*;

verus! {

/// The modelled per-core register state read and written by the primitives.
pub struct CoreRegs {
    /// The current value of the core's stack-pointer register.
    pub sp: usize,
}

/// What [`get_sp`] returns: the stack pointer held in the register state.
pub open spec fn get_sp_spec(regs: CoreRegs) -> usize {
    regs.sp
}

/// What the register state is after [`set_sp`] stores `sp` into it.
pub open spec fn set_sp_spec(regs: CoreRegs, sp: usize) -> CoreRegs {
    CoreRegs { sp }
}

/// Read the current core's stack-pointer register.  No side effects, no
/// failure mode.
pub fn get_sp(regs: &CoreRegs) -> (sp: usize)
    ensures
        sp == get_sp_spec(*regs),
{
    regs.sp
}

/// Overwrite the current core's stack-pointer register with `sp`.  The
/// caller must already have established that `sp` references a valid stack
/// for this core; violating that corrupts the running context with no
/// detectable error.
pub fn set_sp(regs: &mut CoreRegs, sp: usize)
    ensures
        *final(regs) == set_sp_spec(*old(regs), sp),
{
    regs.sp = sp;
}

/// The register primitives round-trip: writing a stack pointer and
/// immediately reading it back yields the written value, for every register
/// state and every value.
pub proof fn lemma_sp_round_trip(regs: CoreRegs, sp: usize)
    ensures
        get_sp_spec(set_sp_spec(regs, sp)) == sp,
{
}

} // verus!
