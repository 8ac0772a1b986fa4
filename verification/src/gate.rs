//! The boot gate: the single process-wide readiness flag shared by all cores.
//!
//! It is a single-writer / multi-reader publication primitive: the primary
//! core sets it to "ready" exactly once, after every piece of globally
//! visible kernel state the secondary cores depend on has been established;
//! every secondary core busy-polls it and proceeds only once it reads
//! "ready".  The flag is never reset.
//!
//! On real hardware the flag must carry publication ordering: the store of
//! "ready" ordered after every write the primary made during initialization
//! (a release store), each observing load ordered before the reader's later
//! reads (an acquire load).  A relaxed atomic pair guarantees only the
//! flag's own atomicity, not that an observer of "ready" also observes the
//! primary's earlier writes.  This model makes the published ordering a
//! proved protocol property (see the machine invariant and the laws); an
//! entry layer that runs on weakly ordered cores owes the release/acquire
//! pair.

use vstd::prelude::*;

verus! {

/// The readiness flag itself.  It starts "not ready", flips to "ready" at
/// most once (only through [`BootGate::signal_ready`]), and never reverses.
pub struct BootGate {
    ready: bool,
}

impl BootGate {
    /// Whether the boot gate currently reads "ready".
    pub closed spec fn is_ready(&self) -> bool {
        self.ready
    }

    /// The load-time state of the boot gate: "not ready", before any core other
    /// than the primary begins meaningful work.
    pub fn new() -> (g: BootGate)
        ensures
            !g.is_ready(),
    {
        BootGate { ready: false }
    }

    /// Open the boot gate.  Called by the primary core only, exactly once per
    /// boot — the precondition rules out a second call — after all global
    /// subsystem initialization the secondaries will read has completed.
    pub fn signal_ready(&mut self)
        requires
            !old(self).is_ready(),
        ensures
            final(self).is_ready(),
    {
        self.ready = true;
    }

    /// One iteration of a secondary core's spin-wait: read the flag once.
    pub fn poll(&self) -> (r: bool)
        ensures
            r == self.is_ready(),
    {
        self.ready
    }

    /// The secondary cores' wait: spin on the flag until it reads "ready",
    /// then return.  The spin has no upper bound and no timeout — if the
    /// primary never signals, the machine has already failed fatally and a
    /// waiting core has nothing else to do.  Within a single thread of
    /// execution the flag cannot change while this call spins, so the call
    /// terminates exactly when the boot gate is already open; callers that model
    /// the unbounded wait poll the boot gate step by step instead.
    pub fn await_ready(&self)
        requires
            self.is_ready(),
    {
        while !self.poll()
            invariant
                self.is_ready(),
            decreases 0int,
        {
        }
    }
}

} // verus!
