//! The bring-up machine: the ordering decisions of the primary and
//! secondary boot paths.
//!
//! Each call of a step function advances one core by one stage of its path
//! and hands back the [`Action`] the entry code must perform for that stage
//! — the hardware side effect itself (starting the other cores, installing
//! the trap runtime, initializing memory, printing) happens outside this
//! crate.  The contracts pin the order: the primary runs its eleven steps in
//! the one dependency-respecting sequence, the boot gate opens only after every
//! global subsystem step has completed, and no secondary core moves past the
//! gate — in particular, activates its view of memory — before the boot gate
//! reads "ready".

use vstd::prelude::*;

use crate::gate::BootGate;

verus! {

/// The outside work one boot step asks the entry code to perform.
#[derive(Clone, Copy, Debug, PartialEq, Eq, Structural)]
pub enum Action {
    /// Trigger the firmware mechanism that starts the secondary cores.
    StartOthers,
    /// Initialize the logging sink.
    InitLogging,
    /// Install the trap/interrupt runtime on the current core.
    InitTrap,
    /// Initialize the global memory subsystem (primary only).
    InitMemory,
    /// Board bring-up: early console, then the identity line.
    InitBoard,
    /// Initialize the loadable-module registry.
    InitModules,
    /// Initialize device drivers.
    InitDrivers,
    /// Emit the static startup banner.
    EmitBanner,
    /// Initialize the process/scheduling subsystem.
    InitProcess,
    /// Open the boot gate for the secondary cores.
    OpenGate,
    /// Transfer control to the shared kernel main loop (never returns).
    EnterKmain,
    /// Emit the identity line on a secondary core.
    EmitIdentity,
    /// Activate the current core's view of the memory mappings (secondary).
    ActivateMemory,
}

/// How far the primary core has come: the stage after completing the first
/// `k` steps of its pipeline, for `k` = 0 ..= 11.
#[derive(Clone, Copy, Debug, PartialEq, Eq, Structural)]
pub enum PrimaryStage {
    /// Nothing done yet.
    Reset,
    /// Step 1 done: secondary cores started (held at the boot gate).
    OthersStarted,
    /// Step 2 done: logging sink ready.
    LoggingReady,
    /// Step 3 done: trap runtime installed on the primary.
    TrapReady,
    /// Step 4 done: global memory subsystem initialized.
    MemoryReady,
    /// Step 5 done: early console up, identity line emitted.
    BoardReady,
    /// Step 6 done: module registry initialized.
    ModulesReady,
    /// Step 7 done: device drivers initialized.
    DriversReady,
    /// Step 8 done: startup banner emitted.
    BannerShown,
    /// Step 9 done: process subsystem initialized.
    ProcessReady,
    /// Step 10 done: boot gate opened.
    GateOpen,
    /// Step 11 done: control handed to the kernel main loop.
    Running,
}

/// How far a secondary core has come along its five-step path.
#[derive(Clone, Copy, Debug, PartialEq, Eq, Structural)]
pub enum SecondaryStage {
    /// Nothing done yet.
    Reset,
    /// Identity line emitted; now spinning on the boot gate.
    Greeted,
    /// Observed the boot gate "ready" and moved past it.
    Passed,
    /// Trap runtime installed on this core.
    TrapReady,
    /// This core's view of the memory mappings activated.
    MemoryActive,
    /// Control handed to the kernel main loop.
    Running,
}

/// The number of completed pipeline steps a primary stage stands for.
pub open spec fn pidx(s: PrimaryStage) -> int {
    match s {
        PrimaryStage::Reset => 0,
        PrimaryStage::OthersStarted => 1,
        PrimaryStage::LoggingReady => 2,
        PrimaryStage::TrapReady => 3,
        PrimaryStage::MemoryReady => 4,
        PrimaryStage::BoardReady => 5,
        PrimaryStage::ModulesReady => 6,
        PrimaryStage::DriversReady => 7,
        PrimaryStage::BannerShown => 8,
        PrimaryStage::ProcessReady => 9,
        PrimaryStage::GateOpen => 10,
        PrimaryStage::Running => 11,
    }
}

/// The primary stage after `k` completed steps: the inverse of [`pidx`].
pub open spec fn primary_stage_at(k: int) -> PrimaryStage {
    if k <= 0 {
        PrimaryStage::Reset
    } else if k == 1 {
        PrimaryStage::OthersStarted
    } else if k == 2 {
        PrimaryStage::LoggingReady
    } else if k == 3 {
        PrimaryStage::TrapReady
    } else if k == 4 {
        PrimaryStage::MemoryReady
    } else if k == 5 {
        PrimaryStage::BoardReady
    } else if k == 6 {
        PrimaryStage::ModulesReady
    } else if k == 7 {
        PrimaryStage::DriversReady
    } else if k == 8 {
        PrimaryStage::BannerShown
    } else if k == 9 {
        PrimaryStage::ProcessReady
    } else if k == 10 {
        PrimaryStage::GateOpen
    } else {
        PrimaryStage::Running
    }
}

/// The number of completed path steps a secondary stage stands for.
pub open spec fn sidx(s: SecondaryStage) -> int {
    match s {
        SecondaryStage::Reset => 0,
        SecondaryStage::Greeted => 1,
        SecondaryStage::Passed => 2,
        SecondaryStage::TrapReady => 3,
        SecondaryStage::MemoryActive => 4,
        SecondaryStage::Running => 5,
    }
}

/// The primary pipeline in its one admissible order: the action performed by
/// step `k + 1` is `primary_schedule()[k]`.
pub open spec fn primary_schedule() -> Seq<Action> {
    seq![
        Action::StartOthers,
        Action::InitLogging,
        Action::InitTrap,
        Action::InitMemory,
        Action::InitBoard,
        Action::InitModules,
        Action::InitDrivers,
        Action::EmitBanner,
        Action::InitProcess,
        Action::OpenGate,
        Action::EnterKmain,
    ]
}

/// The secondary path's actions in order, the spin on the boot gate excluded.
pub open spec fn secondary_schedule() -> Seq<Action> {
    seq![Action::EmitIdentity, Action::InitTrap, Action::ActivateMemory, Action::EnterKmain]
}

/// One whole machine: the shared boot gate, the primary core, and every
/// secondary core.
pub struct System {
    /// The one process-wide readiness flag.
    pub gate: BootGate,
    /// The primary core's progress.
    pub primary: PrimaryStage,
    /// Each secondary core's progress.
    pub secondaries: Vec<SecondaryStage>,
}

/// The load-time state: boot gate closed, every core at reset.
pub open spec fn at_reset(s: System) -> bool {
    &&& !s.gate.is_ready()
    &&& s.primary is Reset
    &&& forall|i: int| 0 <= i < s.secondaries@.len() ==> s.secondaries@[i] is Reset
}

/// The machine invariant.  The boot gate reads "ready" exactly when the primary
/// has completed every global initialization step (steps 1–10 of its
/// pipeline), and no secondary core has moved past the boot gate unless the boot gate
/// reads "ready".
pub open spec fn inv(s: System) -> bool {
    &&& (s.gate.is_ready() <==> pidx(s.primary) >= 10)
    &&& forall|i: int|
        0 <= i < s.secondaries@.len() ==> (sidx(#[trigger] s.secondaries@[i]) >= 2
            ==> s.gate.is_ready())
}

/// One step of the primary pipeline, as a relation between machine states.
pub open spec fn primary_step_rel(pre: System, post: System) -> bool {
    &&& pidx(pre.primary) < 11
    &&& post.primary == primary_stage_at(pidx(pre.primary) + 1)
    &&& post.secondaries@ == pre.secondaries@
    &&& post.gate.is_ready() == (pre.gate.is_ready() || pre.primary is ProcessReady)
}

/// One step of secondary core `i`, as a relation between machine states.  A
/// core at [`SecondaryStage::Greeted`] whose poll reads "not ready" stays
/// where it is: that is one spin of its wait loop.
pub open spec fn secondary_step_rel(pre: System, post: System, i: int) -> bool {
    &&& 0 <= i < pre.secondaries@.len()
    &&& post.gate.is_ready() == pre.gate.is_ready()
    &&& post.primary == pre.primary
    &&& match pre.secondaries@[i] {
        SecondaryStage::Reset => post.secondaries@ == pre.secondaries@.update(
            i,
            SecondaryStage::Greeted,
        ),
        SecondaryStage::Greeted => if pre.gate.is_ready() {
            post.secondaries@ == pre.secondaries@.update(i, SecondaryStage::Passed)
        } else {
            post.secondaries@ == pre.secondaries@
        },
        SecondaryStage::Passed => post.secondaries@ == pre.secondaries@.update(
            i,
            SecondaryStage::TrapReady,
        ),
        SecondaryStage::TrapReady => post.secondaries@ == pre.secondaries@.update(
            i,
            SecondaryStage::MemoryActive,
        ),
        SecondaryStage::MemoryActive => post.secondaries@ == pre.secondaries@.update(
            i,
            SecondaryStage::Running,
        ),
        SecondaryStage::Running => false,
    }
}

/// One step of the whole machine: some core takes one step.
pub open spec fn sys_step_rel(pre: System, post: System) -> bool {
    ||| primary_step_rel(pre, post)
    ||| exists|i: int| secondary_step_rel(pre, post, i)
}

impl System {
    /// A machine at load time, with `secondary_count` secondary cores.
    pub fn new(secondary_count: usize) -> (s: System)
        ensures
            at_reset(s),
            inv(s),
            s.secondaries@.len() == secondary_count,
    {
        let gate = BootGate::new();
        let mut secondaries: Vec<SecondaryStage> = Vec::new();
        let mut i: usize = 0;
        while i < secondary_count
            invariant
                i <= secondary_count,
                secondaries@.len() == i,
                forall|j: int| 0 <= j < i ==> secondaries@[j] is Reset,
                !gate.is_ready(),
            decreases secondary_count - i,
        {
            secondaries.push(SecondaryStage::Reset);
            i = i + 1;
        }
        System { gate, primary: PrimaryStage::Reset, secondaries }
    }

    /// Run the next step of the primary pipeline: advance the primary by one
    /// stage and return the action the entry code must now perform.  The
    /// boot gate opens exactly at the step that leaves [`PrimaryStage::ProcessReady`],
    /// after steps 2–9 have all completed.
    pub fn primary_step(&mut self) -> (a: Action)
        requires
            pidx(old(self).primary) < 11,
            inv(*old(self)),
        ensures
            primary_step_rel(*old(self), *final(self)),
            inv(*final(self)),
            a == primary_schedule()[pidx(old(self).primary)],
    {
        match self.primary {
            PrimaryStage::Reset => {
                self.primary = PrimaryStage::OthersStarted;
                Action::StartOthers
            },
            PrimaryStage::OthersStarted => {
                self.primary = PrimaryStage::LoggingReady;
                Action::InitLogging
            },
            PrimaryStage::LoggingReady => {
                self.primary = PrimaryStage::TrapReady;
                Action::InitTrap
            },
            PrimaryStage::TrapReady => {
                self.primary = PrimaryStage::MemoryReady;
                Action::InitMemory
            },
            PrimaryStage::MemoryReady => {
                self.primary = PrimaryStage::BoardReady;
                Action::InitBoard
            },
            PrimaryStage::BoardReady => {
                self.primary = PrimaryStage::ModulesReady;
                Action::InitModules
            },
            PrimaryStage::ModulesReady => {
                self.primary = PrimaryStage::DriversReady;
                Action::InitDrivers
            },
            PrimaryStage::DriversReady => {
                self.primary = PrimaryStage::BannerShown;
                Action::EmitBanner
            },
            PrimaryStage::BannerShown => {
                self.primary = PrimaryStage::ProcessReady;
                Action::InitProcess
            },
            PrimaryStage::ProcessReady => {
                self.gate.signal_ready();
                self.primary = PrimaryStage::GateOpen;
                Action::OpenGate
            },
            PrimaryStage::GateOpen => {
                self.primary = PrimaryStage::Running;
                Action::EnterKmain
            },
            PrimaryStage::Running => {
                proof {
                    assert(false);
                }
                Action::EnterKmain
            },
        }
    }

    /// Run one step of secondary core `i`.  At [`SecondaryStage::Greeted`]
    /// the step is one poll of the boot gate: the core moves past it only if the
    /// poll read "ready", and the returned action is `None` (the spin does
    /// no outside work); every other step returns the action of its stage.
    pub fn secondary_step(&mut self, i: usize) -> (a: Option<Action>)
        requires
            i < old(self).secondaries@.len(),
            !(old(self).secondaries@[i as int] is Running),
            inv(*old(self)),
        ensures
            secondary_step_rel(*old(self), *final(self), i as int),
            inv(*final(self)),
            a == (match old(self).secondaries@[i as int] {
                SecondaryStage::Reset => Some(Action::EmitIdentity),
                SecondaryStage::Greeted => None::<Action>,
                SecondaryStage::Passed => Some(Action::InitTrap),
                SecondaryStage::TrapReady => Some(Action::ActivateMemory),
                SecondaryStage::MemoryActive => Some(Action::EnterKmain),
                SecondaryStage::Running => None::<Action>,
            }),
    {
        let stage = self.secondaries[i];
        match stage {
            SecondaryStage::Reset => {
                self.secondaries[i] = SecondaryStage::Greeted;
                Some(Action::EmitIdentity)
            },
            SecondaryStage::Greeted => {
                if self.gate.poll() {
                    self.secondaries[i] = SecondaryStage::Passed;
                }
                None
            },
            SecondaryStage::Passed => {
                self.secondaries[i] = SecondaryStage::TrapReady;
                Some(Action::InitTrap)
            },
            SecondaryStage::TrapReady => {
                self.secondaries[i] = SecondaryStage::MemoryActive;
                Some(Action::ActivateMemory)
            },
            SecondaryStage::MemoryActive => {
                self.secondaries[i] = SecondaryStage::Running;
                Some(Action::EnterKmain)
            },
            SecondaryStage::Running => {
                proof {
                    assert(false);
                }
                None
            },
        }
    }

    /// The primary core's whole path: run all eleven pipeline steps in
    /// order, opening the boot gate after steps 2–9 and ending in the kernel main
    /// loop.  Returns the actions performed, which are exactly the schedule.
    pub fn master_main(&mut self) -> (log: Vec<Action>)
        requires
            old(self).primary is Reset,
            inv(*old(self)),
        ensures
            inv(*final(self)),
            final(self).primary is Running,
            final(self).gate.is_ready(),
            final(self).secondaries@ == old(self).secondaries@,
            log@ == primary_schedule(),
    {
        let mut log: Vec<Action> = Vec::new();
        let a = self.primary_step();
        log.push(a);
        let a = self.primary_step();
        log.push(a);
        let a = self.primary_step();
        log.push(a);
        let a = self.primary_step();
        log.push(a);
        let a = self.primary_step();
        log.push(a);
        let a = self.primary_step();
        log.push(a);
        let a = self.primary_step();
        log.push(a);
        let a = self.primary_step();
        log.push(a);
        let a = self.primary_step();
        log.push(a);
        let a = self.primary_step();
        log.push(a);
        let a = self.primary_step();
        log.push(a);
        proof {
            assert(log@ =~= primary_schedule());
        }
        log
    }

    /// A secondary core's whole path, enabled once the boot gate is open: emit
    /// the identity line, come back from the wait on the boot gate, install the
    /// trap runtime, activate this core's memory view, and end in the kernel
    /// main loop.  Returns the actions performed, which are exactly the
    /// secondary schedule.  (While the boot gate is still closed the path cannot
    /// complete; its spin is modelled step by step by [`System::secondary_step`].)
    pub fn others_main(&mut self, i: usize) -> (log: Vec<Action>)
        requires
            i < old(self).secondaries@.len(),
            old(self).secondaries@[i as int] is Reset,
            old(self).gate.is_ready(),
            inv(*old(self)),
        ensures
            inv(*final(self)),
            final(self).secondaries@ == old(self).secondaries@.update(i as int, SecondaryStage::Running),
            final(self).primary == old(self).primary,
            final(self).gate.is_ready(),
            log@ == secondary_schedule(),
    {
        let mut log: Vec<Action> = Vec::new();
        let a = self.secondary_step(i);
        if let Some(a) = a {
            log.push(a);
        }
        self.gate.await_ready();
        // The poll that comes back from the wait: it moves this core past
        // the boot gate and performs no outside work.
        let _passed = self.secondary_step(i);
        let a = self.secondary_step(i);
        if let Some(a) = a {
            log.push(a);
        }
        let a = self.secondary_step(i);
        if let Some(a) = a {
            log.push(a);
        }
        let a = self.secondary_step(i);
        if let Some(a) = a {
            log.push(a);
        }
        proof {
            assert(log@ =~= secondary_schedule());
            assert(self.secondaries@ =~= old(self).secondaries@.update(
                i as int,
                SecondaryStage::Running,
            ));
        }
        log
    }
}

} // verus!
