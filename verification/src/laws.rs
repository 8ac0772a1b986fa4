//! The cross-core ordering laws of the bring-up machine, proved over whole
//! runs.
//!
//! A run is a trace: a sequence of machine states that starts at load time
//! and in which each state follows from the one before it by a single step
//! of some core ([`sys_step_rel`]).  The laws here say what every such run
//! obeys: the boot gate opens at most once and never reverses, it opens only
//! by the primary's hand and only after the whole global pipeline has run,
//! no secondary core touches its per-core memory activation before the
//! primary's global memory initialization is complete, and a core that has
//! reached the kernel main loop never leaves it.

use vstd::prelude::*;

use crate::machine::{
    at_reset, inv, pidx, primary_step_rel, secondary_step_rel, sidx, sys_step_rel, System,
};

verus! {

/// A run of the machine: non-empty, starting at load time, each state
/// following from its predecessor by one step of some core.
pub open spec fn valid_trace(tr: Seq<System>) -> bool {
    &&& tr.len() > 0
    &&& at_reset(tr[0])
    &&& forall|k: int| 0 <= k < tr.len() - 1 ==> sys_step_rel(#[trigger] tr[k], tr[k + 1])
}

/// Every single step preserves the machine invariant.
pub proof fn lemma_step_preserves_inv(pre: System, post: System)
    requires
        inv(pre),
        sys_step_rel(pre, post),
    ensures
        inv(post),
{
    if primary_step_rel(pre, post) {
    } else {
        let i = choose|i: int| secondary_step_rel(pre, post, i);
        assert(secondary_step_rel(pre, post, i));
    }
}

/// The machine invariant holds in every state of every run.
pub proof fn lemma_trace_inv(tr: Seq<System>, k: int)
    requires
        valid_trace(tr),
        0 <= k < tr.len(),
    ensures
        inv(tr[k]),
    decreases k,
{
    if k > 0 {
        lemma_trace_inv(tr, k - 1);
        lemma_step_preserves_inv(tr[k - 1], tr[k]);
    }
}

/// No single step closes an open boot gate.
pub proof fn lemma_step_keeps_gate_open(pre: System, post: System)
    requires
        sys_step_rel(pre, post),
        pre.gate.is_ready(),
    ensures
        post.gate.is_ready(),
{
    if primary_step_rel(pre, post) {
    } else {
        let i = choose|i: int| secondary_step_rel(pre, post, i);
        assert(secondary_step_rel(pre, post, i));
    }
}

/// The boot gate never reverses: once a run's gate reads "ready", it reads
/// "ready" in every later state.
pub proof fn lemma_gate_monotone(tr: Seq<System>, j: int, k: int)
    requires
        valid_trace(tr),
        0 <= j <= k < tr.len(),
        tr[j].gate.is_ready(),
    ensures
        tr[k].gate.is_ready(),
    decreases k - j,
{
    if j < k {
        lemma_step_keeps_gate_open(tr[j], tr[j + 1]);
        lemma_gate_monotone(tr, j + 1, k);
    }
}

/// The boot gate opens at most once: a run has at most one step at which the
/// boot gate goes from "not ready" to "ready".
pub proof fn lemma_gate_opens_at_most_once(tr: Seq<System>, j: int, k: int)
    requires
        valid_trace(tr),
        0 <= j < tr.len() - 1,
        0 <= k < tr.len() - 1,
        !tr[j].gate.is_ready() && tr[j + 1].gate.is_ready(),
        !tr[k].gate.is_ready() && tr[k + 1].gate.is_ready(),
    ensures
        j == k,
{
    if j < k {
        lemma_gate_monotone(tr, j + 1, k);
    } else if k < j {
        lemma_gate_monotone(tr, k + 1, j);
    }
}

/// The step that opens the boot gate is the primary's, and it runs only after
/// every global initialization step — logging, trap runtime, memory, board,
/// module registry, drivers, banner and process subsystem — has completed.
pub proof fn lemma_gate_opened_by_finished_primary(tr: Seq<System>, k: int)
    requires
        valid_trace(tr),
        0 <= k < tr.len() - 1,
        !tr[k].gate.is_ready(),
        tr[k + 1].gate.is_ready(),
    ensures
        primary_step_rel(tr[k], tr[k + 1]),
        tr[k].primary is ProcessReady,
        pidx(tr[k].primary) == 9,
{
    let pre = tr[k];
    let post = tr[k + 1];
    assert(sys_step_rel(pre, post));
    if !primary_step_rel(pre, post) {
        let i = choose|i: int| secondary_step_rel(pre, post, i);
        assert(secondary_step_rel(pre, post, i));
    }
}

/// Publication: in every reachable state, a secondary core that has moved
/// past the boot gate — so in particular one that has activated, or is about to
/// activate, its view of memory — sees an open boot gate, behind which the primary's whole global pipeline, its global memory
/// initialization included, has completed.
pub proof fn lemma_no_memory_activation_before_global_init(tr: Seq<System>, k: int, i: int)
    requires
        valid_trace(tr),
        0 <= k < tr.len(),
        0 <= i < tr[k].secondaries@.len(),
        sidx(tr[k].secondaries@[i]) >= 2,
    ensures
        tr[k].gate.is_ready(),
        pidx(tr[k].primary) >= 10,
        pidx(tr[k].primary) >= 4,
{
    lemma_trace_inv(tr, k);
}

/// A core that has reached the kernel main loop stays there: no step moves
/// the primary or any secondary out of its final stage.
pub proof fn lemma_kmain_is_final(pre: System, post: System)
    requires
        sys_step_rel(pre, post),
    ensures
        pre.primary is Running ==> post.primary is Running,
        forall|i: int|
            0 <= i < pre.secondaries@.len() && (#[trigger] pre.secondaries@[i]) is Running
                ==> i < post.secondaries@.len() && post.secondaries@[i] is Running,
{
    if primary_step_rel(pre, post) {
    } else {
        let j = choose|j: int| secondary_step_rel(pre, post, j);
        assert(secondary_step_rel(pre, post, j));
        assert forall|i: int|
            0 <= i < pre.secondaries@.len() && (#[trigger] pre.secondaries@[i]) is Running implies i
            < post.secondaries@.len() && post.secondaries@[i] is Running by {
            assert(i != j);
        }
    }
}

} // verus!
