//! Multiprocessor bring-up orchestration for a bare-metal kernel.
//!
//! The crate models the moment control passes from firmware into the kernel
//! image on every physical core: the primary core runs the full one-time
//! initialization pipeline, opens the boot gate, and falls through to the
//! kernel main loop, while every secondary core emits its identity line,
//! spins on the boot gate, performs its per-core setup and converges on the same
//! main loop.  The machine here carries the ordering decisions; the hardware
//! side effects of each step are performed by the surrounding unverified
//! entry code, which is handed one [`machine::Action`] at a time.

pub mod banner;
pub mod gate;
pub mod laws;
pub mod machine;
pub mod regs;
