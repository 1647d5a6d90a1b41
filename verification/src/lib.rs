//! Verified control logic for x86 hardware performance-monitoring counters
//! (PMCs).
//!
//! The crate models the per-core performance-monitoring register file
//! explicitly: the shared global-control, overflow-status and
//! overflow-acknowledge registers, the local-interrupt routing register, and
//! the per-slot event-select and counter-value registers. All register
//! programming — event-selection bit layouts, the enable/disable
//! read-modify-write sequences, the overflow-acknowledge pulse, and the
//! overflow-rearm arithmetic — is verified against that model. The privileged
//! instructions that carry the computed values to real hardware live outside
//! the library.

pub mod x86_intel;

pub use crate::x86_intel::ErrorMsg;
pub use crate::x86_intel::PerfCounter;
