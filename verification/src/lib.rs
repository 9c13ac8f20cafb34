//! Kernel-to-process read-only state publishing.
//!
//! A small, versioned memory region owned by a process is lent to the kernel,
//! which writes frequently-changing values into it (a switch counter, a
//! pending-task counter, a monotonic tick reading) each time the scheduler
//! switches execution away from that process. The process can then read
//! current-ish kernel state straight from memory without trapping into the
//! kernel, trading strict freshness for the elimination of a syscall.
//!
//! The crate also carries a few small chip-side value types that live next to
//! the mechanism in its source tree: an Ethernet MAC address with its
//! classification predicates, and the flash wait-state tables used during
//! clock configuration.

pub mod chip_specific;
pub mod driver;
pub mod ethernet;
pub mod layout;
