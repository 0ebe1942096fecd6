//! Verified core of a single-CPU x86_64 kernel: physical frame allocation
//! and boot-time memory layout, the trap frame and the timer-driven context
//! switch, the process table, interrupt-aware spin locks, and PCI
//! configuration-space access.

pub mod addr;
pub mod bitalloc;
pub mod memory;
pub mod trap;
pub mod process;
pub mod interrupt;
pub mod sync;
pub mod drivers;
pub mod pci;
