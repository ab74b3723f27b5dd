//! Control logic of a freestanding kernel's bootstrap shell: the exit signal
//! that reports a test run to the host emulator, the panic policy, the entry
//! sequence and the in-kernel test harness.
//!
//! Everything here is pure decision-making. The driver that owns the hardware
//! asks these state machines what to do next, performs the action (writes text,
//! invokes a case, writes the exit port, halts) and comes back for the next one.

pub mod exit;
pub mod harness;
pub mod policy;
pub mod report;
pub mod cases;
