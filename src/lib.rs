//! Trap dispatch and emulation engine of an M-mode SBI monitor for RISC-V
//! cores that implement the 1.9.1 draft of the privileged architecture.
//!
//! The hardware state the monitor reads and writes is modelled by plain
//! values ([`context::SupervisorContext`], [`csr::HartState`]); every decision
//! the monitor takes on a trap is a verified function of those values.

pub mod context;
pub mod csr;
pub mod trap;
pub mod feature;
pub mod transfer;
pub mod emulate;
pub mod execute;
pub mod laws;
