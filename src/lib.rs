//! Trap and timer-interrupt handling for a single-hart RISC-V kernel.
//!
//! Every decision the kernel takes on a trap is a verified function from
//! plain values (the saved registers, the decoded cause, the hardware time,
//! the timer state) to the list of platform operations to perform, in order.
//! Performing them (CSR writes, SBI `ecall`s, console output) is left to the
//! kernel binary.
use vstd::prelude::*;

pub mod console;
pub mod interrupt;
pub mod memory;
pub mod sbi;

verus! {

} // verus!
