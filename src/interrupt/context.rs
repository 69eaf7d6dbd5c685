//! The register state of the interrupted program, saved on trap entry.
use vstd::prelude::*;

verus! {

/// A snapshot of the interrupted program: the 32 general registers in index
/// order, then `sstatus`, then `sepc`. The trap entry code saves and restores
/// it field by field; a handler changes only `sepc`, the address execution
/// resumes at.
#[derive(Clone, Copy, Debug, PartialEq, Eq)]
pub struct Context {
    /// General registers x0 to x31.
    pub x: [usize; 32],
    /// The raw `sstatus` register: interrupt enables and the privilege level
    /// the trap came from.
    pub sstatus: usize,
    /// The address of the instruction execution resumes at.
    pub sepc: usize,
}

/// `c` with its resume address moved forward by `offset`, all else kept.
pub open spec fn advanced(c: Context, offset: usize) -> Context {
    Context { x: c.x, sstatus: c.sstatus, sepc: (c.sepc + offset) as usize }
}

} // verus!
