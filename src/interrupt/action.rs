//! What a trap handler asks of the platform, in the order it asks it.
use crate::interrupt::cause::TrapCause;
use crate::interrupt::context::Context;
use crate::sbi::SbiCall;
use vstd::prelude::*;

verus! {

/// A diagnostic line for the console.
#[derive(Clone, Copy, Debug, PartialEq, Eq, Structural)]
pub enum Message {
    /// The trap vector is in place.
    InterruptInitialized,
    /// A trap with this cause was taken.
    Cause(TrapCause),
    /// A breakpoint is being stepped over; the resume address before the step.
    Breakpoint(usize),
    /// A load access fault on the null address was caught as expected.
    LoadFaultAtNull,
    /// The tick counter reached this multiple of the status period.
    Ticks(usize),
    /// The tick counter reached the shutdown threshold.
    TimeUp,
}

/// What is reported before the kernel halts on a trap it cannot handle.
#[derive(Clone, Copy, Debug, PartialEq, Eq)]
pub struct FatalReport {
    pub cause: TrapCause,
    pub context: Context,
    pub stval: usize,
}

/// One operation on the platform.
#[derive(Clone, Copy, Debug, PartialEq, Eq)]
pub enum Action {
    /// Point `stvec` at this entry address in direct mode, so that every
    /// trap enters there.
    InstallTrapVector(usize),
    /// Set the supervisor timer-interrupt enable bit in `sie`.
    EnableTimerInterrupt,
    /// Set the global supervisor interrupt-enable bit in `sstatus`.
    EnableInterrupts,
    /// Issue an SBI request.
    Sbi(SbiCall),
    /// Print a diagnostic line.
    Log(Message),
    /// Print the report and halt; nothing after it runs.
    Fatal(FatalReport),
}

/// Whether `a` ends execution: the fatal path.
pub open spec fn is_fatal(a: Action) -> bool {
    a is Fatal
}

} // verus!
