//! Why a trap happened, decoded from the `scause` register.
use riscv::register::scause as hw;
use vstd::prelude::*;

verus! {

/// A synchronous trap, raised by the instruction stream.
#[derive(Clone, Copy, Debug, PartialEq, Eq, Structural)]
pub enum Exception {
    InstructionMisaligned,
    InstructionFault,
    IllegalInstruction,
    Breakpoint,
    LoadFault,
    StoreMisaligned,
    StoreFault,
    UserEnvCall,
    InstructionPageFault,
    LoadPageFault,
    StorePageFault,
    Unknown,
}

/// An asynchronous trap, raised by a device or the timer.
#[derive(Clone, Copy, Debug, PartialEq, Eq, Structural)]
pub enum Interrupt {
    UserSoft,
    SupervisorSoft,
    UserTimer,
    SupervisorTimer,
    UserExternal,
    SupervisorExternal,
    Unknown,
}

/// The decoded cause of a trap.
#[derive(Clone, Copy, Debug, PartialEq, Eq, Structural)]
pub enum TrapCause {
    Exception(Exception),
    Interrupt(Interrupt),
}

/// The exception that a cause code stands for, as the privileged
/// architecture numbers them.
pub open spec fn exception_of(code: usize) -> Exception {
    if code == 0 {
        Exception::InstructionMisaligned
    } else if code == 1 {
        Exception::InstructionFault
    } else if code == 2 {
        Exception::IllegalInstruction
    } else if code == 3 {
        Exception::Breakpoint
    } else if code == 5 {
        Exception::LoadFault
    } else if code == 6 {
        Exception::StoreMisaligned
    } else if code == 7 {
        Exception::StoreFault
    } else if code == 8 {
        Exception::UserEnvCall
    } else if code == 12 {
        Exception::InstructionPageFault
    } else if code == 13 {
        Exception::LoadPageFault
    } else if code == 15 {
        Exception::StorePageFault
    } else {
        Exception::Unknown
    }
}

/// The interrupt that a cause code stands for.
pub open spec fn interrupt_of(code: usize) -> Interrupt {
    if code == 0 {
        Interrupt::UserSoft
    } else if code == 1 {
        Interrupt::SupervisorSoft
    } else if code == 4 {
        Interrupt::UserTimer
    } else if code == 5 {
        Interrupt::SupervisorTimer
    } else if code == 8 {
        Interrupt::UserExternal
    } else if code == 9 {
        Interrupt::SupervisorExternal
    } else {
        Interrupt::Unknown
    }
}

/// The value of the top bit of a machine word, which marks an interrupt in
/// `scause`.
pub open spec fn interrupt_flag() -> int {
    usize::MAX as int / 2 + 1
}

/// The cause that the raw `scause` value `bits` encodes: the top bit tells
/// an interrupt from an exception, the remaining bits give the code.
pub open spec fn cause_of(bits: usize) -> TrapCause {
    if bits >= interrupt_flag() {
        TrapCause::Interrupt(interrupt_of((bits - interrupt_flag()) as usize))
    } else {
        TrapCause::Exception(exception_of(bits))
    }
}

/// Relies on riscv's `scause::Exception::from`, which maps each exception
/// code to its variant and every other code to `Unknown`.
#[verifier::external_body]
fn exception_from(code: usize) -> (r: Exception)
    ensures
        r == exception_of(code),
{
    match hw::Exception::from(code) {
        hw::Exception::InstructionMisaligned => Exception::InstructionMisaligned,
        hw::Exception::InstructionFault => Exception::InstructionFault,
        hw::Exception::IllegalInstruction => Exception::IllegalInstruction,
        hw::Exception::Breakpoint => Exception::Breakpoint,
        hw::Exception::LoadFault => Exception::LoadFault,
        hw::Exception::StoreMisaligned => Exception::StoreMisaligned,
        hw::Exception::StoreFault => Exception::StoreFault,
        hw::Exception::UserEnvCall => Exception::UserEnvCall,
        hw::Exception::InstructionPageFault => Exception::InstructionPageFault,
        hw::Exception::LoadPageFault => Exception::LoadPageFault,
        hw::Exception::StorePageFault => Exception::StorePageFault,
        hw::Exception::Unknown => Exception::Unknown,
    }
}

/// Relies on riscv's `scause::Interrupt::from`, which maps each interrupt
/// code to its variant and every other code to `Unknown`.
#[verifier::external_body]
fn interrupt_from(code: usize) -> (r: Interrupt)
    ensures
        r == interrupt_of(code),
{
    match hw::Interrupt::from(code) {
        hw::Interrupt::UserSoft => Interrupt::UserSoft,
        hw::Interrupt::SupervisorSoft => Interrupt::SupervisorSoft,
        hw::Interrupt::UserTimer => Interrupt::UserTimer,
        hw::Interrupt::SupervisorTimer => Interrupt::SupervisorTimer,
        hw::Interrupt::UserExternal => Interrupt::UserExternal,
        hw::Interrupt::SupervisorExternal => Interrupt::SupervisorExternal,
        hw::Interrupt::Unknown => Interrupt::Unknown,
    }
}

impl TrapCause {
    /// Decodes the raw value of the `scause` register.
    pub fn from_scause(bits: usize) -> (r: TrapCause)
        ensures
            r == cause_of(bits),
    {
        let flag: usize = usize::MAX / 2 + 1;
        if bits >= flag {
            TrapCause::Interrupt(interrupt_from(bits - flag))
        } else {
            TrapCause::Exception(exception_from(bits))
        }
    }
}

/// The causes that the dispatcher handles and resumes from: a breakpoint, a
/// load access fault and the supervisor timer. Every other cause is fatal.
pub open spec fn recognized(cause: TrapCause) -> bool {
    cause == TrapCause::Exception(Exception::Breakpoint) || cause == TrapCause::Exception(
        Exception::LoadFault,
    ) || cause == TrapCause::Interrupt(Interrupt::SupervisorTimer)
}

} // verus!
