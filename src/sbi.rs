//! Requests to the supervisor binary interface (SBI) firmware.
//!
//! Each request names a service (its extension id) and up to three word-sized
//! arguments; the kernel issues it with one `ecall`.
use vstd::prelude::*;

verus! {

/// Program the next timer interrupt.
pub const SBI_SET_TIMER: usize = 0;

/// Write one byte to the console.
pub const SBI_CONSOLE_PUTCHAR: usize = 1;

/// Read one byte from the console.
pub const SBI_CONSOLE_GETCHAR: usize = 2;

/// Clear a pending inter-processor interrupt.
pub const SBI_CLEAR_IPI: usize = 3;

/// Send an inter-processor interrupt.
pub const SBI_SEND_IPI: usize = 4;

/// Remote instruction-cache flush.
pub const SBI_REMOTE_FENCE_I: usize = 5;

/// Remote address-translation flush.
pub const SBI_REMOTE_SFENCE_VMA: usize = 6;

/// Remote address-translation flush for one address space.
pub const SBI_REMOTE_SFENCE_VMA_ASID: usize = 7;

/// Power the machine off.
pub const SBI_SHUTDOWN: usize = 8;

/// One SBI request: the service in `which` (register x17) and its arguments
/// (registers x10, x11, x12).
#[derive(Clone, Copy, Debug, PartialEq, Eq, Structural)]
pub struct SbiCall {
    pub which: usize,
    pub arg0: usize,
    pub arg1: usize,
    pub arg2: usize,
}

/// The request for service `which` with a single argument.
pub open spec fn request(which: usize, arg0: usize) -> SbiCall {
    SbiCall { which, arg0, arg1: 0, arg2: 0 }
}

/// The request that prints the byte held in the low bits of `c`.
pub fn console_putchar(c: usize) -> (r: SbiCall)
    ensures
        r == request(SBI_CONSOLE_PUTCHAR, c),
{
    SbiCall { which: SBI_CONSOLE_PUTCHAR, arg0: c, arg1: 0, arg2: 0 }
}

/// The request that reads one byte from the console.
pub fn console_getchar() -> (r: SbiCall)
    ensures
        r == request(SBI_CONSOLE_GETCHAR, 0),
{
    SbiCall { which: SBI_CONSOLE_GETCHAR, arg0: 0, arg1: 0, arg2: 0 }
}

/// The request that powers the machine off; the firmware never returns from it.
pub fn shutdown() -> (r: SbiCall)
    ensures
        r == request(SBI_SHUTDOWN, 0),
{
    SbiCall { which: SBI_SHUTDOWN, arg0: 0, arg1: 0, arg2: 0 }
}

/// The request that raises the next timer interrupt at absolute time `time`.
pub fn set_timer(time: usize) -> (r: SbiCall)
    ensures
        r == request(SBI_SET_TIMER, time),
{
    SbiCall { which: SBI_SET_TIMER, arg0: time, arg1: 0, arg2: 0 }
}

} // verus!
