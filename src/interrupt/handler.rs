//! The trap dispatcher: classifies each trap and routes it to its handler.
use crate::interrupt::action::{is_fatal, Action, FatalReport, Message};
use crate::interrupt::cause::{recognized, Exception, Interrupt, TrapCause};
use crate::interrupt::context::{advanced, Context};
use crate::interrupt::timer::{tick, tick_actions, tick_state, TimerState};
use vstd::prelude::*;

verus! {

/// Bytes skipped past a breakpoint (`ebreak` in its compressed form).
pub const BREAKPOINT_OFFSET: usize = 2;

/// Bytes skipped past the faulting load (a full-width instruction).
pub const LOAD_FAULT_OFFSET: usize = 4;

/// Installs the trap entry at address `entry` in direct mode: every trap,
/// exception or interrupt, enters there and is classified in software.
pub fn init(entry: usize) -> (r: Vec<Action>)
    ensures
        r@ == seq![Action::InstallTrapVector(entry)],
{
    let mut r: Vec<Action> = Vec::new();
    r.push(Action::InstallTrapVector(entry));
    r
}

/// Steps over the trapping instruction: logs the resume address, then moves
/// it forward by `offset` bytes.
pub fn breakpoint(context: &mut Context, offset: usize) -> (r: Vec<Action>)
    requires
        old(context).sepc + offset <= usize::MAX,
    ensures
        *final(context) == advanced(*old(context), offset),
        r@ == seq![Action::Log(Message::Breakpoint(old(context).sepc))],
{
    let mut r: Vec<Action> = Vec::new();
    r.push(Action::Log(Message::Breakpoint(context.sepc)));
    context.sepc = context.sepc + offset;
    r
}

/// Hands a timer interrupt taken at hardware time `now` to the timer service.
pub fn supervisor_timer(timer: &mut TimerState, now: usize) -> (r: Vec<Action>)
    requires
        now + old(timer).interval <= usize::MAX,
    ensures
        *final(timer) == tick_state(*old(timer)),
        r@ == tick_actions(*old(timer), now),
{
    tick(timer, now)
}

/// The fatal path for a cause nothing handles: the report to print before
/// halting, with the cause, every saved register and `stval`.
pub fn fault(context: &Context, cause: TrapCause, stval: usize) -> (r: Action)
    ensures
        r == Action::Fatal(FatalReport { cause, context: *context, stval }),
{
    Action::Fatal(FatalReport { cause, context: *context, stval })
}

/// Whether a trap with these inputs can be handled without an address or
/// deadline going past the largest machine word.
pub open spec fn fits(context: Context, cause: TrapCause, timer: TimerState, now: usize) -> bool {
    match cause {
        TrapCause::Exception(Exception::Breakpoint) => context.sepc + BREAKPOINT_OFFSET
            <= usize::MAX,
        TrapCause::Exception(Exception::LoadFault) => context.sepc + LOAD_FAULT_OFFSET
            <= usize::MAX,
        TrapCause::Interrupt(Interrupt::SupervisorTimer) => now + timer.interval <= usize::MAX,
        _ => true,
    }
}

/// The saved registers after handling a trap with `cause`.
pub open spec fn handled_context(context: Context, cause: TrapCause) -> Context {
    match cause {
        TrapCause::Exception(Exception::Breakpoint) => advanced(context, BREAKPOINT_OFFSET),
        TrapCause::Exception(Exception::LoadFault) => advanced(context, LOAD_FAULT_OFFSET),
        _ => context,
    }
}

/// The timer state after handling a trap with `cause`.
pub open spec fn handled_timer(cause: TrapCause, timer: TimerState) -> TimerState {
    if cause == TrapCause::Interrupt(Interrupt::SupervisorTimer) {
        tick_state(timer)
    } else {
        timer
    }
}

/// The operations of handling a trap: the cause is always logged first,
/// then what its handler asks for.
pub open spec fn handled_actions(
    context: Context,
    cause: TrapCause,
    stval: usize,
    timer: TimerState,
    now: usize,
) -> Seq<Action> {
    seq![Action::Log(Message::Cause(cause))] + match cause {
        TrapCause::Exception(Exception::Breakpoint) => seq![
            Action::Log(Message::Breakpoint(context.sepc)),
        ],
        TrapCause::Exception(Exception::LoadFault) => (if stval == 0 {
            seq![Action::Log(Message::LoadFaultAtNull)]
        } else {
            Seq::empty()
        }) + seq![Action::Log(Message::Breakpoint(context.sepc))],
        TrapCause::Interrupt(Interrupt::SupervisorTimer) => tick_actions(timer, now),
        _ => seq![Action::Fatal(FatalReport { cause, context, stval })],
    }
}

/// Handles one trap: `context` is the saved state of the interrupted
/// program, `cause` the decoded `scause`, `stval` the trap's auxiliary value
/// (the faulting address for an access fault) and `now` the hardware time.
/// A breakpoint is stepped over; a load access fault is logged and stepped
/// over; a timer interrupt goes to the timer service; any other cause ends in
/// the fatal path, the last operation returned.
pub fn handle_interrupt(
    context: &mut Context,
    cause: TrapCause,
    stval: usize,
    timer: &mut TimerState,
    now: usize,
) -> (r: Vec<Action>)
    requires
        fits(*old(context), cause, *old(timer), now),
    ensures
        *final(context) == handled_context(*old(context), cause),
        *final(timer) == handled_timer(cause, *old(timer)),
        r@ == handled_actions(*old(context), cause, stval, *old(timer), now),
{
    let mut r: Vec<Action> = Vec::new();
    r.push(Action::Log(Message::Cause(cause)));
    let mut rest = match cause {
        TrapCause::Exception(Exception::Breakpoint) => breakpoint(context, BREAKPOINT_OFFSET),
        TrapCause::Exception(Exception::LoadFault) => {
            let mut v: Vec<Action> = Vec::new();
            if stval == 0 {
                v.push(Action::Log(Message::LoadFaultAtNull));
            }
            let mut step = breakpoint(context, LOAD_FAULT_OFFSET);
            v.append(&mut step);
            v
        },
        TrapCause::Interrupt(Interrupt::SupervisorTimer) => supervisor_timer(timer, now),
        _ => {
            let mut v: Vec<Action> = Vec::new();
            v.push(fault(context, cause, stval));
            v
        },
    };
    r.append(&mut rest);
    assert(r@ =~= handled_actions(*old(context), cause, stval, *old(timer), now));
    r
}

/// A trap whose cause is not a breakpoint, a load access fault or the
/// supervisor timer ends in the fatal path exactly once: the fatal report is
/// the last operation and no earlier one is fatal, and neither the saved
/// registers nor the timer change.
pub proof fn lemma_unrecognized_is_fatal(
    context: Context,
    cause: TrapCause,
    stval: usize,
    timer: TimerState,
    now: usize,
)
    requires
        !recognized(cause),
    ensures
        ({
            let acts = handled_actions(context, cause, stval, timer, now);
            &&& acts.len() >= 1
            &&& acts.last() == Action::Fatal(FatalReport { cause, context, stval })
            &&& forall|i: int| 0 <= i < acts.len() - 1 ==> !is_fatal(#[trigger] acts[i])
        }),
        handled_context(context, cause) == context,
        handled_timer(cause, timer) == timer,
{
    let acts = handled_actions(context, cause, stval, timer, now);
    assert(acts == seq![
        Action::Log(Message::Cause(cause)),
        Action::Fatal(FatalReport { cause, context, stval }),
    ]);
}

/// A recognized cause never reaches the fatal path.
pub proof fn lemma_recognized_resumes(
    context: Context,
    cause: TrapCause,
    stval: usize,
    timer: TimerState,
    now: usize,
)
    requires
        recognized(cause),
    ensures
        forall|i: int|
            0 <= i < handled_actions(context, cause, stval, timer, now).len() ==> !is_fatal(
                #[trigger] handled_actions(context, cause, stval, timer, now)[i],
            ),
{
    let acts = handled_actions(context, cause, stval, timer, now);
    assert forall|i: int| 0 <= i < acts.len() implies !is_fatal(#[trigger] acts[i]) by {
        if cause == TrapCause::Interrupt(Interrupt::SupervisorTimer) && i > 0 {
            assert(acts[i] == tick_actions(timer, now)[i - 1]);
        }
    }
}

/// Stepping over a breakpoint by `offset` bytes moves the resume address
/// from A to A + `offset` and changes no other register.
pub proof fn lemma_breakpoint_advances(context: Context, offset: usize)
    requires
        context.sepc + offset <= usize::MAX,
    ensures
        advanced(context, offset).sepc == context.sepc + offset,
        advanced(context, offset).x == context.x,
        advanced(context, offset).sstatus == context.sstatus,
{
}

/// A load access fault is stepped over by exactly the width of one
/// instruction, whatever the faulting address; the null-address marker is
/// logged exactly when that address is 0.
pub proof fn lemma_load_fault(
    context: Context,
    stval: usize,
    timer: TimerState,
    now: usize,
)
    requires
        context.sepc + LOAD_FAULT_OFFSET <= usize::MAX,
    ensures
        ({
            let cause = TrapCause::Exception(Exception::LoadFault);
            let acts = handled_actions(context, cause, stval, timer, now);
            &&& acts.contains(Action::Log(Message::LoadFaultAtNull)) <==> stval == 0
            &&& handled_context(context, cause).sepc == context.sepc + LOAD_FAULT_OFFSET
            &&& handled_context(context, cause).x == context.x
            &&& handled_context(context, cause).sstatus == context.sstatus
            &&& handled_timer(cause, timer) == timer
        }),
{
    let cause = TrapCause::Exception(Exception::LoadFault);
    let acts = handled_actions(context, cause, stval, timer, now);
    if stval == 0 {
        assert(acts[1] == Action::Log(Message::LoadFaultAtNull));
    } else {
        assert(acts == seq![
            Action::Log(Message::Cause(cause)),
            Action::Log(Message::Breakpoint(context.sepc)),
        ]);
    }
}

} // verus!
