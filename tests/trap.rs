use trap_kernel::interrupt::action::{Action, FatalReport, Message};
use trap_kernel::interrupt::cause::{Exception, Interrupt, TrapCause};
use trap_kernel::interrupt::context::Context;
use trap_kernel::interrupt::handler::{breakpoint, fault, handle_interrupt};
use trap_kernel::interrupt::timer::TimerState;
use trap_kernel::sbi::{SbiCall, SBI_SET_TIMER};

fn sample_context(sepc: usize) -> Context {
    let mut x = [0usize; 32];
    for (i, r) in x.iter_mut().enumerate() {
        *r = i * 3 + 1;
    }
    Context { x, sstatus: 0x120, sepc }
}

#[test]
fn breakpoint_trap_steps_two_bytes() {
    let mut ctx = sample_context(0x1000);
    let mut timer = TimerState::new(100000);
    let cause = TrapCause::Exception(Exception::Breakpoint);
    let acts = handle_interrupt(&mut ctx, cause, 0, &mut timer, 0);
    assert_eq!(ctx.sepc, 0x1002);
    assert_eq!(ctx.x, sample_context(0).x);
    assert_eq!(ctx.sstatus, 0x120);
    assert_eq!(
        acts,
        vec![Action::Log(Message::Cause(cause)), Action::Log(Message::Breakpoint(0x1000))]
    );
    assert_eq!(timer, TimerState::new(100000));
}

#[test]
fn breakpoint_any_offset() {
    let mut ctx = sample_context(0x8020_0000);
    let acts = breakpoint(&mut ctx, 6);
    assert_eq!(ctx.sepc, 0x8020_0006);
    assert_eq!(ctx.x, sample_context(0).x);
    assert_eq!(acts, vec![Action::Log(Message::Breakpoint(0x8020_0000))]);
}

#[test]
fn load_fault_at_null_succeeds() {
    let mut ctx = sample_context(0x2000);
    let mut timer = TimerState::new(100000);
    let cause = TrapCause::Exception(Exception::LoadFault);
    let acts = handle_interrupt(&mut ctx, cause, 0x0, &mut timer, 0);
    assert_eq!(ctx.sepc, 0x2004);
    assert_eq!(
        acts,
        vec![
            Action::Log(Message::Cause(cause)),
            Action::Log(Message::LoadFaultAtNull),
            Action::Log(Message::Breakpoint(0x2000)),
        ]
    );
}

#[test]
fn load_fault_elsewhere_still_steps() {
    let mut ctx = sample_context(0x2000);
    let mut timer = TimerState::new(100000);
    let cause = TrapCause::Exception(Exception::LoadFault);
    let acts = handle_interrupt(&mut ctx, cause, 0xdead_0000, &mut timer, 0);
    assert_eq!(ctx.sepc, 0x2004);
    assert!(!acts.contains(&Action::Log(Message::LoadFaultAtNull)));
    assert_eq!(acts.len(), 2);
}

#[test]
fn illegal_instruction_is_fatal() {
    let mut ctx = sample_context(0x3000);
    let before = ctx;
    let mut timer = TimerState::new(100000);
    let cause = TrapCause::Exception(Exception::IllegalInstruction);
    let acts = handle_interrupt(&mut ctx, cause, 0xbad, &mut timer, 0);
    let report = FatalReport { cause, context: before, stval: 0xbad };
    assert_eq!(acts, vec![Action::Log(Message::Cause(cause)), Action::Fatal(report)]);
    assert_eq!(ctx, before);
    assert_eq!(fault(&before, cause, 0xbad), Action::Fatal(report));
}

#[test]
fn other_interrupt_is_fatal() {
    let mut ctx = sample_context(0x3000);
    let mut timer = TimerState::new(100000);
    let cause = TrapCause::Interrupt(Interrupt::SupervisorExternal);
    let acts = handle_interrupt(&mut ctx, cause, 7, &mut timer, 0);
    assert!(matches!(acts.last(), Some(Action::Fatal(_))));
    assert_eq!(acts.iter().filter(|a| matches!(a, Action::Fatal(_))).count(), 1);
}

#[test]
fn timer_trap_ticks_and_keeps_context() {
    let mut ctx = sample_context(0x4000);
    let before = ctx;
    let mut timer = TimerState { interval: 100000, ticks: 99 };
    let cause = TrapCause::Interrupt(Interrupt::SupervisorTimer);
    let acts = handle_interrupt(&mut ctx, cause, 0, &mut timer, 900);
    assert_eq!(ctx, before);
    assert_eq!(timer.ticks, 100);
    assert_eq!(
        acts,
        vec![
            Action::Log(Message::Cause(cause)),
            Action::Sbi(SbiCall { which: SBI_SET_TIMER, arg0: 100900, arg1: 0, arg2: 0 }),
            Action::Log(Message::Ticks(100)),
        ]
    );
}

#[test]
fn scause_decoding() {
    let top = usize::MAX / 2 + 1;
    assert_eq!(TrapCause::from_scause(3), TrapCause::Exception(Exception::Breakpoint));
    assert_eq!(TrapCause::from_scause(5), TrapCause::Exception(Exception::LoadFault));
    assert_eq!(TrapCause::from_scause(2), TrapCause::Exception(Exception::IllegalInstruction));
    assert_eq!(TrapCause::from_scause(4), TrapCause::Exception(Exception::Unknown));
    assert_eq!(TrapCause::from_scause(top + 5), TrapCause::Interrupt(Interrupt::SupervisorTimer));
    assert_eq!(TrapCause::from_scause(top + 9), TrapCause::Interrupt(Interrupt::SupervisorExternal));
    assert_eq!(TrapCause::from_scause(top + 3), TrapCause::Interrupt(Interrupt::Unknown));
    assert_eq!(TrapCause::from_scause(top), TrapCause::Interrupt(Interrupt::UserSoft));
    assert_eq!(TrapCause::from_scause(top - 1), TrapCause::Exception(Exception::Unknown));
    assert_eq!(TrapCause::from_scause(0), TrapCause::Exception(Exception::InstructionMisaligned));
    assert_eq!(TrapCause::from_scause(15), TrapCause::Exception(Exception::StorePageFault));
    assert_eq!(TrapCause::from_scause(usize::MAX), TrapCause::Interrupt(Interrupt::Unknown));
}

#[test]
fn install_direct_vector() {
    let acts = trap_kernel::interrupt::init(0x8020_1000);
    assert_eq!(
        acts,
        vec![
            Action::InstallTrapVector(0x8020_1000),
            Action::Log(Message::InterruptInitialized),
        ]
    );
    assert_eq!(
        trap_kernel::interrupt::handler::init(0x10),
        vec![Action::InstallTrapVector(0x10)]
    );
}
