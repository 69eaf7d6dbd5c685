//! The timer service: rearms the timer on every tick, counts ticks, reports
//! progress and powers off after a fixed number of ticks.
use crate::interrupt::action::{Action, Message};
use crate::sbi::{request, set_timer, shutdown, SBI_SET_TIMER, SBI_SHUTDOWN};
use vstd::prelude::*;

verus! {

/// Hardware-clock ticks between two timer interrupts.
pub const INTERVAL: usize = 100000;

/// A status line is printed whenever the tick count is a multiple of this.
pub const STATUS_PERIOD: usize = 100;

/// The machine is powered off once the tick count reaches this.
pub const SHUTDOWN_THRESHOLD: usize = 500;

/// The timer service's state: the fixed interval and the ticks counted so far.
#[derive(Clone, Copy, Debug, PartialEq, Eq, Structural)]
pub struct TimerState {
    pub interval: usize,
    pub ticks: usize,
}

impl TimerState {
    /// Whether shutdown has been requested; no tick is processed after that.
    pub open spec fn halted(self) -> bool {
        self.ticks >= SHUTDOWN_THRESHOLD
    }

    /// A service that fires every `interval` clock ticks and has counted none.
    pub fn new(interval: usize) -> (r: TimerState)
        ensures
            r == (TimerState { interval, ticks: 0 }),
    {
        TimerState { interval, ticks: 0 }
    }

    /// The ticks counted so far.
    pub fn ticks(&self) -> (r: usize)
        ensures
            r == self.ticks,
    {
        self.ticks
    }
}

/// The request that arms the next interrupt one interval after `now`.
pub open spec fn rearm(t: TimerState, now: usize) -> Action {
    Action::Sbi(request(SBI_SET_TIMER, (now + t.interval) as usize))
}

/// The state after one tick taken in state `t`.
pub open spec fn tick_state(t: TimerState) -> TimerState {
    if t.halted() {
        t
    } else {
        TimerState { ticks: (t.ticks + 1) as usize, ..t }
    }
}

/// What a tick that brings the count to `count` reports after rearming.
pub open spec fn count_actions(count: usize) -> Seq<Action> {
    (if count % STATUS_PERIOD == 0 {
        seq![Action::Log(Message::Ticks(count))]
    } else {
        Seq::empty()
    }) + (if count >= SHUTDOWN_THRESHOLD {
        seq![Action::Log(Message::TimeUp), Action::Sbi(request(SBI_SHUTDOWN, 0))]
    } else {
        Seq::empty()
    })
}

/// The operations of one tick taken in state `t` at hardware time `now`:
/// the rearm first, then the status line and the shutdown, if due. Once
/// halted, a tick does nothing.
pub open spec fn tick_actions(t: TimerState, now: usize) -> Seq<Action> {
    if t.halted() {
        Seq::empty()
    } else {
        seq![rearm(t, now)] + count_actions(tick_state(t).ticks)
    }
}

/// The request that arms the next timer interrupt one interval after `now`.
pub fn set_next_timeout(timer: &TimerState, now: usize) -> (r: Action)
    requires
        now + timer.interval <= usize::MAX,
    ensures
        r == rearm(*timer, now),
{
    Action::Sbi(set_timer(now + timer.interval))
}

/// Starts the timer at hardware time `now`: enables the timer interrupt,
/// then interrupts as a whole, then arms the first deadline.
pub fn init(timer: &TimerState, now: usize) -> (r: Vec<Action>)
    requires
        now + timer.interval <= usize::MAX,
    ensures
        r@ == seq![Action::EnableTimerInterrupt, Action::EnableInterrupts, rearm(*timer, now)],
{
    let mut r: Vec<Action> = Vec::new();
    r.push(Action::EnableTimerInterrupt);
    r.push(Action::EnableInterrupts);
    r.push(set_next_timeout(timer, now));
    r
}

/// Handles one timer interrupt taken at hardware time `now`.
pub fn tick(timer: &mut TimerState, now: usize) -> (r: Vec<Action>)
    requires
        now + old(timer).interval <= usize::MAX,
    ensures
        *final(timer) == tick_state(*old(timer)),
        r@ == tick_actions(*old(timer), now),
{
    let mut r: Vec<Action> = Vec::new();
    if timer.ticks >= SHUTDOWN_THRESHOLD {
        return r;
    }
    r.push(set_next_timeout(timer, now));
    timer.ticks = timer.ticks + 1;
    let current_ticks = timer.ticks;
    if current_ticks % STATUS_PERIOD == 0 {
        r.push(Action::Log(Message::Ticks(current_ticks)));
    }
    if current_ticks >= SHUTDOWN_THRESHOLD {
        r.push(Action::Log(Message::TimeUp));
        r.push(Action::Sbi(shutdown()));
    }
    assert(r@ =~= tick_actions(*old(timer), now));
    r
}

/// The state after `n` ticks taken from state `t`.
pub open spec fn run_ticks(t: TimerState, n: nat) -> TimerState
    decreases n,
{
    if n == 0 {
        t
    } else {
        tick_state(run_ticks(t, (n - 1) as nat))
    }
}

/// Whether `acts` holds a status line.
pub open spec fn reports_status(acts: Seq<Action>) -> bool {
    exists|i: int, k: usize| 0 <= i < acts.len() && acts[i] == Action::Log(Message::Ticks(k))
}

/// Whether `acts` asks to power off.
pub open spec fn requests_shutdown(acts: Seq<Action>) -> bool {
    exists|i: int| 0 <= i < acts.len() && acts[i] == Action::Sbi(request(SBI_SHUTDOWN, 0))
}

/// Whether `a` programs a timer deadline.
pub open spec fn is_rearm(a: Action) -> bool {
    a is Sbi && a->Sbi_0.which == SBI_SET_TIMER
}

/// A tick rearms the timer before anything else: its first operation
/// programs the deadline one interval after the time the tick started, and
/// no later operation programs another.
pub proof fn lemma_rearm_first(t: TimerState, now: usize)
    requires
        !t.halted(),
        now + t.interval <= usize::MAX,
    ensures
        tick_actions(t, now).len() >= 1,
        tick_actions(t, now)[0] == Action::Sbi(request(SBI_SET_TIMER, (now + t.interval) as usize)),
        forall|i: int| 1 <= i < tick_actions(t, now).len() ==> !is_rearm(#[trigger] tick_actions(t, now)[i]),
{
}

/// Ticks are counted one by one: from a count of zero, `n` ticks leave the
/// count at `n` until it reaches the shutdown threshold, and the interval
/// never changes.
pub proof fn lemma_run_ticks(t: TimerState, n: nat)
    requires
        t.ticks == 0,
    ensures
        run_ticks(t, n).ticks == if n <= SHUTDOWN_THRESHOLD { n } else { SHUTDOWN_THRESHOLD as nat },
        run_ticks(t, n).interval == t.interval,
    decreases n,
{
    if n > 0 {
        lemma_run_ticks(t, (n - 1) as nat);
    }
}

/// The `n`-th tick from a count of zero, taken at any time `now`: up to the
/// threshold it brings the count to `n`, prints a status line exactly when
/// `n` is a multiple of the status period, and powers off exactly when `n`
/// reaches the threshold; after that a tick does nothing at all.
pub proof fn lemma_nth_tick(t: TimerState, n: nat, now: usize)
    requires
        t.ticks == 0,
        n >= 1,
        now + t.interval <= usize::MAX,
    ensures
        n <= SHUTDOWN_THRESHOLD ==> {
            let acts = tick_actions(run_ticks(t, (n - 1) as nat), now);
            &&& run_ticks(t, n).ticks == n
            &&& reports_status(acts) <==> n % (STATUS_PERIOD as nat) == 0
            &&& requests_shutdown(acts) <==> n == SHUTDOWN_THRESHOLD
        },
        n > SHUTDOWN_THRESHOLD ==> {
            &&& tick_actions(run_ticks(t, (n - 1) as nat), now) == Seq::<Action>::empty()
            &&& run_ticks(t, n) == run_ticks(t, (n - 1) as nat)
        },
{
    lemma_run_ticks(t, (n - 1) as nat);
    lemma_run_ticks(t, n);
    let before = run_ticks(t, (n - 1) as nat);
    if n <= SHUTDOWN_THRESHOLD {
        let c = tick_state(before).ticks;
        assert(c == n);
        let acts = tick_actions(before, now);
        let tail = count_actions(c);
        assert(acts == seq![rearm(before, now)] + tail);
        if c % STATUS_PERIOD == 0 {
            assert(acts[1] == Action::Log(Message::Ticks(c)));
        } else {
            assert forall|i: int, k: usize| 0 <= i < acts.len() implies acts[i] != Action::Log(
                Message::Ticks(k),
            ) by {
                if i > 0 {
                    assert(acts[i] == tail[i - 1]);
                }
            }
        }
        if c >= SHUTDOWN_THRESHOLD {
            assert(acts[acts.len() - 1] == Action::Sbi(request(SBI_SHUTDOWN, 0)));
        } else {
            assert forall|i: int| 0 <= i < acts.len() implies acts[i] != Action::Sbi(
                request(SBI_SHUTDOWN, 0),
            ) by {
                if i > 0 {
                    assert(acts[i] == tail[i - 1]);
                }
            }
        }
    }
}

} // verus!
