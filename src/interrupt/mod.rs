//! Traps: the saved register state, cause decoding, dispatch and the timer.
use crate::interrupt::action::{Action, Message};
use vstd::prelude::*;

pub mod action;
pub mod cause;
pub mod context;
pub mod handler;
pub mod timer;

verus! {

/// Brings up trap handling: installs the trap entry at address `entry`, then
/// reports that it is in place.
pub fn init(entry: usize) -> (r: Vec<Action>)
    ensures
        r@ == seq![Action::InstallTrapVector(entry), Action::Log(Message::InterruptInitialized)],
{
    let mut r = handler::init(entry);
    r.push(Action::Log(Message::InterruptInitialized));
    r
}

} // verus!
