//! The plain `gpio` utility without a controller: one write or one read, and
//! nothing kept on record.

use crate::backend::{Advance, AdvanceView, Backend, Pending};
use crate::command::{Outcome, OutcomeView};
use crate::gpio::PinState;
use vstd::prelude::*;

verus! {

/// How a write or a read goes on.
#[derive(Debug, PartialEq, Eq)]
pub enum ShellStep {
    /// The command of this procedure is to be run, and its outcome reported.
    Run(Pending),
    /// It is over: the level that was written or read, or the message of the
    /// failure.
    Done(Result<bool, String>),
}

/// A [`ShellStep`] as plain text.
pub enum ShellStepView {
    Run(Pending),
    Done(Result<bool, Seq<char>>),
}

impl View for ShellStep {
    type V = ShellStepView;

    open spec fn view(&self) -> ShellStepView {
        match self {
            ShellStep::Run(pending) => ShellStepView::Run(*pending),
            ShellStep::Done(Ok(level)) => ShellStepView::Done(Ok(*level)),
            ShellStep::Done(Err(message)) => ShellStepView::Done(Err(message@)),
        }
    }
}

/// The next step once the command of `pending` has come to `outcome`. A write
/// ends with the level it drove, a read with whether the pin is high.
pub open spec fn shell_resumed(pending: Pending, outcome: OutcomeView) -> ShellStepView {
    match pending.advanced(outcome) {
        AdvanceView::Continue(next) => ShellStepView::Run(next),
        AdvanceView::Wrote { high } => ShellStepView::Done(Ok(high)),
        AdvanceView::Sampled(state) => ShellStepView::Done(Ok(state == PinState::High)),
        AdvanceView::Failed(message) => ShellStepView::Done(Err(message)),
    }
}

/// Plans driving `pin` to `state` with the `gpio` utility.
pub fn toggle_pin(pin: u32, state: bool) -> (pending: Pending)
    ensures
        pending == Backend::Gpio.spec_write(pin, state),
{
    Backend::Gpio.write(pin, state)
}

/// Plans sampling `pin` with the `gpio` utility.
pub fn read_pin(pin: u32) -> (pending: Pending)
    ensures
        pending == Backend::Gpio.spec_read(pin),
{
    Backend::Gpio.read(pin)
}

/// Takes the outcome of the command of `pending` and says how the write or
/// the read goes on.
pub fn resume(pending: Pending, outcome: &Outcome) -> (step: ShellStep)
    ensures
        step@ == shell_resumed(pending, outcome@),
{
    match pending.advance(outcome) {
        Advance::Continue(next) => ShellStep::Run(next),
        Advance::Wrote { high } => ShellStep::Done(Ok(high)),
        Advance::Sampled(state) => ShellStep::Done(Ok(state == PinState::High)),
        Advance::Failed(message) => ShellStep::Done(Err(message)),
    }
}

} // verus!
