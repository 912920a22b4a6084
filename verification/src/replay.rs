//! Whole operations: what a sequence of command outcomes makes of the record,
//! and the laws that hold of it.

use crate::backend::{Action, Backend, Pending};
use crate::command::OutcomeView;
use crate::error::ApiErrorView;
use crate::gpio::{
    drives_high, level_state, levels_only, recorded, resumed, toggle_target, PinState, StepView,
};
use vstd::prelude::*;

verus! {

/// Where an operation stands once the commands it asked for, one after the
/// other, have come to `outcomes`. Outcomes past the end of the operation are
/// not looked at.
pub open spec fn replay(states: Map<u32, PinState>, pending: Pending, outcomes: Seq<OutcomeView>) -> (
    Map<u32, PinState>,
    StepView,
)
    decreases outcomes.len(),
{
    if outcomes.len() == 0 {
        (states, StepView::Run(pending))
    } else {
        let (next, step) = resumed(states, pending, outcomes[0]);
        match step {
            StepView::Run(more) => replay(next, more, outcomes.drop_first()),
            StepView::Done(_) => (next, step),
        }
    }
}

/// The number of commands that a procedure takes from its first to its last.
pub open spec fn commands_of(backend: Backend) -> nat {
    if backend.spec_sets_mode() {
        2
    } else {
        1
    }
}

/// The level that a toggle sampled, given the outcomes of its commands: what
/// the backend reads out of the output of the read itself.
pub open spec fn toggle_sample(backend: Backend, outcomes: Seq<OutcomeView>) -> PinState {
    backend.level(outcomes[commands_of(backend) - 1].output())
}

/// What every replay comes to: while it runs and where it fails the record is
/// untouched, and where it succeeds exactly the operation's pin has a new
/// state, which for a write is the level that was asked for.
proof fn lemma_replay_shape(
    states: Map<u32, PinState>,
    pending: Pending,
    outcomes: Seq<OutcomeView>,
)
    ensures
        ({
            let (after, step) = replay(states, pending, outcomes);
            match step {
                StepView::Run(more) => {
                    &&& after == states
                    &&& more.pin == pending.pin
                    &&& more.backend == pending.backend
                    &&& pending.action is Write ==> more.action == pending.action
                },
                StepView::Done(Ok(_)) => {
                    &&& after.contains_key(pending.pin)
                    &&& after[pending.pin] != PinState::Unknown
                    &&& after == states.insert(pending.pin, after[pending.pin])
                    &&& pending.action matches Action::Write { high } ==> after[pending.pin]
                        == level_state(high)
                },
                StepView::Done(Err(error)) => after == states && error is GpioError,
            }
        }),
    decreases outcomes.len(),
{
    if outcomes.len() > 0 {
        let (next, step) = resumed(states, pending, outcomes[0]);
        match step {
            StepView::Run(more) => {
                lemma_replay_shape(next, more, outcomes.drop_first());
            },
            StepView::Done(_) => {},
        }
    }
}

/// A command that cannot be started, or that exits with a status other than
/// zero, ends the operation at once with a GPIO error that carries the
/// tool's complaint, and the record stays as it was.
pub proof fn law_failed_command_fails_operation(
    states: Map<u32, PinState>,
    pending: Pending,
    outcome: OutcomeView,
)
    requires
        !outcome.succeeded(),
    ensures
        resumed(states, pending, outcome) == (
            states,
            StepView::Done(
                Err(
                    ApiErrorView::GpioError(
                        pending.failure_prefix(!(outcome is NotStarted)) + outcome.complaint(),
                    ),
                ),
            ),
        ),
{
}

/// However its commands turn out, an operation that ends in an error leaves
/// the record as it was, and the error is a GPIO error.
pub proof fn law_failure_keeps_record(
    states: Map<u32, PinState>,
    pending: Pending,
    outcomes: Seq<OutcomeView>,
)
    ensures
        replay(states, pending, outcomes).1 matches StepView::Done(Err(error)) ==> replay(
            states,
            pending,
            outcomes,
        ).0 == states && error is GpioError,
{
    lemma_replay_shape(states, pending, outcomes);
}

/// An operation that has not ended yet has recorded nothing.
pub proof fn law_unfinished_keeps_record(
    states: Map<u32, PinState>,
    pending: Pending,
    outcomes: Seq<OutcomeView>,
)
    ensures
        replay(states, pending, outcomes).1 is Run ==> replay(states, pending, outcomes).0
            == states,
{
    lemma_replay_shape(states, pending, outcomes);
}

/// After a `set_pin` that succeeded, the pin is on record with the level
/// that was driven: high for on and low for off, and the other way round
/// with active-low wiring. Nothing else on record has changed.
pub proof fn law_set_pin_records_level(
    states: Map<u32, PinState>,
    backend: Backend,
    pin: u32,
    logical_on: bool,
    active_low: bool,
    outcomes: Seq<OutcomeView>,
)
    requires
        replay(
            states,
            backend.spec_write(pin, drives_high(logical_on, active_low)),
            outcomes,
        ).1 matches StepView::Done(Ok(_)),
    ensures
        ({
            let after = replay(
                states,
                backend.spec_write(pin, drives_high(logical_on, active_low)),
                outcomes,
            ).0;
            &&& after == states.insert(
                pin,
                if logical_on != active_low {
                    PinState::High
                } else {
                    PinState::Low
                },
            )
            &&& recorded(after, pin) == if logical_on != active_low {
                PinState::High
            } else {
                PinState::Low
            }
        }),
{
    lemma_replay_shape(
        states,
        backend.spec_write(pin, drives_high(logical_on, active_low)),
        outcomes,
    );
}

/// A procedure whose commands all succeed comes to its end: a write has
/// driven its level, a read has sampled the pin.
pub proof fn law_successful_commands_complete(
    states: Map<u32, PinState>,
    backend: Backend,
    pin: u32,
    high: bool,
    outcomes: Seq<OutcomeView>,
)
    requires
        outcomes.len() == commands_of(backend),
        forall|i: int| 0 <= i < outcomes.len() ==> (#[trigger] outcomes[i]).succeeded(),
    ensures
        replay(states, backend.spec_write(pin, high), outcomes) == (
            states.insert(pin, level_state(high)),
            StepView::Done(Ok(())),
        ),
        replay(states, backend.spec_read(pin), outcomes) == (
            states,
            StepView::Run(backend.spec_write(pin, toggle_target(toggle_sample(backend, outcomes)))),
        ),
{
    reveal_with_fuel(replay, 3);
    if backend.spec_sets_mode() {
        assert(outcomes[0].succeeded());
        assert(outcomes.drop_first()[0] == outcomes[1]);
        assert(outcomes.drop_first().drop_first().len() == 0);
    } else {
        assert(outcomes[0].succeeded());
        assert(outcomes.drop_first().len() == 0);
    }
}

/// What a toggle that succeeded has recorded: the opposite of the level it
/// sampled, for its pin alone.
proof fn lemma_toggle_records_opposite(
    states: Map<u32, PinState>,
    backend: Backend,
    pin: u32,
    outcomes: Seq<OutcomeView>,
)
    requires
        replay(states, backend.spec_read(pin), outcomes).1 matches StepView::Done(Ok(_)),
    ensures
        replay(states, backend.spec_read(pin), outcomes).0 == states.insert(
            pin,
            level_state(toggle_target(toggle_sample(backend, outcomes))),
        ),
{
    let plan = backend.spec_read(pin);
    assert(outcomes.len() > 0);
    let rest = outcomes.drop_first();
    if backend.spec_sets_mode() {
        let prepared = Pending { prepared: true, ..plan };
        assert(outcomes[0].succeeded());
        assert(resumed(states, plan, outcomes[0]) == (states, StepView::Run(prepared)));
        assert(replay(states, plan, outcomes) == replay(states, prepared, rest));
        assert(rest.len() > 0);
        assert(rest[0] == outcomes[1]);
        assert(rest[0].succeeded());
        let write = backend.spec_write(pin, toggle_target(toggle_sample(backend, outcomes)));
        assert(resumed(states, prepared, rest[0]) == (states, StepView::Run(write)));
        assert(replay(states, prepared, rest) == replay(states, write, rest.drop_first()));
        lemma_replay_shape(states, write, rest.drop_first());
    } else {
        assert(outcomes[0].succeeded());
        let write = backend.spec_write(pin, toggle_target(toggle_sample(backend, outcomes)));
        assert(resumed(states, plan, outcomes[0]) == (states, StepView::Run(write)));
        assert(replay(states, plan, outcomes) == replay(states, write, rest));
        lemma_replay_shape(states, write, rest);
    }
}

/// Two toggles in a row bring a pin back to the state it had on record,
/// provided nothing else moved the pin: each toggle samples the level that
/// is on record when it starts. The whole record is then as it was.
///
/// The pin must have a level on record. A pin that was never driven is on
/// record as unknown, and a toggle always leaves a level behind.
pub proof fn law_toggle_twice_restores(
    states: Map<u32, PinState>,
    backend: Backend,
    pin: u32,
    first: Seq<OutcomeView>,
    second: Seq<OutcomeView>,
)
    requires
        recorded(states, pin) != PinState::Unknown,
        replay(states, backend.spec_read(pin), first).1 matches StepView::Done(Ok(_)),
        toggle_sample(backend, first) == recorded(states, pin),
        replay(
            replay(states, backend.spec_read(pin), first).0,
            backend.spec_read(pin),
            second,
        ).1 matches StepView::Done(Ok(_)),
        toggle_sample(backend, second) == recorded(
            replay(states, backend.spec_read(pin), first).0,
            pin,
        ),
    ensures
        replay(
            replay(states, backend.spec_read(pin), first).0,
            backend.spec_read(pin),
            second,
        ).0 == states,
{
    let between = replay(states, backend.spec_read(pin), first).0;
    lemma_toggle_records_opposite(states, backend, pin, first);
    lemma_toggle_records_opposite(between, backend, pin, second);
    assert(replay(between, backend.spec_read(pin), second).0 =~= states);
}

/// An operation leaves every pin but its own as it was on record. A pin
/// that was never driven therefore stays unknown, whatever happens to the
/// others.
pub proof fn law_other_pins_keep_state(
    states: Map<u32, PinState>,
    pending: Pending,
    outcomes: Seq<OutcomeView>,
    pin: u32,
)
    requires
        pin != pending.pin,
    ensures
        replay(states, pending, outcomes).0.contains_key(pin) == states.contains_key(pin),
        recorded(replay(states, pending, outcomes).0, pin) == recorded(states, pin),
        !states.contains_key(pin) ==> recorded(replay(states, pending, outcomes).0, pin)
            == PinState::Unknown,
{
    lemma_replay_shape(states, pending, outcomes);
}

/// No operation puts a pin on record as unknown: where every state on record
/// was a level before, every state on record is a level after.
pub proof fn law_record_holds_levels(
    states: Map<u32, PinState>,
    pending: Pending,
    outcomes: Seq<OutcomeView>,
)
    requires
        levels_only(states),
    ensures
        levels_only(replay(states, pending, outcomes).0),
{
    lemma_replay_shape(states, pending, outcomes);
    let after = replay(states, pending, outcomes).0;
    assert forall|pin: u32| #[trigger] after.contains_key(pin) implies after[pin]
        != PinState::Unknown by {
        if pin != pending.pin {
            assert(states.contains_key(pin));
        }
    }
}

/// A pin is on record after an operation exactly if it was before, or the
/// operation was for this pin and succeeded.
pub proof fn law_record_grows_on_success_only(
    states: Map<u32, PinState>,
    pending: Pending,
    outcomes: Seq<OutcomeView>,
    pin: u32,
)
    ensures
        replay(states, pending, outcomes).0.contains_key(pin) <==> states.contains_key(pin) || (
        pin == pending.pin && replay(states, pending, outcomes).1 matches StepView::Done(Ok(_))),
{
    lemma_replay_shape(states, pending, outcomes);
}

} // verus!
