//! The pin controller: the last known state of every pin that was driven.
//!
//! The controller runs no process itself. [`GpioController::set_pin`] and
//! [`GpioController::toggle_pin`] plan an operation and hand back the
//! procedure to run; the caller runs each command and reports what came of it
//! to [`GpioController::resume`], which says how the operation goes on and, at
//! its end, records the pin's new state.

use crate::backend::{Advance, AdvanceView, Backend, Pending};
use crate::clock::local_timestamp;
use crate::command::{Outcome, OutcomeView};
use crate::error::{ApiError, ApiErrorView};
use crate::pins::physical_to_bcm;
use crate::text::option_text;
use std::collections::HashMap;
use vstd::prelude::*;
use vstd::std_specs::hash::spec_hash_map_iter;
use vstd::std_specs::iter::IteratorSpec;

verus! {

/// The logical state of a pin, as far as the controller knows it.
#[derive(Clone, Copy, Debug, PartialEq, Eq, Structural)]
pub enum PinState {
    High,
    Low,
    Unknown,
}

/// One pin in a snapshot of the controller.
#[derive(Clone, Debug, PartialEq, Eq)]
pub struct PinStatus {
    pub pin: u32,
    pub state: PinState,
    /// When the snapshot was taken, in ISO 8601.
    pub last_toggled: Option<String>,
}

/// A [`PinStatus`] as plain text.
pub struct PinStatusView {
    pub pin: u32,
    pub state: PinState,
    pub last_toggled: Option<Seq<char>>,
}

impl View for PinStatus {
    type V = PinStatusView;

    open spec fn view(&self) -> PinStatusView {
        PinStatusView {
            pin: self.pin,
            state: self.state,
            last_toggled: option_text(self.last_toggled),
        }
    }
}

/// How an operation goes on.
#[derive(Debug, PartialEq, Eq)]
pub enum Step {
    /// The command of this procedure is to be run, and its outcome reported.
    Run(Pending),
    /// The operation is over.
    Done(Result<(), ApiError>),
}

/// A [`Step`] as plain text.
pub enum StepView {
    Run(Pending),
    Done(Result<(), ApiErrorView>),
}

impl View for Step {
    type V = StepView;

    open spec fn view(&self) -> StepView {
        match self {
            Step::Run(pending) => StepView::Run(*pending),
            Step::Done(Ok(_)) => StepView::Done(Ok(())),
            Step::Done(Err(error)) => StepView::Done(Err(error@)),
        }
    }
}

/// The state that stands for an electrical level.
pub open spec fn level_state(high: bool) -> PinState {
    if high {
        PinState::High
    } else {
        PinState::Low
    }
}

/// The electrical level that switches an appliance on or off: with
/// active-low wiring, on is low.
pub open spec fn drives_high(logical_on: bool, active_low: bool) -> bool {
    if active_low {
        !logical_on
    } else {
        logical_on
    }
}

/// The level that a toggle drives after it has sampled `state`: low where the
/// pin was high, high in every other case.
pub open spec fn toggle_target(state: PinState) -> bool {
    state != PinState::High
}

/// The state on record for `pin`: `Unknown` where there is none.
pub open spec fn recorded(states: Map<u32, PinState>, pin: u32) -> PinState {
    if states.contains_key(pin) {
        states[pin]
    } else {
        PinState::Unknown
    }
}

/// The record and the next step once the command of `pending` has come to
/// `outcome`.
///
/// A write that is done puts the driven level on record for its pin. A read
/// that is done is the first half of a toggle: the write of the opposite
/// level follows. A failure ends the operation and leaves the record alone.
pub open spec fn resumed(states: Map<u32, PinState>, pending: Pending, outcome: OutcomeView) -> (
    Map<u32, PinState>,
    StepView,
) {
    match pending.advanced(outcome) {
        AdvanceView::Continue(next) => (states, StepView::Run(next)),
        AdvanceView::Wrote { high } => (
            states.insert(pending.pin, level_state(high)),
            StepView::Done(Ok(())),
        ),
        AdvanceView::Sampled(state) => (
            states,
            StepView::Run(pending.backend.spec_write(pending.pin, toggle_target(state))),
        ),
        AdvanceView::Failed(message) => (states, StepView::Done(Err(ApiErrorView::GpioError(message)))),
    }
}

/// Every state on record is a level: a pin is on record as high or as low,
/// never as unknown.
pub open spec fn levels_only(states: Map<u32, PinState>) -> bool {
    forall|pin: u32| #[trigger] states.contains_key(pin) ==> states[pin] != PinState::Unknown
}

/// `all` lists `states` once: one entry for each pin on record, with the
/// state on record, every entry stamped with `stamp`.
pub open spec fn is_snapshot(
    all: Seq<PinStatusView>,
    states: Map<u32, PinState>,
    stamp: Seq<char>,
) -> bool {
    &&& all.len() == states.dom().len()
    &&& forall|i: int|
        0 <= i < all.len() ==> states.contains_key(#[trigger] all[i].pin) && all[i].state
            == states[all[i].pin] && all[i].last_toggled == Some(stamp)
    &&& forall|i: int, j: int| 0 <= i < j < all.len() ==> all[i].pin != all[j].pin
    &&& forall|pin: u32| #[trigger]
        states.contains_key(pin) ==> exists|i: int| 0 <= i < all.len() && all[i].pin == pin
}

/// The views of a list of statuses.
pub open spec fn status_views(all: Seq<PinStatus>) -> Seq<PinStatusView> {
    all.map_values(|status: PinStatus| status@)
}

/// The last known state of every pin that was driven, and the tool that
/// drives them.
pub struct GpioController {
    backend: Backend,
    /// The level last driven, by pin: `true` for high.
    pin_states: HashMap<u32, bool>,
}

impl View for GpioController {
    type V = Map<u32, PinState>;

    /// The states on record, by pin.
    closed spec fn view(&self) -> Map<u32, PinState> {
        self.pin_states@.map_values(|high: bool| level_state(high))
    }
}

impl GpioController {
    /// The tool that this controller drives the pins with.
    pub closed spec fn spec_backend(&self) -> Backend {
        self.backend
    }

    /// Whatever was done to a controller, no pin is on record as unknown.
    pub proof fn lemma_record_holds_levels(&self)
        ensures
            levels_only(self@),
    {
    }

    /// A controller with nothing on record, for the `gpio -g` tool.
    pub fn new() -> (controller: GpioController)
        ensures
            controller@ == Map::<u32, PinState>::empty(),
            controller.spec_backend() == Backend::GpioBcm,
    {
        let controller = GpioController { backend: Backend::GpioBcm, pin_states: HashMap::new() };
        assert(controller@ =~= Map::<u32, PinState>::empty());
        controller
    }

    /// A controller with nothing on record, for the given tool.
    pub fn with_backend(backend: Backend) -> (controller: GpioController)
        ensures
            controller@ == Map::<u32, PinState>::empty(),
            controller.spec_backend() == backend,
    {
        let controller = GpioController { backend, pin_states: HashMap::new() };
        assert(controller@ =~= Map::<u32, PinState>::empty());
        controller
    }

    /// The tool that this controller drives the pins with.
    #[verifier::when_used_as_spec(spec_backend)]
    pub fn backend(&self) -> (backend: Backend)
        ensures
            backend == self.spec_backend(),
    {
        self.backend
    }

    /// Plans switching the appliance on `pin` on or off. Nothing is recorded
    /// until the procedure has been run and [`GpioController::resume`] has
    /// seen it succeed.
    pub fn set_pin(&self, pin: u32, logical_on: bool, active_low: bool) -> (pending: Pending)
        ensures
            pending == self.spec_backend().spec_write(pin, drives_high(logical_on, active_low)),
    {
        let high = if active_low {
            !logical_on
        } else {
            logical_on
        };
        self.backend.write(pin, high)
    }

    /// Plans inverting `pin`: the pin is sampled first, then driven to the
    /// opposite level.
    ///
    /// A read that fails ends the toggle with an error and nothing is
    /// written. A read that succeeds but whose output tells no level counts
    /// as not high, and the pin is driven high.
    pub fn toggle_pin(&self, pin: u32) -> (pending: Pending)
        ensures
            pending == self.spec_backend().spec_read(pin),
    {
        self.backend.read(pin)
    }

    /// Takes the outcome of the command of `pending` and says how the
    /// operation goes on. Only a finished write changes the record.
    pub fn resume(&mut self, pending: Pending, outcome: &Outcome) -> (step: Step)
        ensures
            (final(self)@, step@) == resumed(old(self)@, pending, outcome@),
            final(self).spec_backend() == old(self).spec_backend(),
    {
        match pending.advance(outcome) {
            Advance::Continue(next) => Step::Run(next),
            Advance::Wrote { high } => {
                self.pin_states.insert(pending.pin, high);
                assert(self@ =~= old(self)@.insert(pending.pin, level_state(high)));
                Step::Done(Ok(()))
            },
            Advance::Sampled(state) => Step::Run(
                pending.backend.write(pending.pin, state != PinState::High),
            ),
            Advance::Failed(message) => Step::Done(Err(ApiError::GpioError(message))),
        }
    }

    /// The state on record for `pin`: unknown exactly where the pin is not
    /// on record.
    pub fn get_pin_state(&self, pin: u32) -> (state: PinState)
        ensures
            state == recorded(self@, pin),
            state == PinState::Unknown <==> !self@.contains_key(pin),
    {
        match self.pin_states.get(&pin) {
            Some(high) => if *high {
                PinState::High
            } else {
                PinState::Low
            },
            None => PinState::Unknown,
        }
    }

    /// Every pin on record, each stamped with the time of the call. The
    /// entries come in no particular order, and none is listed as unknown.
    pub fn get_all_pin_states(&self) -> (all: Vec<PinStatus>)
        ensures
            exists|stamp: Seq<char>| is_snapshot(status_views(all@), self@, stamp),
            forall|i: int| 0 <= i < all.len() ==> (#[trigger] all[i]).state != PinState::Unknown,
    {
        let stamp = local_timestamp();
        self.snapshot(stamp.as_str())
    }

    /// Every pin on record, each stamped with `stamp`. The entries come in
    /// no particular order, and none is listed as unknown.
    pub fn snapshot(&self, stamp: &str) -> (all: Vec<PinStatus>)
        ensures
            is_snapshot(status_views(all@), self@, stamp@),
            forall|i: int| 0 <= i < all.len() ==> (#[trigger] all[i]).state != PinState::Unknown,
    {
        let mut all: Vec<PinStatus> = Vec::new();
        for entry in it: self.pin_states.iter()
            invariant
                it.seq() == spec_hash_map_iter(&self.pin_states).remaining(),
                it.seq().no_duplicates(),
                all.len() == it.index(),
                forall|i: int|
                    0 <= i < all.len() ==> (#[trigger] all[i]).pin == *it.seq()[i].0 && all[i].state
                        == level_state(*it.seq()[i].1) && all[i]@.last_toggled == Some(stamp@),
        {
            let (pin, high) = entry;
            let state = if *high {
                PinState::High
            } else {
                PinState::Low
            };
            all.push(PinStatus { pin: *pin, state, last_toggled: Some(String::from_str(stamp)) });
        }
        proof {
            let levels = self.pin_states@;
            let entries = spec_hash_map_iter(&self.pin_states).remaining();
            let views = status_views(all@);
            assert(self@.dom() =~= levels.dom());
            assert forall|i: int| 0 <= i < views.len() implies self@.contains_key(
                #[trigger] views[i].pin,
            ) && views[i].state == self@[views[i].pin] && views[i].last_toggled == Some(
                stamp@,
            ) by {
                assert(levels.contains_key(*entries[i].0));
                assert(all[i].pin == *entries[i].0);
            }
            assert forall|i: int, j: int| 0 <= i < j < views.len() implies views[i].pin
                != views[j].pin by {
                if views[i].pin == views[j].pin {
                    assert(levels.contains_key(*entries[i].0));
                    assert(levels.contains_key(*entries[j].0));
                    assert(entries[i] == entries[j]);
                }
            }
            assert forall|pin: u32| #[trigger] self@.contains_key(pin) implies exists|i: int|
                0 <= i < views.len() && views[i].pin == pin by {
                let wanted = (&pin, &levels[pin]);
                assert(entries.contains(wanted));
                let i = choose|i: int| 0 <= i < entries.len() && entries[i] == wanted;
                assert(views[i].pin == pin);
            }
        }
        all
    }

    /// Translates a header pin number into Broadcom numbering.
    pub fn physical_to_bcm(&self, physical_pin: u32) -> (bcm: u32)
        ensures
            bcm == crate::pins::bcm_line(physical_pin),
    {
        physical_to_bcm(physical_pin)
    }
}

} // verus!
