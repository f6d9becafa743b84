//! The event-loop core: the committed input and actuator snapshots, and
//! the step that folds one controller event into them and decides which
//! frames to send.
//!
//! The surrounding program owns the I/O: it polls the controller, hands
//! each event to [`Controller::on_event`], encodes every returned update
//! as a frame and writes it to the serial link, in order, before the
//! next event is processed.

use vstd::prelude::*;
use crate::actuator::Update;
use crate::input::InputEvent;
use crate::input::InputState;
use crate::mapper::map_updates;
use crate::mapper::next_state;
use crate::mapper::spec_next_state;
use crate::mapper::spec_updates;
use crate::state::ActuatorState;

verus! {

/// The single owner of the committed state: the last input snapshot the
/// pipeline processed and the actuator targets last committed.
pub struct Controller {
    pub input: InputState,
    pub actuators: ActuatorState,
}

impl Controller {
    /// The committed input snapshot is well formed.
    pub open spec fn wf(self) -> bool {
        self.input.wf()
    }

    /// A controller at program start: input at rest, every actuator at
    /// its rest position.
    pub fn new() -> (c: Controller)
        ensures
            c.wf(),
            c.input == InputState::spec_rest(),
            c.actuators == ActuatorState::spec_rest(),
    {
        Controller { input: InputState::default(), actuators: ActuatorState::default() }
    }

    /// Process one controller event: fold it into the input snapshot,
    /// diff against the previous snapshot, commit the new state, and
    /// return the ordered updates to send.
    pub fn on_event(&mut self, ev: InputEvent) -> (ups: Vec<Update>)
        requires
            old(self).wf(),
            ev.wf(),
        ensures
            final(self).wf(),
            final(self).input == old(self).input.spec_apply(ev),
            final(self).actuators == spec_next_state(
                old(self).actuators,
                old(self).input,
                final(self).input,
            ),
            ups@ == spec_updates(old(self).input, final(self).input),
    {
        let cur = self.input.apply(ev);
        let ups = map_updates(&self.input, &cur);
        self.actuators = next_state(&self.actuators, &self.input, &cur);
        self.input = cur;
        ups
    }
}

} // verus!
