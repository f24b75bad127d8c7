//! Observations as values, and the controller as a function from state and
//! observation to next state and write.

use vstd::prelude::*;
use crate::clock::Timestamp;
use crate::level::BrightnessLevel;
use crate::state::{IdleError, IdleModel, IdleState};

verus! {

/// One observation handed to the controller.
#[derive(Clone, Copy, Debug, PartialEq, Eq, Structural)]
pub enum Event {
    /// An input event was taken from the input queue at `at`.
    Input { at: Timestamp },
    /// The hardware reported at `at` that its brightness changed to `level`.
    HardwareChanged { level: BrightnessLevel, at: Timestamp },
    /// The periodic idle check runs at `at`.
    IdleCheck { at: Timestamp },
}

/// An observation as mathematics.
pub enum EventModel {
    Input { at: nat },
    HardwareChanged { level: BrightnessLevel, at: nat },
    IdleCheck { at: nat },
}

impl View for Event {
    type V = EventModel;

    open spec fn view(&self) -> EventModel {
        match *self {
            Event::Input { at } => EventModel::Input { at: at@ },
            Event::HardwareChanged { level, at } => EventModel::HardwareChanged { level, at: at@ },
            Event::IdleCheck { at } => EventModel::IdleCheck { at: at@ },
        }
    }
}

impl IdleModel {
    /// The observation cannot be processed: an idle check reads a clock that
    /// is behind the last activity.
    pub open spec fn step_fault(self, event: EventModel) -> bool {
        event matches EventModel::IdleCheck { at } && self.clock_fault(at)
    }

    /// The state after one observation that raises no fault.
    pub open spec fn step(self, event: EventModel) -> IdleModel {
        match event {
            EventModel::Input { at } => self.input_event(at),
            EventModel::HardwareChanged { level, at } => self.hardware_changed(level, at),
            EventModel::IdleCheck { at } => self.idle_check(at),
        }
    }

    /// The level that one observation makes the controller write, if any.
    pub open spec fn step_write(self, event: EventModel) -> Option<BrightnessLevel> {
        match event {
            EventModel::Input { at } => self.restore_write(),
            EventModel::HardwareChanged { level, at } => None,
            EventModel::IdleCheck { at } => self.suppress_write(at),
        }
    }
}

impl IdleState {
    /// Processes one observation and hands back the level to write to the
    /// device, if any. Only an idle check can fail, and then the state stays
    /// as it was.
    pub fn step(
        &mut self,
        event: Event,
    ) -> (outcome: Result<Option<BrightnessLevel>, IdleError>)
        ensures
            match outcome {
                Err(error) => {
                    &&& old(self)@.step_fault(event@)
                    &&& error == IdleError::ClockWentBackwards
                    &&& final(self)@ == old(self)@
                },
                Ok(write) => {
                    &&& !old(self)@.step_fault(event@)
                    &&& write == old(self)@.step_write(event@)
                    &&& final(self)@ == old(self)@.step(event@)
                },
            },
            old(self)@.wf() ==> final(self)@.wf(),
    {
        match event {
            Event::Input { at } => Ok(self.on_input_event(at)),
            Event::HardwareChanged { level, at } => {
                self.on_hardware_change(level, at);
                Ok(None)
            },
            Event::IdleCheck { at } => self.idle_check(at),
        }
    }
}

} // verus!
