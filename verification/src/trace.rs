//! Whole runs of the controller: what a sequence of observations leads to.

use vstd::prelude::*;
use crate::clock::Timestamp;
use crate::cycle::write_seq;
use crate::event::EventModel;
use crate::level::{BrightnessLevel, BRIGHTNESS_OFF};
use crate::state::IdleModel;

verus! {

/// Where a run of observations has led.
pub struct Replay {
    /// The state reached.
    pub state: IdleModel,
    /// Every level written to the device so far, in order.
    pub writes: Seq<BrightnessLevel>,
    /// An idle check found the clock running backwards; the run ended there.
    pub fault: bool,
}

/// Processes `events` in order, starting from `start`. A fault ends the run:
/// what follows it changes nothing and writes nothing.
pub open spec fn replay(start: IdleModel, events: Seq<EventModel>) -> Replay
    decreases events.len(),
{
    if events.len() == 0 {
        Replay { state: start, writes: Seq::empty(), fault: false }
    } else {
        let before = replay(start, events.drop_last());
        let event = events.last();
        if before.fault || before.state.step_fault(event) {
            Replay { fault: true, ..before }
        } else {
            Replay {
                state: before.state.step(event),
                writes: before.writes + write_seq(before.state.step_write(event)),
                fault: false,
            }
        }
    }
}

/// Where a run that has led to `so_far` leads when `more` observations follow.
pub open spec fn resume(so_far: Replay, more: Seq<EventModel>) -> Replay {
    if so_far.fault {
        so_far
    } else {
        let rest = replay(so_far.state, more);
        Replay { state: rest.state, writes: so_far.writes + rest.writes, fault: rest.fault }
    }
}

/// The level of the most recent hardware report among `events`, or `initial`,
/// the level read at startup, when there is none.
pub open spec fn last_reported(initial: BrightnessLevel, events: Seq<EventModel>) -> BrightnessLevel
    decreases events.len(),
{
    if events.len() == 0 {
        initial
    } else {
        match events.last() {
            EventModel::HardwareChanged { level, at } => level,
            _ => last_reported(initial, events.drop_last()),
        }
    }
}

/// Whether an observation counts as activity: an input event, or a hardware
/// report of a lit level.
pub open spec fn is_activity(event: EventModel) -> bool {
    match event {
        EventModel::Input { at } => true,
        EventModel::HardwareChanged { level, at } => level != BRIGHTNESS_OFF,
        EventModel::IdleCheck { at } => false,
    }
}

/// The time an observation carries.
pub open spec fn event_time(event: EventModel) -> nat {
    match event {
        EventModel::Input { at } => at,
        EventModel::HardwareChanged { level, at } => at,
        EventModel::IdleCheck { at } => at,
    }
}

/// The time of the most recent activity among `events`, or `start`, the time
/// of startup, when there is none.
pub open spec fn last_active(start: nat, events: Seq<EventModel>) -> nat
    decreases events.len(),
{
    if events.len() == 0 {
        start
    } else if is_activity(events.last()) {
        event_time(events.last())
    } else {
        last_active(start, events.drop_last())
    }
}

/// The first `count` of the input events seen at `times`, as observations.
pub open spec fn input_events(times: Seq<Timestamp>, count: nat) -> Seq<EventModel> {
    Seq::new(count, |i: int| EventModel::Input { at: times[i]@ })
}

/// The observations that one polling cycle processes when it starts in
/// `state`: the input events it takes from the queue, then its idle check.
pub open spec fn cycle_events(
    state: IdleModel,
    times: Seq<Timestamp>,
    now: nat,
) -> Seq<EventModel> {
    input_events(times, state.events_taken(times.len())).push(EventModel::IdleCheck { at: now })
}

/// How often `level` occurs in `writes`.
pub open spec fn occurrences(writes: Seq<BrightnessLevel>, level: BrightnessLevel) -> nat
    decreases writes.len(),
{
    if writes.len() == 0 {
        0
    } else {
        occurrences(writes.drop_last(), level) + if writes.last() == level {
            1nat
        } else {
            0nat
        }
    }
}

} // verus!
