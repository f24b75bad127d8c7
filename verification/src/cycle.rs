//! One polling cycle: take the queued input events, then check for idleness.

use vstd::prelude::*;
use crate::clock::Timestamp;
use crate::level::BrightnessLevel;
use crate::state::{IdleError, IdleModel, IdleState};

verus! {

/// The writes that a step asks for, as a sequence of at most one level.
pub open spec fn write_seq(write: Option<BrightnessLevel>) -> Seq<BrightnessLevel> {
    match write {
        Some(level) => seq![level],
        None => Seq::empty(),
    }
}

impl IdleModel {
    /// How many of `pending` queued input events a cycle takes: all of them,
    /// or only the first when that one restores the backlight.
    pub open spec fn events_taken(self, pending: nat) -> nat {
        if pending > 0 && self.suppressed() {
            1
        } else {
            pending
        }
    }

    /// The level that taking the queued input events makes the controller
    /// write, if any.
    pub open spec fn activity_write(self, times: Seq<Timestamp>) -> Option<BrightnessLevel> {
        if times.len() > 0 {
            self.restore_write()
        } else {
            None
        }
    }

    /// The state after the queued input events, seen at `times`, were taken.
    pub open spec fn after_activity(self, times: Seq<Timestamp>) -> IdleModel {
        if times.len() == 0 {
            self
        } else if self.suppressed() {
            self.input_event(times.first()@)
        } else {
            self.input_event(times.last()@)
        }
    }

    /// The state after a whole cycle whose idle check runs at `now`.
    pub open spec fn after_cycle(self, times: Seq<Timestamp>, now: nat) -> IdleModel {
        self.after_activity(times).idle_check(now)
    }

    /// The idle check of the cycle finds the clock behind the last activity.
    pub open spec fn cycle_fault(self, times: Seq<Timestamp>, now: nat) -> bool {
        self.after_activity(times).clock_fault(now)
    }

    /// The levels a whole cycle writes to the device, in order.
    pub open spec fn cycle_writes(self, times: Seq<Timestamp>, now: nat) -> Seq<BrightnessLevel> {
        write_seq(self.activity_write(times)) + write_seq(
            self.after_activity(times).suppress_write(now),
        )
    }
}

/// What taking the queued input events did.
#[derive(Clone, Copy, Debug, PartialEq, Eq, Structural)]
pub struct ActivityReport {
    /// Number of events taken from the queue; the rest stay queued.
    pub consumed: usize,
    /// The level to write to the device, if the backlight was restored.
    pub restored: Option<BrightnessLevel>,
}

/// What one polling cycle did.
#[derive(Debug, PartialEq, Eq)]
pub struct CycleReport {
    /// Number of events taken from the queue; the rest stay queued.
    pub consumed: usize,
    /// The levels to write to the device, in order.
    pub writes: Vec<BrightnessLevel>,
    /// Set when the idle check could not be carried out.
    pub fault: Option<IdleError>,
}

impl IdleState {
    /// Takes the queued input events, the i-th of them seen at
    /// `event_times[i]`. Every event taken restarts the idle clock. The first
    /// event restores a suppressed backlight, and then no further event is
    /// taken in this cycle.
    pub fn poll_activity(&mut self, event_times: &[Timestamp]) -> (report: ActivityReport)
        ensures
            report.consumed == old(self)@.events_taken(event_times@.len()),
            report.restored == old(self)@.activity_write(event_times@),
            final(self)@ == old(self)@.after_activity(event_times@),
            old(self)@.wf() ==> final(self)@.wf(),
    {
        let ghost start = self@;
        let mut consumed: usize = 0;
        let mut restored: Option<BrightnessLevel> = None;
        while consumed < event_times.len()
            invariant_except_break
                consumed <= event_times@.len(),
                restored is None,
                consumed == 0 ==> self@ == start,
                consumed > 0 ==> !start.suppressed() && self@ == start.input_event(
                    event_times@[consumed - 1]@,
                ),
            ensures
                consumed == start.events_taken(event_times@.len()),
                restored == start.activity_write(event_times@),
                self@ == start.after_activity(event_times@),
            decreases event_times@.len() - consumed,
        {
            restored = self.on_input_event(event_times[consumed]);
            consumed = consumed + 1;
            if restored.is_some() {
                break ;
            }
        }
        ActivityReport { consumed, restored }
    }

    /// Runs one polling cycle: takes the queued input events as
    /// `poll_activity` does, then checks at `now` whether the backlight has
    /// been idle for too long. The report lists the writes in the order in
    /// which they are due. When the clock reads earlier than the last
    /// activity, the report carries the fault and no "off" is written.
    pub fn poll_cycle(&mut self, event_times: &[Timestamp], now: Timestamp) -> (report: CycleReport)
        ensures
            report.consumed == old(self)@.events_taken(event_times@.len()),
            report.writes@ == old(self)@.cycle_writes(event_times@, now@),
            report.fault == (if old(self)@.cycle_fault(event_times@, now@) {
                Some(IdleError::ClockWentBackwards)
            } else {
                None
            }),
            final(self)@ == old(self)@.after_cycle(event_times@, now@),
            old(self)@.wf() ==> final(self)@.wf(),
    {
        let activity = self.poll_activity(event_times);
        let mut writes: Vec<BrightnessLevel> = Vec::new();
        if let Some(level) = activity.restored {
            writes.push(level);
        }
        let fault = match self.idle_check(now) {
            Ok(Some(level)) => {
                writes.push(level);
                None
            },
            Ok(None) => None,
            Err(error) => Some(error),
        };
        CycleReport { consumed: activity.consumed, writes, fault }
    }
}

} // verus!
