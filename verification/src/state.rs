//! The controller's state and its three steps.
//!
//! The state records what the controller believes the device shows, the level
//! it will restore on activity, and when activity was last seen. Each step
//! returns the level that has to be written to the device, if any; a step
//! never writes more than once.

use vstd::prelude::*;
use crate::clock::{idle_expired, Timestamp, IDLE_MAX_TIME};
use crate::level::{parse_brightness, reported_level, BrightnessLevel, BRIGHTNESS_OFF};

verus! {

/// The state as mathematics: what contracts and laws speak about.
pub struct IdleModel {
    /// The level the device is believed to show.
    pub hardware: BrightnessLevel,
    /// The level to restore when activity resumes.
    pub effective: BrightnessLevel,
    /// Time of the most recent activity.
    pub last_activity: nat,
}

impl IdleModel {
    /// The device shows either nothing or the level that would be restored.
    pub open spec fn wf(self) -> bool {
        self.hardware == BRIGHTNESS_OFF || self.hardware == self.effective
    }

    /// The backlight is dark although a level is waiting to be restored.
    pub open spec fn suppressed(self) -> bool {
        self.hardware == BRIGHTNESS_OFF && self.effective != BRIGHTNESS_OFF
    }

    /// The state at startup, seeded from what the hardware reports.
    pub open spec fn init(level: BrightnessLevel, now: nat) -> IdleModel {
        IdleModel { hardware: level, effective: level, last_activity: now }
    }

    /// The state after the hardware reported a change to `level` at `now`.
    /// A change to a lit level counts as activity; a change to off does not.
    pub open spec fn hardware_changed(self, level: BrightnessLevel, now: nat) -> IdleModel {
        IdleModel {
            hardware: level,
            effective: level,
            last_activity: if level == BRIGHTNESS_OFF {
                self.last_activity
            } else {
                now
            },
        }
    }

    /// The level an input event makes the controller write, if any.
    pub open spec fn restore_write(self) -> Option<BrightnessLevel> {
        if self.suppressed() {
            Some(self.effective)
        } else {
            None
        }
    }

    /// The state after an input event seen at `now`.
    pub open spec fn input_event(self, now: nat) -> IdleModel {
        IdleModel {
            hardware: if self.suppressed() {
                self.effective
            } else {
                self.hardware
            },
            effective: self.effective,
            last_activity: now,
        }
    }

    /// An idle check at `now` finds the clock behind the last activity.
    pub open spec fn clock_fault(self, now: nat) -> bool {
        now < self.last_activity
    }

    /// An idle check at `now` switches the backlight off.
    pub open spec fn suppresses(self, now: nat) -> bool {
        &&& !self.clock_fault(now)
        &&& self.hardware != BRIGHTNESS_OFF
        &&& idle_expired(self.last_activity, now)
    }

    /// The level an idle check at `now` makes the controller write, if any.
    pub open spec fn suppress_write(self, now: nat) -> Option<BrightnessLevel> {
        if self.suppresses(now) {
            Some(BRIGHTNESS_OFF)
        } else {
            None
        }
    }

    /// The state after an idle check at `now`.
    pub open spec fn idle_check(self, now: nat) -> IdleModel {
        if self.suppresses(now) {
            IdleModel { hardware: BRIGHTNESS_OFF, ..self }
        } else {
            self
        }
    }
}

/// Why a step could not be carried out.
#[derive(Clone, Copy, Debug, PartialEq, Eq, Structural)]
pub enum IdleError {
    /// The clock was read earlier than the last recorded activity.
    ClockWentBackwards,
}

impl IdleError {
    /// The diagnostic to show when the controller gives up.
    pub fn message(&self) -> (text: &'static str)
        ensures
            text@ == "time is running backwards"@,
    {
        match self {
            IdleError::ClockWentBackwards => "time is running backwards",
        }
    }
}

/// The controller's state.
#[derive(Clone, Copy, Debug, PartialEq, Eq, Structural)]
pub struct IdleState {
    hardware: BrightnessLevel,
    effective: BrightnessLevel,
    last_activity: Timestamp,
}

impl View for IdleState {
    type V = IdleModel;

    closed spec fn view(&self) -> IdleModel {
        IdleModel {
            hardware: self.hardware,
            effective: self.effective,
            last_activity: self.last_activity@,
        }
    }
}

impl IdleState {
    /// Starts the controller from the level the hardware reports at `now`.
    pub fn new(initial: BrightnessLevel, now: Timestamp) -> (state: IdleState)
        ensures
            state@ == IdleModel::init(initial, now@),
            state@.wf(),
    {
        IdleState { hardware: initial, effective: initial, last_activity: now }
    }

    /// The level the device is believed to show.
    pub fn hardware(&self) -> (level: BrightnessLevel)
        ensures
            level == self@.hardware,
    {
        self.hardware
    }

    /// The level that will be restored when activity resumes.
    pub fn effective(&self) -> (level: BrightnessLevel)
        ensures
            level == self@.effective,
    {
        self.effective
    }

    /// Time of the most recent activity.
    pub fn last_activity(&self) -> (at: Timestamp)
        ensures
            at@ == self@.last_activity,
    {
        self.last_activity
    }

    /// Records that the hardware changed its brightness to `level` on its own.
    /// Both levels follow the report and nothing is written back. The idle
    /// clock restarts at `now` unless the report says "off".
    pub fn on_hardware_change(&mut self, level: BrightnessLevel, now: Timestamp)
        ensures
            final(self)@ == old(self)@.hardware_changed(level, now@),
            final(self)@.hardware == level,
            final(self)@.effective == level,
            level == BRIGHTNESS_OFF ==> final(self)@.last_activity == old(self)@.last_activity,
            level != BRIGHTNESS_OFF ==> final(self)@.last_activity == now@,
            final(self)@.wf(),
    {
        self.hardware = level;
        self.effective = level;
        if level != BRIGHTNESS_OFF {
            self.last_activity = now;
        }
    }

    /// Records what the hardware's change report, read at `now`, says. The
    /// level it holds is recorded as `on_hardware_change` does and handed
    /// back. An empty report holds no level: nothing is recorded and the
    /// state stays as it was.
    pub fn on_hardware_report(
        &mut self,
        report: &str,
        now: Timestamp,
    ) -> (recorded: Option<BrightnessLevel>)
        ensures
            recorded == reported_level(report@),
            final(self)@ == (match reported_level(report@) {
                Some(level) => old(self)@.hardware_changed(level, now@),
                None => old(self)@,
            }),
            old(self)@.wf() ==> final(self)@.wf(),
    {
        let recorded = parse_brightness(report);
        if let Some(level) = recorded {
            self.on_hardware_change(level, now);
        }
        recorded
    }

    /// Records an input event seen at `now`. The idle clock restarts. If the
    /// backlight was suppressed it returns to the effective level, and that
    /// level is handed back to be written to the device; the events still
    /// queued are then left for the next cycle.
    pub fn on_input_event(&mut self, now: Timestamp) -> (write: Option<BrightnessLevel>)
        ensures
            final(self)@ == old(self)@.input_event(now@),
            write == old(self)@.restore_write(),
            final(self)@.last_activity == now@,
            final(self)@.effective == old(self)@.effective,
            old(self)@.suppressed() ==> final(self)@.hardware == old(self)@.effective,
            !old(self)@.suppressed() ==> final(self)@.hardware == old(self)@.hardware,
            old(self)@.wf() ==> final(self)@.wf(),
    {
        self.last_activity = now;
        if self.hardware == BRIGHTNESS_OFF && self.effective != BRIGHTNESS_OFF {
            self.hardware = self.effective;
            Some(self.effective)
        } else {
            None
        }
    }

    /// Checks at `now` whether the backlight has been idle for too long. If
    /// more than the idle threshold has passed since the last activity and the
    /// backlight is lit, it goes dark and "off" is handed back to be written.
    /// A clock that reads earlier than the last activity is an error, and the
    /// state stays as it was.
    pub fn idle_check(
        &mut self,
        now: Timestamp,
    ) -> (outcome: Result<Option<BrightnessLevel>, IdleError>)
        ensures
            match outcome {
                Err(error) => {
                    &&& old(self)@.clock_fault(now@)
                    &&& error == IdleError::ClockWentBackwards
                    &&& final(self)@ == old(self)@
                },
                Ok(write) => {
                    &&& !old(self)@.clock_fault(now@)
                    &&& write == old(self)@.suppress_write(now@)
                    &&& final(self)@ == old(self)@.idle_check(now@)
                },
            },
            final(self)@.effective == old(self)@.effective,
            final(self)@.last_activity == old(self)@.last_activity,
            old(self)@.hardware == BRIGHTNESS_OFF ==> final(self)@ == old(self)@ && outcome
                != Ok::<Option<BrightnessLevel>, IdleError>(Some(BRIGHTNESS_OFF)),
            old(self)@.wf() ==> final(self)@.wf(),
    {
        match now.elapsed_millis(self.last_activity) {
            None => Err(IdleError::ClockWentBackwards),
            Some(elapsed) => {
                if elapsed > IDLE_MAX_TIME && self.hardware != BRIGHTNESS_OFF {
                    self.hardware = BRIGHTNESS_OFF;
                    Ok(Some(BRIGHTNESS_OFF))
                } else {
                    Ok(None)
                }
            },
        }
    }
}

} // verus!
