//! Idle-driven control of a keyboard backlight.
//!
//! The backlight is switched off once no activity has been seen for longer
//! than the idle threshold and is switched back on, to the level it had
//! before, as soon as an input event arrives. The controller is written as a
//! sequential state machine: every observation (an input event, a brightness
//! change reported by the hardware, a periodic idle check) is one step, which
//! updates the state and says which level, if any, has to be written to the
//! device. Reading files, waiting for notifications and sleeping are left to
//! the program that drives the machine.

pub mod access;
pub mod clock;
pub mod cycle;
pub mod event;
pub mod laws;
pub mod level;
pub mod state;
pub mod trace;
pub mod watch;
