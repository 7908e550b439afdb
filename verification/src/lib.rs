//! Decision core of a daemon that turns process signals into HDMI-CEC power
//! commands for the display attached to a playback device.
//!
//! The daemon waits for three kinds of trigger. A power-on trigger makes it
//! tell the display to power on. A power-off trigger makes it tell the display
//! to go to standby, but only while this device is the active source on the
//! bus. A terminate trigger ends it.
//!
//! The library decides and the host acts. [`controller::Controller`] names
//! one effect at a time; the host performs it on the bus, the flags or the
//! clock and answers with an event. [`pass`], [`startup`] and [`invariants`]
//! state and prove what a run of the controller looks like from outside.

pub mod bus;
pub mod controller;
pub mod effect;
pub mod identity;
pub mod invariants;
pub mod pass;
pub mod severity;
pub mod startup;
pub mod trace;
pub mod trigger;
