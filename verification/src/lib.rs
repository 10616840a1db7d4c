//! Control logic of a single-loop timer appliance: a status light, a mode
//! switch, a countdown with two "add time" buttons, an alarm output and a
//! character display, all paced by one polling loop.
//!
//! The crate performs no input or output. Every component is a value with
//! verified transitions; the loop that owns the hardware asks the
//! [`controller::Controller`] what to do next, does it, and reports back.

pub mod alarm;
pub mod controller;
pub mod detector;
pub mod display;
pub mod line;
pub mod mode;
pub mod runs;
pub mod timer;
