//! A register-level model of lighting the onboard LED of a Raspberry Pi Pico.
//!
//! The RP2040 talks to its peripherals through memory-mapped registers. This
//! crate models the handful of registers that the LED bring-up touches as a
//! small state machine, [`mcu::Mcu`], and proves that the classic three-step
//! sequence — release the GPIO bank from reset, route pin 25 to software
//! control, drive the pin high as an output — leaves the chip in the state
//! where the LED is lit, without disturbing any other peripheral or pin.
//!
//! The [`blink`] module models the timed blinker built on top of an async
//! runtime: the decisions (which level to drive next, and for how long) are
//! verified here; performing the writes and the waits is the runtime's job.

use vstd::prelude::*;

pub mod blink;
pub mod mcu;

verus! {

/// What a bare-metal panic handler can do on this chip: nothing observable.
/// There is no operating system to report to, so the handler parks the core
/// in an empty spin. The spin touches none of the registers the model
/// follows, so here it has no effect at all.
pub fn panic() {
}

} // verus!
