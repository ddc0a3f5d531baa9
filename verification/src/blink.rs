//! The blinker: the decision half of the timed LED loop.
//!
//! Built on an async runtime, the blinky program alternates two commands
//! forever: drive the LED high and wait a short while, drive it low and wait
//! out the rest of the second. The runtime performs the pin writes and the
//! waits; everything it needs to be told — which level comes next, and how
//! long to hold it — is decided here and verified.

use vstd::prelude::*;

verus! {

/// How long the LED stays lit in each period, in milliseconds.
pub const ON_MILLIS: u64 = 50;

/// How long the LED stays dark in each period, in milliseconds.
pub const OFF_MILLIS: u64 = 950;

/// One full on-off period of the blinker, in milliseconds.
pub const PERIOD_MILLIS: u64 = ON_MILLIS + OFF_MILLIS;

/// The electrical level driven onto a pin.
#[derive(Clone, Copy, Debug, PartialEq, Eq, Structural)]
pub enum PinLevel {
    Low,
    High,
}

/// The opposite electrical level.
pub open spec fn toggled(level: PinLevel) -> PinLevel {
    match level {
        PinLevel::Low => PinLevel::High,
        PinLevel::High => PinLevel::Low,
    }
}

/// How long the blinker holds the LED at `level` before toggling it again:
/// lit briefly, dark for the rest of the period.
pub open spec fn hold_millis(level: PinLevel) -> u64 {
    match level {
        PinLevel::High => ON_MILLIS,
        PinLevel::Low => OFF_MILLIS,
    }
}

/// The blinker's whole state: the level the LED is currently driven at.
#[derive(Clone, Copy, Debug, PartialEq, Eq, Structural)]
pub struct Blinker {
    /// The level currently on the pin.
    pub level: PinLevel,
}

impl Blinker {
    /// A fresh blinker. The LED starts out low, as the pin is configured
    /// with a low level before the loop begins.
    pub fn new() -> (b: Blinker)
        ensures
            b.level == PinLevel::Low,
    {
        Blinker { level: PinLevel::Low }
    }

    /// One decision of the blink loop: toggle the LED and say how long the
    /// new level is to be held. The caller drives the pin to `cmd.0` and
    /// waits `cmd.1` milliseconds before asking again.
    pub fn step(&mut self) -> (cmd: (PinLevel, u64))
        ensures
            final(self).level == toggled(old(self).level),
            cmd.0 == final(self).level,
            cmd.1 == hold_millis(final(self).level),
    {
        match self.level {
            PinLevel::Low => {
                self.level = PinLevel::High;
                (PinLevel::High, ON_MILLIS)
            }
            PinLevel::High => {
                self.level = PinLevel::Low;
                (PinLevel::Low, OFF_MILLIS)
            }
        }
    }
}

/// Two consecutive steps bring the blinker back to the level it started
/// from, and together hold the LED for exactly one period: whatever the
/// phase, the loop repeats every [`PERIOD_MILLIS`] milliseconds.
pub proof fn lemma_blink_period(level: PinLevel)
    ensures
        toggled(toggled(level)) == level,
        hold_millis(toggled(level)) + hold_millis(toggled(toggled(level))) == PERIOD_MILLIS,
{
}

} // verus!
