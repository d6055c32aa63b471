//! Simulated pins: an input whose level a timer flips, and an output that
//! remembers the last level written to it.

use vstd::prelude::*;
use crate::level::Level;

verus! {

/// The line on which the button is wired.
pub const BUTTON_PIN: u8 = 17;

/// The line on which the LED is wired.
pub const LED_PIN: u8 = 18;

/// Seconds between two flips of a simulated input.
pub const FLIP_INTERVAL_SECS: u64 = 3;

/// A simulated digital input. It idles `High`, as a button on a pull-up does,
/// and changes only when [`InputPin::flip`] is called.
pub struct InputPin {
    level: Level,
}

impl View for InputPin {
    type V = Level;

    closed spec fn view(&self) -> Level {
        self.level
    }
}

impl InputPin {
    /// A released button: the pin reads `High`.
    pub fn new() -> (pin: InputPin)
        ensures
            pin@ == Level::High,
    {
        InputPin { level: Level::High }
    }

    /// The current level.
    pub fn read(&self) -> (level: Level)
        ensures
            level == self@,
    {
        self.level
    }

    /// Whether the pin currently reads `Low`.
    pub fn is_low(&self) -> (low: bool)
        ensures
            low == (self@ == Level::Low),
    {
        self.read().is_low()
    }

    /// One beat of the simulator's timer: a press if the button was released,
    /// a release if it was pressed.
    pub fn flip(&mut self)
        ensures
            final(self)@ == old(self)@.spec_toggled(),
    {
        self.level = self.level.toggled();
    }
}

/// A simulated digital output. Writing has no effect beyond the stored level.
pub struct OutputPin {
    level: Level,
}

impl View for OutputPin {
    type V = Level;

    closed spec fn view(&self) -> Level {
        self.level
    }
}

impl OutputPin {
    /// An output that is switched off: it holds `Low`.
    pub fn new() -> (pin: OutputPin)
        ensures
            pin@ == Level::Low,
    {
        OutputPin { level: Level::Low }
    }

    /// The pin as it stands once `level` has been written to it.
    pub closed spec fn spec_write(self, level: Level) -> OutputPin {
        OutputPin { level }
    }

    /// Drives the output to `level`.
    pub fn write(&mut self, level: Level)
        ensures
            *final(self) == old(self).spec_write(level),
            final(self)@ == level,
    {
        self.level = level;
    }

    /// The level that was written last, `Low` if none was.
    pub fn level(&self) -> (level: Level)
        ensures
            level == self@,
    {
        self.level
    }
}

/// What is read back from an output is the level that was written to it
/// last, whatever it held before.
pub proof fn lemma_write_read_round_trip(pin: OutputPin, level: Level)
    ensures
        pin.spec_write(level)@ == level,
{
}

/// A later write replaces an earlier one entirely.
pub proof fn lemma_last_write_wins(pin: OutputPin, first: Level, second: Level)
    ensures
        pin.spec_write(first).spec_write(second) == pin.spec_write(second),
{
}

} // verus!
