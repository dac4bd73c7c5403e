//! The bottom sensor: one digital input that tells whether the carriage is
//! at the reference position.

use vstd::prelude::*;

verus! {

/// The last level read from the sensor's pin. The pin is pulled up and the
/// sensor pulls it low, so the sensor is active while the pin is low.
#[derive(Clone, Copy, Debug, PartialEq, Eq, Structural)]
pub struct BottomSensor {
    pin_low: bool,
}

impl View for BottomSensor {
    type V = bool;

    /// Whether the sensor was active at the last reading.
    closed spec fn view(&self) -> bool {
        self.pin_low
    }
}

impl BottomSensor {
    /// A sensor whose pin was just read; `pin_low` says whether it was low.
    pub fn new(pin_low: bool) -> (sensor: BottomSensor)
        ensures
            sensor@ == pin_low,
    {
        BottomSensor { pin_low }
    }

    /// Takes in a new reading of the pin.
    pub fn sample(&mut self, pin_low: bool)
        ensures
            final(self)@ == pin_low,
    {
        self.pin_low = pin_low;
    }

    /// Whether the carriage is at the reference position, by the last
    /// reading. There is no debouncing.
    pub fn active(&self) -> (active: bool)
        ensures
            active == self@,
    {
        self.pin_low
    }
}

} // verus!
