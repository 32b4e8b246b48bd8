use vstd::prelude::*;

verus! {

/// Data source for the ESP32 hardware target. Until the CAN / ELM327
/// driver is wired up it reports safe defaults: no lamps lit and neutral
/// gear.
#[derive(Clone, Copy, Debug, PartialEq, Eq, Structural)]
pub struct Esp32Source;

impl Esp32Source {
    /// Creates the source.
    pub fn new() -> (s: Self)
        ensures
            s == Esp32Source,
    {
        Esp32Source
    }

    /// Polls the hardware for a new sample; nothing to poll yet.
    pub fn tick(&mut self)
        ensures
            *final(self) == *old(self),
    {
    }

    /// The `(left, right)` turn signal inputs: both off.
    pub fn read_turn_signals(&mut self) -> (signals: (bool, bool))
        ensures
            signals == (false, false),
            *final(self) == *old(self),
    {
        (false, false)
    }

    /// The high-beam input: off.
    pub fn read_headlights(&mut self) -> (on: bool)
        ensures
            !on,
            *final(self) == *old(self),
    {
        false
    }

    /// The selected gear: neutral (0).
    pub fn read_gear(&mut self) -> (gear: i32)
        ensures
            gear == 0,
            *final(self) == *old(self),
    {
        0
    }

    /// Drive mode is selected on the car itself; nothing to do.
    pub fn start_driving(&mut self)
        ensures
            *final(self) == *old(self),
    {
    }
}

impl Default for Esp32Source {
    fn default() -> (s: Self)
        ensures
            s == Esp32Source,
    {
        Esp32Source::new()
    }
}

} // verus!
