//! The clock configuration that the timers are built from.

use vstd::prelude::*;
use crate::time::Hertz;

verus! {

/// A snapshot of the clock tree: the frequencies that were in force when it
/// was taken.
#[derive(Clone, Copy, Debug, PartialEq, Eq, Structural)]
pub struct Clocks {
    /// Frequency of the system clock.
    pub sysclk: Hertz,
    /// Frequency of the core and of the AHB bus.
    pub hclk: Hertz,
    /// Frequency that clocks the timers on the first peripheral bus.
    pub timclk1: Hertz,
    /// Frequency that clocks the timers on the second peripheral bus.
    pub timclk2: Hertz,
}

impl Clocks {
    /// Frequency of the system clock.
    pub fn sysclk(&self) -> (f: Hertz)
        ensures
            f == self.sysclk,
    {
        self.sysclk
    }

    /// Frequency of the core and of the AHB bus.
    pub fn hclk(&self) -> (f: Hertz)
        ensures
            f == self.hclk,
    {
        self.hclk
    }

    /// Frequency that clocks the timers on the first peripheral bus.
    pub fn timclk1(&self) -> (f: Hertz)
        ensures
            f == self.timclk1,
    {
        self.timclk1
    }

    /// Frequency that clocks the timers on the second peripheral bus.
    pub fn timclk2(&self) -> (f: Hertz)
        ensures
            f == self.timclk2,
    {
        self.timclk2
    }
}

} // verus!
