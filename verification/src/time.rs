//! Frequencies, and tick counts tagged with the rate at which they are counted.

use vstd::prelude::*;

verus! {

/// A frequency in hertz.
#[derive(Clone, Copy, Debug, PartialEq, Eq, Structural)]
pub struct Hertz(pub u32);

/// A span of time, counted in ticks of a clock that runs at `FREQ` hertz.
///
/// The rate is part of the type, so a span counted at one rate cannot be
/// handed to a timer that counts at another.
#[derive(Clone, Copy, Debug, PartialEq, Eq)]
pub struct TimerDurationU32<const FREQ: u32> {
    ticks: u32,
}

/// A span of time counted in microseconds.
pub type MicrosDurationU32 = TimerDurationU32<1_000_000>;

/// A point in time, counted in ticks of a clock that runs at `FREQ` hertz.
#[derive(Clone, Copy, Debug, PartialEq, Eq)]
pub struct TimerInstantU32<const FREQ: u32> {
    ticks: u32,
}

impl<const FREQ: u32> TimerDurationU32<FREQ> {
    /// The number of ticks that the span holds.
    pub closed spec fn spec_ticks(&self) -> u32 {
        self.ticks
    }

    /// The span of `ticks` ticks.
    pub fn from_ticks(ticks: u32) -> (d: Self)
        ensures
            d.spec_ticks() == ticks,
    {
        TimerDurationU32 { ticks }
    }

    /// The number of ticks that the span holds.
    #[verifier::when_used_as_spec(spec_ticks)]
    pub fn ticks(&self) -> (t: u32)
        ensures
            t == self.spec_ticks(),
    {
        self.ticks
    }
}

impl<const FREQ: u32> TimerInstantU32<FREQ> {
    /// The number of ticks since the origin of the clock.
    pub closed spec fn spec_ticks(&self) -> u32 {
        self.ticks
    }

    /// The instant `ticks` ticks after the origin of the clock.
    pub fn from_ticks(ticks: u32) -> (i: Self)
        ensures
            i.spec_ticks() == ticks,
    {
        TimerInstantU32 { ticks }
    }

    /// The number of ticks since the origin of the clock.
    #[verifier::when_used_as_spec(spec_ticks)]
    pub fn ticks(&self) -> (t: u32)
        ensures
            t == self.spec_ticks(),
    {
        self.ticks
    }
}

} // verus!
