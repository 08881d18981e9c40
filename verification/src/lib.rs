//! Countdown, periodic and monotonic timing primitives for a microcontroller
//! family, with the behaviour of every operation stated as a contract over a
//! mathematical model of the peripheral registers.

pub mod rcc;
pub mod time;
pub mod timer;
