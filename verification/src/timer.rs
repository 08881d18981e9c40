//! Timers

use vstd::prelude::*;
use crate::rcc::Clocks;
use crate::time::Hertz;

pub mod count_down;
pub mod laws;
pub mod peripheral;
pub mod registers;
pub mod syst;

pub use count_down::{CountDownTimer, CountDownTimerMs, CountDownTimerUs, SysCountDownTimer};
pub use peripheral::{
    Peripheral, TIM1, TIM10, TIM11, TIM12, TIM13, TIM14, TIM2, TIM3, TIM4, TIM5, TIM6, TIM7, TIM8,
    TIM9,
};
pub use registers::TimerState;
pub use syst::{SysTick, SystClkSource, SystState};

verus! {

/// Interrupt events
pub enum Event {
    /// CountDownTimer timed out / count down ended
    TimeOut,
}

/// What a timer refuses.
#[derive(Debug, Eq, PartialEq, Copy, Clone, Structural)]
pub enum Error {
    /// CountDownTimer is disabled
    Disabled,
    /// The period is zero or wider than the counter.
    WrongAutoReload,
}

/// Why a non-blocking operation has not completed.
#[derive(Debug, Eq, PartialEq, Copy, Clone, Structural)]
pub enum NbError {
    /// The operation failed.
    Other(Error),
    /// The operation cannot complete yet: try again later.
    WouldBlock,
}

/// Timer wrapper
pub struct Timer<TIM> {
    pub(crate) tim: TIM,
    pub(crate) clk: Hertz,
}

impl<TIM> Timer<TIM> {
    /// The peripheral that the timer owns.
    pub closed spec fn peripheral(&self) -> TIM {
        self.tim
    }

    /// The frequency that the peripheral is clocked with.
    pub closed spec fn clock(&self) -> Hertz {
        self.clk
    }
}

impl Timer<SysTick> {
    /// Initialize timer
    ///
    /// Lets the core clock step the counter, and notes the frequency of the
    /// system clock in `clocks`.
    pub fn syst(syst: SysTick, clocks: &Clocks) -> (timer: Self)
        ensures
            timer.peripheral().state() == syst.state().set_clock_source(SystClkSource::Core),
            timer.clock() == clocks.sysclk,
    {
        let mut syst = syst;
        syst.set_clock_source(SystClkSource::Core);
        Self { tim: syst, clk: clocks.sysclk() }
    }

    /// Gives the peripheral back.
    pub fn release(self) -> (syst: SysTick)
        ensures
            syst == self.peripheral(),
    {
        self.tim
    }
}

/// A monotonic non-decreasing timer
///
/// It reads the free-running cycle counter of the core, which counts modulo
/// 2^32 and, once it has been switched on, is never stopped or set back. The
/// counter stands still while the core is halted.
#[derive(Clone, Copy)]
pub struct MonoTimer {
    frequency: Hertz,
}

/// The cycles that a counter modulo 2^32 has made on its way from the reading
/// `earlier` to the reading `later`, provided that it made fewer than 2^32.
pub open spec fn cycles_between(earlier: u32, later: u32) -> u32 {
    ((later - earlier) % 0x1_0000_0000) as u32
}

impl MonoTimer {
    /// The frequency that the cycle counter runs at.
    pub closed spec fn spec_frequency(self) -> Hertz {
        self.frequency
    }

    /// Creates a new `Monotonic` timer on a cycle counter that has been
    /// switched on and runs at the core frequency of `clocks`.
    pub fn new(clocks: &Clocks) -> (timer: Self)
        ensures
            timer.spec_frequency() == clocks.hclk,
    {
        MonoTimer { frequency: clocks.hclk() }
    }

    /// Returns the frequency at which the monotonic timer is operating at
    #[verifier::when_used_as_spec(spec_frequency)]
    pub fn frequency(self) -> (f: Hertz)
        ensures
            f == self.spec_frequency(),
    {
        self.frequency
    }

    /// Returns an `Instant` corresponding to "now", the moment at which the
    /// cycle counter read `cycle_count`.
    pub fn now(self, cycle_count: u32) -> (instant: Instant)
        ensures
            instant.cycle_count() == cycle_count,
    {
        Instant { now: cycle_count }
    }
}

/// A measurement of a monotonically non-decreasing clock
#[derive(Clone, Copy)]
pub struct Instant {
    now: u32,
}

impl Instant {
    /// What the cycle counter read when the `Instant` was created.
    pub closed spec fn cycle_count(self) -> u32 {
        self.now
    }

    /// Ticks elapsed since the `Instant` was created, at the moment at which
    /// the cycle counter reads `cycle_count`.
    ///
    /// The answer is the difference of the two readings modulo 2^32. That is
    /// the time elapsed as long as it is shorter than one round of the
    /// counter; a longer time comes out too short by whole rounds.
    pub fn elapsed(self, cycle_count: u32) -> (ticks: u32)
        ensures
            ticks == cycles_between(self.cycle_count(), cycle_count),
    {
        cycle_count.wrapping_sub(self.now)
    }
}

impl<TIM> Timer<TIM> where TIM: Instance {
    /// Initialize timer
    ///
    /// Switches the peripheral's bus clock on, resets the peripheral, and
    /// notes the frequency that `clocks` feeds it with.
    pub fn new(tim: TIM, clocks: &Clocks) -> (timer: Self)
        ensures
            timer.peripheral().clocked(),
            timer.peripheral().state() == TimerState::reset(TIM::Width::limit()),
            timer.clock() == TIM::timer_frequency(*clocks),
    {
        let mut tim = tim;
        tim.enable();
        tim.reset();
        Timer { clk: TIM::get_timer_frequency(clocks), tim }
    }
}

/// A counter value of the width that a peripheral counts in.
pub trait CounterWidth: Copy + Into<u32> {
    /// The value as a 32-bit number.
    spec fn value(self) -> u32;

    /// The largest value of this width.
    spec fn limit() -> u32;

    /// The largest value of this width.
    fn max_value() -> (m: u32)
        ensures
            m == Self::limit(),
            m >= 1,
    ;

    /// The value as a 32-bit number.
    fn widen(self) -> (v: u32)
        ensures
            v == self.value(),
            v <= Self::limit(),
    ;

    /// `v` in this width.
    fn narrow(v: u32) -> (w: Self)
        requires
            v <= Self::limit(),
        ensures
            w.value() == v,
    ;
}

impl CounterWidth for u16 {
    open spec fn value(self) -> u32 {
        self as u32
    }

    open spec fn limit() -> u32 {
        0xffff
    }

    fn max_value() -> (m: u32) {
        0xffff
    }

    fn widen(self) -> (v: u32) {
        self as u32
    }

    fn narrow(v: u32) -> (w: Self) {
        v as u16
    }
}

impl CounterWidth for u32 {
    open spec fn value(self) -> u32 {
        self
    }

    open spec fn limit() -> u32 {
        0xffff_ffff
    }

    fn max_value() -> (m: u32) {
        0xffff_ffff
    }

    fn widen(self) -> (v: u32) {
        self
    }

    fn narrow(v: u32) -> (w: Self) {
        v
    }
}

/// The operations that a timer peripheral offers to the timers built on it.
pub trait General {
    /// The width that the peripheral counts in.
    type Width: CounterWidth;

    /// The registers of the peripheral.
    spec fn state(&self) -> TimerState;

    /// Lets the counter run.
    fn enable_counter(&mut self)
        ensures
            final(self).state() == old(self).state().enable_counter(),
    ;

    /// Stops the counter.
    fn disable_counter(&mut self)
        ensures
            final(self).state() == old(self).state().disable_counter(),
    ;

    /// Tells whether the counter runs.
    fn is_counter_enabled(&self) -> (b: bool)
        ensures
            b == self.state().enabled,
    ;

    /// Puts the counter back to zero.
    fn reset_counter(&mut self)
        ensures
            final(self).state() == old(self).state().reset_counter(),
    ;

    /// Stages `psc` as the divider.
    fn set_prescaler(&mut self, psc: u16)
        ensures
            final(self).state() == old(self).state().set_prescaler(psc),
    ;

    /// Stages `arr` as the period, unless it is zero or wider than the
    /// counter.
    fn set_auto_reload(&mut self, arr: u32) -> (r: Result<(), Error>)
        ensures
            r.is_ok() <==> TimerState::accepts_auto_reload(Self::Width::limit(), arr),
            r.is_ok() ==> final(self).state() == old(self).state().set_auto_reload(arr),
            r.is_err() ==> r == Err::<(), Error>(Error::WrongAutoReload) && final(self).state() == old(self).state(),
    ;

    /// Forces an update event.
    fn trigger_update(&mut self)
        ensures
            final(self).state() == old(self).state().trigger_update(),
    ;

    /// Acknowledges the end of a period.
    fn clear_update_interrupt_flag(&mut self)
        ensures
            final(self).state() == old(self).state().clear_update_interrupt_flag(),
    ;

    /// Lets the end of a period raise an interrupt, or not.
    fn listen_update_interrupt(&mut self, b: bool)
        ensures
            final(self).state() == old(self).state().listen_update_interrupt(b),
    ;

    /// Tells whether the update flag reads as clear, that is, whether no end
    /// of a period is pending.
    fn get_update_interrupt_flag(&self) -> (b: bool)
        ensures
            b == !self.state().update_flag,
    ;

    /// Reads the live counter value.
    fn read_count(&self) -> (w: Self::Width)
        ensures
            w.value() == self.state().count,
            self.state().wf(Self::Width::limit()),
    ;

    /// Reads the active period.
    fn read_auto_reload(&self) -> (w: Self::Width)
        ensures
            w.value() == self.state().active_auto_reload,
            self.state().wf(Self::Width::limit()),
    ;
}

/// A timer peripheral that a [`Timer`] can be made of: one that the clock
/// tree feeds and that can be switched on and reset.
pub trait Instance: General {
    /// The peripheral is fed by its bus clock.
    spec fn clocked(&self) -> bool;

    /// The frequency that `clocks` feeds the peripheral with.
    spec fn timer_frequency(clocks: Clocks) -> Hertz;

    /// Looks up the frequency that `clocks` feeds the peripheral with.
    fn get_timer_frequency(clocks: &Clocks) -> (f: Hertz)
        ensures
            f == Self::timer_frequency(*clocks),
    ;

    /// Switches the bus clock of the peripheral on. Its registers stay as
    /// they are.
    fn enable(&mut self)
        ensures
            final(self).clocked(),
            final(self).state() == old(self).state(),
    ;

    /// Puts the registers of the peripheral back to their reset values.
    fn reset(&mut self)
        ensures
            final(self).clocked() == old(self).clocked(),
            final(self).state() == TimerState::reset(Self::Width::limit()),
    ;
}

// Output channels marker traits
/// A pin that can be the first output channel of the timer `TIM`.
pub trait PinC1<TIM> {
}

/// A pin that can be the second output channel of the timer `TIM`.
pub trait PinC2<TIM> {
}

/// A pin that can be the third output channel of the timer `TIM`.
pub trait PinC3<TIM> {
}

/// A pin that can be the fourth output channel of the timer `TIM`.
pub trait PinC4<TIM> {
}

} // verus!
