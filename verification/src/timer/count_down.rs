//! Countdown timers: a peripheral that is set to a period, counts it down
//! again and again, and is polled for the end of each period.

use vstd::prelude::*;
use crate::time::{Hertz, MicrosDurationU32, TimerDurationU32, TimerInstantU32};
use crate::timer::registers::TimerState;
use crate::timer::peripheral::Peripheral;
use crate::timer::syst::{SysTick, SystState, SYST_COUNTER_MASK};
use crate::timer::{CounterWidth, Error, Event, General, Instance, NbError, Timer};

verus! {

/// `cast::u16` on a `u32`: the same number as a `u16` where it fits, and
/// nothing where it is above `u16::MAX`, which `cast` reports as an overflow.
#[verifier::external_body]
fn checked_u16(x: u32) -> (r: Option<u16>)
    ensures
        r.is_some() <==> x <= u16::MAX,
        r matches Some(v) ==> v == x,
{
    cast::u16(x).ok()
}

/// Timer that waits given time
pub struct CountDownTimer<TIM, const FREQ: u32> {
    tim: TIM,
}

/// `CountDownTimer` with sampling of 1 MHz
pub type CountDownTimerUs<TIM> = CountDownTimer<TIM, 1_000_000>;

/// `CountDownTimer` with sampling of 1 kHz
///
/// NOTE: don't use this if your system frequency more than 65 MHz
pub type CountDownTimerMs<TIM> = CountDownTimer<TIM, 1_000>;

/// Whether a peripheral clocked at `clk` hertz can count at `freq` hertz: the
/// ratio of the two, less one, must fit the 16-bit divider.
pub open spec fn divides(clk: u32, freq: u32) -> bool {
    freq > 0 && 1 <= clk / freq <= 0x1_0000
}

/// The divider that makes a peripheral clocked at `clk` hertz count at `freq`
/// hertz.
pub open spec fn divider(clk: u32, freq: u32) -> u16
    recommends
        divides(clk, freq),
{
    (clk / freq - 1) as u16
}

impl<TIM> Timer<TIM> where TIM: Instance {
    /// Creates CountDownTimer with custom sampling
    pub fn count_down<const FREQ: u32>(self) -> (timer: CountDownTimer<TIM, FREQ>)
        requires
            divides(self.clock().0, FREQ),
        ensures
            timer.state() == self.peripheral().state().set_prescaler(divider(self.clock().0, FREQ)),
            timer.state().prescaler == self.clock().0 / FREQ - 1,
    {
        let Self { tim, clk } = self;
        CountDownTimer::<TIM, FREQ>::new(tim, clk)
    }

    /// Creates CountDownTimer with sampling of 1 MHz
    pub fn count_down_us(self) -> (timer: CountDownTimerUs<TIM>)
        requires
            divides(self.clock().0, 1_000_000),
        ensures
            timer.state() == self.peripheral().state().set_prescaler(
                divider(self.clock().0, 1_000_000),
            ),
    {
        self.count_down::<1_000_000>()
    }

    /// Creates CountDownTimer with sampling of 1 kHz
    ///
    /// NOTE: don't use this if your system frequency more than 65 MHz
    pub fn count_down_ms(self) -> (timer: CountDownTimerMs<TIM>)
        requires
            divides(self.clock().0, 1_000),
        ensures
            timer.state() == self.peripheral().state().set_prescaler(divider(self.clock().0, 1_000)),
    {
        self.count_down::<1_000>()
    }
}

impl Timer<SysTick> {
    /// Creates SysCountDownTimer
    pub fn count_down(self) -> (timer: SysCountDownTimer)
        ensures
            timer.state() == self.peripheral().state(),
            timer.mhz() == self.clock().0 / 1_000_000,
    {
        let Self { tim, clk } = self;
        SysCountDownTimer::new(tim, clk)
    }
}

/// Countdown timer on the system tick peripheral, with sampling of 1 MHz
pub struct SysCountDownTimer {
    tim: SysTick,
    mhz: u32,
}

/// The ticks that a counter clocked at `clk` makes in one microsecond, rounded
/// down.
pub fn ticks_per_microsecond(clk: Hertz) -> (mhz: u32)
    ensures
        mhz == clk.0 / 1_000_000,
{
    clk.0 / 1_000_000
}

/// The reload value that makes the system tick counter wrap every
/// `micros * mhz` ticks.
pub open spec fn syst_reload(micros: u32, mhz: u32) -> int {
    micros * mhz - 1
}

/// The microseconds that a system tick counter at `current`, reloaded with
/// `reload` and stepped `mhz` times in the microsecond, has counted since it
/// was reloaded.
pub open spec fn syst_elapsed(reload: u32, current: u32, mhz: u32) -> int
    recommends
        mhz > 0,
        current <= reload,
{
    (reload - current) / (mhz as int)
}

/// Computes the reload value for a countdown of `micros` microseconds on a
/// system tick counter that is stepped `mhz` times in the microsecond.
///
/// There is none if the countdown takes no tick at all, or if the value does
/// not fit the 24-bit counter.
pub fn syst_reload_value(micros: u32, mhz: u32) -> (rvr: Option<u32>)
    ensures
        rvr.is_some() <==> 0 <= syst_reload(micros, mhz) <= SYST_COUNTER_MASK,
        rvr matches Some(v) ==> v == syst_reload(micros, mhz),
{
    match micros.checked_mul(mhz) {
        Some(ticks) => {
            if 1 <= ticks && ticks <= 0x0100_0000 {
                Some(ticks - 1)
            } else {
                None
            }
        },
        None => None,
    }
}

/// Computes the microseconds that a system tick counter has counted since
/// it was reloaded, from the readings of its two value registers.
///
/// There is no answer if the counter is above the reload value, or if the
/// counter is stepped less than once in the microsecond.
pub fn syst_elapsed_micros(reload: u32, current: u32, mhz: u32) -> (micros: Option<u32>)
    ensures
        micros.is_some() <==> mhz > 0 && current <= reload,
        micros matches Some(v) ==> v == syst_elapsed(reload, current, mhz),
{
    if mhz > 0 && current <= reload {
        Some((reload - current) / mhz)
    } else {
        None
    }
}

impl SysCountDownTimer {
    /// The registers of the system tick peripheral that the timer owns.
    pub closed spec fn state(&self) -> SystState {
        self.tim.state()
    }

    /// The ticks of the peripheral's clock in one microsecond.
    pub closed spec fn mhz(&self) -> u32 {
        self.mhz
    }

    /// A countdown timer on `tim`, which is clocked at `clk`.
    pub fn new(tim: SysTick, clk: Hertz) -> (timer: Self)
        ensures
            timer.state() == tim.state(),
            timer.mhz() == clk.0 / 1_000_000,
    {
        Self { tim, mhz: ticks_per_microsecond(clk) }
    }

    /// Starts listening for an `event`
    pub fn listen(&mut self, event: Event)
        ensures
            final(self).state() == old(self).state().enable_interrupt(),
            final(self).mhz() == old(self).mhz(),
    {
        match event {
            Event::TimeOut => self.tim.enable_interrupt(),
        }
    }

    /// Stops listening for an `event`
    pub fn unlisten(&mut self, event: Event)
        ensures
            final(self).state() == old(self).state().disable_interrupt(),
            final(self).mhz() == old(self).mhz(),
    {
        match event {
            Event::TimeOut => self.tim.disable_interrupt(),
        }
    }

    /// The microseconds that have passed since the counter was last
    /// reloaded.
    pub fn now(&self) -> (instant: TimerInstantU32<1_000_000>)
        requires
            self.mhz() > 0,
            self.state().current <= self.state().reload,
        ensures
            instant.ticks() == syst_elapsed(self.state().reload, self.state().current, self.mhz()),
    {
        TimerInstantU32::from_ticks(
            syst_elapsed_micros(self.tim.get_reload(), self.tim.get_current(), self.mhz).unwrap(),
        )
    }

    /// Starts a countdown of `timeout`, which then repeats until the timer
    /// is cancelled or started anew.
    ///
    /// The countdown must take at least one tick of the peripheral's clock,
    /// and its reload value must fit the 24-bit counter.
    pub fn start(&mut self, timeout: MicrosDurationU32) -> (r: Result<(), Error>)
        requires
            0 <= syst_reload(timeout.ticks(), old(self).mhz()) <= SYST_COUNTER_MASK,
        ensures
            r.is_ok(),
            final(self).state() == old(self).state().set_reload(
                syst_reload(timeout.ticks(), old(self).mhz()) as u32,
            ).clear_current().enable_counter(),
            final(self).state().reload == syst_reload(timeout.ticks(), old(self).mhz()),
            final(self).mhz() == old(self).mhz(),
    {
        let rvr: u32 = syst_reload_value(timeout.ticks(), self.mhz).unwrap();
        assert(rvr <= 0x00ff_ffff ==> rvr & 0x00ff_ffff == rvr) by (bit_vector);

        self.tim.set_reload(rvr);
        self.tim.clear_current();
        self.tim.enable_counter();
        Ok(())
    }

    /// Polls for the end of a period, without blocking.
    ///
    /// While the counter has not arrived at zero since the peripheral's
    /// control register was last touched, the answer is `WouldBlock`; once
    /// it has, the answer is `Ok`. The poll clears the flag that it reads.
    pub fn wait(&mut self) -> (r: Result<(), NbError>)
        ensures
            r.is_ok() <==> old(self).state().wrapped,
            r.is_err() ==> r == Err::<(), NbError>(NbError::WouldBlock),
            final(self).state() == old(self).state().touch(),
            final(self).mhz() == old(self).mhz(),
    {
        if self.tim.has_wrapped() {
            Ok(())
        } else {
            Err(NbError::WouldBlock)
        }
    }

    /// Stops the counter, unless it already stands still.
    pub fn cancel(&mut self) -> (r: Result<(), Error>)
        ensures
            r.is_ok() <==> old(self).state().enabled,
            r.is_err() ==> r == Err::<(), Error>(Error::Disabled),
            final(self).state() == old(self).state().disable_counter(),
            final(self).mhz() == old(self).mhz(),
    {
        if !self.tim.is_counter_enabled() {
            return Err(Error::Disabled);
        }
        self.tim.disable_counter();
        Ok(())
    }

    /// Stops the counter and gives the peripheral back.
    pub fn release(self) -> (syst: SysTick)
        ensures
            syst.state() == self.state().disable_counter(),
    {
        let mut timer = self;
        timer.tim.disable_counter();
        timer.tim
    }

    /// Lets `n` ticks of the peripheral's clock pass.
    pub fn advance(&mut self, n: u32)
        ensures
            final(self).state() == old(self).state().advance(n as nat),
            final(self).mhz() == old(self).mhz(),
    {
        self.tim.advance(n);
    }
}

impl<TIM, const FREQ: u32> CountDownTimer<TIM, FREQ> where TIM: General {
    /// The registers of the peripheral that the timer owns.
    pub closed spec fn state(&self) -> TimerState {
        self.tim.state()
    }

    fn new(tim: TIM, clk: Hertz) -> (timer: Self)
        requires
            divides(clk.0, FREQ),
        ensures
            timer.state() == tim.state().set_prescaler(divider(clk.0, FREQ)),
    {
        let mut tim = tim;
        let psc: u32 = clk.0 / FREQ - 1;
        tim.set_prescaler(checked_u16(psc).unwrap());
        Self { tim }
    }

    /// Starts listening for an `event`
    ///
    /// Note, you will also have to enable the interrupt of the peripheral in
    /// the interrupt controller to start receiving events.
    pub fn listen(&mut self, event: Event)
        ensures
            final(self).state() == old(self).state().listen_update_interrupt(true),
    {
        match event {
            Event::TimeOut => {
                // Enable update event interrupt
                self.tim.listen_update_interrupt(true);
            },
        }
    }

    /// Clears interrupt associated with `event`.
    ///
    /// If the interrupt is not cleared, it will immediately retrigger after
    /// the ISR has finished.
    pub fn clear_interrupt(&mut self, event: Event)
        ensures
            final(self).state() == old(self).state().clear_update_interrupt_flag(),
    {
        match event {
            Event::TimeOut => {
                // Clear interrupt flag
                self.tim.clear_update_interrupt_flag();
            },
        }
    }

    /// Stops listening for an `event`
    pub fn unlisten(&mut self, event: Event)
        ensures
            final(self).state() == old(self).state().listen_update_interrupt(false),
    {
        match event {
            Event::TimeOut => {
                // Disable update event interrupt
                self.tim.listen_update_interrupt(false);
            },
        }
    }

    /// Releases the TIM peripheral
    pub fn release(self) -> (tim: TIM)
        ensures
            tim.state() == self.state().disable_counter(),
    {
        let mut timer = self;
        // pause counter
        timer.tim.disable_counter();
        timer.tim
    }

    /// The ticks that have passed since the counter was last reloaded.
    pub fn now(&self) -> (instant: TimerInstantU32<FREQ>)
        ensures
            instant.ticks() == self.state().elapsed(),
    {
        let reload: u32 = self.tim.read_auto_reload().widen();
        let count: u32 = self.tim.read_count().widen();
        TimerInstantU32::from_ticks(reload - count)
    }

    /// Starts a countdown of `timeout`, which then repeats until the timer
    /// is cancelled or started anew.
    ///
    /// The counter is stopped and put back to zero first. The countdown is
    /// refused, and the counter left so, if the period `timeout.ticks() - 1`
    /// is zero or wider than the counter; that includes a `timeout` of no
    /// ticks.
    pub fn start(&mut self, timeout: TimerDurationU32<FREQ>) -> (r: Result<(), Error>)
        ensures
            r.is_ok() <==> TimerState::accepts_timeout(TIM::Width::limit(), timeout.ticks()),
            r.is_err() ==> r == Err::<(), Error>(Error::WrongAutoReload),
            timeout.ticks() == 0 ==> r.is_err(),
            final(self).state() == old(self).state().start(TIM::Width::limit(), timeout.ticks()),
    {
        // pause
        self.tim.disable_counter();
        // reset counter
        self.tim.reset_counter();

        let ticks: u32 = timeout.ticks();
        if ticks == 0 {
            return Err(Error::WrongAutoReload);
        }
        let arr: u32 = ticks - 1;
        match self.tim.set_auto_reload(arr) {
            Ok(()) => {},
            Err(e) => {
                return Err(e);
            },
        }

        // Trigger update event to load the registers
        self.tim.trigger_update();

        // start counter
        self.tim.enable_counter();

        Ok(())
    }

    /// Polls for the end of a period, without blocking.
    ///
    /// While no period has ended since the last successful poll, the answer
    /// is `WouldBlock`. Once one has, it is acknowledged and the answer is
    /// `Ok`. The counter runs on either way.
    pub fn wait(&mut self) -> (r: Result<(), NbError>)
        ensures
            r.is_ok() <==> old(self).state().update_flag,
            r.is_err() ==> r == Err::<(), NbError>(NbError::WouldBlock),
            final(self).state() == old(self).state().wait(),
    {
        if self.tim.get_update_interrupt_flag() {
            Err(NbError::WouldBlock)
        } else {
            self.tim.clear_update_interrupt_flag();
            Ok(())
        }
    }

    /// Stops the counter, unless it already stands still.
    pub fn cancel(&mut self) -> (r: Result<(), Error>)
        ensures
            r.is_ok() <==> old(self).state().enabled,
            r.is_err() ==> r == Err::<(), Error>(Error::Disabled),
            final(self).state() == old(self).state().disable_counter(),
    {
        if !self.tim.is_counter_enabled() {
            return Err(Error::Disabled);
        }
        // disable counter

        self.tim.disable_counter();
        Ok(())
    }
}

impl<W: CounterWidth, const APB2: bool, const FREQ: u32> CountDownTimer<Peripheral<W, APB2>, FREQ> {
    /// Lets `n` ticks of the divided clock pass on the peripheral that the
    /// timer owns.
    pub fn advance(&mut self, n: u32)
        ensures
            final(self).state() == old(self).state().advance(n as nat),
    {
        self.tim.advance(n);
    }

    /// Lets `n` cycles of the peripheral's clock pass on the peripheral that
    /// the timer owns.
    pub fn run(&mut self, n: u32)
        ensures
            final(self).state() == old(self).state().run(n as nat),
    {
        self.tim.run(n);
    }
}

} // verus!
