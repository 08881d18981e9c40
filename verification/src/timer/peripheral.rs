//! A timer peripheral held in memory: the registers as plain values, changed
//! by the operations of [`General`] and by the ticks of a simulated clock.

use vstd::prelude::*;
use crate::rcc::Clocks;
use crate::time::Hertz;
use crate::timer::registers::TimerState;
use crate::timer::{CounterWidth, Error, General, Instance};

verus! {

/// The advanced-control timer 1: 16 bits wide, on the second peripheral bus.
pub type TIM1 = Peripheral<u16, true>;

/// The general-purpose timer 2: 32 bits wide, on the first peripheral bus.
pub type TIM2 = Peripheral<u32, false>;

/// The general-purpose timer 3: 16 bits wide, on the first peripheral bus.
pub type TIM3 = Peripheral<u16, false>;

/// The general-purpose timer 4: 16 bits wide, on the first peripheral bus.
pub type TIM4 = Peripheral<u16, false>;

/// The general-purpose timer 5: 32 bits wide, on the first peripheral bus.
pub type TIM5 = Peripheral<u32, false>;

/// The basic timer 6: 16 bits wide, on the first peripheral bus.
pub type TIM6 = Peripheral<u16, false>;

/// The basic timer 7: 16 bits wide, on the first peripheral bus.
pub type TIM7 = Peripheral<u16, false>;

/// The advanced-control timer 8: 16 bits wide, on the second peripheral bus.
pub type TIM8 = Peripheral<u16, true>;

/// The general-purpose timer 9: 16 bits wide, on the second peripheral bus.
pub type TIM9 = Peripheral<u16, true>;

/// The general-purpose timer 10: 16 bits wide, on the second peripheral bus.
pub type TIM10 = Peripheral<u16, true>;

/// The general-purpose timer 11: 16 bits wide, on the second peripheral bus.
pub type TIM11 = Peripheral<u16, true>;

/// The general-purpose timer 12: 16 bits wide, on the first peripheral bus.
pub type TIM12 = Peripheral<u16, false>;

/// The general-purpose timer 13: 16 bits wide, on the first peripheral bus.
pub type TIM13 = Peripheral<u16, false>;

/// The general-purpose timer 14: 16 bits wide, on the first peripheral bus.
pub type TIM14 = Peripheral<u16, false>;

/// A timer peripheral that counts in `W`, clocked from the second peripheral
/// bus if `APB2`, else from the first.
pub struct Peripheral<W: CounterWidth, const APB2: bool> {
    clocked: bool,
    enabled: bool,
    cnt: W,
    div: u16,
    psc: u16,
    arr: W,
    active_psc: u16,
    active_arr: W,
    uif: bool,
    uie: bool,
}

impl<W: CounterWidth, const APB2: bool> Peripheral<W, APB2> {
    #[verifier::type_invariant]
    spec fn inv(self) -> bool {
        self.model().wf(W::limit())
    }

    spec fn model(self) -> TimerState {
        TimerState {
            enabled: self.enabled,
            count: self.cnt.value(),
            divided: self.div,
            prescaler: self.psc,
            auto_reload: self.arr.value(),
            active_prescaler: self.active_psc,
            active_auto_reload: self.active_arr.value(),
            update_flag: self.uif,
            update_interrupt: self.uie,
        }
    }

    /// A peripheral as it is after power-up: not clocked, its registers at
    /// their reset values.
    pub fn new() -> (p: Self)
        ensures
            p.state() == TimerState::reset(W::limit()),
            !p.clocked(),
    {
        let top: u32 = W::max_value();
        Peripheral {
            clocked: false,
            enabled: false,
            cnt: W::narrow(0),
            div: 0,
            psc: 0,
            arr: W::narrow(top),
            active_psc: 0,
            active_arr: W::narrow(top),
            uif: false,
            uie: false,
        }
    }

    /// Reads all registers at once.
    pub fn registers(&self) -> (s: TimerState)
        ensures
            s == self.state(),
            s.wf(W::limit()),
    {
        proof {
            use_type_invariant(self);
        }
        TimerState {
            enabled: self.enabled,
            count: self.cnt.widen(),
            divided: self.div,
            prescaler: self.psc,
            auto_reload: self.arr.widen(),
            active_prescaler: self.active_psc,
            active_auto_reload: self.active_arr.widen(),
            update_flag: self.uif,
            update_interrupt: self.uie,
        }
    }

    /// Tells whether the bus clock of the peripheral is switched on.
    pub fn is_clocked(&self) -> (b: bool)
        ensures
            b == self.clocked(),
    {
        self.clocked
    }

    /// Lets one tick of the divided clock pass.
    pub fn tick(&mut self)
        ensures
            final(self).state() == old(self).state().tick(),
            final(self).clocked() == old(self).clocked(),
    {
        proof {
            use_type_invariant(&*self);
        }
        if self.enabled {
            let count: u32 = self.cnt.widen();
            if count > 0 {
                self.cnt = W::narrow(count - 1);
            } else {
                *self = Peripheral {
                    cnt: self.arr,
                    div: 0,
                    active_psc: self.psc,
                    active_arr: self.arr,
                    uif: true,
                    ..*self
                };
            }
        }
    }

    /// Lets one cycle of the peripheral's clock pass.
    pub fn cycle(&mut self)
        ensures
            final(self).state() == old(self).state().cycle(),
            final(self).clocked() == old(self).clocked(),
    {
        proof {
            use_type_invariant(&*self);
        }
        if self.enabled {
            if self.div < self.active_psc {
                self.div = self.div + 1;
            } else {
                self.div = 0;
                self.tick();
            }
        }
    }

    /// Lets `n` cycles of the peripheral's clock pass.
    pub fn run(&mut self, n: u32)
        ensures
            final(self).state() == old(self).state().run(n as nat),
            final(self).clocked() == old(self).clocked(),
    {
        let mut left: u32 = n;
        while left > 0
            invariant
                self.state().run(left as nat) == old(self).state().run(n as nat),
                self.clocked() == old(self).clocked(),
            decreases left,
        {
            self.cycle();
            left = left - 1;
        }
    }

    /// Lets `n` ticks of the divided clock pass.
    pub fn advance(&mut self, n: u32)
        ensures
            final(self).state() == old(self).state().advance(n as nat),
            final(self).clocked() == old(self).clocked(),
    {
        let mut left: u32 = n;
        while left > 0
            invariant
                self.state().advance(left as nat) == old(self).state().advance(n as nat),
                self.clocked() == old(self).clocked(),
            decreases left,
        {
            self.tick();
            left = left - 1;
        }
    }
}

impl<W: CounterWidth, const APB2: bool> General for Peripheral<W, APB2> {
    type Width = W;

    closed spec fn state(&self) -> TimerState {
        self.model()
    }

    fn enable_counter(&mut self)
        ensures
            final(self).clocked() == old(self).clocked(),
    {
        proof {
            use_type_invariant(&*self);
        }
        self.enabled = true;
    }

    fn disable_counter(&mut self)
        ensures
            final(self).clocked() == old(self).clocked(),
    {
        proof {
            use_type_invariant(&*self);
        }
        self.enabled = false;
    }

    fn is_counter_enabled(&self) -> (b: bool) {
        self.enabled
    }

    fn reset_counter(&mut self)
        ensures
            final(self).clocked() == old(self).clocked(),
    {
        proof {
            use_type_invariant(&*self);
        }
        self.cnt = W::narrow(0);
    }

    fn set_prescaler(&mut self, psc: u16)
        ensures
            final(self).clocked() == old(self).clocked(),
    {
        proof {
            use_type_invariant(&*self);
        }
        self.psc = psc;
    }

    fn set_auto_reload(&mut self, arr: u32) -> (r: Result<(), Error>)
        ensures
            final(self).clocked() == old(self).clocked(),
    {
        proof {
            use_type_invariant(&*self);
        }
        if arr > 0 && arr <= W::max_value() {
            self.arr = W::narrow(arr);
            Ok(())
        } else {
            Err(Error::WrongAutoReload)
        }
    }

    fn trigger_update(&mut self)
        ensures
            final(self).clocked() == old(self).clocked(),
    {
        proof {
            use_type_invariant(&*self);
        }
        *self = Peripheral {
            cnt: self.arr,
            div: 0,
            active_psc: self.psc,
            active_arr: self.arr,
            uif: false,
            ..*self
        };
    }

    fn clear_update_interrupt_flag(&mut self)
        ensures
            final(self).clocked() == old(self).clocked(),
    {
        proof {
            use_type_invariant(&*self);
        }
        self.uif = false;
    }

    fn listen_update_interrupt(&mut self, b: bool)
        ensures
            final(self).clocked() == old(self).clocked(),
    {
        proof {
            use_type_invariant(&*self);
        }
        self.uie = b;
    }

    fn get_update_interrupt_flag(&self) -> (b: bool) {
        !self.uif
    }

    fn read_count(&self) -> (w: Self::Width) {
        proof {
            use_type_invariant(self);
        }
        self.cnt
    }

    fn read_auto_reload(&self) -> (w: Self::Width) {
        proof {
            use_type_invariant(self);
        }
        self.active_arr
    }
}

impl<W: CounterWidth, const APB2: bool> Instance for Peripheral<W, APB2> {
    closed spec fn clocked(&self) -> bool {
        self.clocked
    }

    open spec fn timer_frequency(clocks: Clocks) -> Hertz {
        if APB2 {
            clocks.timclk2
        } else {
            clocks.timclk1
        }
    }

    fn get_timer_frequency(clocks: &Clocks) -> (f: Hertz) {
        if APB2 {
            clocks.timclk2()
        } else {
            clocks.timclk1()
        }
    }

    fn enable(&mut self) {
        proof {
            use_type_invariant(&*self);
        }
        self.clocked = true;
    }

    fn reset(&mut self) {
        let top: u32 = W::max_value();
        *self = Peripheral {
            clocked: self.clocked,
            enabled: false,
            cnt: W::narrow(0),
            div: 0,
            psc: 0,
            arr: W::narrow(top),
            active_psc: 0,
            active_arr: W::narrow(top),
            uif: false,
            uie: false,
        };
    }
}

} // verus!
