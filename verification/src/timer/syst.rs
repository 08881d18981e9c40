//! The system tick peripheral: a 24-bit down-counter without a divider,
//! held in memory as plain values.
//!
//! The counter steps down to zero, is reloaded on the tick after that, and
//! notes each arrival at zero in a flag. Every access to the control and status
//! register clears that flag, and so does a write to the counter.

use vstd::prelude::*;

verus! {

/// The largest value that the counter and the reload register hold.
pub const SYST_COUNTER_MASK: u32 = 0x00ff_ffff;

/// The clocks that can step the system tick counter.
#[derive(Clone, Copy, Debug, PartialEq, Eq, Structural)]
pub enum SystClkSource {
    /// The clock of the core.
    Core,
    /// A reference clock from outside the core.
    External,
}

/// The registers of the system tick peripheral.
#[derive(Clone, Copy, Debug, PartialEq, Eq, Structural)]
pub struct SystState {
    /// The counter is running.
    pub enabled: bool,
    /// An arrival at zero raises the system tick interrupt.
    pub interrupt: bool,
    /// The clock that the counter is stepped by.
    pub clock_source: SystClkSource,
    /// The counter has arrived at zero since the flag was last cleared.
    pub wrapped: bool,
    /// The value that the counter is reloaded with.
    pub reload: u32,
    /// The live counter value.
    pub current: u32,
}

impl SystState {
    /// Both the reload value and the counter fit in 24 bits.
    pub open spec fn wf(self) -> bool {
        self.reload <= SYST_COUNTER_MASK && self.current <= SYST_COUNTER_MASK
    }

    /// An access to the control and status register: the flag is cleared.
    pub open spec fn touch(self) -> Self {
        SystState { wrapped: false, ..self }
    }

    /// The counter is stepped by `source`.
    pub open spec fn set_clock_source(self, source: SystClkSource) -> Self {
        SystState { clock_source: source, ..self.touch() }
    }

    /// The counter runs.
    pub open spec fn enable_counter(self) -> Self {
        SystState { enabled: true, ..self.touch() }
    }

    /// The counter stands still.
    pub open spec fn disable_counter(self) -> Self {
        SystState { enabled: false, ..self.touch() }
    }

    /// An arrival at zero raises the interrupt.
    pub open spec fn enable_interrupt(self) -> Self {
        SystState { interrupt: true, ..self.touch() }
    }

    /// An arrival at zero raises no interrupt.
    pub open spec fn disable_interrupt(self) -> Self {
        SystState { interrupt: false, ..self.touch() }
    }

    /// The low 24 bits of `value` are the reload value.
    pub open spec fn set_reload(self, value: u32) -> Self {
        SystState { reload: value & SYST_COUNTER_MASK, ..self }
    }

    /// The counter is at zero and the flag is cleared.
    pub open spec fn clear_current(self) -> Self {
        SystState { current: 0, wrapped: false, ..self }
    }

    /// One tick of the clock. A stopped counter stays as it is. A running
    /// counter at zero is reloaded. A running counter above zero steps down,
    /// and sets the flag if it arrives at zero.
    pub open spec fn tick(self) -> Self {
        if !self.enabled {
            self
        } else if self.current == 0 {
            SystState { current: self.reload, ..self }
        } else {
            SystState {
                current: (self.current - 1) as u32,
                wrapped: self.wrapped || self.current == 1,
                ..self
            }
        }
    }

    /// `n` ticks of the clock, one after the other.
    pub open spec fn advance(self, n: nat) -> Self
        decreases n,
    {
        if n == 0 {
            self
        } else {
            self.tick().advance((n - 1) as nat)
        }
    }
}

/// The system tick peripheral.
pub struct SysTick {
    enabled: bool,
    interrupt: bool,
    clock_source: SystClkSource,
    wrapped: bool,
    reload: u32,
    current: u32,
}

impl SysTick {
    #[verifier::type_invariant]
    spec fn inv(self) -> bool {
        self.state().wf()
    }

    /// The registers of the peripheral.
    pub closed spec fn state(&self) -> SystState {
        SystState {
            enabled: self.enabled,
            interrupt: self.interrupt,
            clock_source: self.clock_source,
            wrapped: self.wrapped,
            reload: self.reload,
            current: self.current,
        }
    }

    /// A peripheral that stands still, stepped by the external clock, with
    /// `reload` and `current` in its two value registers, of which only the
    /// low 24 bits count.
    pub fn new(reload: u32, current: u32) -> (syst: Self)
        ensures
            syst.state() == (SystState {
                enabled: false,
                interrupt: false,
                clock_source: SystClkSource::External,
                wrapped: false,
                reload: reload & SYST_COUNTER_MASK,
                current: current & SYST_COUNTER_MASK,
            }),
    {
        assert(reload & 0x00ff_ffff <= 0x00ff_ffff) by (bit_vector);
        assert(current & 0x00ff_ffff <= 0x00ff_ffff) by (bit_vector);
        SysTick {
            enabled: false,
            interrupt: false,
            clock_source: SystClkSource::External,
            wrapped: false,
            reload: reload & SYST_COUNTER_MASK,
            current: current & SYST_COUNTER_MASK,
        }
    }

    /// Reads all registers at once, as a debugger does: the flag that tells
    /// that the counter has wrapped stays as it is.
    pub fn registers(&self) -> (s: SystState)
        ensures
            s == self.state(),
    {
        SystState {
            enabled: self.enabled,
            interrupt: self.interrupt,
            clock_source: self.clock_source,
            wrapped: self.wrapped,
            reload: self.reload,
            current: self.current,
        }
    }

    /// Puts the counter back to zero and clears the flag that tells that it
    /// has wrapped.
    pub fn clear_current(&mut self)
        ensures
            final(self).state() == old(self).state().clear_current(),
    {
        proof {
            use_type_invariant(&*self);
        }
        *self = SysTick { current: 0, wrapped: false, ..*self };
    }

    /// Stops the counter.
    pub fn disable_counter(&mut self)
        ensures
            final(self).state() == old(self).state().disable_counter(),
    {
        proof {
            use_type_invariant(&*self);
        }
        *self = SysTick { enabled: false, wrapped: false, ..*self };
    }

    /// Lets an arrival at zero raise no interrupt.
    pub fn disable_interrupt(&mut self)
        ensures
            final(self).state() == old(self).state().disable_interrupt(),
    {
        proof {
            use_type_invariant(&*self);
        }
        *self = SysTick { interrupt: false, wrapped: false, ..*self };
    }

    /// Lets the counter run.
    pub fn enable_counter(&mut self)
        ensures
            final(self).state() == old(self).state().enable_counter(),
    {
        proof {
            use_type_invariant(&*self);
        }
        *self = SysTick { enabled: true, wrapped: false, ..*self };
    }

    /// Lets an arrival at zero raise the system tick interrupt.
    pub fn enable_interrupt(&mut self)
        ensures
            final(self).state() == old(self).state().enable_interrupt(),
    {
        proof {
            use_type_invariant(&*self);
        }
        *self = SysTick { interrupt: true, wrapped: false, ..*self };
    }

    /// Reads the live counter value.
    pub fn get_current(&self) -> (value: u32)
        ensures
            value == self.state().current,
            value <= SYST_COUNTER_MASK,
    {
        proof {
            use_type_invariant(self);
        }
        self.current
    }

    /// Reads the value that the counter is reloaded with.
    pub fn get_reload(&self) -> (value: u32)
        ensures
            value == self.state().reload,
            value <= SYST_COUNTER_MASK,
    {
        proof {
            use_type_invariant(self);
        }
        self.reload
    }

    /// Tells whether the counter has arrived at zero since the flag was last
    /// cleared, and clears the flag.
    pub fn has_wrapped(&mut self) -> (wrapped: bool)
        ensures
            wrapped == old(self).state().wrapped,
            final(self).state() == old(self).state().touch(),
    {
        proof {
            use_type_invariant(&*self);
        }
        let wrapped = self.wrapped;
        self.wrapped = false;
        wrapped
    }

    /// Tells whether the counter runs. The flag that tells that the counter
    /// has wrapped is cleared on the way.
    pub fn is_counter_enabled(&mut self) -> (enabled: bool)
        ensures
            enabled == old(self).state().enabled,
            final(self).state() == old(self).state().touch(),
    {
        proof {
            use_type_invariant(&*self);
        }
        self.wrapped = false;
        self.enabled
    }

    /// Chooses the clock that steps the counter.
    pub fn set_clock_source(&mut self, clk_source: SystClkSource)
        ensures
            final(self).state() == old(self).state().set_clock_source(clk_source),
    {
        proof {
            use_type_invariant(&*self);
        }
        *self = SysTick { clock_source: clk_source, wrapped: false, ..*self };
    }

    /// Sets the value that the counter is reloaded with. Of a value wider
    /// than 24 bits the low 24 bits are kept. With the value `N - 1` the
    /// counter wraps every `N` ticks.
    pub fn set_reload(&mut self, value: u32)
        ensures
            final(self).state() == old(self).state().set_reload(value),
    {
        proof {
            use_type_invariant(&*self);
        }
        assert(value & 0x00ff_ffff <= 0x00ff_ffff) by (bit_vector);
        self.reload = value & SYST_COUNTER_MASK;
    }

    /// Lets one tick of the clock pass.
    pub fn tick(&mut self)
        ensures
            final(self).state() == old(self).state().tick(),
    {
        proof {
            use_type_invariant(&*self);
        }
        if self.enabled {
            if self.current == 0 {
                self.current = self.reload;
            } else {
                *self = SysTick {
                    current: self.current - 1,
                    wrapped: self.wrapped || self.current == 1,
                    ..*self
                };
            }
        }
    }

    /// Lets `n` ticks of the clock pass.
    pub fn advance(&mut self, n: u32)
        ensures
            final(self).state() == old(self).state().advance(n as nat),
    {
        let mut left: u32 = n;
        while left > 0
            invariant
                self.state().advance(left as nat) == old(self).state().advance(n as nat),
            decreases left,
        {
            self.tick();
            left = left - 1;
        }
    }
}

} // verus!
