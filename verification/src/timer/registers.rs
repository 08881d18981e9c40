//! The mathematical model of a general-purpose timer peripheral.
//!
//! A peripheral is a down-counter behind a divider. The divider passes on one
//! cycle of the peripheral's clock in `prescaler + 1` as a tick to the
//! counter. The divider and the period of the counter each have a staged and
//! an active copy. Writes go to the staged copies; an update event, forced by
//! software or raised when the counter passes zero, makes them active and
//! restarts the divider and the counter.

use vstd::prelude::*;

verus! {

/// The registers of one timer peripheral, as far as the timers read or write
/// them.
#[derive(Clone, Copy, Debug, PartialEq, Eq, Structural)]
pub struct TimerState {
    /// The counter is running.
    pub enabled: bool,
    /// The live counter value.
    pub count: u32,
    /// The cycles of the peripheral's clock that the divider has taken in
    /// since it last passed a tick on.
    pub divided: u16,
    /// The divider that the next update event makes active.
    pub prescaler: u16,
    /// The period that the next update event makes active.
    pub auto_reload: u32,
    /// The divider that the counter is clocked through.
    pub active_prescaler: u16,
    /// The period that the counter is reloaded with.
    pub active_auto_reload: u32,
    /// A period has ended and has not been acknowledged.
    pub update_flag: bool,
    /// The end of a period raises an interrupt.
    pub update_interrupt: bool,
}

impl TimerState {
    /// What holds of the registers of a peripheral whose counter is `limit`
    /// wide: both periods are in `1..=limit`, the counter is within the
    /// active period, and the divider is within the active divider value.
    pub open spec fn wf(self, limit: u32) -> bool {
        &&& 1 <= self.auto_reload <= limit
        &&& 1 <= self.active_auto_reload <= limit
        &&& self.count <= self.active_auto_reload
        &&& self.divided <= self.active_prescaler
    }

    /// The registers of a peripheral that has just been reset: stopped, with
    /// the longest period, no divider and nothing pending.
    pub open spec fn reset(limit: u32) -> Self {
        TimerState {
            enabled: false,
            count: 0,
            divided: 0,
            prescaler: 0,
            auto_reload: limit,
            active_prescaler: 0,
            active_auto_reload: limit,
            update_flag: false,
            update_interrupt: false,
        }
    }

    /// The counter runs.
    pub open spec fn enable_counter(self) -> Self {
        TimerState { enabled: true, ..self }
    }

    /// The counter stands still.
    pub open spec fn disable_counter(self) -> Self {
        TimerState { enabled: false, ..self }
    }

    /// The counter is back at zero.
    pub open spec fn reset_counter(self) -> Self {
        TimerState { count: 0, ..self }
    }

    /// `psc` is staged as the divider.
    pub open spec fn set_prescaler(self, psc: u16) -> Self {
        TimerState { prescaler: psc, ..self }
    }

    /// Whether a peripheral whose counter is `limit` wide takes `arr` as a
    /// period.
    pub open spec fn accepts_auto_reload(limit: u32, arr: u32) -> bool {
        0 < arr <= limit
    }

    /// `arr` is staged as the period.
    pub open spec fn set_auto_reload(self, arr: u32) -> Self {
        TimerState { auto_reload: arr, ..self }
    }

    /// A forced update event: the staged divider and period become active,
    /// the divider restarts, the counter restarts from the period, and no
    /// ended period is left pending.
    pub open spec fn trigger_update(self) -> Self {
        TimerState {
            count: self.auto_reload,
            divided: 0,
            active_prescaler: self.prescaler,
            active_auto_reload: self.auto_reload,
            update_flag: false,
            ..self
        }
    }

    /// The pending end of a period is acknowledged.
    pub open spec fn clear_update_interrupt_flag(self) -> Self {
        TimerState { update_flag: false, ..self }
    }

    /// The end of a period raises an interrupt if and only if `b`.
    pub open spec fn listen_update_interrupt(self, b: bool) -> Self {
        TimerState { update_interrupt: b, ..self }
    }

    /// One tick of the divided clock. A stopped counter stays as it is. A
    /// running counter above zero steps down. A running counter at zero ends
    /// its period: the update event makes the staged divider and period
    /// active, restarts the divider and the counter, and leaves the end of
    /// the period pending.
    pub open spec fn tick(self) -> Self {
        if !self.enabled {
            self
        } else if self.count > 0 {
            TimerState { count: (self.count - 1) as u32, ..self }
        } else {
            TimerState {
                count: self.auto_reload,
                divided: 0,
                active_prescaler: self.prescaler,
                active_auto_reload: self.auto_reload,
                update_flag: true,
                ..self
            }
        }
    }

    /// `n` ticks of the divided clock, one after the other.
    pub open spec fn advance(self, n: nat) -> Self
        decreases n,
    {
        if n == 0 {
            self
        } else {
            self.tick().advance((n - 1) as nat)
        }
    }

    /// One cycle of the peripheral's clock. While the counter stands still,
    /// so does the divider. A running divider takes the cycle in, or, if it
    /// has taken in as many as the active divider value says, restarts and
    /// passes the cycle on to the counter as a tick.
    pub open spec fn cycle(self) -> Self {
        if !self.enabled {
            self
        } else if self.divided < self.active_prescaler {
            TimerState { divided: (self.divided + 1) as u16, ..self }
        } else {
            (TimerState { divided: 0, ..self }).tick()
        }
    }

    /// `n` cycles of the peripheral's clock, one after the other.
    pub open spec fn run(self, n: nat) -> Self
        decreases n,
    {
        if n == 0 {
            self
        } else {
            self.cycle().run((n - 1) as nat)
        }
    }

    /// Ticks since the counter was last reloaded.
    pub open spec fn elapsed(self) -> int {
        self.active_auto_reload - self.count
    }

    /// Whether a countdown of `ticks` ticks can be started on a peripheral
    /// whose counter is `limit` wide: the period `ticks - 1` must be one that
    /// the peripheral takes.
    pub open spec fn accepts_timeout(limit: u32, ticks: u32) -> bool {
        2 <= ticks <= limit + 1
    }

    /// The registers after an attempt to start a countdown of `ticks` ticks.
    /// The counter is stopped and put back to zero. If the peripheral takes
    /// the period, it is staged, made active by a forced update event, and
    /// the counter runs; if not, nothing more happens.
    pub open spec fn start(self, limit: u32, ticks: u32) -> Self {
        let idle = self.disable_counter().reset_counter();
        if Self::accepts_timeout(limit, ticks) {
            idle.set_auto_reload((ticks - 1) as u32).trigger_update().enable_counter()
        } else {
            idle
        }
    }

    /// The registers after a poll for the end of a period: a pending end is
    /// acknowledged.
    pub open spec fn wait(self) -> Self {
        self.clear_update_interrupt_flag()
    }
}

} // verus!
