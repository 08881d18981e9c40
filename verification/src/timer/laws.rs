//! What follows from the model of the peripherals: how long a countdown
//! takes, that it repeats, what `now` reads on the way, when `cancel` is
//! refused, and that the monotonic clock measures across a wrap-around.

use vstd::prelude::*;
use crate::timer::registers::TimerState;
use crate::timer::syst::{SystState, SYST_COUNTER_MASK};
use crate::timer::cycles_between;
use crate::timer::count_down::{divider, divides, syst_reload};

verus! {

/// What the divider does to the rate. A peripheral clocked at `clk` hertz
/// steps its counter once in `divider + 1` cycles, and `divider(clk, freq)`
/// is the largest divider with which the counter is not slower than `freq`:
/// `divider + 1` periods of `freq` fit in `clk`, and one more does not. Where
/// `freq` divides `clk`, the counter runs at exactly `freq`.
pub proof fn lemma_divider_sets_the_rate(clk: u32, freq: u32)
    requires
        divides(clk, freq),
    ensures
        divider(clk, freq) == clk / freq - 1,
        (divider(clk, freq) + 1) * freq <= clk < (divider(clk, freq) + 2) * freq,
        clk % freq == 0 ==> (divider(clk, freq) + 1) * freq == clk,
{
    let q = (clk / freq) as int;
    let r = (clk % freq) as int;
    assert(clk == q * freq + r && 0 <= r < freq) by (nonlinear_arith)
        requires
            q == (clk as int) / (freq as int),
            r == (clk as int) % (freq as int),
            freq > 0,
    ;
    assert((q + 1) * freq == q * freq + freq) by (nonlinear_arith);
}

/// Letting `a + b` ticks pass is letting `a` ticks pass and then `b` more.
pub proof fn lemma_advance_split(s: TimerState, a: nat, b: nat)
    ensures
        s.advance(a + b) == s.advance(a).advance(b),
    decreases a,
{
    if a > 0 {
        lemma_advance_split(s.tick(), (a - 1) as nat, b);
        assert(s.advance(a + b) == s.tick().advance((a + b - 1) as nat));
    }
}

/// A running counter that is `k` or more above zero is `k` lower after `k`
/// ticks, and nothing else has changed.
pub proof fn lemma_steps_down(s: TimerState, k: nat)
    requires
        s.enabled,
        k <= s.count,
    ensures
        s.advance(k) == (TimerState { count: (s.count - k) as u32, ..s }),
    decreases k,
{
    if k > 0 {
        lemma_steps_down(s.tick(), (k - 1) as nat);
    }
}

/// A stopped counter stays as it is, however many ticks pass.
pub proof fn lemma_stopped_stands_still(s: TimerState, n: nat)
    requires
        !s.enabled,
    ensures
        s.advance(n) == s,
    decreases n,
{
    if n > 0 {
        lemma_stopped_stands_still(s, (n - 1) as nat);
    }
}

/// The registers right after a countdown of `ticks` ticks was started with
/// success: the counter runs from the period `ticks - 1`, which is both
/// staged and active, and no end of a period is pending.
pub proof fn lemma_started(s: TimerState, limit: u32, ticks: u32)
    requires
        TimerState::accepts_timeout(limit, ticks),
    ensures
        s.start(limit, ticks).enabled,
        s.start(limit, ticks).count == ticks - 1,
        s.start(limit, ticks).auto_reload == ticks - 1,
        s.start(limit, ticks).active_auto_reload == ticks - 1,
        !s.start(limit, ticks).update_flag,
        s.start(limit, ticks).wf(limit),
{
}

/// A countdown of `ticks` ticks ends after exactly `ticks` ticks: a poll
/// after `ticks` ticks finds the end of the period pending, and a poll after
/// any smaller number of ticks, one tick earlier above all, finds nothing.
pub proof fn lemma_countdown_ends_on_time(s: TimerState, limit: u32, ticks: u32, k: nat)
    requires
        TimerState::accepts_timeout(limit, ticks),
        k < ticks,
    ensures
        s.start(limit, ticks).advance(ticks as nat).update_flag,
        !s.start(limit, ticks).advance((ticks - 1) as nat).update_flag,
        !s.start(limit, ticks).advance(k).update_flag,
{
    let started = s.start(limit, ticks);
    lemma_steps_down(started, k);
    lemma_steps_down(started, (ticks - 1) as nat);
    lemma_advance_split(started, (ticks - 1) as nat, 1);
    let at_zero = started.advance((ticks - 1) as nat);
    assert(at_zero.advance(1) == at_zero.tick().advance(0));
}

/// The countdown repeats by itself: once a period has ended and the poll has
/// acknowledged it, `ticks` more ticks bring the registers to where they were
/// when the period ended, with the next end pending, and one tick fewer does
/// not.
pub proof fn lemma_countdown_repeats(s: TimerState, limit: u32, ticks: u32)
    requires
        TimerState::accepts_timeout(limit, ticks),
    ensures
        ({
            let ended = s.start(limit, ticks).advance(ticks as nat);
            &&& ended.update_flag
            &&& ended.wait().advance(ticks as nat) == ended
            &&& !ended.wait().advance((ticks - 1) as nat).update_flag
        }),
{
    let started = s.start(limit, ticks);
    lemma_countdown_ends_on_time(s, limit, ticks, 0);
    lemma_steps_down(started, (ticks - 1) as nat);
    lemma_advance_split(started, (ticks - 1) as nat, 1);
    let at_zero = started.advance((ticks - 1) as nat);
    assert(at_zero.advance(1) == at_zero.tick().advance(0));
    let ended = started.advance(ticks as nat);
    let polled = ended.wait();
    assert(polled == started);
}

/// What `now` reads during a countdown of `ticks` ticks: nothing right after
/// the start, `k` after `k` ticks while the period lasts, and nothing again
/// when the period has ended and the next has begun.
pub proof fn lemma_now_counts_up(s: TimerState, limit: u32, ticks: u32, k: nat)
    requires
        TimerState::accepts_timeout(limit, ticks),
        k < ticks,
    ensures
        s.start(limit, ticks).elapsed() == 0,
        s.start(limit, ticks).advance(k).elapsed() == k,
        s.start(limit, ticks).advance(ticks as nat).elapsed() == 0,
{
    let started = s.start(limit, ticks);
    lemma_steps_down(started, k);
    lemma_steps_down(started, (ticks - 1) as nat);
    lemma_advance_split(started, (ticks - 1) as nat, 1);
    let at_zero = started.advance((ticks - 1) as nat);
    assert(at_zero.advance(1) == at_zero.tick().advance(0));
}

/// Letting `a + b` cycles pass is letting `a` cycles pass and then `b` more.
pub proof fn lemma_run_split(s: TimerState, a: nat, b: nat)
    ensures
        s.run(a + b) == s.run(a).run(b),
    decreases a,
{
    if a > 0 {
        lemma_run_split(s.cycle(), (a - 1) as nat, b);
        assert(s.run(a + b) == s.cycle().run((a + b - 1) as nat));
    }
}

/// A running divider that can take in `j` more cycles before it passes a
/// tick on has taken them in after `j` cycles, and nothing else has changed.
pub proof fn lemma_divider_takes_in(s: TimerState, j: nat)
    requires
        s.enabled,
        s.divided + j <= s.active_prescaler,
    ensures
        s.run(j) == (TimerState { divided: (s.divided + j) as u16, ..s }),
    decreases j,
{
    if j > 0 {
        lemma_divider_takes_in(s.cycle(), (j - 1) as nat);
    }
}

/// A running divider that has just restarted passes one tick on in
/// `active_prescaler + 1` cycles.
pub proof fn lemma_tick_in_cycles(s: TimerState)
    requires
        s.enabled,
        s.divided == 0,
    ensures
        s.run((s.active_prescaler + 1) as nat) == s.tick(),
{
    let p = s.active_prescaler as nat;
    lemma_divider_takes_in(s, p);
    lemma_run_split(s, p, 1);
    let full = s.run(p);
    assert(full.run(1) == full.cycle().run(0));
    assert((TimerState { divided: 0, ..full }) == s);
}

/// While the divider value stays as it is, `n` ticks take `n` times
/// `prescaler + 1` cycles.
pub proof fn lemma_ticks_in_cycles(s: TimerState, n: nat)
    requires
        s.enabled,
        s.divided == 0,
        s.prescaler == s.active_prescaler,
    ensures
        s.run(n * (s.prescaler + 1) as nat) == s.advance(n),
    decreases n,
{
    let step = (s.prescaler + 1) as nat;
    if n > 0 {
        lemma_tick_in_cycles(s);
        lemma_ticks_in_cycles(s.tick(), (n - 1) as nat);
        assert(n * step == step + (n - 1) * step) by (nonlinear_arith);
        lemma_run_split(s, step, ((n - 1) * step) as nat);
    } else {
        assert(n * step == 0) by (nonlinear_arith)
            requires
                n == 0,
        ;
    }
}

/// How long a countdown lasts on the peripheral's clock. With the divider
/// value `prescaler` staged, a countdown of `ticks` ticks ends after exactly
/// `ticks * (prescaler + 1)` cycles: a poll then finds the end of the period
/// pending, and a poll after any smaller number of cycles finds nothing.
pub proof fn lemma_countdown_lasts(s: TimerState, limit: u32, ticks: u32, k: nat)
    requires
        TimerState::accepts_timeout(limit, ticks),
        k < ticks * (s.prescaler + 1),
    ensures
        s.start(limit, ticks).run((ticks * (s.prescaler + 1)) as nat).update_flag,
        !s.start(limit, ticks).run((ticks * (s.prescaler + 1) - 1) as nat).update_flag,
        !s.start(limit, ticks).run(k).update_flag,
{
    let started = s.start(limit, ticks);
    let step = (s.prescaler + 1) as nat;
    lemma_ticks_in_cycles(started, ticks as nat);
    lemma_countdown_ends_on_time(s, limit, ticks, 0);
    lemma_cycles_before_the_end(s, limit, ticks, k);
    assert(ticks * step >= 1) by (nonlinear_arith)
        requires
            ticks >= 2,
            step >= 1,
    ;
    lemma_cycles_before_the_end(s, limit, ticks, (ticks * step - 1) as nat);
}

/// Before the last cycle of a countdown has passed, no end of a period is
/// pending.
proof fn lemma_cycles_before_the_end(s: TimerState, limit: u32, ticks: u32, k: nat)
    requires
        TimerState::accepts_timeout(limit, ticks),
        k < ticks * (s.prescaler + 1),
    ensures
        !s.start(limit, ticks).run(k).update_flag,
{
    let started = s.start(limit, ticks);
    let step = (s.prescaler + 1) as nat;
    let q = k / step;
    let r = k % step;
    assert(k == q * step + r && r < step && q < ticks) by (nonlinear_arith)
        requires
            q == k / step,
            r == k % step,
            step > 0,
            k < ticks * step,
    ;
    lemma_ticks_in_cycles(started, q);
    lemma_steps_down(started, q);
    let between = started.advance(q);
    lemma_divider_takes_in(between, r);
    lemma_run_split(started, q * step, r);
}

/// How long a countdown lasts in time. On a peripheral clocked at `clk`
/// hertz, with the divider for `freq` hertz staged, a countdown of `ticks`
/// ticks ends after exactly `ticks * (clk / freq)` cycles of that clock.
/// Where `freq` divides `clk`, these are the cycles of `ticks / freq`
/// seconds: `freq` times as many make `ticks` times `clk`.
pub proof fn lemma_countdown_keeps_time(s: TimerState, limit: u32, ticks: u32, clk: u32, freq: u32)
    requires
        divides(clk, freq),
        TimerState::accepts_timeout(limit, ticks),
    ensures
        ({
            let started = s.set_prescaler(divider(clk, freq)).start(limit, ticks);
            let cycles = ticks * (clk / freq);
            &&& started.run(cycles as nat).update_flag
            &&& !started.run((cycles - 1) as nat).update_flag
            &&& clk % freq == 0 ==> cycles * freq == ticks * clk
        }),
{
    let staged = s.set_prescaler(divider(clk, freq));
    let per_tick = (clk / freq) as int;
    assert(0 < ticks * per_tick) by (nonlinear_arith)
        requires
            ticks >= 2,
            per_tick >= 1,
    ;
    lemma_countdown_lasts(staged, limit, ticks, 0);
    lemma_divider_sets_the_rate(clk, freq);
    assert(clk % freq == 0 ==> ticks * per_tick * freq == ticks * clk) by (nonlinear_arith)
        requires
            clk % freq == 0 ==> per_tick * freq == clk,
    ;
}

/// When `cancel` is refused. A counter that was reset and never started does
/// not run, so `cancel` fails; neither does setting the divider start it.
/// After a start with success the counter runs, so `cancel` succeeds; and
/// after `cancel` it stands still, so a second `cancel` fails.
pub proof fn lemma_cancel_needs_running_counter(s: TimerState, limit: u32, ticks: u32, psc: u16)
    requires
        TimerState::accepts_timeout(limit, ticks),
    ensures
        !TimerState::reset(limit).enabled,
        !TimerState::reset(limit).set_prescaler(psc).enabled,
        s.start(limit, ticks).enabled,
        !s.start(limit, ticks).disable_counter().enabled,
{
}

/// The monotonic clock measures across a wrap-around: if the cycle counter
/// read `snapshot` and has made `d` cycles since, then the time elapsed since
/// the snapshot comes out as `d` modulo 2^32. So it is `d` itself where `d`
/// is less than 2^32, also where the counter now reads less than it did
/// then; a longer time comes out too short.
pub proof fn lemma_elapsed_across_wraparound(snapshot: u32, d: nat)
    ensures
        cycles_between(snapshot, ((snapshot + d) % 0x1_0000_0000) as u32) == d % 0x1_0000_0000,
        d < 0x1_0000_0000 ==> cycles_between(snapshot, ((snapshot + d) % 0x1_0000_0000) as u32)
            == d,
{
}

/// Letting `a + b` ticks of the system tick clock pass is letting `a` ticks
/// pass and then `b` more.
pub proof fn lemma_syst_advance_split(s: SystState, a: nat, b: nat)
    ensures
        s.advance(a + b) == s.advance(a).advance(b),
    decreases a,
{
    if a > 0 {
        lemma_syst_advance_split(s.tick(), (a - 1) as nat, b);
        assert(s.advance(a + b) == s.tick().advance((a + b - 1) as nat));
    }
}

/// A running system tick counter that is more than `k` above zero is `k`
/// lower after `k` ticks, and nothing else has changed.
pub proof fn lemma_syst_steps_down(s: SystState, k: nat)
    requires
        s.enabled,
        k < s.current,
    ensures
        s.advance(k) == (SystState { current: (s.current - k) as u32, ..s }),
    decreases k,
{
    if k > 0 {
        lemma_syst_steps_down(s.tick(), (k - 1) as nat);
    }
}

/// A system tick countdown whose reload value is `reload`, at least 1, ends
/// after exactly `reload + 1` ticks: the counter, started from zero, has then
/// wrapped, and after any smaller number of ticks it has not.
pub proof fn lemma_syst_countdown_ends_on_time(s: SystState, reload: u32, k: nat)
    requires
        1 <= reload <= SYST_COUNTER_MASK,
        k <= reload,
    ensures
        s.set_reload(reload).clear_current().enable_counter().advance((reload + 1) as nat).wrapped,
        !s.set_reload(reload).clear_current().enable_counter().advance(k).wrapped,
{
    assert(reload <= 0x00ff_ffff ==> reload & 0x00ff_ffff == reload) by (bit_vector);
    let started = s.set_reload(reload).clear_current().enable_counter();
    let loaded = started.tick();
    assert(started.advance(1) == loaded.advance(0));
    if k > 0 {
        lemma_syst_steps_down(loaded, (k - 1) as nat);
        assert(started.advance(k) == loaded.advance((k - 1) as nat));
    }
    lemma_syst_steps_down(loaded, (reload - 1) as nat);
    let at_one = loaded.advance((reload - 1) as nat);
    assert(at_one.advance(1) == at_one.tick().advance(0));
    lemma_syst_advance_split(loaded, (reload - 1) as nat, 1);
    assert(started.advance((reload + 1) as nat) == loaded.advance(reload as nat));
}

/// A system tick countdown of `micros` microseconds at `mhz` ticks in the
/// microsecond, more than one tick in all, ends after exactly `micros * mhz`
/// ticks.
pub proof fn lemma_syst_timeout_in_ticks(s: SystState, micros: u32, mhz: u32)
    requires
        1 <= syst_reload(micros, mhz) <= SYST_COUNTER_MASK,
    ensures
        ({
            let started = s.set_reload(syst_reload(micros, mhz) as u32).clear_current().enable_counter();
            &&& started.advance((micros * mhz) as nat).wrapped
            &&& !started.advance((micros * mhz - 1) as nat).wrapped
        }),
{
    let reload = syst_reload(micros, mhz) as u32;
    lemma_syst_countdown_ends_on_time(s, reload, reload as nat);
}

} // verus!
