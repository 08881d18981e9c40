use stm32f4_timer::rcc::Clocks;
use stm32f4_timer::time::{Hertz, TimerDurationU32};
use stm32f4_timer::timer::{
    CountDownTimer, Error, Event, General, Instance, NbError, Peripheral, Timer, TimerState, TIM1,
    TIM2, TIM5,
};

fn clocks() -> Clocks {
    Clocks {
        sysclk: Hertz(84_000_000),
        hclk: Hertz(84_000_000),
        timclk1: Hertz(42_000_000),
        timclk2: Hertz(84_000_000),
    }
}

fn micros_on_tim1() -> CountDownTimer<TIM1, 1_000_000> {
    Timer::new(TIM1::new(), &clocks()).count_down_us()
}

#[test]
fn a_new_peripheral_is_in_its_reset_state() {
    let tim = TIM1::new();
    assert!(!tim.is_clocked());
    assert_eq!(
        tim.registers(),
        TimerState {
            enabled: false,
            count: 0,
            divided: 0,
            prescaler: 0,
            auto_reload: 0xffff,
            active_prescaler: 0,
            active_auto_reload: 0xffff,
            update_flag: false,
            update_interrupt: false,
        }
    );
    let wide = TIM5::new();
    assert_eq!(wide.registers().auto_reload, 0xffff_ffff);
    assert_eq!(wide.registers().active_auto_reload, 0xffff_ffff);
}

#[test]
fn timer_new_switches_on_and_resets_the_peripheral() {
    let mut tim = TIM1::new();
    tim.set_prescaler(7);
    assert_eq!(tim.set_auto_reload(100), Ok(()));
    tim.trigger_update();
    tim.enable_counter();
    tim.listen_update_interrupt(true);
    tim.advance(101);
    assert!(tim.registers().update_flag);
    let timer = Timer::new(tim, &clocks());
    let tim = timer.count_down::<84_000_000>().release();
    assert!(tim.is_clocked());
    assert_eq!(tim.registers(), TIM1::new().registers());
}

#[test]
fn the_bus_decides_the_frequency() {
    assert_eq!(TIM1::get_timer_frequency(&clocks()), Hertz(84_000_000));
    assert_eq!(TIM2::get_timer_frequency(&clocks()), Hertz(42_000_000));
    assert_eq!(Peripheral::<u32, true>::get_timer_frequency(&clocks()), Hertz(84_000_000));
}

#[test]
fn the_divider_is_the_ratio_less_one() {
    let tim = Timer::new(TIM1::new(), &clocks()).count_down::<1_000_000>().release();
    assert_eq!(tim.registers().prescaler, 83);
    let tim = Timer::new(TIM2::new(), &clocks()).count_down::<1_000_000>().release();
    assert_eq!(tim.registers().prescaler, 41);
    let tim = Timer::new(TIM2::new(), &clocks()).count_down::<1_000>().release();
    assert_eq!(tim.registers().prescaler, 41_999);
    // the ratio is rounded down
    let tim = Timer::new(TIM1::new(), &clocks()).count_down::<50_000_000>().release();
    assert_eq!(tim.registers().prescaler, 0);
}

#[test]
fn the_divider_at_both_ends_of_its_range() {
    let tim = Timer::new(TIM1::new(), &clocks()).count_down::<84_000_000>().release();
    assert_eq!(tim.registers().prescaler, 0);
    let fast = Clocks { timclk2: Hertz(65_536_000), ..clocks() };
    let tim = Timer::new(TIM1::new(), &fast).count_down::<1_000>().release();
    assert_eq!(tim.registers().prescaler, 65_535);
    let tim = Timer::new(TIM1::new(), &fast).count_down_ms().release();
    assert_eq!(tim.registers().prescaler, 65_535);
}

#[test]
fn count_down_us_and_ms_fix_the_rate() {
    let tim = Timer::new(TIM1::new(), &clocks()).count_down_us().release();
    assert_eq!(tim.registers().prescaler, 83);
    let slow = Clocks { timclk2: Hertz(16_000_000), ..clocks() };
    let tim = Timer::new(TIM1::new(), &slow).count_down_ms().release();
    assert_eq!(tim.registers().prescaler, 15_999);
}

#[test]
fn the_divider_is_staged_until_the_countdown_starts() {
    let mut timer = micros_on_tim1();
    assert_eq!(timer.start(TimerDurationU32::from_ticks(10)), Ok(()));
    let tim = timer.release();
    assert_eq!(tim.registers().active_prescaler, 83);
}

#[test]
fn start_sets_the_period_and_runs_the_counter() {
    let mut timer = micros_on_tim1();
    assert_eq!(timer.start(TimerDurationU32::from_ticks(1000)), Ok(()));
    let tim = timer.release();
    assert_eq!(
        tim.registers(),
        TimerState {
            enabled: false,
            count: 999,
            divided: 0,
            prescaler: 83,
            auto_reload: 999,
            active_prescaler: 83,
            active_auto_reload: 999,
            update_flag: false,
            update_interrupt: false,
        }
    );
}

#[test]
fn wait_completes_after_exactly_the_timeout() {
    for ticks in [2u32, 3, 10, 1000, 65_535, 65_536] {
        let mut timer = micros_on_tim1();
        assert_eq!(timer.start(TimerDurationU32::from_ticks(ticks)), Ok(()));
        assert_eq!(timer.wait(), Err(NbError::WouldBlock));
        timer.advance(ticks - 1);
        assert_eq!(timer.wait(), Err(NbError::WouldBlock));
        timer.advance(1);
        assert_eq!(timer.wait(), Ok(()));
        assert_eq!(timer.wait(), Err(NbError::WouldBlock));
    }
}

#[test]
fn a_tick_takes_as_many_cycles_as_the_divider_says() {
    // 84 MHz divided down to 1 MHz: 84 cycles of the bus clock in one tick
    let mut timer = micros_on_tim1();
    assert_eq!(timer.start(TimerDurationU32::from_ticks(100)), Ok(()));
    timer.run(83);
    assert_eq!(timer.now().ticks(), 0);
    timer.run(1);
    assert_eq!(timer.now().ticks(), 1);
    timer.run(84 * 98);
    assert_eq!(timer.now().ticks(), 99);
    assert_eq!(timer.wait(), Err(NbError::WouldBlock));
    timer.run(83);
    assert_eq!(timer.wait(), Err(NbError::WouldBlock));
    timer.run(1);
    assert_eq!(timer.wait(), Ok(()));
    assert_eq!(timer.now().ticks(), 0);
}

#[test]
fn a_countdown_of_a_millisecond_takes_a_millisecond_of_bus_cycles() {
    // 1000 ticks at 1 MHz on a bus at 84 MHz: 84_000 cycles
    let mut timer = micros_on_tim1();
    assert_eq!(timer.start(TimerDurationU32::from_ticks(1000)), Ok(()));
    timer.run(83_999);
    assert_eq!(timer.wait(), Err(NbError::WouldBlock));
    timer.run(1);
    assert_eq!(timer.wait(), Ok(()));
    // and so does every period after the first
    timer.run(83_999);
    assert_eq!(timer.wait(), Err(NbError::WouldBlock));
    timer.run(1);
    assert_eq!(timer.wait(), Ok(()));
}

#[test]
fn without_a_divider_a_cycle_is_a_tick() {
    let mut timer = Timer::new(TIM1::new(), &clocks()).count_down::<84_000_000>();
    assert_eq!(timer.start(TimerDurationU32::from_ticks(7)), Ok(()));
    timer.run(6);
    assert_eq!(timer.wait(), Err(NbError::WouldBlock));
    timer.run(1);
    assert_eq!(timer.wait(), Ok(()));
}

#[test]
fn a_new_divider_waits_for_the_update_event() {
    let mut tim = TIM1::new();
    assert_eq!(tim.set_auto_reload(2), Ok(()));
    tim.set_prescaler(1);
    tim.trigger_update();
    tim.enable_counter();
    tim.set_prescaler(0);
    // two cycles in a tick until the counter has passed zero
    tim.run(5);
    assert_eq!(tim.registers().count, 0);
    assert_eq!(tim.registers().divided, 1);
    assert_eq!(tim.registers().active_prescaler, 1);
    tim.run(1);
    assert!(tim.registers().update_flag);
    assert_eq!(tim.registers().active_prescaler, 0);
    assert_eq!(tim.registers().count, 2);
    // one cycle in a tick from then on
    tim.run(2);
    assert_eq!(tim.registers().count, 0);
}

#[test]
fn wait_completes_on_a_wide_counter() {
    let mut timer = Timer::new(TIM5::new(), &clocks()).count_down_ms();
    assert_eq!(timer.start(TimerDurationU32::from_ticks(100_000)), Ok(()));
    timer.advance(99_999);
    assert_eq!(timer.wait(), Err(NbError::WouldBlock));
    timer.advance(1);
    assert_eq!(timer.wait(), Ok(()));
}

#[test]
fn start_of_no_ticks_is_refused() {
    let mut timer = micros_on_tim1();
    assert_eq!(timer.start(TimerDurationU32::from_ticks(0)), Err(Error::WrongAutoReload));
    let mut wide = Timer::new(TIM5::new(), &clocks()).count_down_us();
    assert_eq!(wide.start(TimerDurationU32::from_ticks(0)), Err(Error::WrongAutoReload));
}

#[test]
fn start_of_one_tick_is_refused_for_its_period_of_zero() {
    let mut timer = micros_on_tim1();
    assert_eq!(timer.start(TimerDurationU32::from_ticks(1)), Err(Error::WrongAutoReload));
}

#[test]
fn start_is_refused_beyond_the_width_of_the_counter() {
    let mut timer = micros_on_tim1();
    assert_eq!(timer.start(TimerDurationU32::from_ticks(65_536)), Ok(()));
    assert_eq!(timer.start(TimerDurationU32::from_ticks(65_537)), Err(Error::WrongAutoReload));
    assert_eq!(timer.start(TimerDurationU32::from_ticks(u32::MAX)), Err(Error::WrongAutoReload));
    let mut wide = Timer::new(TIM5::new(), &clocks()).count_down_us();
    assert_eq!(wide.start(TimerDurationU32::from_ticks(65_537)), Ok(()));
    assert_eq!(wide.start(TimerDurationU32::from_ticks(u32::MAX)), Ok(()));
}

#[test]
fn a_refused_start_leaves_the_counter_stopped_at_zero() {
    let mut timer = micros_on_tim1();
    assert_eq!(timer.start(TimerDurationU32::from_ticks(50)), Ok(()));
    timer.advance(20);
    assert_eq!(timer.start(TimerDurationU32::from_ticks(0)), Err(Error::WrongAutoReload));
    assert_eq!(timer.cancel(), Err(Error::Disabled));
    let tim = timer.release();
    assert_eq!(tim.registers().count, 0);
    assert_eq!(tim.registers().auto_reload, 49);
    assert!(!tim.registers().enabled);
}

#[test]
fn a_new_start_forgets_the_period_that_had_ended() {
    let mut timer = micros_on_tim1();
    assert_eq!(timer.start(TimerDurationU32::from_ticks(5)), Ok(()));
    timer.advance(5);
    assert_eq!(timer.start(TimerDurationU32::from_ticks(8)), Ok(()));
    assert_eq!(timer.wait(), Err(NbError::WouldBlock));
    timer.advance(7);
    assert_eq!(timer.wait(), Err(NbError::WouldBlock));
    timer.advance(1);
    assert_eq!(timer.wait(), Ok(()));
}

#[test]
fn cancel_needs_a_running_counter() {
    let mut timer = micros_on_tim1();
    assert_eq!(timer.cancel(), Err(Error::Disabled));
    assert_eq!(timer.start(TimerDurationU32::from_ticks(10)), Ok(()));
    assert_eq!(timer.cancel(), Ok(()));
    assert_eq!(timer.cancel(), Err(Error::Disabled));
}

#[test]
fn a_cancelled_countdown_never_ends() {
    let mut timer = micros_on_tim1();
    assert_eq!(timer.start(TimerDurationU32::from_ticks(10)), Ok(()));
    timer.advance(4);
    assert_eq!(timer.cancel(), Ok(()));
    timer.advance(100);
    assert_eq!(timer.wait(), Err(NbError::WouldBlock));
    assert_eq!(timer.now().ticks(), 4);
}

#[test]
fn the_countdown_repeats_by_itself() {
    let mut timer = micros_on_tim1();
    assert_eq!(timer.start(TimerDurationU32::from_ticks(250)), Ok(()));
    for _ in 0..5 {
        timer.advance(249);
        assert_eq!(timer.wait(), Err(NbError::WouldBlock));
        timer.advance(1);
        assert_eq!(timer.wait(), Ok(()));
    }
}

#[test]
fn now_counts_up_from_the_start() {
    let mut timer = micros_on_tim1();
    assert_eq!(timer.start(TimerDurationU32::from_ticks(100)), Ok(()));
    assert_eq!(timer.now().ticks(), 0);
    timer.advance(1);
    assert_eq!(timer.now().ticks(), 1);
    timer.advance(98);
    assert_eq!(timer.now().ticks(), 99);
    timer.advance(1);
    assert_eq!(timer.now().ticks(), 0);
}

#[test]
fn now_before_any_start_reads_the_whole_reset_period() {
    let timer = micros_on_tim1();
    assert_eq!(timer.now().ticks(), 0xffff);
}

#[test]
fn listen_and_unlisten_switch_the_update_interrupt() {
    let mut timer = micros_on_tim1();
    timer.listen(Event::TimeOut);
    let tim = timer.release();
    assert!(tim.registers().update_interrupt);
    let mut timer = Timer::new(tim, &clocks()).count_down_us();
    timer.listen(Event::TimeOut);
    timer.unlisten(Event::TimeOut);
    let tim = timer.release();
    assert!(!tim.registers().update_interrupt);
}

#[test]
fn clear_interrupt_acknowledges_the_end_of_a_period() {
    let mut timer = micros_on_tim1();
    assert_eq!(timer.start(TimerDurationU32::from_ticks(3)), Ok(()));
    timer.advance(3);
    timer.clear_interrupt(Event::TimeOut);
    assert_eq!(timer.wait(), Err(NbError::WouldBlock));
}

#[test]
fn release_stops_the_counter() {
    let mut timer = micros_on_tim1();
    assert_eq!(timer.start(TimerDurationU32::from_ticks(10)), Ok(()));
    let mut tim = timer.release();
    assert!(!tim.is_counter_enabled());
    tim.advance(50);
    assert_eq!(tim.registers().count, 9);
}

#[test]
fn the_peripheral_refuses_a_period_of_zero_or_too_wide() {
    let mut tim = TIM1::new();
    assert_eq!(tim.set_auto_reload(0), Err(Error::WrongAutoReload));
    assert_eq!(tim.set_auto_reload(0x1_0000), Err(Error::WrongAutoReload));
    assert_eq!(tim.registers().auto_reload, 0xffff);
    assert_eq!(tim.set_auto_reload(1), Ok(()));
    assert_eq!(tim.set_auto_reload(0xffff), Ok(()));
    let mut wide = TIM5::new();
    assert_eq!(wide.set_auto_reload(0), Err(Error::WrongAutoReload));
    assert_eq!(wide.set_auto_reload(0x1_0000), Ok(()));
    assert_eq!(wide.set_auto_reload(u32::MAX), Ok(()));
}

#[test]
fn a_staged_period_waits_for_the_update_event() {
    let mut tim = TIM1::new();
    assert_eq!(tim.set_auto_reload(4), Ok(()));
    assert_eq!(tim.read_auto_reload(), 0xffff);
    tim.trigger_update();
    assert_eq!(tim.read_auto_reload(), 4);
    assert_eq!(tim.read_count(), 4);
    tim.enable_counter();
    assert_eq!(tim.set_auto_reload(2), Ok(()));
    tim.advance(4);
    assert_eq!(tim.read_auto_reload(), 4);
    assert_eq!(tim.read_count(), 0);
    assert!(tim.get_update_interrupt_flag());
    tim.tick();
    assert_eq!(tim.read_auto_reload(), 2);
    assert_eq!(tim.read_count(), 2);
    assert!(!tim.get_update_interrupt_flag());
    tim.clear_update_interrupt_flag();
    assert!(tim.get_update_interrupt_flag());
}

#[test]
fn a_stopped_counter_stands_still() {
    let mut tim = TIM1::new();
    tim.advance(1000);
    assert_eq!(tim.registers(), TIM1::new().registers());
    tim.enable_counter();
    tim.reset_counter();
    tim.tick();
    assert!(tim.registers().update_flag);
    tim.disable_counter();
    let before = tim.registers();
    tim.advance(7);
    assert_eq!(tim.registers(), before);
}
