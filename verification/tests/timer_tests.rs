use lib::timer::{
    interrupt_bit, tcsr_reg, ticr_reg, timer_delay_elapsed, timer_delay_target, wdt_clear,
    wdt_clear_interrupt, wdt_disable, wdt_disable_reset, wdt_enable, wdt_enable_interrupt,
    wdt_enable_reset, wdt_set_interval, TimerChannel, TimerOpMode, TimerPrescaler, TimerState,
    WdtInterval, TIMER_DEFAULT_CLOCK, TIMER_EVENT_COUNT,
};

#[test]
fn new_state_is_idle() {
    let st = TimerState::new();
    assert!(!st.timer_is_initialized(TimerChannel::Timer0));
    assert_eq!(st.timer_get_ticks(TimerChannel::Timer1), 0);
    assert_eq!(st.timer_get_ref_clock(TimerChannel::Timer0), TIMER_DEFAULT_CLOCK);
}

#[test]
fn start_computes_count_and_control() {
    let mut st = TimerState::new();
    let r = st.timer_start(TimerChannel::Timer0, 100, TimerPrescaler::Div1, TimerOpMode::Periodic, 0);
    assert_eq!(r.ticr, 12_000_000 / 100);
    assert_eq!(r.tcsr, (1 | 0xC) << 27);
    assert!(st.timer_is_initialized(TimerChannel::Timer0));
    assert!(!st.timer_is_initialized(TimerChannel::Timer1));
    let r = st.timer_start(TimerChannel::Timer1, 1000, TimerPrescaler::Div4, TimerOpMode::OneShot, 0xFFFF_FFFF);
    assert_eq!(r.ticr, 12_000_000 / 4 / 1000);
    assert_eq!(r.tcsr, 0x87FF_FF00 | (2 << 24) | (0xC << 27));
}

#[test]
fn ref_clock_is_per_channel() {
    let mut st = TimerState::new();
    st.timer_set_ref_clock(TimerChannel::Timer1, 27_000_000);
    assert_eq!(st.timer_get_ref_clock(TimerChannel::Timer1), 27_000_000);
    assert_eq!(st.timer_get_ref_clock(TimerChannel::Timer0), 12_000_000);
}

#[test]
fn event_fires_every_interval() {
    let mut st = TimerState::new();
    st.timer_start(TimerChannel::Timer0, 100, TimerPrescaler::Div1, TimerOpMode::Periodic, 0);
    let id = st.timer_set_event(TimerChannel::Timer0, 3);
    assert_eq!(id, 1);
    let mut fired_at = Vec::new();
    for t in 1..=9u32 {
        let fired = st.timer_tick(TimerChannel::Timer0);
        if fired.contains(&0) {
            fired_at.push(t);
        }
    }
    assert_eq!(fired_at, vec![3, 6, 9]);
    assert_eq!(st.timer_get_ticks(TimerChannel::Timer0), 9);
}

#[test]
fn events_take_first_free_slot() {
    let mut st = TimerState::new();
    assert_eq!(st.timer_set_event(TimerChannel::Timer1, 5), 1);
    assert_eq!(st.timer_set_event(TimerChannel::Timer1, 7), 2);
    st.timer_clear_event(TimerChannel::Timer1, 1);
    assert_eq!(st.timer_set_event(TimerChannel::Timer1, 2), 1);
}

#[test]
fn slots_run_out() {
    let mut st = TimerState::new();
    for i in 0..TIMER_EVENT_COUNT {
        assert_eq!(st.timer_set_event(TimerChannel::Timer0, 1), (i + 1) as u32);
    }
    assert_eq!(st.timer_set_event(TimerChannel::Timer0, 1), 0);
}

#[test]
fn cleared_event_does_not_fire() {
    let mut st = TimerState::new();
    let id = st.timer_set_event(TimerChannel::Timer0, 1);
    st.timer_clear_event(TimerChannel::Timer0, id);
    for _ in 0..5 {
        assert!(st.timer_tick(TimerChannel::Timer0).is_empty());
    }
    // an unknown id is ignored
    st.timer_clear_event(TimerChannel::Timer0, 42);
}

#[test]
fn stop_and_reset_ticks() {
    let mut st = TimerState::new();
    st.timer_start(TimerChannel::Timer0, 100, TimerPrescaler::Div1, TimerOpMode::Periodic, 0);
    st.timer_tick(TimerChannel::Timer0);
    st.timer_tick(TimerChannel::Timer0);
    assert_eq!(st.timer_get_ticks(TimerChannel::Timer0), 2);
    st.timer_reset_ticks(TimerChannel::Timer0);
    assert_eq!(st.timer_get_ticks(TimerChannel::Timer0), 0);
    st.timer_stop(TimerChannel::Timer0);
    assert!(!st.timer_is_initialized(TimerChannel::Timer0));
}

#[test]
fn delay_target_and_wrap() {
    assert_eq!(timer_delay_target(100, 250), 25);
    assert_eq!(timer_delay_target(100, 5), 0);
    assert_eq!(timer_delay_target(u32::MAX, u32::MAX), ((u32::MAX as u64 * u32::MAX as u64 / 1000) as u32));
    assert!(!timer_delay_elapsed(10, 20, 10));
    assert!(timer_delay_elapsed(10, 21, 10));
    assert!(timer_delay_elapsed(u32::MAX - 2, 10, 5));
}

#[test]
fn timer_registers() {
    assert_ne!(tcsr_reg(TimerChannel::Timer0), tcsr_reg(TimerChannel::Timer1));
    assert_eq!(ticr_reg(TimerChannel::Timer1) - ticr_reg(TimerChannel::Timer0), 4);
    assert_eq!(interrupt_bit(TimerChannel::Timer0), 1);
    assert_eq!(interrupt_bit(TimerChannel::Timer1), 2);
}

#[test]
fn watchdog_control_words() {
    assert_eq!(wdt_enable(0, WdtInterval::Sec10, true), 0x20 | 0x80 | 0x02 | 0x04);
    assert_eq!(wdt_enable(0x30, WdtInterval::Ms500, false), 0x80 | 0x02);
    assert_eq!(wdt_disable(0xFF), 0xFF & !0x82);
    assert_eq!(wdt_clear(0), 0x01);
    assert_eq!(wdt_clear_interrupt(0), 0x08);
    assert_eq!(wdt_enable_interrupt(0), 0x40);
    assert_eq!(wdt_set_interval(0xFF, WdtInterval::Sec5), 0xCF | 0x10);
    assert_eq!(wdt_disable_reset(0xFF), 0xFB);
    assert_eq!(wdt_enable_reset(0), 0x04);
}

#[test]
fn fresh_event_fires_k_over_n_times() {
    let mut st = TimerState::new();
    st.timer_set_event(TimerChannel::Timer1, 4);
    let mut count = 0;
    for _ in 0..17 {
        if st.timer_tick(TimerChannel::Timer1).contains(&0) {
            count += 1;
        }
    }
    assert_eq!(count, 17 / 4);
}
