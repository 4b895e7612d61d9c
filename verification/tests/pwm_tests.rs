use lib::pwm::{
    ccr_reg, cflr_reg, cmr_reg, cnr_reg, crlr_reg, pdr_reg, pwm_all_int_disabled, pwm_auto_counters,
    pwm_clear_capture_int_status, pwm_dead_zone, pwm_div_code, pwm_divider_for, pwm_enable,
    pwm_get_capture_int_status, pwm_get_counter, pwm_get_falling_counter, pwm_get_int_flag,
    pwm_get_rising_counter, pwm_int_clear, pwm_int_disable, pwm_int_enable, pwm_is_enabled,
    pwm_isr_ack, pwm_isr_pending, pwm_manual_counters, pwm_set_clock_select, pwm_set_counter,
    pwm_set_inverter, pwm_set_io, pwm_set_mode, pwm_set_prescaler, pwm_set_timer_clk, CapChannel,
    CapIntFlag, CapIntType, PwmChannel, PwmClkDiv, PwmClkSetting, PwmDividers, PwmMode, PwmRegs,
};
use lib::registers::{RegOp, REG_CCR0, REG_CCR1, REG_PCR, REG_PIIR, REG_PPR, REG_PWM_CSR};

#[test]
fn channel_registers() {
    assert_eq!(cnr_reg(1) - cnr_reg(0), 12);
    assert_eq!(cmr_reg(3) - cmr_reg(0), 36);
    assert_eq!(pdr_reg(2) - pdr_reg(0), 24);
    assert_eq!(crlr_reg(1) - crlr_reg(0), 8);
    assert_eq!(cflr_reg(0) - crlr_reg(0), 4);
    assert_eq!(ccr_reg(0x12), REG_CCR1);
    assert_eq!(ccr_reg(0x11), REG_CCR0);
    assert_eq!(PwmChannel::Ch2.number(), 2);
    assert_eq!(CapChannel::Cap3.number(), 0x13);
}

#[test]
fn enable_then_is_enabled() {
    let (pcr, ccr) = pwm_enable(2, true, 0, 0x55);
    assert_eq!(pcr, 0x0001_0000);
    assert_eq!(ccr, 0x55);
    assert!(pwm_is_enabled(PwmChannel::Ch2, pcr));
    assert!(!pwm_is_enabled(PwmChannel::Ch1, pcr));
    let (pcr, _) = pwm_enable(2, false, pcr, 0);
    assert!(!pwm_is_enabled(PwmChannel::Ch2, pcr));
}

#[test]
fn enable_capture_channel() {
    let (pcr, ccr) = pwm_enable(0x13, true, 0, 0);
    assert_eq!(pcr, 0x0100_0000);
    assert_eq!(ccr, 0x0008_0000);
    let (_, ccr) = pwm_enable(0x12, false, 0, 0xFFFF_FFFF);
    assert_eq!(ccr, 0xFFFF_FFF7);
}

#[test]
fn io_pins() {
    assert_eq!(pwm_set_io(1, true, 0, 0), (0x2, 0x2 << 2));
    assert_eq!(pwm_set_io(0x13, true, 0, 0xFF), (0x8, 0x3F | (0x2 << 6)));
    assert_eq!(pwm_set_io(3, false, 0xF, 0xFF), (0x7, 0x3F));
}

#[test]
fn counters() {
    assert_eq!(pwm_set_counter(0x11, 500), (cnr_reg(1), 500));
    assert_eq!(pwm_get_counter(0x1234_5678), 0x5678);
    assert_eq!(pwm_get_rising_counter(0xFFFF_0001), 1);
    assert_eq!(pwm_get_falling_counter(0x0000_FFFF), 0xFFFF);
}

#[test]
fn dead_zone_pairs() {
    assert_eq!(pwm_dead_zone(2, 0x40, true, 0, 0), (0x4000_0000, 0x20));
    assert_eq!(pwm_dead_zone(1, 0x40, false, 0xFFFF_FFFF, 0xFF), (0xFF40_FFFF, 0xEF));
}

#[test]
fn inverter_mode_prescaler_select() {
    assert_eq!(pwm_set_inverter(1, true, 0), 0x400);
    assert_eq!(pwm_set_inverter(0x11, true, 0), 0x0001_0000);
    assert_eq!(pwm_set_mode(3, PwmMode::Toggle, 0), 0x0800_0000);
    assert_eq!(pwm_set_mode(0, PwmMode::OneShot, 0xF), 0x7);
    assert_eq!(pwm_set_prescaler(2, 9, 0xFFFF), 0x09FF);
    assert_eq!(pwm_set_prescaler(0, 9, 0xFFFF), 0xFF09);
    assert_eq!(pwm_set_clock_select(2, 4, 0xFFFF_FFFF), 0xFFFF_FCFF);
    assert_eq!(PwmClkDiv::Div1.csr_code(), 4);
    assert_eq!(PwmClkDiv::Div16.divider(), 16);
}

#[test]
fn counter_values() {
    assert_eq!(pwm_manual_counters(1000, 50), (999, 499));
    assert_eq!(pwm_manual_counters(0, 50), (u32::MAX, 0));
    assert_eq!(pwm_manual_counters(1, 50), (0, u32::MAX));
    assert_eq!(pwm_auto_counters(0x10, 200, 25, 999), (199, 49));
    assert_eq!(pwm_auto_counters(0, 200, 25, 1000), (999, 249));
    assert_eq!(pwm_auto_counters(0, 0, 25, 0), (0xFFFF, u32::MAX));
}

#[test]
fn divider_rounding() {
    assert_eq!(pwm_divider_for(0), 1);
    assert_eq!(pwm_divider_for(1), 1);
    assert_eq!(pwm_divider_for(3), 4);
    assert_eq!(pwm_divider_for(5), 8);
    assert_eq!(pwm_divider_for(8), 8);
    assert_eq!(pwm_divider_for(9), 16);
    assert_eq!(pwm_divider_for(16), 16);
    assert_eq!(pwm_divider_for(17), 16);
    assert_eq!(pwm_divider_for(u16::MAX), 16);
    assert_eq!(pwm_div_code(2), 0);
    assert_eq!(pwm_div_code(16), 3);
    assert_eq!(pwm_div_code(5), 4);
}

#[test]
fn timer_clk_manual() {
    let s = PwmClkSetting {
        mode: PwmMode::Toggle,
        high_pulse_ratio: 50,
        inverter: true,
        clock_div: PwmClkDiv::Div2,
        prescale: 10,
        duty: 1000,
    };
    let regs = PwmRegs { pcr: 0, ccr: 0, ppr: 0, csr: 0 };
    let ops = pwm_set_timer_clk(1, &s, None, regs);
    assert_eq!(ops, vec![
        RegOp::Write { addr: REG_PCR, value: 0x400 },
        RegOp::Write { addr: REG_PCR, value: 0xC00 },
        RegOp::Write { addr: REG_PPR, value: 9 },
        RegOp::Write { addr: REG_PWM_CSR, value: 0 << 4 },
        RegOp::Write { addr: cnr_reg(1), value: 999 },
        RegOp::Write { addr: cmr_reg(1), value: 499 },
    ]);
}

#[test]
fn timer_clk_auto_capture() {
    let s = PwmClkSetting {
        mode: PwmMode::OneShot,
        high_pulse_ratio: 10,
        inverter: false,
        clock_div: PwmClkDiv::Div1,
        prescale: 2,
        duty: 0,
    };
    let regs = PwmRegs { pcr: 0xFFFF_FFFF, ccr: 0xFFFF_FFFF, ppr: 0, csr: 0 };
    let d = PwmDividers { pre: 4, div_code: 1, cnr: 5000 };
    let ops = pwm_set_timer_clk(0x12, &s, Some(d), regs);
    assert_eq!(ops[0], RegOp::Write { addr: REG_CCR1, value: 0xFFFF_FFFE });
    assert_eq!(ops[1], RegOp::Write { addr: REG_PCR, value: 0xFFF7_FFFF });
    assert_eq!(ops[2], RegOp::Write { addr: REG_PPR, value: 3 << 8 });
    assert_eq!(ops[3], RegOp::Write { addr: REG_PWM_CSR, value: 1 << 8 });
    assert_eq!(ops[4], RegOp::Write { addr: cnr_reg(2), value: 4999 });
    assert_eq!(ops[5], RegOp::Write { addr: cmr_reg(2), value: 499 });
}

#[test]
fn interrupt_enable_disable_clear() {
    assert_eq!(pwm_int_enable(2, CapIntType::Both, 0), 0x4);
    assert_eq!(pwm_int_enable(0x11, CapIntType::Rising, 0), 1 << 17);
    assert_eq!(pwm_int_enable(0x10, CapIntType::Falling, 0xF), 0x9 | (2 << 1));
    assert_eq!(pwm_int_enable(0x10, CapIntType::Both, 0x8), 0xE);
    assert_eq!(pwm_int_enable(0x13, CapIntType::Both, 0x0008_0000), 0x000E_0000);
    assert_eq!(pwm_int_disable(0x11, CapIntType::Both, 0xFFFF_FFFF, 0), (0xFFF9_FFFF, 0));
    assert_eq!(pwm_int_disable(1, CapIntType::Both, 0xF, 0xF), (0xD, 0xD));
    assert_eq!(pwm_int_disable(0x10, CapIntType::Falling, 0xFF, 0x3), (0xFF & !0x4, 0x3));
    assert!(pwm_all_int_disabled(0xF0, 0x0001_0001, 0));
    assert!(!pwm_all_int_disabled(0, 0x2, 0));
}

#[test]
fn interrupt_flags() {
    assert!(pwm_get_int_flag(3, 0x8));
    assert_eq!(pwm_int_clear(3, 0xF), 0x7);
    assert!(!pwm_get_int_flag(3, pwm_int_clear(3, 0xF)));
    assert!(pwm_get_int_flag(0x11, 0x0010_0000));
    assert_eq!(pwm_int_clear(0x11, 0xFFFF_FFFF), 0xFFEF_FFFF);
}

#[test]
fn capture_status() {
    assert!(pwm_get_capture_int_status(0x11, CapIntFlag::Falling, 1 << 23));
    assert!(!pwm_get_capture_int_status(0x10, CapIntFlag::Rising, 1 << 22));
    assert_eq!(pwm_clear_capture_int_status(0x10, CapIntFlag::Rising, 0), 1 << 6);
}

#[test]
fn isr_order_and_ack() {
    let pending = pwm_isr_pending(0b1010, 0x0010_0010, 0x10);
    assert_eq!(pending, vec![1, 3, 0x10, 0x11, 0x12]);
    assert!(pwm_isr_pending(0, 0, 0).is_empty());
    assert_eq!(pwm_isr_ack(3, 0), (REG_PIIR, 0x8));
    assert_eq!(pwm_isr_ack(0x13, 0xFFFF_FFFF), (REG_CCR1, 0xFFEF_FFFF));
}

#[test]
fn frequency_request_with_large_duty_on_timer() {
    assert_eq!(pwm_auto_counters(0, u32::MAX, 100, 1000), (999, 999));
    let s = PwmClkSetting {
        mode: PwmMode::Toggle,
        high_pulse_ratio: 100,
        inverter: false,
        clock_div: PwmClkDiv::Div1,
        prescale: 2,
        duty: u32::MAX,
    };
    let regs = PwmRegs { pcr: 0, ccr: 0, ppr: 0, csr: 0 };
    let ops = pwm_set_timer_clk(0, &s, Some(PwmDividers { pre: 2, div_code: 4, cnr: 100 }), regs);
    assert_eq!(ops[4], RegOp::Write { addr: cnr_reg(0), value: 99 });
    assert_eq!(ops[5], RegOp::Write { addr: cmr_reg(0), value: 99 });
}
