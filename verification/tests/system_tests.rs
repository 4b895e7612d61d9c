use lib::aic::{
    aic_disable_interrupt, aic_dispatch, aic_enable_interrupt, aic_get_ibit_state, aic_install_isr,
    aic_set_global_interrupt, aic_set_interrupt_type, aic_set_local_interrupt, aic_set_priority, exception_vector, scr_reg,
    ExceptionType, IntLevel, IntType, LocalIntState,
};
use lib::cache::{
    cache_disable, cache_enable, cache_get_mode, cache_is_enabled, cache_lock_code,
    cache_unlock_code, lock_select_way, lock_way, sdram_size_mb, CacheMode, CacheState,
};
use lib::ebi::{ebi_set_external_io, ebi_set_timing1, ebi_set_timing2, ext_reg, ExtBusWidth, ExtIo, ExtSize};
use lib::mmu::{heap_grow, mmu_init_table, mmu_section_table, section_desc, MmuState, SECTION_COUNT};
use lib::power::{
    power_down_pll_during_suspend, pll_power_down_requested, sample_power_down, wakeup_miscr_value,
    SuspendRegs, WakeUpSource,
};
use lib::registers::RegOp;
use lib::sys::{register_uart_device, DateTime, FAIL, SUCCESS, WAKEUP_ADC, WAKEUP_GPIO, WAKEUP_KPI, WAKEUP_UART};

#[test]
fn aic_enable_disable_masks() {
    assert_eq!(aic_enable_interrupt(5), Some(1 << 5));
    assert_eq!(aic_disable_interrupt(31), Some(1 << 31));
    assert_eq!(aic_enable_interrupt(0), None);
    assert_eq!(aic_disable_interrupt(32), None);
}

#[test]
fn aic_priority_and_type_fields() {
    assert_eq!(scr_reg(5), scr_reg(4));
    assert_eq!(scr_reg(8) - scr_reg(4), 4);
    let v = aic_set_priority(5, IntLevel::Irq3, 0xFFFF_FFFF).unwrap();
    assert_eq!((v >> 8) & 0x7, 3);
    assert_eq!(v & !0x0700, 0xFFFF_FFFF & !0x0700);
    let t = aic_set_interrupt_type(5, IntType::FallingEdge, v).unwrap();
    assert_eq!((t >> 14) & 0x3, 2);
    assert_eq!((t >> 8) & 0x7, 3);
    assert_eq!(aic_set_priority(0, IntLevel::Irq1, 0), None);
    assert_eq!(aic_set_interrupt_type(40, IntType::LowLevel, 0), None);
}

#[test]
fn aic_install_routes_level_zero_to_fiq() {
    let (scr, fiq) = aic_install_isr(IntLevel::Fiq, 6, 0xFFFF_FFFF);
    assert!(fiq);
    assert_eq!((scr >> 16) & 0x7, 0);
    let (scr, fiq) = aic_install_isr(IntLevel::Irq1, 6, 0);
    assert!(!fiq);
    assert_eq!((scr >> 16) & 0x7, 1);
}

#[test]
fn aic_dispatch_modes() {
    assert_eq!(aic_dispatch(true, 7 << 2, 7, 0), vec![7]);
    assert_eq!(aic_dispatch(true, 7 << 2, 6, 0), Vec::<u32>::new());
    assert_eq!(aic_dispatch(true, 0, 0, 0), Vec::<u32>::new());
    assert_eq!(aic_dispatch(false, 0, 0, (1 << 3) | (1 << 30) | 1), vec![3, 30]);
}

#[test]
fn aic_misc() {
    assert_eq!(exception_vector(ExceptionType::Swi), 0x28);
    assert_eq!(exception_vector(ExceptionType::Undefined), 0x24);
    assert_eq!(aic_set_local_interrupt(LocalIntState::EnableIrq, 0xD3), 0x53);
    assert_eq!(aic_set_local_interrupt(LocalIntState::EnableFiq, 0xD3), 0x93);
    assert_eq!(aic_set_local_interrupt(LocalIntState::EnableBoth, 0xD3), 0x13);
    assert_eq!(aic_set_local_interrupt(LocalIntState::DisableIrq, 0x13), 0x93);
    assert_eq!(aic_set_local_interrupt(LocalIntState::DisableFiq, 0x13), 0x53);
    assert_eq!(aic_set_local_interrupt(LocalIntState::DisableBoth, 0x13), 0xD3);
    assert!(aic_get_ibit_state(aic_set_local_interrupt(LocalIntState::EnableIrq, 0xD3)));
    assert!(!aic_get_ibit_state(aic_set_local_interrupt(LocalIntState::DisableIrq, 0x13)));
    assert!(!aic_get_ibit_state(aic_set_local_interrupt(LocalIntState::EnableFiq, 0xD3)));
    assert_eq!(LocalIntState::DisableIrq.value(), 0x80);
    assert_eq!(IntLevel::Irq7.level(), 7);
    assert!(aic_get_ibit_state(0x13));
    assert!(!aic_get_ibit_state(0x93));
    assert_ne!(aic_set_global_interrupt(true).0, aic_set_global_interrupt(false).0);
    assert_eq!(aic_set_global_interrupt(true).1, 0xFFFF_FFFF);
}

#[test]
fn cache_state_round_trip() {
    let mut st = CacheState::new();
    assert!(!cache_is_enabled(&st));
    assert_eq!(cache_get_mode(&st), CacheMode::Disabled);
    cache_enable(&mut st, CacheMode::WriteThrough);
    assert!(cache_is_enabled(&st));
    assert_eq!(cache_get_mode(&st), CacheMode::WriteThrough);
    cache_disable(&mut st);
    assert!(!cache_is_enabled(&st));
    assert_eq!(CacheMode::Disabled.value(), -1);
}

#[test]
fn sdram_sizes() {
    assert_eq!(sdram_size_mb(0x5, 0x0), 32);
    assert_eq!(sdram_size_mb(0x3, 0x4), 24);
    assert_eq!(sdram_size_mb(0x0, 0x7), 0);
}

#[test]
fn cache_lock_lines() {
    assert_eq!(cache_lock_code(0x1000, 40), vec![0x1000, 0x1010, 0x1020]);
    assert_eq!(cache_lock_code(0x1000, 32), vec![0x1000, 0x1010]);
    assert!(cache_lock_code(0x1000, 0).is_empty());
    assert_eq!(lock_select_way(0), 7);
    assert_eq!(lock_way(0xF), 0x8);
    assert_eq!(cache_unlock_code(0xF), 0x7);
}

#[test]
fn ebi_control_values() {
    assert_ne!(ext_reg(ExtIo::Ext0), ext_reg(ExtIo::Ext1));
    let v = ebi_set_external_io(0x4000_0000, ExtSize::Size1M, ExtBusWidth::Bits16, 0);
    assert_eq!(v & 0x3, 2);
    assert_eq!((v >> 16) & 0x7, 2);
    assert_eq!(v & 0xFFF8_0000, (0x4000_0000u32 << 1) & 0xFFF8_0000);
    let v = ebi_set_external_io(0, ExtSize::Size256K, ExtBusWidth::Disable, 0xFFFF);
    assert_eq!(v, 0xFFFC);
    assert_eq!(ebi_set_timing1(3, 2, 0), (3 << 11) | (2 << 5));
    assert_eq!(ebi_set_timing1(16, 8, 0x1234), 0x1234);
    assert_eq!(ebi_set_timing2(5, 7, 0), (5 << 8) | 7);
    assert_eq!(ebi_set_timing2(8, 9, 0xABCD), 0xABCD);
}

#[test]
fn mmu_table_layout() {
    let t = mmu_section_table();
    assert_eq!(t.len(), SECTION_COUNT);
    assert_eq!(t[0], section_desc(0, true));
    assert_eq!(t[0], 0xC00 | 0x10 | 0x0C | 0x02);
    assert_eq!(t[64], (64 << 20) | 0xC00 | 0x10 | 0x02);
    assert_eq!(t[2048], section_desc(0, false));
    assert_eq!(t[2111] >> 20, 63);
    assert_eq!(t[4095] >> 20, 4095);
}

#[test]
fn heap_growth() {
    assert_eq!(heap_grow(0x1000, 5, 0x2000), Some(0x1008));
    assert_eq!(heap_grow(0x1000, 0, 0x2000), Some(0x1000));
    assert_eq!(heap_grow(0x1FFC, 8, 0x2000), None);
}

#[test]
fn suspend_flag_reads_back() {
    let g = power_down_pll_during_suspend(true, 0x1234);
    assert!(pll_power_down_requested(g));
    assert_eq!(g & !0x0400_0000, 0x1234);
    let g = power_down_pll_during_suspend(false, g);
    assert!(!pll_power_down_requested(g));
    assert_eq!(g, 0x1234);
}

#[test]
fn wakeup_enable_value() {
    assert_eq!(wakeup_miscr_value(WakeUpSource::Uart), 0x0808_0000);
    assert_eq!(wakeup_miscr_value(WakeUpSource::Kpi), 0x8080_0000);
    assert_eq!(WakeUpSource::Rtc.value(), 0x02);
}

#[test]
fn power_down_sequence_with_pll_off() {
    let regs = SuspendRegs {
        gpafun: 0x0400_0000,
        sdopm: 0xFF,
        sdcmd: 0x22,
        clkdiv0: 0x18,
        upllcon: 0x401E,
        apllcon: 0x401E,
        pwrcon: 0x00FF_FF01,
    };
    let ops = sample_power_down(regs);
    assert_eq!(ops.len(), 14);
    assert_eq!(ops[1], RegOp::Write { addr: 0xB000_3004, value: 0x10 });
    assert_eq!(ops[3], RegOp::Write { addr: 0xB000_0224, value: 0x0001_401E });
    assert_eq!(ops[5], RegOp::Write { addr: 0xB000_0200, value: 0xFF03 });
    assert_eq!(ops[6], RegOp::Write { addr: 0xB000_0200, value: 0xFF02 });
    assert_eq!(ops[9], RegOp::Spin { count: 500 });
    assert_eq!(ops[10], RegOp::Write { addr: 0xB000_020C, value: 0x18 });
}

#[test]
fn power_down_sequence_with_pll_on() {
    let regs = SuspendRegs { gpafun: 0, sdopm: 0, sdcmd: 0, clkdiv0: 0, upllcon: 0x0001_0000, apllcon: 0, pwrcon: 0 };
    let ops = sample_power_down(regs);
    assert_eq!(ops.len(), 13);
    assert_eq!(ops[3], RegOp::Write { addr: 0xB000_0224, value: 0 });
    assert_eq!(ops[5], RegOp::Write { addr: 0xB000_0200, value: 0x0002 });
}

#[test]
fn uart_device_registration() {
    assert_eq!(register_uart_device(0), SUCCESS);
    assert_eq!(register_uart_device(1), SUCCESS);
    assert_eq!(register_uart_device(2), -1);
    assert_ne!(SUCCESS, FAIL);
    let d = DateTime { year: 2024, mon: 1, day: 2, hour: 3, min: 4, sec: 5 };
    assert_eq!(d.year, 2024);
}

#[test]
fn wakeup_index_names_source_bit() {
    assert_eq!(WakeUpSource::Gpio.value(), 1 << WAKEUP_GPIO);
    assert_eq!(WakeUpSource::Uart.value(), 1 << WAKEUP_UART);
    assert_eq!(WakeUpSource::Adc.value(), 1 << WAKEUP_ADC);
    assert_eq!(WakeUpSource::Kpi.value(), 1 << WAKEUP_KPI);
}

#[test]
fn mmu_table_built_once() {
    let mut st = MmuState::new();
    let t = mmu_init_table(&mut st).unwrap();
    assert_eq!(t, mmu_section_table());
    assert!(st.initialized);
    assert!(mmu_init_table(&mut st).is_none());
    assert!(st.initialized);
}
