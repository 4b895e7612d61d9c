use lib::clock::{
    get_apb_clock, get_chip_version, get_clock, get_clock_state, get_cpu_clock, get_external_clock,
    ddr_refresh_value, power_down_pll, set_apb_clock, set_cpu_clock, set_pll_clock,
    switch_to_external_clock, sys_get_pll_ctrl_reg, sys_get_pll_output_khz, sys_set_system_clock,
    sys_set_system_clock_in_range, ClockConfig, ClockError, ClockNode, ClockRecord, ClockSource,
    ClockSwitch,
};

#[test]
fn chip_version_from_id_word() {
    assert_eq!(get_chip_version(0x5042_3238), b'G');
    assert_eq!(get_chip_version(0x1234_5678), b'A');
}

#[test]
fn external_clock_by_chip_and_config() {
    assert_eq!(get_external_clock(b'G', 0), 12_000);
    assert_eq!(get_external_clock(b'A', 0x8), 12_000);
    assert_eq!(get_external_clock(b'A', 0x4), 27_000);
    assert_eq!(get_external_clock(b'A', 0xC), 27_000);
}

#[test]
fn refresh_value_by_crystal() {
    assert_eq!(ddr_refresh_value(12_000), 0x805A);
    assert_eq!(ddr_refresh_value(27_000), 0x80C0);
}

#[test]
fn pll_ctrl_reg_for_96mhz_from_12mhz() {
    let reg = sys_get_pll_ctrl_reg(12_000, 96_000);
    assert_eq!(reg, 0x401E);
    assert_eq!(sys_get_pll_output_khz(reg, 12_000), 96_000);
}

#[test]
fn pll_ctrl_reg_for_192mhz_from_12mhz() {
    let reg = sys_get_pll_ctrl_reg(12_000, 192_000);
    assert_eq!(reg, 30);
    assert_eq!(sys_get_pll_output_khz(reg, 12_000), 192_000);
}

#[test]
fn pll_ctrl_reg_for_97mhz_reaches_target() {
    let reg = sys_get_pll_ctrl_reg(12_000, 97_000);
    assert_eq!(reg, 0x485F);
    assert_eq!(sys_get_pll_output_khz(reg, 12_000), 97_000);
}

#[test]
fn pll_ctrl_reg_unreachable_is_zero() {
    assert_eq!(sys_get_pll_ctrl_reg(12_000, 1_000), 0);
}

#[test]
fn pll_output_powered_down_is_zero() {
    assert_eq!(sys_get_pll_output_khz(0x401E | 0x0001_0000, 12_000), 0);
}

#[test]
fn reference_config_values() {
    let c = ClockConfig::reference();
    assert_eq!(c.src, ClockSource::UPll);
    assert_eq!((c.pll_khz, c.sys_khz, c.cpu_khz, c.hclk_khz, c.apb_khz), (96_000, 96_000, 96_000, 48_000, 24_000));
}

#[test]
fn set_system_clock_reference() {
    let mut rec = ClockRecord::new();
    assert!(sys_set_system_clock_in_range(ClockSource::UPll, 96_000, 96_000, 96_000, 48_000, 24_000));
    let (switches, res) =
        sys_set_system_clock(&mut rec, 12_000, ClockSource::UPll, 96_000, 96_000, 96_000, 48_000, 24_000);
    assert_eq!(res, Ok(()));
    assert_eq!(switches.len(), 2);
    assert_eq!(
        switches[0],
        ClockSwitch { src: ClockSource::UPll, pll_reg: 0, hclk_khz: 48_000, sys_div: 0, cpu_div: 0, apb_div: 1 }
    );
    assert_eq!(
        switches[1],
        ClockSwitch { src: ClockSource::UPll, pll_reg: 0x401E, hclk_khz: 48_000, sys_div: 0, cpu_div: 0, apb_div: 1 }
    );
    let st = get_clock_state(&rec);
    assert_eq!(st.src, ClockSource::UPll);
    assert_eq!((st.pll_khz, st.sys_khz, st.cpu_khz, st.hclk_khz, st.apb_khz), (96_000, 96_000, 96_000, 48_000, 24_000));
    assert_eq!(rec.ext_khz, 12_000);
}

#[test]
fn set_system_clock_fast_cpu() {
    let mut rec = ClockRecord::new();
    assert!(sys_set_system_clock_in_range(ClockSource::UPll, 240_000, 240_000, 120_000, 40_000, 20_000));
    let (switches, res) =
        sys_set_system_clock(&mut rec, 12_000, ClockSource::UPll, 240_000, 240_000, 120_000, 40_000, 20_000);
    assert_eq!(res, Ok(()));
    // cpu divider ceil(240/120)-1 = 1; apb divider 240000/20000/6 - 1 = 1
    assert_eq!(
        switches[0],
        ClockSwitch { src: ClockSource::UPll, pll_reg: 0, hclk_khz: 40_000, sys_div: 0, cpu_div: 1, apb_div: 1 }
    );
    assert!(rec.cpu_over_2x_hclk);
    assert_eq!((rec.sys_khz, rec.cpu_khz, rec.hclk_khz, rec.apb_khz), (240_000, 120_000, 40_000, 20_000));
}

#[test]
fn set_system_clock_errors() {
    let mut rec = ClockRecord::new();
    let (sw, res) = sys_set_system_clock(&mut rec, 12_000, ClockSource::UPll, 96_000, 100_000, 96_000, 48_000, 24_000);
    assert_eq!(res, Err(ClockError::PllTooLow));
    assert!(sw.is_empty());
    let (_, res) = sys_set_system_clock(&mut rec, 12_000, ClockSource::UPll, 96_000, 96_000, 100_000, 48_000, 24_000);
    assert_eq!(res, Err(ClockError::CpuTooHigh));
    let (_, res) = sys_set_system_clock(&mut rec, 12_000, ClockSource::UPll, 96_000, 96_000, 96_000, 100_000, 24_000);
    assert_eq!(res, Err(ClockError::HclkTooHigh));
    let (_, res) = sys_set_system_clock(&mut rec, 12_000, ClockSource::UPll, 96_000, 96_000, 96_000, 48_000, 50_000);
    assert_eq!(res, Err(ClockError::ApbTooHigh));
}

#[test]
fn set_system_clock_slow_cpu_divider_too_large() {
    let mut rec = ClockRecord::new();
    // cpu 30 MHz of a 96 MHz system with HCLK 48 MHz needs a CPU divider of 3
    assert!(sys_set_system_clock_in_range(ClockSource::UPll, 96_000, 96_000, 30_000, 48_000, 24_000));
    let (sw, res) = sys_set_system_clock(&mut rec, 12_000, ClockSource::UPll, 96_000, 96_000, 30_000, 48_000, 24_000);
    assert_eq!(res, Err(ClockError::CpuTooHigh));
    assert!(sw.is_empty());
}

#[test]
fn set_system_clock_invalid_source_and_no_match() {
    let mut rec = ClockRecord::new();
    let (sw, res) = sys_set_system_clock(&mut rec, 12_000, ClockSource::X32k, 96_000, 96_000, 96_000, 48_000, 24_000);
    assert_eq!(res, Err(ClockError::InvalidSource));
    assert_eq!(sw.len(), 1);
    let mut rec = ClockRecord::new();
    let (sw, res) = sys_set_system_clock(&mut rec, 12_000, ClockSource::APll, 1_000, 1_000, 1_000, 500, 250);
    assert_eq!(res, Err(ClockError::PllNoMatch));
    assert_eq!(sw.len(), 1);
    assert_eq!(rec.apll_khz, 1_000);
}

#[test]
fn set_system_clock_external() {
    let mut rec = ClockRecord::new();
    let (sw, res) = sys_set_system_clock(&mut rec, 27_000, ClockSource::Ext, 0, 0, 0, 0, 0);
    assert_eq!(res, Ok(()));
    assert!(sw.is_empty());
    assert_eq!(rec.src, ClockSource::Ext);
    assert_eq!(rec.ext_khz, 27_000);
}

#[test]
fn system_clock_never_faster_than_asked() {
    let mut rec = ClockRecord::new();
    assert!(sys_set_system_clock_in_range(ClockSource::UPll, 100_000, 30_000, 20_000, 15_000, 10_000));
    let (_, res) = sys_set_system_clock(&mut rec, 12_000, ClockSource::UPll, 100_000, 30_000, 20_000, 15_000, 10_000);
    // 100 / ceil(100/30) = 25 MHz
    assert_eq!(res, Ok(()));
    assert_eq!(rec.sys_khz, 25_000);
    assert!(rec.sys_khz <= 30_000);
}

#[test]
fn clock_state_at_reset() {
    let st = get_clock_state(&ClockRecord::new());
    assert_eq!(st.src, ClockSource::Ext);
    assert_eq!(st.pll_khz, 0);
    assert_eq!(st.sys_khz, 120_000);
}

#[test]
fn switch_to_crystal_clears_fields() {
    let (p, c0, c4) = switch_to_external_clock(0xFFFF_FFFF, 0xFFFF_FFFF, 0xFFFF_FFFF);
    assert_eq!(c0 & 0x1F, 0);
    assert_eq!(c4 & 0xF, 0);
    assert_ne!(p, 0xFFFF_FFFF);
}

#[test]
fn pll_set_and_power_down() {
    // UPLL not the system source (CLKDIV0 source field 0): reprogrammed
    let (w, out) = set_pll_clock(ClockSource::UPll, 96_000, 12_000, 0, 0);
    assert_eq!(w, Some(0x401E));
    assert_eq!(out, 96_000);
    // UPLL is the system source: left alone, current output returned
    let (w, out) = set_pll_clock(ClockSource::UPll, 192_000, 12_000, 3 << 3, 0x401E);
    assert_eq!(w, None);
    assert_eq!(out, 96_000);
    assert_eq!(set_pll_clock(ClockSource::Ext, 96_000, 12_000, 0, 0), (None, 0));
    // no divider combination reaches 1 MHz: nothing to write, 0
    assert_eq!(set_pll_clock(ClockSource::UPll, 1_000, 12_000, 0, 0x401E), (None, 0));
    assert_eq!(power_down_pll(ClockSource::UPll, true, 3 << 3, 0x401E), Err(()));
    assert_eq!(power_down_pll(ClockSource::UPll, true, 0, 0x401E), Ok(Some(0x401E | 0x0001_0000)));
    assert_eq!(power_down_pll(ClockSource::APll, false, 2 << 3, 0x0001_401E), Ok(Some(0x401E)));
    assert_eq!(power_down_pll(ClockSource::Ext, true, 0, 5), Ok(None));
}

#[test]
fn cpu_and_apb_clocks() {
    // UPLL 96 MHz selected, N0 = 0, CPU_N = 0, APB_N = 1
    let cpu = get_cpu_clock(12_000, 3 << 3, 0x100, 0, 0x401E);
    assert_eq!(cpu, 96_000);
    assert_eq!(get_apb_clock(cpu, 0x100), 24_000);
    assert_eq!(get_clock(ClockNode::Pclk, 12_000, 3 << 3, 0x100, 0, 0x401E), 24_000);
    assert_eq!(get_clock(ClockNode::UPll, 12_000, 3 << 3, 0x100, 0, 0x401E), 96_000);
    assert_eq!(get_clock(ClockNode::System, 12_000, (3 << 3) | 1, 0x100, 0, 0x401E), 48_000);
    assert_eq!(get_clock(ClockNode::Hclk1, 12_000, 3 << 3, 0x100, 0, 0x401E), 48_000);
    assert_eq!(get_clock(ClockNode::System, 12_000, 1 << 3, 0, 0, 0), 32);
    assert_eq!(get_clock(ClockNode::Cpu, 12_000, 0, 1, 0, 0), 6_000);
}

#[test]
fn set_cpu_clock_ratios() {
    assert_eq!(set_cpu_clock(96_000, 12_000, 3 << 3, 0x101, 0, 0x401E), (Some(0x100), 96_000));
    assert_eq!(set_cpu_clock(48_000, 12_000, 3 << 3, 0x100, 0, 0x401E), (Some(0x101), 48_000));
    let (w, _) = set_cpu_clock(24_000, 12_000, 3 << 3, 0x100, 0, 0x401E);
    assert_eq!(w, None);
}

#[test]
fn set_apb_clock_not_above_target() {
    // CPU 96 MHz with CPU_N = 0: HCLK1 = 48 MHz; 20 MHz asks divider ceil(48/20)-1 = 2
    let (c4, apb) = set_apb_clock(20_000, 96_000, 0);
    assert_eq!(c4, 0x200);
    assert_eq!(apb, 16_000);
    assert!(apb <= 20_000);
    let (c4, apb) = set_apb_clock(24_000, 96_000, 0);
    assert_eq!(c4, 0x100);
    assert_eq!(apb, 24_000);
}
