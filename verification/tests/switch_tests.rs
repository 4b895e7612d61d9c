use lib::clock::{get_clock, sys_set_system_clock, ClockNode, ClockRecord, ClockSource, ClockSwitch};
use lib::registers::{
    RegOp, REG_AIC_MDCR, REG_AIC_MECR, REG_CLKDIV0, REG_CLKDIV4, REG_SDCMD, REG_SDEMR, REG_SDOPM,
    REG_SDREF, REG_UPLLCON, REG_APLLCON,
};
use lib::switch::{init_ddr_timing, sys_clock_switch, sys_init_ddr, SwitchRegs};

#[test]
fn ddr_bring_up_sequence() {
    let ops = sys_init_ddr();
    assert_eq!(ops.len(), 23);
    assert_eq!(ops[0], RegOp::Write { addr: 0xB000_0224, value: 0x0E6E });
    assert_eq!(ops[8], RegOp::WaitClear { addr: 0xB000_3004, mask: 0x4 });
    assert_eq!(ops[18], RegOp::Spin { count: 250 });
    assert_eq!(ops[22], RegOp::Write { addr: 0xB000_00A0, value: 0 });
}

#[test]
fn ddr_timing_by_crystal() {
    let ops = init_ddr_timing(12_000);
    assert_eq!(ops[2], RegOp::Write { addr: REG_SDREF, value: 0x805A });
    let ops = init_ddr_timing(27_000);
    assert_eq!(ops[2], RegOp::Write { addr: REG_SDREF, value: 0x80C0 });
    assert_eq!(ops.len(), 5);
}

#[test]
fn clock_switch_to_upll_on_ddr2() {
    let sw = ClockSwitch { src: ClockSource::UPll, pll_reg: 0x401E, hclk_khz: 48_000, sys_div: 0, cpu_div: 1, apb_div: 2 };
    let regs = SwitchRegs { aic_imr: 0x55, chipcfg: 0x20, sdemr: 0, sdopm: 0, sdcmd: 0, clkdiv0: 0, clkdiv4: 0 };
    let ops = sys_clock_switch(&sw, regs);
    assert_eq!(ops, vec![
        RegOp::Write { addr: REG_AIC_MDCR, value: 0xFFFF_FFFE },
        RegOp::Write { addr: REG_SDEMR, value: 0x1 },
        RegOp::Write { addr: REG_SDOPM, value: 0x0004_0000 },
        RegOp::Spin { count: 100 },
        RegOp::Write { addr: REG_SDCMD, value: 0x28 },
        RegOp::Write { addr: REG_CLKDIV0, value: 0x02 },
        RegOp::Write { addr: REG_UPLLCON, value: 0x401E },
        RegOp::Spin { count: 1000 },
        RegOp::Write { addr: REG_CLKDIV0, value: 0x18 },
        RegOp::Write { addr: REG_CLKDIV4, value: 0x201 },
        RegOp::Spin { count: 1000 },
        RegOp::Spin { count: 1000 },
        RegOp::Write { addr: REG_SDCMD, value: 0x20 },
        RegOp::Spin { count: 1000 },
        RegOp::Write { addr: REG_AIC_MECR, value: 0x55 },
    ]);
}

#[test]
fn clock_switch_to_crystal_on_ddr() {
    let sw = ClockSwitch { src: ClockSource::Ext, pll_reg: 0, hclk_khz: 96_000, sys_div: 3, cpu_div: 0, apb_div: 0 };
    let regs = SwitchRegs { aic_imr: 0, chipcfg: 0x10, sdemr: 0, sdopm: 0, sdcmd: 0, clkdiv0: 0xFF, clkdiv4: 0 };
    let ops = sys_clock_switch(&sw, regs);
    assert_eq!(ops.len(), 11);
    assert_eq!(ops[3], RegOp::Write { addr: REG_CLKDIV0, value: 0xFB });
    assert_eq!(ops[4], RegOp::Write { addr: REG_SDEMR, value: 1 });
    assert_eq!(ops[5], RegOp::Write { addr: REG_SDOPM, value: 0x0004_0000 });
    assert_eq!(ops[6], RegOp::Write { addr: REG_CLKDIV0, value: 0 });
}

#[test]
fn clock_switch_other_source_changes_no_clock() {
    let sw = ClockSwitch { src: ClockSource::X32k, pll_reg: 0, hclk_khz: 96_000, sys_div: 0, cpu_div: 0, apb_div: 0 };
    let regs = SwitchRegs { aic_imr: 0, chipcfg: 0, sdemr: 0, sdopm: 0, sdcmd: 0, clkdiv0: 0, clkdiv4: 0 };
    let ops = sys_clock_switch(&sw, regs);
    assert_eq!(ops.len(), 7);
}

#[test]
fn clock_switch_to_apll() {
    let sw = ClockSwitch { src: ClockSource::APll, pll_reg: 0x401E, hclk_khz: 48_000, sys_div: 1, cpu_div: 0, apb_div: 3 };
    let regs = SwitchRegs { aic_imr: 0, chipcfg: 0, sdemr: 0, sdopm: 0, sdcmd: 0, clkdiv0: 0x18, clkdiv4: 0 };
    let ops = sys_clock_switch(&sw, regs);
    assert_eq!(ops.len(), 13);
    assert_eq!(ops[4], RegOp::Write { addr: REG_APLLCON, value: 0x401E });
    assert_eq!(ops[6], RegOp::Write { addr: REG_CLKDIV0, value: 0x11 });
    assert_eq!(ops[7], RegOp::Write { addr: REG_CLKDIV4, value: 0x300 });
}

fn last_write(ops: &[RegOp], reg: u32) -> Option<u32> {
    ops.iter().rev().find_map(|op| match *op {
        RegOp::Write { addr, value } if addr == reg => Some(value),
        _ => None,
    })
}

#[test]
fn default_request_programs_recorded_clocks() {
    let mut rec = ClockRecord::new();
    let (switches, res) =
        sys_set_system_clock(&mut rec, 12_000, ClockSource::UPll, 96_000, 96_000, 96_000, 48_000, 24_000);
    assert_eq!(res, Ok(()));
    let regs = SwitchRegs { aic_imr: 0, chipcfg: 0x20, sdemr: 0, sdopm: 0, sdcmd: 0, clkdiv0: 0, clkdiv4: 0 };
    let ops = sys_clock_switch(switches.last().unwrap(), regs);
    let c0 = last_write(&ops, REG_CLKDIV0).unwrap();
    let c4 = last_write(&ops, REG_CLKDIV4).unwrap();
    let upll = last_write(&ops, REG_UPLLCON).unwrap();
    assert_eq!(upll, 0x401E);
    assert_eq!(get_clock(ClockNode::System, 12_000, c0, c4, 0, upll), rec.sys_khz);
    assert_eq!(get_clock(ClockNode::Cpu, 12_000, c0, c4, 0, upll), rec.cpu_khz);
    assert_eq!(get_clock(ClockNode::Pclk, 12_000, c0, c4, 0, upll), 24_000);
    assert_eq!(rec.apb_khz, 24_000);
}
