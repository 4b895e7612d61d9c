//! Register sequences that run from on-chip SRAM while SDRAM cannot be
//! used: the DDR controller bring-up and the system clock switch, which
//! puts SDRAM into self-refresh around the change of clock.

use vstd::prelude::*;
use crate::clock::{
    ClockRecord, ClockSource, ClockSwitch, actual_sys, apb_clock_spec, cpu_clock_spec,
    ddr_refresh_value, pll_ctrl_spec, pll_output_spec, slow_apb_divider, slow_cpu_divider,
    sys_divider, system_clock_in_range, system_clock_khz, system_clock_spec,
};
use crate::registers::{
    AUTOEXSELFREF, DLLEN, LOWFREQ, REF_CMD, REG_AIC_MDCR, REG_APLLCON, REG_AIC_MECR, REG_CKDQSDS, REG_CLKDIV0,
    REG_CLKDIV4, REG_DQSODS, REG_SDCMD, REG_SDEMR, REG_SDMR, REG_SDOPM, REG_SDREF, REG_SDTIME,
    REG_UPLLCON, RegOp, SDRAMSEL, SYSTEM_N0,
};

verus! {

/// The DDR controller bring-up: controller set-up, DQS delay, precharge,
/// mode and extended mode register sets, then normal operation with the
/// size and refresh set.
pub open spec fn ddr_init_plan() -> Seq<RegOp> {
    seq![
        RegOp::Write { addr: 0xB000_0224, value: 0x0000_0E6E },
        RegOp::Write { addr: 0xB000_0220, value: 0x1008_CE6E },
        RegOp::Write { addr: 0xB000_020C, value: 0x0000_0019 },
        RegOp::Write { addr: 0xB000_3030, value: 0x0000_1010 },
        RegOp::Write { addr: 0xB000_3010, value: 0x0000_0005 },
        RegOp::Write { addr: 0xB000_3004, value: 0x0000_0021 },
        RegOp::Write { addr: 0xB000_3004, value: 0x0000_0023 },
        RegOp::Write { addr: 0xB000_3004, value: 0x0000_0027 },
        RegOp::WaitClear { addr: 0xB000_3004, mask: 0x4 },
        RegOp::Write { addr: 0xB000_301C, value: 0x0000_1002 },
        RegOp::Write { addr: 0xB000_3018, value: 0x0000_0122 },
        RegOp::Write { addr: 0xB000_3004, value: 0x0000_0027 },
        RegOp::WaitClear { addr: 0xB000_3004, mask: 0x4 },
        RegOp::Write { addr: 0xB000_3004, value: 0x0000_002B },
        RegOp::WaitClear { addr: 0xB000_3004, mask: 0x8 },
        RegOp::Write { addr: 0xB000_3004, value: 0x0000_002B },
        RegOp::WaitClear { addr: 0xB000_3004, mask: 0x8 },
        RegOp::Write { addr: 0xB000_3018, value: 0x0000_0022 },
        RegOp::Spin { count: 250 },
        RegOp::Write { addr: 0xB000_3004, value: 0x0000_0020 },
        RegOp::Write { addr: 0xB000_3034, value: 0x00AA_AA00 },
        RegOp::Write { addr: 0xB000_3008, value: 0x0000_80C0 },
        RegOp::Write { addr: 0xB000_00A0, value: 0x0000_0000 },
    ]
}

/// The steps of the DDR controller bring-up.
pub fn sys_init_ddr() -> (r: Vec<RegOp>)
    ensures
        r@ == ddr_init_plan(),
{
    let r = vec![
        RegOp::Write { addr: 0xB000_0224, value: 0x0000_0E6E },
        RegOp::Write { addr: 0xB000_0220, value: 0x1008_CE6E },
        RegOp::Write { addr: 0xB000_020C, value: 0x0000_0019 },
        RegOp::Write { addr: 0xB000_3030, value: 0x0000_1010 },
        RegOp::Write { addr: 0xB000_3010, value: 0x0000_0005 },
        RegOp::Write { addr: 0xB000_3004, value: 0x0000_0021 },
        RegOp::Write { addr: 0xB000_3004, value: 0x0000_0023 },
        RegOp::Write { addr: 0xB000_3004, value: 0x0000_0027 },
        RegOp::WaitClear { addr: 0xB000_3004, mask: 0x4 },
        RegOp::Write { addr: 0xB000_301C, value: 0x0000_1002 },
        RegOp::Write { addr: 0xB000_3018, value: 0x0000_0122 },
        RegOp::Write { addr: 0xB000_3004, value: 0x0000_0027 },
        RegOp::WaitClear { addr: 0xB000_3004, mask: 0x4 },
        RegOp::Write { addr: 0xB000_3004, value: 0x0000_002B },
        RegOp::WaitClear { addr: 0xB000_3004, mask: 0x8 },
        RegOp::Write { addr: 0xB000_3004, value: 0x0000_002B },
        RegOp::WaitClear { addr: 0xB000_3004, mask: 0x8 },
        RegOp::Write { addr: 0xB000_3018, value: 0x0000_0022 },
        RegOp::Spin { count: 250 },
        RegOp::Write { addr: 0xB000_3004, value: 0x0000_0020 },
        RegOp::Write { addr: 0xB000_3034, value: 0x00AA_AA00 },
        RegOp::Write { addr: 0xB000_3008, value: 0x0000_80C0 },
        RegOp::Write { addr: 0xB000_00A0, value: 0x0000_0000 },
    ];
    assert(r@ =~= ddr_init_plan());
    r
}

/// The DDR timing writes of clock initialisation, after the bring-up: DQS
/// output delay, clock skew, refresh for the crystal (`ext_khz`), DDR
/// grade-6 timing and CAS latency 2.
pub open spec fn ddr_timing_plan(ext_khz: u32) -> Seq<RegOp> {
    seq![
        RegOp::Write { addr: REG_DQSODS, value: 0x1010 },
        RegOp::Write { addr: REG_CKDQSDS, value: 0x0088_8800 },
        RegOp::Write { addr: REG_SDREF, value: if ext_khz == 12_000 { 0x805Au32 } else { 0x80C0u32 } },
        RegOp::Write { addr: REG_SDTIME, value: 0x094E_7425 },
        RegOp::Write { addr: REG_SDMR, value: 0x22 },
    ]
}

/// The DDR timing writes of clock initialisation.
pub fn init_ddr_timing(ext_khz: u32) -> (r: Vec<RegOp>)
    ensures
        r@ == ddr_timing_plan(ext_khz),
{
    let r = vec![
        RegOp::Write { addr: REG_DQSODS, value: 0x1010 },
        RegOp::Write { addr: REG_CKDQSDS, value: 0x0088_8800 },
        RegOp::Write { addr: REG_SDREF, value: ddr_refresh_value(ext_khz) },
        RegOp::Write { addr: REG_SDTIME, value: 0x094E_7425 },
        RegOp::Write { addr: REG_SDMR, value: 0x22 },
    ];
    assert(r@ =~= ddr_timing_plan(ext_khz));
    r
}

/// The registers a clock switch reads before it writes them.
#[derive(Clone, Copy, Debug)]
pub struct SwitchRegs {
    pub aic_imr: u32,
    pub chipcfg: u32,
    pub sdemr: u32,
    pub sdopm: u32,
    pub sdcmd: u32,
    pub clkdiv0: u32,
    pub clkdiv4: u32,
}

/// Whether the SDRAM is DDR2 (memory type field of CHIPCFG).
pub open spec fn is_ddr2(chipcfg: u32) -> bool {
    chipcfg & SDRAMSEL == 0x20
}

/// SDOPM after the DDR2 low-frequency adjustment.
pub open spec fn sdopm_adjusted(chipcfg: u32, sdopm: u32, hclk_khz: u32) -> u32 {
    if is_ddr2(chipcfg) {
        if hclk_khz < 96_000 {
            sdopm | LOWFREQ
        } else {
            sdopm & !LOWFREQ
        }
    } else {
        sdopm
    }
}

/// SDEMR after the DDR2 low-frequency adjustment.
pub open spec fn sdemr_adjusted(chipcfg: u32, sdemr: u32) -> u32 {
    if is_ddr2(chipcfg) {
        sdemr | DLLEN
    } else {
        sdemr
    }
}

/// The steps of the clock change itself, by source: to the crystal the
/// system divider is set (and DDR low-frequency mode for DDR/DDR2) before
/// the divider byte is cleared; to a PLL (UPLL or APLL) that PLL is
/// reprogrammed, the system source field (bits 4:3) is set to it (3 for
/// UPLL, 2 for APLL) and the system, CPU and APB dividers are set; the
/// 32 kHz source changes nothing.
pub open spec fn switch_source_steps(sw: ClockSwitch, regs: SwitchRegs, sdemr: u32, sdopm: u32) -> Seq<RegOp> {
    match sw.src {
        ClockSource::Ext => {
            let c1 = (regs.clkdiv0 & !SYSTEM_N0) | sw.sys_div;
            seq![RegOp::Write { addr: REG_CLKDIV0, value: c1 }] + (if regs.chipcfg & SDRAMSEL != 0 {
                seq![
                    RegOp::Write { addr: REG_SDEMR, value: sdemr | DLLEN },
                    RegOp::Write { addr: REG_SDOPM, value: sdopm | LOWFREQ },
                ]
            } else {
                seq![]
            }) + seq![RegOp::Write { addr: REG_CLKDIV0, value: c1 & !0xFFu32 }]
        },
        ClockSource::UPll => {
            let c1 = regs.clkdiv0 | 0x02;
            seq![
                RegOp::Write { addr: REG_CLKDIV0, value: c1 },
                RegOp::Write { addr: REG_UPLLCON, value: sw.pll_reg },
                RegOp::Spin { count: 1000 },
                RegOp::Write { addr: REG_CLKDIV0, value: (c1 & !0xF1Fu32) | (0x18u32 | sw.sys_div) },
                RegOp::Write {
                    addr: REG_CLKDIV4,
                    value: (regs.clkdiv4 & !0xF0Fu32) | (sw.cpu_div | (sw.apb_div << 8u32)),
                },
                RegOp::Spin { count: 1000 },
            ]
        },
        ClockSource::APll => {
            let c1 = regs.clkdiv0 | 0x02;
            seq![
                RegOp::Write { addr: REG_CLKDIV0, value: c1 },
                RegOp::Write { addr: REG_APLLCON, value: sw.pll_reg },
                RegOp::Spin { count: 1000 },
                RegOp::Write { addr: REG_CLKDIV0, value: (c1 & !0xF1Fu32) | (0x10u32 | sw.sys_div) },
                RegOp::Write {
                    addr: REG_CLKDIV4,
                    value: (regs.clkdiv4 & !0xF0Fu32) | (sw.cpu_div | (sw.apb_div << 8u32)),
                },
                RegOp::Spin { count: 1000 },
            ]
        },
        ClockSource::X32k => seq![],
    }
}

/// The steps of a system clock switch, assuming each register reads back
/// what was last written to it: all interrupts but one masked, the DDR2
/// low-frequency adjustment, SDRAM into self-refresh, the clock change,
/// self-refresh left, and the interrupt mask restored.
pub open spec fn clock_switch_plan(sw: ClockSwitch, regs: SwitchRegs) -> Seq<RegOp> {
    let sdemr = sdemr_adjusted(regs.chipcfg, regs.sdemr);
    let sdopm = sdopm_adjusted(regs.chipcfg, regs.sdopm, sw.hclk_khz);
    let sdcmd = regs.sdcmd | AUTOEXSELFREF | REF_CMD;
    seq![RegOp::Write { addr: REG_AIC_MDCR, value: 0xFFFF_FFFE }] + (if is_ddr2(regs.chipcfg) {
        seq![
            RegOp::Write { addr: REG_SDEMR, value: sdemr },
            RegOp::Write { addr: REG_SDOPM, value: sdopm },
        ]
    } else {
        seq![]
    }) + seq![RegOp::Spin { count: 100 }, RegOp::Write { addr: REG_SDCMD, value: sdcmd }]
        + switch_source_steps(sw, regs, sdemr, sdopm) + seq![
        RegOp::Spin { count: 1000 },
        RegOp::Write { addr: REG_SDCMD, value: sdcmd & !REF_CMD },
        RegOp::Spin { count: 1000 },
        RegOp::Write { addr: REG_AIC_MECR, value: regs.aic_imr },
    ]
}

fn append_ops(ops: &mut Vec<RegOp>, more: Vec<RegOp>)
    ensures
        final(ops)@ == old(ops)@ + more@,
{
    let mut more = more;
    ops.append(&mut more);
}

/// The steps of a system clock switch to the source, PLL setting and
/// dividers that `sys_set_system_clock` chose.
pub fn sys_clock_switch(sw: &ClockSwitch, regs: SwitchRegs) -> (r: Vec<RegOp>)
    ensures
        r@ == clock_switch_plan(*sw, regs),
{
    let ddr2 = regs.chipcfg & SDRAMSEL == 0x20;
    let mut sdemr = regs.sdemr;
    let mut sdopm = regs.sdopm;
    let mut ops: Vec<RegOp> = vec![RegOp::Write { addr: REG_AIC_MDCR, value: 0xFFFF_FFFE }];
    if ddr2 {
        sdemr = sdemr | DLLEN;
        sdopm = if sw.hclk_khz < 96_000 {
            sdopm | LOWFREQ
        } else {
            sdopm & !LOWFREQ
        };
        append_ops(
            &mut ops,
            vec![
                RegOp::Write { addr: REG_SDEMR, value: sdemr },
                RegOp::Write { addr: REG_SDOPM, value: sdopm },
            ],
        );
    }
    let sdcmd = regs.sdcmd | AUTOEXSELFREF | REF_CMD;
    append_ops(&mut ops, vec![RegOp::Spin { count: 100 }, RegOp::Write { addr: REG_SDCMD, value: sdcmd }]);
    let mid: Vec<RegOp> = match sw.src {
        ClockSource::Ext => {
            let c1 = (regs.clkdiv0 & !SYSTEM_N0) | sw.sys_div;
            let mut m: Vec<RegOp> = vec![RegOp::Write { addr: REG_CLKDIV0, value: c1 }];
            if regs.chipcfg & SDRAMSEL != 0 {
                append_ops(
                    &mut m,
                    vec![
                        RegOp::Write { addr: REG_SDEMR, value: sdemr | DLLEN },
                        RegOp::Write { addr: REG_SDOPM, value: sdopm | LOWFREQ },
                    ],
                );
            }
            m.push(RegOp::Write { addr: REG_CLKDIV0, value: c1 & !0xFF });
            m
        },
        ClockSource::UPll => {
            let c1 = regs.clkdiv0 | 0x02;
            vec![
                RegOp::Write { addr: REG_CLKDIV0, value: c1 },
                RegOp::Write { addr: REG_UPLLCON, value: sw.pll_reg },
                RegOp::Spin { count: 1000 },
                RegOp::Write { addr: REG_CLKDIV0, value: (c1 & !0xF1F) | (0x18 | sw.sys_div) },
                RegOp::Write {
                    addr: REG_CLKDIV4,
                    value: (regs.clkdiv4 & !0xF0F) | (sw.cpu_div | (sw.apb_div << 8)),
                },
                RegOp::Spin { count: 1000 },
            ]
        },
        ClockSource::APll => {
            let c1 = regs.clkdiv0 | 0x02;
            vec![
                RegOp::Write { addr: REG_CLKDIV0, value: c1 },
                RegOp::Write { addr: REG_APLLCON, value: sw.pll_reg },
                RegOp::Spin { count: 1000 },
                RegOp::Write { addr: REG_CLKDIV0, value: (c1 & !0xF1F) | (0x10 | sw.sys_div) },
                RegOp::Write {
                    addr: REG_CLKDIV4,
                    value: (regs.clkdiv4 & !0xF0F) | (sw.cpu_div | (sw.apb_div << 8)),
                },
                RegOp::Spin { count: 1000 },
            ]
        },
        ClockSource::X32k => Vec::new(),
    };
    assert(mid@ =~= switch_source_steps(*sw, regs, sdemr, sdopm));
    append_ops(&mut ops, mid);
    append_ops(
        &mut ops,
        vec![
            RegOp::Spin { count: 1000 },
            RegOp::Write { addr: REG_SDCMD, value: sdcmd & !REF_CMD },
            RegOp::Spin { count: 1000 },
            RegOp::Write { addr: REG_AIC_MECR, value: regs.aic_imr },
        ],
    );
    assert(ops@ =~= clock_switch_plan(*sw, regs));
    ops
}

/// The value a step list writes last to register `addr`, if any.
pub open spec fn last_write(ops: Seq<RegOp>, addr: u32) -> Option<u32>
    decreases ops.len(),
{
    if ops.len() == 0 {
        None
    } else {
        match ops.last() {
            RegOp::Write { addr: a, value } => if a == addr {
                Some(value)
            } else {
                last_write(ops.drop_last(), addr)
            },
            _ => last_write(ops.drop_last(), addr),
        }
    }
}

/// The last write of `a + b` to a register is `b`'s, or else `a`'s.
proof fn lemma_last_write_append(a: Seq<RegOp>, b: Seq<RegOp>, addr: u32)
    ensures
        last_write(a + b, addr) == match last_write(b, addr) {
            Some(v) => Some(v),
            None => last_write(a, addr),
        },
    decreases b.len(),
{
    if b.len() == 0 {
        assert(a + b =~= a);
    } else {
        assert((a + b).drop_last() =~= a + b.drop_last());
        assert((a + b).last() == b.last());
        lemma_last_write_append(a, b.drop_last(), addr);
    }
}

/// Field values of the CLKDIV0 and CLKDIV4 words a PLL switch writes.
proof fn lemma_switch_fields(c0: u32, c4: u32, f: u32, sd: u32, cd: u32, ad: u32)
    by (bit_vector)
    requires
        f == 0x18 || f == 0x10,
        sd <= 7,
        cd <= 15,
        ad <= 15,
    ensures
        ((((c0 | 0x02) & !0xF1Fu32) | (f | sd)) & 0x18) >> 3 == f >> 3,
        (((c0 | 0x02) & !0xF1Fu32) | (f | sd)) & 0x7 == sd,
        ((c4 & !0xF0Fu32) | (cd | (ad << 8))) & 0xF == cd,
        (((c4 & !0xF0Fu32) | (cd | (ad << 8))) & 0xF00) >> 8 == ad,
        (0x18u32 >> 3) == 3 && (0x10u32 >> 3) == 2,
{
}

/// After a successful PLL-sourced `sys_set_system_clock`, the registers
/// its last clock switch leaves programmed give back the frequencies it
/// recorded: the system clock (CLKDIV0 source and divider over the PLL
/// word), the CPU clock and the APB clock (CLKDIV4) equal the recorded
/// system, CPU and APB frequencies.  This holds when the CPU runs at most
/// twice HCLK, the PLL reaches the requested frequency exactly and the
/// chosen dividers fit their fields (system divider at most 7, APB divider
/// at most 15).  `apllcon`/`upllcon` are the words of the PLL not switched
/// to, `regs` the registers read before the switch.
pub proof fn lemma_clock_switch_matches_record(
    rec: ClockRecord,
    ext: u32,
    src: ClockSource,
    pll: u32,
    sys: u32,
    cpu: u32,
    hclk: u32,
    apb: u32,
    regs: SwitchRegs,
    apllcon: u32,
    upllcon: u32,
)
    requires
        system_clock_in_range(src, pll, sys, cpu, hclk, apb),
        src == ClockSource::UPll || src == ClockSource::APll,
        system_clock_spec(rec, ext, src, pll, sys, cpu, hclk, apb).1 is Ok,
        cpu <= hclk * 2,
        pll_output_spec(pll_ctrl_spec(ext as int, pll as int) as u32, ext) == pll,
        sys_divider(pll as int, sys as int) <= 7,
        slow_apb_divider(actual_sys(pll as int, sys as int), apb as int) <= 15,
    ensures
        ({
            let out = system_clock_spec(rec, ext, src, pll, sys, cpu, hclk, apb);
            let sw = out.0.last();
            let r = out.2;
            let plan = clock_switch_plan(sw, regs);
            let pll_addr = if src == ClockSource::UPll {
                REG_UPLLCON
            } else {
                REG_APLLCON
            };
            let u2 = if src == ClockSource::UPll {
                sw.pll_reg
            } else {
                upllcon
            };
            let a2 = if src == ClockSource::APll {
                sw.pll_reg
            } else {
                apllcon
            };
            &&& last_write(plan, pll_addr) == Some(sw.pll_reg)
            &&& last_write(plan, REG_CLKDIV0) is Some
            &&& last_write(plan, REG_CLKDIV4) is Some
            &&& system_clock_khz(ext, last_write(plan, REG_CLKDIV0)->Some_0, a2, u2) == r.sys_khz
            &&& cpu_clock_spec(
                ext,
                last_write(plan, REG_CLKDIV0)->Some_0,
                last_write(plan, REG_CLKDIV4)->Some_0,
                a2,
                u2,
            ) == r.cpu_khz
            &&& apb_clock_spec(r.cpu_khz, last_write(plan, REG_CLKDIV4)->Some_0) == r.apb_khz
        }),
{
    let out = system_clock_spec(rec, ext, src, pll, sys, cpu, hclk, apb);
    let s = actual_sys(pll as int, sys as int);
    let sd = sys_divider(pll as int, sys as int);
    let cd = slow_cpu_divider(s, cpu as int);
    let ad = slow_apb_divider(s, apb as int);
    crate::clock::lemma_actual_sys_bounded(pll as int, sys as int);
    vstd::arithmetic::div_mod::lemma_div_is_ordered(cpu as int, s, cpu as int);
    vstd::arithmetic::div_mod::lemma_div_by_self(cpu as int);
    assert(0 <= cd <= 1);
    assert(s / (apb as int) >= 2);
    assert(0 <= ad);
    assert(sd >= 0) by {
        vstd::arithmetic::div_mod::lemma_div_is_ordered(sys as int, pll as int, sys as int);
        vstd::arithmetic::div_mod::lemma_div_by_self(sys as int);
    }
    let sw = out.0.last();
    assert(sw.sys_div == sd && sw.cpu_div == cd && sw.apb_div == ad);
    assert(sw.pll_reg == pll_ctrl_spec(ext as int, pll as int) as u32);
    assert(sw.src == src);
    let sdemr = sdemr_adjusted(regs.chipcfg, regs.sdemr);
    let sdopm = sdopm_adjusted(regs.chipcfg, regs.sdopm, sw.hclk_khz);
    let sdcmd = regs.sdcmd | AUTOEXSELFREF | REF_CMD;
    let head = seq![RegOp::Write { addr: REG_AIC_MDCR, value: 0xFFFF_FFFE }] + (if is_ddr2(
        regs.chipcfg,
    ) {
        seq![
            RegOp::Write { addr: REG_SDEMR, value: sdemr },
            RegOp::Write { addr: REG_SDOPM, value: sdopm },
        ]
    } else {
        seq![]
    }) + seq![RegOp::Spin { count: 100 }, RegOp::Write { addr: REG_SDCMD, value: sdcmd }];
    let mid = switch_source_steps(sw, regs, sdemr, sdopm);
    let tail = seq![
        RegOp::Spin { count: 1000 },
        RegOp::Write { addr: REG_SDCMD, value: sdcmd & !REF_CMD },
        RegOp::Spin { count: 1000 },
        RegOp::Write { addr: REG_AIC_MECR, value: regs.aic_imr },
    ];
    let plan = clock_switch_plan(sw, regs);
    assert(plan == head + mid + tail);
    let f: u32 = if src == ClockSource::UPll {
        0x18
    } else {
        0x10
    };
    let c0 = ((regs.clkdiv0 | 0x02) & !0xF1Fu32) | (f | sw.sys_div);
    let c4 = (regs.clkdiv4 & !0xF0Fu32) | (sw.cpu_div | (sw.apb_div << 8u32));
    let pll_addr = if src == ClockSource::UPll {
        REG_UPLLCON
    } else {
        REG_APLLCON
    };
    assert(last_write(tail, REG_CLKDIV0) == None::<u32> && last_write(tail, REG_CLKDIV4) == None::<
        u32,
    > && last_write(tail, pll_addr) == None::<u32>) by {
        reveal_with_fuel(last_write, 5);
    }
    assert(last_write(mid, REG_CLKDIV0) == Some(c0) && last_write(mid, REG_CLKDIV4) == Some(c4)
        && last_write(mid, pll_addr) == Some(sw.pll_reg)) by {
        reveal_with_fuel(last_write, 7);
    }
    lemma_last_write_append(head + mid, tail, REG_CLKDIV0);
    lemma_last_write_append(head + mid, tail, REG_CLKDIV4);
    lemma_last_write_append(head + mid, tail, pll_addr);
    lemma_last_write_append(head, mid, REG_CLKDIV0);
    lemma_last_write_append(head, mid, REG_CLKDIV4);
    lemma_last_write_append(head, mid, pll_addr);
    lemma_switch_fields(regs.clkdiv0, regs.clkdiv4, f, sw.sys_div, sw.cpu_div, sw.apb_div);
    // frequencies
    vstd::arithmetic::div_mod::lemma_div_denominator(s, 2, ad + 1);
    assert((ad + 1) * 2 == 2 * (ad + 1)) by (nonlinear_arith);
    let r = out.2;
    assert(r.apb_khz == (s / ((ad + 1) * 2)) as u32);
    assert(r.cpu_khz == (s / (cd + 1)) as u32);
    assert(c4 & 0xF == cd);
    assert((c4 & 0xF00) >> 8 == ad);
    vstd::arithmetic::div_mod::lemma_div_is_ordered_by_denominator(s, 1, 2);
    vstd::arithmetic::div_mod::lemma_div_is_ordered_by_denominator(s / 2, 1, ad + 1);
    if cd == 1 {
        assert(r.cpu_khz == s / 2);
        assert(crate::clock::hclk1_spec(r.cpu_khz, c4) == s / 2);
    } else {
        assert(r.cpu_khz == s);
        assert(crate::clock::hclk1_spec(r.cpu_khz, c4) == s / 2);
    }
    assert(apb_clock_spec(r.cpu_khz, c4) == (s / 2) / (ad + 1));
}

} // verus!
