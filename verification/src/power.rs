//! Power management: the register values of the suspend (power-down)
//! sequence, the wake-up source enables, and the flag that asks for the
//! PLLs to be powered down while the system sleeps.

use vstd::prelude::*;
use crate::registers::{
    AUTOEXSELFREF, CKE_H, OPMODE, PD, REG_APLLCON, REG_CLKDIV0, REG_PWRCON, REG_SDCMD, REG_SDOPM,
    REG_UPLLCON, RegOp, SELF_REF, SYSTEM_S,
};

verus! {

/// Wake-up source; each one is a bit of the wake-up enable fields of MISCR.
#[derive(Clone, Copy, PartialEq, Eq, Debug, Structural)]
pub enum WakeUpSource {
    Gpio,
    Rtc,
    Sdh,
    Uart,
    Udc,
    Uhc,
    Adc,
    Kpi,
}

/// The bit of a wake-up source.
pub open spec fn wake_bit(w: WakeUpSource) -> u32 {
    match w {
        WakeUpSource::Gpio => 0x01,
        WakeUpSource::Rtc => 0x02,
        WakeUpSource::Sdh => 0x04,
        WakeUpSource::Uart => 0x08,
        WakeUpSource::Udc => 0x10,
        WakeUpSource::Uhc => 0x20,
        WakeUpSource::Adc => 0x40,
        WakeUpSource::Kpi => 0x80,
    }
}

impl WakeUpSource {
    /// The source's bit value.
    pub fn value(self) -> (r: u32)
        ensures
            r == wake_bit(self),
    {
        match self {
            WakeUpSource::Gpio => 0x01,
            WakeUpSource::Rtc => 0x02,
            WakeUpSource::Sdh => 0x04,
            WakeUpSource::Uart => 0x08,
            WakeUpSource::Udc => 0x10,
            WakeUpSource::Uhc => 0x20,
            WakeUpSource::Adc => 0x40,
            WakeUpSource::Kpi => 0x80,
        }
    }
}

/// SRAM base that holds the power-down code while SDRAM self-refreshes.
pub const PD_RAM_BASE: u32 = 0xFF00_0000;
/// Entry point of the power-down code in SRAM.
pub const PD_RAM_START: u32 = 0xFF00_1000;
/// Bytes of SRAM saved and overwritten by the power-down code.
pub const PD_RAM_SIZE: usize = 0x2000;
/// The unused GPAFUN bit (bit 26) that asks for the PLLs to be powered
/// down during suspend.
pub const PLL_PD_FLAG: u32 = 0x0400_0000;
/// AIC mask-disable value written before suspend: every source but the
/// first is masked.
pub const AIC_MASK_ALL: u32 = 0xFFFF_FFFE;
/// SDCMD value written on wake-up: CKE low, self-refresh left.
pub const SDCMD_EXIT_SELF_REFRESH: u32 = 0x20;
/// Busy-wait iterations for PLL lock after the PLLs were off.
pub const PLL_LOCK_SPIN: u32 = 500;
/// Busy-wait iterations after switching back to the PLL.
pub const CLOCK_SETTLE_SPIN: u32 = 500;
/// Busy-wait iterations after leaving self-refresh.
pub const SELF_REFRESH_EXIT_SPIN: u32 = 100;

/// Whether a GPAFUN value asks for the PLLs to be powered down.
pub open spec fn pll_flag_set(gpafun: u32) -> bool {
    gpafun & PLL_PD_FLAG != 0
}

/// GPAFUN value that records whether the PLLs are to be powered down
/// during suspend; every other bit is kept, and the flag reads back as
/// `power_down`.
pub fn power_down_pll_during_suspend(power_down: bool, gpafun: u32) -> (r: u32)
    ensures
        r == if power_down {
            gpafun | PLL_PD_FLAG
        } else {
            gpafun & !PLL_PD_FLAG
        },
        pll_flag_set(r) == power_down,
        forall|k: u32| k & PLL_PD_FLAG == 0 ==> #[trigger] (r & k) == gpafun & k,
{
    let r = if power_down {
        gpafun | PLL_PD_FLAG
    } else {
        gpafun & !PLL_PD_FLAG
    };
    proof {
        crate::bits::lemma_flag(gpafun, PLL_PD_FLAG, 0);
        assert forall|k: u32| k & PLL_PD_FLAG == 0 implies #[trigger] (r & k) == gpafun & k by {
            crate::bits::lemma_flag(gpafun, PLL_PD_FLAG, k);
        }
    }
    r
}

/// Whether a GPAFUN value asks for the PLLs to be powered down.
pub fn pll_power_down_requested(gpafun: u32) -> (r: bool)
    ensures
        r == pll_flag_set(gpafun),
{
    gpafun & PLL_PD_FLAG != 0
}

/// SDOPM value for self-refresh: open page mode off.
pub fn self_refresh_sdopm(sdopm: u32) -> (r: u32)
    ensures
        r == sdopm & !OPMODE,
{
    sdopm & !OPMODE
}

/// SDCMD value that enters self-refresh: auto-exit and CKE high cleared,
/// the self-refresh command set.
pub fn self_refresh_sdcmd(sdcmd: u32) -> (r: u32)
    ensures
        r == (sdcmd & !(AUTOEXSELFREF | CKE_H)) | SELF_REF,
{
    (sdcmd & !(AUTOEXSELFREF | CKE_H)) | SELF_REF
}

/// CLKDIV0 value with the system clock taken from the external crystal.
pub fn select_crystal_clkdiv0(clkdiv0: u32) -> (r: u32)
    ensures
        r == clkdiv0 & !SYSTEM_S,
{
    clkdiv0 & !SYSTEM_S
}

/// CLKDIV0 value with the system clock taken from the PLL again.
pub fn select_pll_clkdiv0(clkdiv0: u32) -> (r: u32)
    ensures
        r == clkdiv0 | SYSTEM_S,
{
    clkdiv0 | SYSTEM_S
}

/// PLL control value on the way into suspend: powered down when the flag
/// asks for it, powered up otherwise.
pub fn suspend_pll_value(pllcon: u32, pll_off: bool) -> (r: u32)
    ensures
        r == if pll_off {
            pllcon | PD
        } else {
            pllcon & !PD
        },
{
    if pll_off {
        pllcon | PD
    } else {
        pllcon & !PD
    }
}

/// PLL control value on wake-up: powered up.
pub fn resume_pll_value(pllcon: u32) -> (r: u32)
    ensures
        r == pllcon & !PD,
{
    pllcon & !PD
}

/// PWRCON value with the wake-up pre-scaler (bits 23:8) set: 0xFF when the
/// PLLs are off (a wake time of tens of milliseconds), 0 when they run;
/// bit 1 set.
pub fn wake_prescaler_pwrcon(pwrcon: u32, pll_off: bool) -> (r: u32)
    ensures
        r == (pwrcon & !0x00FF_FF00u32) | (if pll_off {
            0xFF02u32
        } else {
            0x0002u32
        }),
{
    if pll_off {
        (pwrcon & !0x00FF_FF00) | 0xFF02
    } else {
        (pwrcon & !0x00FF_FF00) | 0x0002
    }
}

/// PWRCON value that stops the CPU clock (bit 0 cleared): the chip enters
/// power-down on this write.
pub fn enter_power_down_pwrcon(pwrcon: u32) -> (r: u32)
    ensures
        r == pwrcon & !0x01u32,
{
    pwrcon & !0x01
}

/// Busy-wait iterations for PLL lock on wake-up: only when the PLLs were
/// powered down.
pub fn pll_lock_spin(pll_off: bool) -> (r: u32)
    ensures
        r == if pll_off {
            PLL_LOCK_SPIN
        } else {
            0
        },
{
    if pll_off {
        PLL_LOCK_SPIN
    } else {
        0
    }
}

/// MISCR value that enables a wake-up source: its bit in the wake-up
/// enable field (bits 31:24) and in the wake-up status field (bits 23:16).
pub fn wakeup_miscr_value(src: WakeUpSource) -> (r: u32)
    ensures
        r == (wake_bit(src) << 24u32) | (wake_bit(src) << 16u32),
        r == wake_bit(src) * 0x0100_0000 + wake_bit(src) * 0x0001_0000,
{
    let v = src.value();
    let r = (v << 24) | (v << 16);
    proof {
        assert(r == v * 0x0100_0000 + v * 0x0001_0000) by (bit_vector)
            requires
                r == (v << 24u32) | (v << 16u32),
                v == 1 || v == 2 || v == 4 || v == 8 || v == 16 || v == 32 || v == 64 || v == 128,
        ;
    }
    r
}

/// The registers the power-down sequence reads before it writes them.
#[derive(Clone, Copy, Debug)]
pub struct SuspendRegs {
    pub gpafun: u32,
    pub sdopm: u32,
    pub sdcmd: u32,
    pub clkdiv0: u32,
    pub upllcon: u32,
    pub apllcon: u32,
    pub pwrcon: u32,
}

/// The steps of the power-down sequence, assuming each register reads
/// back what was last written: SDRAM into self-refresh, the system clock
/// to the crystal, the PLLs powered down when the GPAFUN flag asks for it,
/// the wake-up pre-scaler set, the CPU clock stopped (the chip sleeps on
/// this write until a wake-up event); then the PLLs powered up, a lock
/// wait if they were off, the PLL selected again, and self-refresh left.
pub open spec fn power_down_plan(regs: SuspendRegs) -> Seq<RegOp> {
    let off = pll_flag_set(regs.gpafun);
    let clk1 = regs.clkdiv0 & !SYSTEM_S;
    let u1 = if off {
        regs.upllcon | PD
    } else {
        regs.upllcon & !PD
    };
    let a1 = if off {
        regs.apllcon | PD
    } else {
        regs.apllcon & !PD
    };
    let p1 = (regs.pwrcon & !0x00FF_FF00u32) | (if off {
        0xFF02u32
    } else {
        0x0002u32
    });
    seq![
        RegOp::Write { addr: REG_SDOPM, value: regs.sdopm & !OPMODE },
        RegOp::Write { addr: REG_SDCMD, value: (regs.sdcmd & !(AUTOEXSELFREF | CKE_H)) | SELF_REF },
        RegOp::Write { addr: REG_CLKDIV0, value: clk1 },
        RegOp::Write { addr: REG_UPLLCON, value: u1 },
        RegOp::Write { addr: REG_APLLCON, value: a1 },
        RegOp::Write { addr: REG_PWRCON, value: p1 },
        RegOp::Write { addr: REG_PWRCON, value: p1 & !0x01u32 },
        RegOp::Write { addr: REG_UPLLCON, value: u1 & !PD },
        RegOp::Write { addr: REG_APLLCON, value: a1 & !PD },
    ] + (if off {
        seq![RegOp::Spin { count: PLL_LOCK_SPIN }]
    } else {
        seq![]
    }) + seq![
        RegOp::Write { addr: REG_CLKDIV0, value: clk1 | SYSTEM_S },
        RegOp::Spin { count: CLOCK_SETTLE_SPIN },
        RegOp::Write { addr: REG_SDCMD, value: SDCMD_EXIT_SELF_REFRESH },
        RegOp::Spin { count: SELF_REFRESH_EXIT_SPIN },
    ]
}

/// The steps of the power-down sequence from the registers' values.
pub fn sample_power_down(regs: SuspendRegs) -> (r: Vec<RegOp>)
    ensures
        r@ == power_down_plan(regs),
{
    let off = pll_power_down_requested(regs.gpafun);
    let clk1 = select_crystal_clkdiv0(regs.clkdiv0);
    let u1 = suspend_pll_value(regs.upllcon, off);
    let a1 = suspend_pll_value(regs.apllcon, off);
    let p1 = wake_prescaler_pwrcon(regs.pwrcon, off);
    let mut r = vec![
        RegOp::Write { addr: REG_SDOPM, value: self_refresh_sdopm(regs.sdopm) },
        RegOp::Write { addr: REG_SDCMD, value: self_refresh_sdcmd(regs.sdcmd) },
        RegOp::Write { addr: REG_CLKDIV0, value: clk1 },
        RegOp::Write { addr: REG_UPLLCON, value: u1 },
        RegOp::Write { addr: REG_APLLCON, value: a1 },
        RegOp::Write { addr: REG_PWRCON, value: p1 },
        RegOp::Write { addr: REG_PWRCON, value: enter_power_down_pwrcon(p1) },
        RegOp::Write { addr: REG_UPLLCON, value: resume_pll_value(u1) },
        RegOp::Write { addr: REG_APLLCON, value: resume_pll_value(a1) },
    ];
    if off {
        r.push(RegOp::Spin { count: PLL_LOCK_SPIN });
    }
    let mut tail = vec![
        RegOp::Write { addr: REG_CLKDIV0, value: select_pll_clkdiv0(clk1) },
        RegOp::Spin { count: CLOCK_SETTLE_SPIN },
        RegOp::Write { addr: REG_SDCMD, value: SDCMD_EXIT_SELF_REFRESH },
        RegOp::Spin { count: SELF_REFRESH_EXIT_SPIN },
    ];
    r.append(&mut tail);
    assert(r@ =~= power_down_plan(regs));
    r
}

} // verus!
