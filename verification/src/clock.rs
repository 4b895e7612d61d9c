//! System clock, PLL and CPU/AHB/APB divider arithmetic.
//!
//! The functions here take the register values they read as arguments and
//! return the register values to write, together with the frequencies that
//! result.  The clock-tree bookkeeping that survives between calls is kept
//! in a [`ClockRecord`].

use vstd::prelude::*;
use crate::bits::{lemma_and_le, lemma_shr_half};
use crate::registers::{APB_N, CPU_N, FB_DV, IN_DV, OUT_DV, PD, SYSTEM_N0, SYSTEM_N1, SYSTEM_S, UP2HCLK3X};

verus! {

// ============================================================================
// Public Types
// ============================================================================

/// Clock source selection
#[derive(Clone, Copy, PartialEq, Eq, Debug, Structural)]
pub enum ClockSource {
    /// External crystal (12 MHz or 27 MHz depending on chip version)
    Ext,
    /// 32 KHz RTC crystal
    X32k,
    /// Audio PLL
    APll,
    /// USB PLL
    UPll,
}

impl ClockSource {
    /// Hardware encoding of the source (the SYSTEM_S field of CLKDIV0).
    pub fn code(self) -> (r: u32)
        ensures
            r == spec_source_code(self),
    {
        match self {
            ClockSource::Ext => 0,
            ClockSource::X32k => 1,
            ClockSource::APll => 2,
            ClockSource::UPll => 3,
        }
    }
}

pub open spec fn spec_source_code(s: ClockSource) -> u32 {
    match s {
        ClockSource::Ext => 0,
        ClockSource::X32k => 1,
        ClockSource::APll => 2,
        ClockSource::UPll => 3,
    }
}

/// Timer operating mode
#[derive(Clone, Copy, PartialEq, Eq, Debug, Structural)]
pub enum TimerMode {
    OneShot,
    Periodic,
    Toggle,
    Continuous,
}

/// Complete clock configuration for `init_clock`.
#[derive(Clone, Copy, Debug)]
pub struct ClockConfig {
    /// Clock source
    pub src: ClockSource,
    /// PLL output frequency in KHz
    pub pll_khz: u32,
    /// System bus frequency in KHz
    pub sys_khz: u32,
    /// CPU core frequency in KHz
    pub cpu_khz: u32,
    /// AHB bus / HCLK frequency in KHz
    pub hclk_khz: u32,
    /// APB peripheral bus frequency in KHz
    pub apb_khz: u32,
}

impl ClockConfig {
    /// The reference configuration of the board:
    /// UPLL = 96 MHz, SYS = 96 MHz, CPU = 96 MHz, HCLK = 48 MHz, APB = 24 MHz
    pub fn reference() -> (c: ClockConfig)
        ensures
            c.src == ClockSource::UPll,
            c.pll_khz == 96_000,
            c.sys_khz == 96_000,
            c.cpu_khz == 96_000,
            c.hclk_khz == 48_000,
            c.apb_khz == 24_000,
    {
        ClockConfig {
            src: ClockSource::UPll,
            pll_khz: 96_000,
            sys_khz: 96_000,
            cpu_khz: 96_000,
            hclk_khz: 48_000,
            apb_khz: 24_000,
        }
    }
}

/// Snapshot of the current clock state
#[derive(Clone, Copy, Debug)]
pub struct ClockState {
    pub src: ClockSource,
    pub pll_khz: u32,
    pub sys_khz: u32,
    pub cpu_khz: u32,
    pub hclk_khz: u32,
    pub apb_khz: u32,
}

/// Clock configuration errors
#[derive(Clone, Copy, PartialEq, Eq, Debug, Structural)]
pub enum ClockError {
    /// PLL frequency must be >= system frequency
    PllTooLow,
    /// CPU frequency must be <= system frequency
    CpuTooHigh,
    /// HCLK frequency must be <= system frequency
    HclkTooHigh,
    /// APB frequency must be <= HCLK frequency
    ApbTooHigh,
    /// Invalid clock source for PLL mode
    InvalidSource,
    /// Could not find a valid PLL divider combination
    PllNoMatch,
}

// ============================================================================
// PLL arithmetic
// ============================================================================

/// Output divider NO selected by the OUT_DV field.
pub open spec fn spec_out_div(o: int) -> int {
    if o == 0 {
        1
    } else if o == 3 {
        4
    } else {
        2
    }
}

/// Register value of the PLL divider triple (OUT_DV, IN_DV, FB_DV); for
/// fields in range it is the bit packing `o << 14 | i << 9 | f`.
pub open spec fn pll_pos(o: int, i: int, f: int) -> int {
    o * 16384 + i * 512 + f
}

/// Whether the PLL divider combination packed in `p` is one that the
/// search accepts for input `fin` and produces exactly `t` KHz: the
/// reference clock fin/NR lies in 1..15 MHz, the VCO fin*NF/NR lies in
/// 100..500 MHz, and fin*NF/NR/NO equals `t`.
pub open spec fn combo_ok(fin: int, t: int, p: int) -> bool {
    let o = p / 16384;
    let i = (p / 512) % 32;
    let f = p % 512;
    let nr = 2 * (i + 2);
    let nf = 2 * (f + 2);
    let vco = fin * nf / nr;
    &&& 1000 <= fin / nr <= 15000
    &&& 100_000 <= vco <= 500_000
    &&& vco / spec_out_div(o) == t
}

pub open spec fn has_combo(fin: int, t: int) -> bool {
    exists|p: int| 0 <= p < 65536 && combo_ok(fin, t, p)
}

/// The least packed divider triple that produces `t`.
pub open spec fn least_combo(fin: int, t: int) -> int {
    choose|p: int|
        0 <= p < 65536 && combo_ok(fin, t, p) && forall|q: int|
            0 <= q < p ==> !#[trigger] combo_ok(fin, t, q)
}

/// The PLL control word for a target frequency: the least divider triple
/// (in OUT_DV, IN_DV, FB_DV order) that produces the target exactly; when
/// none does, the target is lowered in 4 MHz steps while it stays at or
/// above 4 MHz; 0 when no step matches.
pub open spec fn pll_ctrl_spec(fin: int, t: int) -> int
    decreases t,
{
    if has_combo(fin, t) {
        least_combo(fin, t)
    } else if t < 4000 {
        0
    } else {
        pll_ctrl_spec(fin, t - 4000)
    }
}

/// Output frequency (KHz) of a PLL programmed with `reg`, fed with `fin`.
pub open spec fn pll_output_spec(reg: u32, fin: u32) -> int {
    if reg & PD != 0 {
        0
    } else {
        let nf = (reg & FB_DV) + 2;
        let nr = ((reg & IN_DV) >> 9) + 2;
        let no = spec_out_div(((reg & OUT_DV) >> 14) as int);
        fin * nf / nr / no
    }
}

proof fn lemma_pll_pos_decode(o: u32, i: u32, f: u32)
    requires
        o < 4,
        i < 32,
        f < 512,
    ensures
        pll_pos(o as int, i as int, f as int) / 16384 == o,
        (pll_pos(o as int, i as int, f as int) / 512) % 32 == i,
        pll_pos(o as int, i as int, f as int) % 512 == f,
        0 <= pll_pos(o as int, i as int, f as int) < 65536,
        (o << 14) | (i << 9) | f == pll_pos(o as int, i as int, f as int),
{
    lemma_pack_bits(o, i, f);
}

proof fn lemma_pack_bits(o: u32, i: u32, f: u32)
    by (bit_vector)
    requires
        o < 4,
        i < 32,
        f < 512,
    ensures
        (o * 16384 + i * 512 + f) / 16384 == o,
        ((o * 16384 + i * 512 + f) / 512) % 32 == i,
        (o * 16384 + i * 512 + f) % 512 == f,
        (o << 14) | (i << 9) | f == o * 16384 + i * 512 + f,
{
}

/// Output divider NO for an OUT_DV field value.
fn out_divider(o: u32) -> (r: u32)
    requires
        o < 4,
    ensures
        r == spec_out_div(o as int),
        1 <= r <= 4,
{
    if o == 0 {
        1
    } else if o == 3 {
        4
    } else {
        2
    }
}

/// No divider triple that is not accepted at all produces anything: the
/// packed value 0 is never accepted.
proof fn lemma_zero_not_combo(fin: int, t: int)
    requires
        fin >= 0,
    ensures
        !combo_ok(fin, t, 0),
{
    if combo_ok(fin, t, 0) {
        assert(fin * 4 / 4 == fin);
        assert(fin / 4 <= 15000);
        assert(fin < 100_000);
    }
}

/// When the reference clock fin/NR is out of range for an IN_DV value,
/// no FB_DV value with that IN_DV is accepted.
proof fn lemma_skip_input_divider(fin: u32, t: int, o: u32, i: u32)
    requires
        o < 4,
        i < 32,
        fin as int / (2 * (i + 2)) < 1000 || fin as int / (2 * (i + 2)) > 15000,
        forall|q: int| 0 <= q < pll_pos(o as int, i as int, 0) ==> !#[trigger] combo_ok(fin as int, t, q),
    ensures
        forall|q: int| 0 <= q < pll_pos(o as int, (i + 1) as int, 0) ==> !#[trigger] combo_ok(fin as int, t, q),
{
    assert forall|q: int| 0 <= q < pll_pos(o as int, (i + 1) as int, 0) implies !#[trigger] combo_ok(fin as int, t, q) by {
        if q >= pll_pos(o as int, i as int, 0) {
            let f = (q - pll_pos(o as int, i as int, 0)) as u32;
            lemma_pll_pos_decode(o, i, f);
        }
    }
}

/// Compute the PLL control register value for a target frequency.
/// Iterates through valid NR/NF/NO combinations; relaxes the target in
/// 4 MHz steps when no exact match exists.
pub fn sys_get_pll_ctrl_reg(fin_khz: u32, target_khz: u32) -> (r: u32)
    ensures
        r == pll_ctrl_spec(fin_khz as int, target_khz as int),
{
    let ghost fin = fin_khz as int;
    let mut target = target_khz;
    loop
        invariant
            target <= target_khz,
            pll_ctrl_spec(fin, target_khz as int) == pll_ctrl_spec(fin, target as int),
            fin == fin_khz,
        ensures
            pll_ctrl_spec(fin, target_khz as int) == 0,
        decreases target,
    {
        let mut out_dv: u32 = 0;
        while out_dv < 4
            invariant
                out_dv <= 4,
                fin == fin_khz,
                target <= target_khz,
                pll_ctrl_spec(fin, target_khz as int) == pll_ctrl_spec(fin, target as int),
                forall|q: int|
                    0 <= q < pll_pos(out_dv as int, 0, 0) ==> !#[trigger] combo_ok(
                        fin,
                        target as int,
                        q,
                    ),
            decreases 4 - out_dv,
        {
            let mut in_dv: u32 = 0;
            while in_dv < 32
                invariant
                    out_dv < 4,
                    in_dv <= 32,
                    fin == fin_khz,
                    target <= target_khz,
                    pll_ctrl_spec(fin, target_khz as int) == pll_ctrl_spec(fin, target as int),
                    forall|q: int|
                        0 <= q < pll_pos(out_dv as int, in_dv as int, 0) ==> !#[trigger] combo_ok(
                            fin,
                            target as int,
                            q,
                        ),
                decreases 32 - in_dv,
            {
                let nr = 2 * (in_dv + 2);
                if fin_khz / nr < 1000 || fin_khz / nr > 15000 {
                    proof {
                        lemma_skip_input_divider(fin_khz, target as int, out_dv, in_dv);
                    }
                    in_dv = in_dv + 1;
                    continue;
                }
                let mut fb_dv: u32 = 0;
                while fb_dv < 512
                    invariant
                        out_dv < 4,
                        in_dv < 32,
                        fb_dv <= 512,
                        nr == 2 * (in_dv + 2),
                        1000 <= fin_khz / nr <= 15000,
                        fin == fin_khz,
                        target <= target_khz,
                        pll_ctrl_spec(fin, target_khz as int) == pll_ctrl_spec(fin, target as int),
                        forall|q: int|
                            0 <= q < pll_pos(out_dv as int, in_dv as int, fb_dv as int)
                                ==> !#[trigger] combo_ok(fin, target as int, q),
                    decreases 512 - fb_dv,
                {
                    let nf = 2 * (fb_dv + 2);
                    let no = out_divider(out_dv);
                    assert((fin_khz as u64) * (nf as u64) <= 0xFFFF_FFFFu64 * 1026) by (nonlinear_arith)
                        requires
                            nf <= 1026,
                    ;
                    let vco: u64 = (fin_khz as u64) * (nf as u64) / (nr as u64);
                    proof {
                        lemma_pll_pos_decode(out_dv, in_dv, fb_dv);
                    }
                    if vco < 100_000 || vco > 500_000 {
                        fb_dv = fb_dv + 1;
                        continue;
                    }
                    let result: u64 = vco / (no as u64);
                    if target as u64 == result {
                        let r = (out_dv << 14) | (in_dv << 9) | fb_dv;
                        proof {
                            let p = pll_pos(out_dv as int, in_dv as int, fb_dv as int);
                            assert(combo_ok(fin, target as int, p));
                            assert(has_combo(fin, target as int));
                            let l = least_combo(fin, target as int);
                            assert(0 <= l < 65536 && combo_ok(fin, target as int, l)
                                && forall|q: int|
                                0 <= q < l ==> !#[trigger] combo_ok(fin, target as int, q));
                            if l < p {
                                assert(!combo_ok(fin, target as int, l));
                            }
                            if l > p {
                                assert(!combo_ok(fin, target as int, p));
                            }
                            assert(l == p);
                        }
                        return r;
                    }
                    fb_dv = fb_dv + 1;
                }
                proof {
                    assert(pll_pos(out_dv as int, in_dv as int, 512) == pll_pos(
                        out_dv as int,
                        (in_dv + 1) as int,
                        0,
                    ));
                }
                in_dv = in_dv + 1;
            }
            proof {
                assert(pll_pos(out_dv as int, 32, 0) == pll_pos((out_dv + 1) as int, 0, 0));
            }
            out_dv = out_dv + 1;
        }
        proof {
            assert(!has_combo(fin, target as int)) by {
                if has_combo(fin, target as int) {
                    let p = choose|p: int| 0 <= p < 65536 && combo_ok(fin, target as int, p);
                    assert(p < pll_pos(4, 0, 0));
                }
            }
        }
        if target < 4000 {
            break;
        }
        target = target - 4000;
    }
    0
}

/// The target frequency after `k` relaxation steps of 4 MHz.
pub open spec fn relaxed_target(t: int, k: int) -> int {
    t - 4000 * k
}

proof fn lemma_reg_fields(r: u32)
    by (bit_vector)
    requires
        r < 65536,
    ensures
        r & 0x10000 == 0,
        r & 0x1FF == r % 512,
        (r & 0x3E00) >> 9 == (r / 512) % 32,
        (r & 0xC000) >> 14 == r / 16384,
{
}

/// The PLL control word fields fit their widths.
proof fn lemma_pll_reg_bounds(r: u32)
    by (bit_vector)
    ensures
        r & 0x1FF <= 0x1FF,
        (r & 0x3E00) >> 9 <= 31,
        (r & 0xC000) >> 14 <= 3,
{
}

/// A PLL programmed with the control word that [`sys_get_pll_ctrl_reg`]
/// computes runs at the frequency that the search matched: the target
/// itself when some divider triple produces it exactly, and otherwise the
/// target lowered by a whole number of 4 MHz steps.  A zero word means no
/// step matched.
pub proof fn lemma_pll_ctrl_reg_output(fin: u32, target: int)
    requires
        target >= 0,
        pll_ctrl_spec(fin as int, target) != 0,
    ensures
        0 < pll_ctrl_spec(fin as int, target) < 65536,
        exists|k: int|
            0 <= k <= target / 4000 && pll_output_spec(pll_ctrl_spec(fin as int, target) as u32, fin)
                == #[trigger] relaxed_target(target, k),
        has_combo(fin as int, target) ==> pll_output_spec(
            pll_ctrl_spec(fin as int, target) as u32,
            fin,
        ) == target,
    decreases target,
{
    let r = pll_ctrl_spec(fin as int, target);
    if has_combo(fin as int, target) {
        lemma_least_combo_output(fin, target);
        assert(0 <= 0 <= target / 4000 && pll_output_spec(r as u32, fin) == relaxed_target(target, 0));
    } else {
        assert(target >= 4000);
        lemma_pll_ctrl_reg_output(fin, target - 4000);
        let k = choose|k: int|
            0 <= k <= (target - 4000) / 4000 && pll_output_spec(r as u32, fin) == #[trigger] relaxed_target(target - 4000, k);
        assert(0 <= k + 1 <= target / 4000 && pll_output_spec(r as u32, fin) == relaxed_target(target, k + 1));
    }
}

proof fn lemma_halve_ratio(fin: int, f: int, i: int)
    requires
        fin >= 0,
        f >= 0,
        i >= 0,
    ensures
        fin * (2 * (f + 2)) / (2 * (i + 2)) == fin * (f + 2) / (i + 2),
{
    let a = fin * (f + 2);
    assert(fin * (2 * (f + 2)) == 2 * a) by (nonlinear_arith)
        requires
            a == fin * (f + 2),
    ;
    assert(a >= 0) by (nonlinear_arith)
        requires
            a == fin * (f + 2),
            f >= 0,
            fin >= 0,
    ;
    vstd::arithmetic::div_mod::lemma_div_multiples_vanish_quotient(2, a, i + 2);
}

proof fn lemma_output_of_pos(fin: u32, p: int)
    requires
        0 <= p < 65536,
    ensures
        pll_output_spec(p as u32, fin) == fin * ((p % 512) + 2) / (((p / 512) % 32) + 2)
            / spec_out_div(p / 16384),
{
    let ru = p as u32;
    lemma_reg_fields(ru);
}

proof fn lemma_combo_ratio(fin: u32, t: int, p: int)
    requires
        0 <= p < 65536,
        combo_ok(fin as int, t, p),
    ensures
        fin * ((p % 512) + 2) / (((p / 512) % 32) + 2) / spec_out_div(p / 16384) == t,
{
    lemma_halve_ratio(fin as int, p % 512, (p / 512) % 32);
}

/// Every accepted divider triple has a least accepted one below it.
proof fn lemma_least_exists(fin: int, t: int, p: int)
    requires
        0 <= p < 65536,
        combo_ok(fin, t, p),
    ensures
        exists|m: int|
            0 <= m < 65536 && combo_ok(fin, t, m) && forall|q: int|
                0 <= q < m ==> !#[trigger] combo_ok(fin, t, q),
    decreases p,
{
    if exists|q: int| 0 <= q < p && combo_ok(fin, t, q) {
        let q = choose|q: int| 0 <= q < p && combo_ok(fin, t, q);
        lemma_least_exists(fin, t, q);
    } else {
        assert(forall|q: int| 0 <= q < p ==> !#[trigger] combo_ok(fin, t, q));
    }
}

proof fn lemma_least_combo_output(fin: u32, target: int)
    requires
        has_combo(fin as int, target),
    ensures
        0 < least_combo(fin as int, target) < 65536,
        pll_output_spec(least_combo(fin as int, target) as u32, fin) == target,
{
    let w = choose|w: int| 0 <= w < 65536 && combo_ok(fin as int, target, w);
    lemma_least_exists(fin as int, target, w);
    let p = least_combo(fin as int, target);
    assert(0 <= p < 65536 && combo_ok(fin as int, target, p));
    lemma_zero_not_combo(fin as int, target);
    lemma_output_of_pos(fin, p);
    lemma_combo_ratio(fin, target, p);
}

/// Get the output frequency in KHz of a PLL whose control register holds
/// `pll_reg`, fed with `fin_khz`.  A powered-down PLL gives 0.
pub fn sys_get_pll_output_khz(pll_reg: u32, fin_khz: u32) -> (r: u32)
    requires
        fin_khz * ((pll_reg & FB_DV) + 2) <= u32::MAX,
    ensures
        r == pll_output_spec(pll_reg, fin_khz),
{
    if pll_reg & PD != 0 {
        return 0;
    }
    proof {
        lemma_pll_reg_bounds(pll_reg);
    }
    let nf = (pll_reg & FB_DV) + 2;
    let nr = ((pll_reg & IN_DV) >> 9) + 2;
    let no = out_divider((pll_reg & OUT_DV) >> 14);
    fin_khz * nf / nr / no
}


// ============================================================================
// Chip identification
// ============================================================================

/// Chip version character from the value of the identification word at
/// 0xFFFF_3EB4: `b'G'` when it reads 0x5042_3238, `b'A'` otherwise.
pub fn get_chip_version(id_word: u32) -> (r: u8)
    ensures
        r == (if id_word == 0x5042_3238 { 71u8 } else { 65u8 }),
{
    if id_word == 0x5042_3238 {
        71
    } else {
        65
    }
}

/// External crystal frequency in KHz: 12 MHz on a `G` chip or when
/// CHIPCFG[3:2] reads 0b10, 27 MHz otherwise.
pub fn get_external_clock(chip_version: u8, chipcfg: u32) -> (r: u32)
    ensures
        r == (if chip_version == 71 || chipcfg & 0xC == 0x8 { 12_000u32 } else { 27_000u32 }),
{
    if chip_version == 71 {
        12_000
    } else if chipcfg & 0xC == 0x8 {
        12_000
    } else {
        27_000
    }
}

/// SDRAM refresh register value for the detected crystal.
pub fn ddr_refresh_value(ext_khz: u32) -> (r: u32)
    ensures
        r == (if ext_khz == 12_000 { 0x805Au32 } else { 0x80C0u32 }),
{
    if ext_khz == 12_000 {
        0x805A
    } else {
        0x80C0
    }
}

// ============================================================================
// Clock tree bookkeeping
// ============================================================================

/// What the clock driver remembers between calls: the crystal, the system
/// source, both PLL frequencies and the bus frequencies last programmed.
#[derive(Clone, Copy, Debug)]
pub struct ClockRecord {
    pub ext_khz: u32,
    pub src: ClockSource,
    pub upll_khz: u32,
    pub apll_khz: u32,
    pub sys_khz: u32,
    pub cpu_khz: u32,
    pub hclk_khz: u32,
    pub apb_khz: u32,
    pub cpu_over_2x_hclk: bool,
}

impl ClockRecord {
    /// The record at reset.
    pub fn new() -> (r: ClockRecord)
        ensures
            r == (ClockRecord {
                ext_khz: 27_000,
                src: ClockSource::Ext,
                upll_khz: 240_000,
                apll_khz: 240_000,
                sys_khz: 120_000,
                cpu_khz: 60_000,
                hclk_khz: 60_000,
                apb_khz: 0,
                cpu_over_2x_hclk: false,
            }),
    {
        ClockRecord {
            ext_khz: 27_000,
            src: ClockSource::Ext,
            upll_khz: 240_000,
            apll_khz: 240_000,
            sys_khz: 120_000,
            cpu_khz: 60_000,
            hclk_khz: 60_000,
            apb_khz: 0,
            cpu_over_2x_hclk: false,
        }
    }
}

/// Read the current clock state from the record populated by the last
/// `init_clock` / `sys_set_system_clock` call.
pub fn get_clock_state(rec: &ClockRecord) -> (st: ClockState)
    ensures
        st.src == rec.src,
        st.pll_khz == (match rec.src {
            ClockSource::UPll => rec.upll_khz,
            ClockSource::APll => rec.apll_khz,
            _ => 0u32,
        }),
        st.sys_khz == rec.sys_khz,
        st.cpu_khz == rec.cpu_khz,
        st.hclk_khz == rec.hclk_khz,
        st.apb_khz == rec.apb_khz,
{
    ClockState {
        src: rec.src,
        pll_khz: match rec.src {
            ClockSource::UPll => rec.upll_khz,
            ClockSource::APll => rec.apll_khz,
            _ => 0,
        },
        sys_khz: rec.sys_khz,
        cpu_khz: rec.cpu_khz,
        hclk_khz: rec.hclk_khz,
        apb_khz: rec.apb_khz,
    }
}

/// Arguments of one run of the SRAM-resident clock switch routine.
#[derive(Clone, Copy, Debug, PartialEq, Eq, Structural)]
pub struct ClockSwitch {
    pub src: ClockSource,
    pub pll_reg: u32,
    pub hclk_khz: u32,
    pub sys_div: u32,
    pub cpu_div: u32,
    pub apb_div: u32,
}

/// `a / b` rounded up.
pub open spec fn ceil_div(a: int, b: int) -> int {
    a / b + if a % b != 0 {
        1int
    } else {
        0int
    }
}

/// System divider: the smallest N0 with pll / (N0 + 1) <= sys.
pub open spec fn sys_divider(pll: int, sys: int) -> int {
    ceil_div(pll, sys) - 1
}

/// The system frequency that the system divider yields.
pub open spec fn actual_sys(pll: int, sys: int) -> int {
    pll / (sys_divider(pll, sys) + 1)
}

/// CPU divider when the CPU runs above twice HCLK: rounded up, then kept
/// within 1..=5.
pub open spec fn fast_cpu_divider(s: int, cpu: int) -> int {
    let d = ceil_div(s, cpu) - 1;
    if d < 1 {
        1
    } else if d > 5 {
        5
    } else {
        d
    }
}

/// APB divider when HCLK is SYS/6.
pub open spec fn fast_apb_divider(s: int, apb: int) -> int {
    let q = s / apb / 6;
    if q > 0 {
        q - 1
    } else {
        0
    }
}

/// CPU divider when HCLK is SYS/2 (rounded up).
pub open spec fn slow_cpu_divider(s: int, cpu: int) -> int {
    ceil_div(s, cpu) - 1
}

/// APB divider when HCLK is SYS/2.
pub open spec fn slow_apb_divider(s: int, apb: int) -> int {
    s / apb / 2 - 1
}

/// The inputs pass the four ordering checks of a PLL-sourced request.
pub open spec fn clock_request_ordered(pll: int, sys: int, cpu: int, hclk: int, apb: int) -> bool {
    sys <= pll && cpu <= sys && hclk <= sys && apb <= hclk
}

/// The divider arithmetic of `sys_set_system_clock` stays within u32 and
/// never divides by zero for this request.
pub open spec fn system_clock_in_range(
    src: ClockSource,
    pll: u32,
    sys: u32,
    cpu: u32,
    hclk: u32,
    apb: u32,
) -> bool {
    (src != ClockSource::Ext && clock_request_ordered(pll as int, sys as int, cpu as int, hclk as int, apb as int)) ==> {
        &&& sys > 0
        &&& hclk * 2 <= u32::MAX
        &&& {
            let s = actual_sys(pll as int, sys as int);
            if cpu > hclk * 2 {
                &&& cpu <= s
                &&& apb > 0
                &&& (fast_apb_divider(s, apb as int) + 1) * 6 <= u32::MAX
            } else {
                &&& 0 < cpu <= s
                &&& slow_cpu_divider(s, cpu as int) <= 1 ==> (apb > 0 && s / (apb as int) >= 2)
            }
        }
    }
}

/// What `sys_set_system_clock` does: the clock switches it runs (in
/// order), its result, and the record afterwards.
pub open spec fn system_clock_spec(
    rec: ClockRecord,
    ext: u32,
    src: ClockSource,
    pll: u32,
    sys: u32,
    cpu: u32,
    hclk: u32,
    apb: u32,
) -> (Seq<ClockSwitch>, Result<(), ClockError>, ClockRecord) {
    let rec0 = ClockRecord { ext_khz: ext, ..rec };
    if src == ClockSource::Ext {
        (Seq::empty(), Ok(()), ClockRecord { src: ClockSource::Ext, ..rec0 })
    } else if sys > pll {
        (Seq::empty(), Err(ClockError::PllTooLow), rec0)
    } else if cpu > sys {
        (Seq::empty(), Err(ClockError::CpuTooHigh), rec0)
    } else if hclk > sys {
        (Seq::empty(), Err(ClockError::HclkTooHigh), rec0)
    } else if apb > hclk {
        (Seq::empty(), Err(ClockError::ApbTooHigh), rec0)
    } else {
        let s = actual_sys(pll as int, sys as int);
        let sys_div = sys_divider(pll as int, sys as int);
        let fast = cpu > hclk * 2;
        let first: Option<(ClockSwitch, ClockRecord)> = if fast {
            let cd = fast_cpu_divider(s, cpu as int);
            let ad = fast_apb_divider(s, apb as int);
            let r1 = ClockRecord {
                cpu_over_2x_hclk: true,
                sys_khz: s as u32,
                hclk_khz: (s / 6) as u32,
                cpu_khz: (s / (cd + 1)) as u32,
                apb_khz: (s / ((ad + 1) * 6)) as u32,
                ..rec0
            };
            Some(
                (
                    ClockSwitch {
                        src,
                        pll_reg: 0,
                        hclk_khz: (s / 6) as u32,
                        sys_div: sys_div as u32,
                        cpu_div: cd as u32,
                        apb_div: ad as u32,
                    },
                    r1,
                ),
            )
        } else if slow_cpu_divider(s, cpu as int) > 1 {
            None
        } else {
            let cd = slow_cpu_divider(s, cpu as int);
            let ad = slow_apb_divider(s, apb as int);
            let r1 = ClockRecord {
                cpu_over_2x_hclk: false,
                sys_khz: s as u32,
                hclk_khz: (s / 2) as u32,
                cpu_khz: (s / (cd + 1)) as u32,
                apb_khz: (s / ((ad + 1) * 2)) as u32,
                ..rec0
            };
            Some(
                (
                    ClockSwitch {
                        src,
                        pll_reg: 0,
                        hclk_khz: (s / 2) as u32,
                        sys_div: sys_div as u32,
                        cpu_div: cd as u32,
                        apb_div: ad as u32,
                    },
                    r1,
                ),
            )
        };
        match first {
            None => (
                Seq::empty(),
                Err(ClockError::CpuTooHigh),
                ClockRecord {
                    cpu_over_2x_hclk: false,
                    sys_khz: s as u32,
                    hclk_khz: (s / 2) as u32,
                    ..rec0
                },
            ),
            Some((sw, r1)) => {
                if src == ClockSource::X32k {
                    (seq![sw], Err(ClockError::InvalidSource), r1)
                } else {
                    let pll_reg = pll_ctrl_spec(ext as int, pll as int) as u32;
                    let r2 = if src == ClockSource::APll {
                        ClockRecord { src, apll_khz: pll, ..r1 }
                    } else {
                        ClockRecord { src, upll_khz: pll, ..r1 }
                    };
                    if pll_reg == 0 {
                        (seq![sw], Err(ClockError::PllNoMatch), r2)
                    } else {
                        (
                            seq![
                                sw,
                                ClockSwitch {
                                    src,
                                    pll_reg,
                                    hclk_khz: r1.hclk_khz,
                                    sys_div: sw.sys_div,
                                    cpu_div: sw.cpu_div,
                                    apb_div: sw.apb_div,
                                },
                            ],
                            Ok(()),
                            r2,
                        )
                    }
                }
            },
        }
    }
}

/// Round-up division as the driver computes it: `a / b - 1`, plus one
/// when the division leaves a remainder, gives `ceil(a / b) - 1`.
fn ceil_div_minus_one(a: u32, b: u32) -> (r: u32)
    requires
        0 < b <= a,
    ensures
        r == ceil_div(a as int, b as int) - 1,
        r < u32::MAX,
{
    proof {
        vstd::arithmetic::div_mod::lemma_fundamental_div_mod(a as int, b as int);
        let q = a as int / b as int;
        let m = a as int % b as int;
        assert(q >= 1 && (m != 0 ==> q < a)) by (nonlinear_arith)
            requires
                a == b * q + m,
                0 <= m < b,
                0 < b <= a,
        ;
    }
    let mut d = a / b - 1;
    if a % b != 0 {
        d = d + 1;
    }
    d
}

/// Set the system clock to the requested frequencies.
///
/// Returns the runs of the clock switch routine to perform, in order,
/// and the outcome; `rec` is updated as the driver's bookkeeping is.
pub fn sys_set_system_clock(
    rec: &mut ClockRecord,
    ext_khz: u32,
    src_clk: ClockSource,
    pll_khz: u32,
    sys_khz: u32,
    cpu_khz: u32,
    hclk_khz: u32,
    apb_khz: u32,
) -> (out: (Vec<ClockSwitch>, Result<(), ClockError>))
    requires
        system_clock_in_range(src_clk, pll_khz, sys_khz, cpu_khz, hclk_khz, apb_khz),
    ensures
        (out.0@, out.1, *final(rec)) == system_clock_spec(
            *old(rec),
            ext_khz,
            src_clk,
            pll_khz,
            sys_khz,
            cpu_khz,
            hclk_khz,
            apb_khz,
        ),
{
    rec.ext_khz = ext_khz;
    let mut switches: Vec<ClockSwitch> = Vec::new();
    let mut dividers: (u32, u32, u32) = (0, 0, 0);
    if src_clk != ClockSource::Ext {
        if sys_khz > pll_khz {
            return (switches, Err(ClockError::PllTooLow));
        }
        if cpu_khz > sys_khz {
            return (switches, Err(ClockError::CpuTooHigh));
        }
        if hclk_khz > sys_khz {
            return (switches, Err(ClockError::HclkTooHigh));
        }
        if apb_khz > hclk_khz {
            return (switches, Err(ClockError::ApbTooHigh));
        }
        rec.cpu_over_2x_hclk = cpu_khz > hclk_khz * 2;
        let sys_div = ceil_div_minus_one(pll_khz, sys_khz);
        rec.sys_khz = pll_khz / (sys_div + 1);
        let s = rec.sys_khz;
        if rec.cpu_over_2x_hclk {
            rec.hclk_khz = s / 6;
            let mut cpu_div = ceil_div_minus_one(s, cpu_khz);
            if cpu_div == 0 {
                cpu_div = 1;
            }
            if cpu_div > 5 {
                cpu_div = 5;
            }
            rec.cpu_khz = s / (cpu_div + 1);
            let hclk_div: u32 = 6;
            let apb_idx = s / apb_khz;
            let mut apb_div = apb_idx / hclk_div;
            if apb_div > 0 {
                apb_div = apb_div - 1;
            }
            rec.apb_khz = s / ((apb_div + 1) * hclk_div);
            dividers = (sys_div, cpu_div, apb_div);
            switches.push(
                ClockSwitch {
                    src: src_clk,
                    pll_reg: 0,
                    hclk_khz: rec.hclk_khz,
                    sys_div,
                    cpu_div,
                    apb_div,
                },
            );
        } else {
            rec.hclk_khz = s / 2;
            let cpu_div = ceil_div_minus_one(s, cpu_khz);
            if cpu_div > 1 {
                return (switches, Err(ClockError::CpuTooHigh));
            }
            rec.cpu_khz = s / (cpu_div + 1);
            let hclk_div: u32 = if cpu_div > 2 {
                cpu_div
            } else {
                2
            };
            let apb_idx = s / apb_khz;
            let apb_div = apb_idx / hclk_div - 1;
            rec.apb_khz = s / ((apb_div + 1) * hclk_div);
            dividers = (sys_div, cpu_div, apb_div);
            switches.push(
                ClockSwitch {
                    src: src_clk,
                    pll_reg: 0,
                    hclk_khz: rec.hclk_khz,
                    sys_div,
                    cpu_div,
                    apb_div,
                },
            );
        }
    }
    let pll_reg = match src_clk {
        ClockSource::Ext => {
            rec.src = ClockSource::Ext;
            return (switches, Ok(()));
        },
        ClockSource::APll => {
            rec.src = ClockSource::APll;
            rec.apll_khz = pll_khz;
            sys_get_pll_ctrl_reg(rec.ext_khz, rec.apll_khz)
        },
        ClockSource::UPll => {
            rec.src = ClockSource::UPll;
            rec.upll_khz = pll_khz;
            sys_get_pll_ctrl_reg(rec.ext_khz, rec.upll_khz)
        },
        ClockSource::X32k => {
            return (switches, Err(ClockError::InvalidSource));
        },
    };
    if pll_reg == 0 {
        return (switches, Err(ClockError::PllNoMatch));
    }
    rec.src = src_clk;
    switches.push(
        ClockSwitch {
            src: src_clk,
            pll_reg,
            hclk_khz: rec.hclk_khz,
            sys_div: dividers.0,
            cpu_div: dividers.1,
            apb_div: dividers.2,
        },
    );
    (switches, Ok(()))
}

/// Whether `sys_set_system_clock` can be asked for this request: the
/// divider arithmetic stays within u32 and never divides by zero.
pub fn sys_set_system_clock_in_range(
    src: ClockSource,
    pll_khz: u32,
    sys_khz: u32,
    cpu_khz: u32,
    hclk_khz: u32,
    apb_khz: u32,
) -> (r: bool)
    ensures
        r == system_clock_in_range(src, pll_khz, sys_khz, cpu_khz, hclk_khz, apb_khz),
{
    if src == ClockSource::Ext || !(sys_khz <= pll_khz && cpu_khz <= sys_khz && hclk_khz <= sys_khz
        && apb_khz <= hclk_khz) {
        return true;
    }
    if sys_khz == 0 || hclk_khz > u32::MAX / 2 {
        return false;
    }
    let sys_div = ceil_div_minus_one(pll_khz, sys_khz);
    let s = pll_khz / (sys_div + 1);
    if cpu_khz > hclk_khz * 2 {
        if cpu_khz > s || apb_khz == 0 {
            return false;
        }
        let q = s / apb_khz / 6;
        let ad = if q > 0 {
            q - 1
        } else {
            0
        };
        ad < u32::MAX / 6
    } else {
        if cpu_khz == 0 || cpu_khz > s {
            return false;
        }
        let cd = ceil_div_minus_one(s, cpu_khz);
        if cd <= 1 {
            apb_khz > 0 && s / apb_khz >= 2
        } else {
            true
        }
    }
}

/// Requesting a system frequency never yields a faster one: the system
/// divider rounds up, so the resulting frequency lies in 1..=sys.
pub proof fn lemma_actual_sys_bounded(pll: int, sys: int)
    requires
        0 < sys <= pll,
    ensures
        0 < actual_sys(pll, sys) <= sys,
{
    let c = ceil_div(pll, sys);
    vstd::arithmetic::div_mod::lemma_fundamental_div_mod(pll, sys);
    let q = pll / sys;
    let m = pll % sys;
    assert(c * sys >= pll && 1 <= c <= pll) by (nonlinear_arith)
        requires
            pll == sys * q + m,
            0 <= m < sys,
            c == q + if m != 0 { 1int } else { 0int },
            0 < sys <= pll,
    ;
    vstd::arithmetic::div_mod::lemma_div_is_ordered(pll, c * sys, c);
    vstd::arithmetic::div_mod::lemma_div_by_multiple(sys, c);
    assert(c * sys == sys * c) by (nonlinear_arith);
    vstd::arithmetic::div_mod::lemma_div_is_ordered(c, pll, c);
    vstd::arithmetic::div_mod::lemma_div_by_multiple(1, c);
}

/// A successful PLL-sourced `sys_set_system_clock` records a system
/// frequency in 1..=the requested one, and records the PLL frequency as
/// requested.
pub proof fn lemma_set_system_clock_sys_bounded(
    rec: ClockRecord,
    ext: u32,
    src: ClockSource,
    pll: u32,
    sys: u32,
    cpu: u32,
    hclk: u32,
    apb: u32,
)
    requires
        system_clock_in_range(src, pll, sys, cpu, hclk, apb),
        src != ClockSource::Ext,
        system_clock_spec(rec, ext, src, pll, sys, cpu, hclk, apb).1 is Ok,
    ensures
        0 < system_clock_spec(rec, ext, src, pll, sys, cpu, hclk, apb).2.sys_khz <= sys,
        system_clock_spec(rec, ext, src, pll, sys, cpu, hclk, apb).2.src == src,
        src == ClockSource::APll ==> system_clock_spec(rec, ext, src, pll, sys, cpu, hclk, apb).2.apll_khz == pll,
        src == ClockSource::UPll ==> system_clock_spec(rec, ext, src, pll, sys, cpu, hclk, apb).2.upll_khz == pll,
{
    lemma_actual_sys_bounded(pll as int, sys as int);
}

/// A successful PLL-sourced `sys_set_system_clock` records the source and
/// PLL frequency asked for, and frequencies ordered as the requests are:
/// system at most the requested system and the PLL, CPU and HCLK at most
/// the system clock, APB at most HCLK.
pub proof fn lemma_set_system_clock_ordered(
    rec: ClockRecord,
    ext: u32,
    src: ClockSource,
    pll: u32,
    sys: u32,
    cpu: u32,
    hclk: u32,
    apb: u32,
)
    requires
        system_clock_in_range(src, pll, sys, cpu, hclk, apb),
        src == ClockSource::UPll || src == ClockSource::APll,
        system_clock_spec(rec, ext, src, pll, sys, cpu, hclk, apb).1 is Ok,
    ensures
        ({
            let r = system_clock_spec(rec, ext, src, pll, sys, cpu, hclk, apb).2;
            &&& r.src == src
            &&& src == ClockSource::UPll ==> r.upll_khz == pll
            &&& src == ClockSource::APll ==> r.apll_khz == pll
            &&& r.sys_khz <= sys
            &&& r.sys_khz <= pll
            &&& r.cpu_khz <= r.sys_khz
            &&& r.hclk_khz <= r.sys_khz
            &&& r.apb_khz <= r.hclk_khz
        }),
{
    lemma_actual_sys_bounded(pll as int, sys as int);
    let s = actual_sys(pll as int, sys as int);
    if cpu > hclk * 2 {
        let cd = fast_cpu_divider(s, cpu as int);
        let ad = fast_apb_divider(s, apb as int);
        vstd::arithmetic::div_mod::lemma_div_is_ordered_by_denominator(s, 1, cd + 1);
        vstd::arithmetic::div_mod::lemma_div_is_ordered_by_denominator(s, 1, 6);
        vstd::arithmetic::div_mod::lemma_div_denominator(s, 6, ad + 1);
        vstd::arithmetic::div_mod::lemma_div_is_ordered_by_denominator(s / 6, 1, ad + 1);
        assert((ad + 1) * 6 == 6 * (ad + 1)) by (nonlinear_arith);
    } else {
        let cd = slow_cpu_divider(s, cpu as int);
        let ad = slow_apb_divider(s, apb as int);
        vstd::arithmetic::div_mod::lemma_div_is_ordered(cpu as int, s, cpu as int);
        vstd::arithmetic::div_mod::lemma_div_by_self(cpu as int);
        assert(cd >= 0);
        assert(cd <= 1);
        assert(s / (apb as int) >= 2);
        assert(ad >= 0);
        vstd::arithmetic::div_mod::lemma_div_is_ordered_by_denominator(s, 1, cd + 1);
        vstd::arithmetic::div_mod::lemma_div_is_ordered_by_denominator(s, 1, 2);
        vstd::arithmetic::div_mod::lemma_div_denominator(s, 2, ad + 1);
        vstd::arithmetic::div_mod::lemma_div_is_ordered_by_denominator(s / 2, 1, ad + 1);
        assert((ad + 1) * 2 == 2 * (ad + 1)) by (nonlinear_arith);
    }
}

// ============================================================================
// Reading and adjusting the running clock tree
// ============================================================================

/// The SYSTEM_S field of CLKDIV0: which source drives the system clock.
pub open spec fn system_source_field(clkdiv0: u32) -> u32 {
    (clkdiv0 & SYSTEM_S) >> 3
}

/// Whether the PLL `src` is the current system clock source.
pub open spec fn pll_is_system_source(src: ClockSource, clkdiv0: u32) -> bool {
    (src == ClockSource::UPll && system_source_field(clkdiv0) == 3) || (src == ClockSource::APll
        && system_source_field(clkdiv0) == 2)
}

fn source_is_system(src: ClockSource, clkdiv0: u32) -> (r: bool)
    ensures
        r == pll_is_system_source(src, clkdiv0),
{
    let sys_src = (clkdiv0 & SYSTEM_S) >> 3;
    (src == ClockSource::UPll && sys_src == 3) || (src == ClockSource::APll && sys_src == 2)
}

/// The register values after switching the system clock to the external
/// crystal: PWRCON without UP2HCLK3X, CLKDIV0 without the N1, S and N0
/// fields, CLKDIV4 without the CPU divider.
pub fn switch_to_external_clock(pwrcon: u32, clkdiv0: u32, clkdiv4: u32) -> (r: (u32, u32, u32))
    ensures
        r.0 == pwrcon & !UP2HCLK3X,
        r.1 == clkdiv0 & !(SYSTEM_N1 | SYSTEM_S | SYSTEM_N0),
        r.2 == clkdiv4 & !CPU_N,
{
    (pwrcon & !UP2HCLK3X, clkdiv0 & !(SYSTEM_N1 | SYSTEM_S | SYSTEM_N0), clkdiv4 & !CPU_N)
}

/// Any input frequency for which the PLL search succeeds is below 1 GHz.
proof fn lemma_combo_bounds_fin(fin: int, t: int, p: int)
    requires
        0 <= p < 65536,
        fin >= 0,
        combo_ok(fin, t, p),
    ensures
        fin < 990_066,
{
    let nr = 2 * ((p / 512) % 32 + 2);
    vstd::arithmetic::div_mod::lemma_fundamental_div_mod(fin, nr);
    let q = fin / nr;
    let m = fin % nr;
    assert(fin < 990_066) by (nonlinear_arith)
        requires
            fin == nr * q + m,
            0 <= m < nr,
            q <= 15000,
            4 <= nr <= 66,
    ;
}

/// A nonzero control word found by the search is fed by a crystal below
/// 1 GHz, so its output arithmetic fits in u32.
proof fn lemma_ctrl_reg_output_fits(fin: u32, t: int)
    requires
        t >= 0,
        pll_ctrl_spec(fin as int, t) != 0,
    ensures
        fin * (((pll_ctrl_spec(fin as int, t) as u32) & FB_DV) + 2) <= u32::MAX,
    decreases t,
{
    if has_combo(fin as int, t) {
        let w = choose|w: int| 0 <= w < 65536 && combo_ok(fin as int, t, w);
        lemma_least_exists(fin as int, t, w);
        let p = least_combo(fin as int, t);
        lemma_combo_bounds_fin(fin as int, t, p);
        let r = p as u32;
        lemma_pll_reg_bounds(r);
        assert(fin * ((r & FB_DV) + 2) <= u32::MAX) by (nonlinear_arith)
            requires
                fin < 990_066,
                (r & FB_DV) <= 0x1FF,
        ;
    } else {
        lemma_ctrl_reg_output_fits(fin, t - 4000);
    }
}

/// Set a PLL to a target frequency (KHz).
///
/// If the PLL is the current system clock source, it is left alone and
/// its current output is returned.  Otherwise the control word is computed;
/// for APLL and UPLL it is to be written (the first component) and the
/// resulting output is returned.  When no divider combination reaches the
/// target (the word would be 0), and for other sources, the result is 0
/// with nothing to write.
pub fn set_pll_clock(
    src: ClockSource,
    target_khz: u32,
    fin_khz: u32,
    clkdiv0: u32,
    current_pll_reg: u32,
) -> (r: (Option<u32>, u32))
    requires
        pll_is_system_source(src, clkdiv0) ==> fin_khz * ((current_pll_reg & FB_DV) + 2)
            <= u32::MAX,
    ensures
        pll_is_system_source(src, clkdiv0) ==> r == (None::<u32>, pll_output_spec(current_pll_reg, fin_khz) as u32),
        !pll_is_system_source(src, clkdiv0) ==> r == (if (src == ClockSource::APll || src
            == ClockSource::UPll) && pll_ctrl_spec(fin_khz as int, target_khz as int) != 0 {
            (
                Some(pll_ctrl_spec(fin_khz as int, target_khz as int) as u32),
                pll_output_spec(pll_ctrl_spec(fin_khz as int, target_khz as int) as u32, fin_khz) as u32,
            )
        } else {
            (None, 0u32)
        }),
{
    if source_is_system(src, clkdiv0) {
        return (None, sys_get_pll_output_khz(current_pll_reg, fin_khz));
    }
    let pll_reg = sys_get_pll_ctrl_reg(fin_khz, target_khz);
    match src {
        ClockSource::APll | ClockSource::UPll => {},
        _ => {
            return (None, 0);
        },
    }
    if pll_reg == 0 {
        return (None, 0);
    }
    proof {
        lemma_ctrl_reg_output_fits(fin_khz, target_khz as int);
        assert(pll_ctrl_spec(fin_khz as int, target_khz as int) as u32 == pll_reg);
        assert(fin_khz * ((pll_reg & FB_DV) + 2) <= u32::MAX);
    }
    (Some(pll_reg), sys_get_pll_output_khz(pll_reg, fin_khz))
}

/// Power down (or power up) a PLL: the new control word for APLL/UPLL,
/// nothing for other sources.  Refuses to power down the PLL that is the
/// current system clock source.
pub fn power_down_pll(src: ClockSource, power_down: bool, clkdiv0: u32, pll_reg: u32) -> (r: Result<
    Option<u32>,
    (),
>)
    ensures
        power_down && pll_is_system_source(src, clkdiv0) ==> r == Err::<Option<u32>, ()>(()),
        !(power_down && pll_is_system_source(src, clkdiv0)) ==> r == Ok::<Option<u32>, ()>(
            if src == ClockSource::APll || src == ClockSource::UPll {
                Some(
                    if power_down {
                        pll_reg | PD
                    } else {
                        pll_reg & !PD
                    },
                )
            } else {
                None
            },
        ),
{
    if power_down && source_is_system(src, clkdiv0) {
        return Err(());
    }
    match src {
        ClockSource::APll | ClockSource::UPll => {
            if power_down {
                Ok(Some(pll_reg | PD))
            } else {
                Ok(Some(pll_reg & !PD))
            }
        },
        _ => Ok(None),
    }
}

/// The PLL outputs of both control words fit the u32 arithmetic.
pub open spec fn pll_outputs_fit(fin: u32, apllcon: u32, upllcon: u32) -> bool {
    &&& fin * ((apllcon & FB_DV) + 2) <= u32::MAX
    &&& fin * ((upllcon & FB_DV) + 2) <= u32::MAX
}

/// Frequency of the source selected by CLKDIV0 for the CPU path: the
/// crystal, APLL or UPLL (the 32 KHz code falls back to the crystal).
pub open spec fn cpu_source_khz(fin: u32, clkdiv0: u32, apllcon: u32, upllcon: u32) -> int {
    let s = system_source_field(clkdiv0);
    if s == 2 {
        pll_output_spec(apllcon, fin)
    } else if s == 3 {
        pll_output_spec(upllcon, fin)
    } else {
        fin as int
    }
}

/// CPU clock: source / (N0 + 1) / (CPU_N + 1).
pub open spec fn cpu_clock_spec(fin: u32, clkdiv0: u32, clkdiv4: u32, apllcon: u32, upllcon: u32) -> int {
    cpu_source_khz(fin, clkdiv0, apllcon, upllcon) / ((clkdiv0 & SYSTEM_N0) + 1) / ((clkdiv4 & CPU_N)
        + 1)
}

fn cpu_source_frequency(fin_khz: u32, clkdiv0: u32, apllcon: u32, upllcon: u32) -> (r: u32)
    requires
        pll_outputs_fit(fin_khz, apllcon, upllcon),
    ensures
        r == cpu_source_khz(fin_khz, clkdiv0, apllcon, upllcon),
{
    let sys_src = (clkdiv0 & SYSTEM_S) >> 3;
    if sys_src == 2 {
        sys_get_pll_output_khz(apllcon, fin_khz)
    } else if sys_src == 3 {
        sys_get_pll_output_khz(upllcon, fin_khz)
    } else {
        fin_khz
    }
}

/// Get the current CPU clock frequency in KHz.
pub fn get_cpu_clock(fin_khz: u32, clkdiv0: u32, clkdiv4: u32, apllcon: u32, upllcon: u32) -> (r: u32)
    requires
        pll_outputs_fit(fin_khz, apllcon, upllcon),
    ensures
        r == cpu_clock_spec(fin_khz, clkdiv0, clkdiv4, apllcon, upllcon),
{
    let sys_clock = cpu_source_frequency(fin_khz, clkdiv0, apllcon, upllcon);
    proof {
        lemma_and_le(clkdiv0, 7);
        lemma_and_le(clkdiv4, 0xF);
    }
    let sys_div = (clkdiv0 & SYSTEM_N0) + 1;
    let sys_freq = sys_clock / sys_div;
    sys_freq / ((clkdiv4 & CPU_N) + 1)
}

/// Set the CPU clock divider for a target frequency in KHz: ratio 1 clears
/// the CPU divider, ratio 2 sets it to 1, other ratios leave CLKDIV4 alone.
/// Returns the CLKDIV4 value to write (if any) and the resulting CPU clock.
pub fn set_cpu_clock(
    target_khz: u32,
    fin_khz: u32,
    clkdiv0: u32,
    clkdiv4: u32,
    apllcon: u32,
    upllcon: u32,
) -> (r: (Option<u32>, u32))
    requires
        target_khz > 0,
        pll_outputs_fit(fin_khz, apllcon, upllcon),
    ensures
        ({
            let ratio = cpu_source_khz(fin_khz, clkdiv0, apllcon, upllcon) / ((clkdiv0 & SYSTEM_N0)
                + 1) / target_khz as int;
            let new4 = if ratio == 1 {
                Some(clkdiv4 & !CPU_N)
            } else if ratio == 2 {
                Some((clkdiv4 & !CPU_N) | 1)
            } else {
                None
            };
            &&& r.0 == new4
            &&& r.1 == cpu_clock_spec(
                fin_khz,
                clkdiv0,
                match new4 {
                    Some(v) => v,
                    None => clkdiv4,
                },
                apllcon,
                upllcon,
            )
        }),
{
    let src_freq = cpu_source_frequency(fin_khz, clkdiv0, apllcon, upllcon);
    proof {
        lemma_and_le(clkdiv0, 7);
    }
    let sys_freq = src_freq / ((clkdiv0 & SYSTEM_N0) + 1);
    let new4 = if sys_freq / target_khz == 1 {
        Some(clkdiv4 & !CPU_N)
    } else if sys_freq / target_khz == 2 {
        Some((clkdiv4 & !CPU_N) | 0x01)
    } else {
        None
    };
    let c4 = match new4 {
        Some(v) => v,
        None => clkdiv4,
    };
    (new4, get_cpu_clock(fin_khz, clkdiv0, c4, apllcon, upllcon))
}

/// HCLK1 as seen from the CPU clock: half the CPU clock when the CPU
/// divider is 0, the CPU clock otherwise.
pub open spec fn hclk1_spec(cpu_khz: u32, clkdiv4: u32) -> int {
    if clkdiv4 & CPU_N == 0 {
        cpu_khz as int / 2
    } else {
        cpu_khz as int
    }
}

/// APB clock: HCLK1 / (APB_N + 1).
pub open spec fn apb_clock_spec(cpu_khz: u32, clkdiv4: u32) -> int {
    hclk1_spec(cpu_khz, clkdiv4) / (((clkdiv4 & APB_N) >> 8) + 1)
}

/// Get the APB clock frequency in KHz from the CPU clock and CLKDIV4.
pub fn get_apb_clock(cpu_khz: u32, clkdiv4: u32) -> (r: u32)
    ensures
        r == apb_clock_spec(cpu_khz, clkdiv4),
{
    let hclk1 = if clkdiv4 & CPU_N == 0 {
        cpu_khz / 2
    } else {
        cpu_khz
    };
    proof {
        lemma_shr_half(clkdiv4 & APB_N, 8);
    }
    hclk1 / (((clkdiv4 & APB_N) >> 8) + 1)
}

/// APB divider for a target: HCLK1 / target rounded up, minus one, at most 15.
pub open spec fn apb_divider_spec(hclk1: int, target: int) -> int {
    let d = ceil_div(hclk1, target) - if hclk1 / target != 0 || hclk1 % target != 0 {
        1int
    } else {
        0int
    };
    if d > 15 {
        15
    } else {
        d
    }
}

/// Writing the APB divider field of CLKDIV4 leaves the CPU divider and
/// reads back the divider.
proof fn lemma_apb_field(c: u32, d: u32)
    by (bit_vector)
    requires
        d <= 15,
    ensures
        ((c & !0xF00u32) | (d << 8)) & 0xF == c & 0xF,
        (((c & !0xF00u32) | (d << 8)) & 0xF00) >> 8 == d,
{
}

/// Set the APB clock divider for a target frequency in KHz.
///
/// Returns the CLKDIV4 value to write and the resulting APB clock.  The
/// result never exceeds the target when HCLK1 is at most 16 times it.
pub fn set_apb_clock(target_khz: u32, cpu_khz: u32, clkdiv4: u32) -> (r: (u32, u32))
    requires
        target_khz > 0,
    ensures
        r.0 == (clkdiv4 & !APB_N) | ((apb_divider_spec(hclk1_spec(cpu_khz, clkdiv4), target_khz as int)
            as u32) << 8),
        r.1 == apb_clock_spec(cpu_khz, r.0),
        hclk1_spec(cpu_khz, clkdiv4) <= 16 * target_khz ==> r.1 <= target_khz,
{
    let hclk1 = if clkdiv4 & CPU_N == 0 {
        cpu_khz / 2
    } else {
        cpu_khz
    };
    let mut apb_div = if hclk1 % target_khz != 0 {
        hclk1 / target_khz
    } else if hclk1 / target_khz != 0 {
        hclk1 / target_khz - 1
    } else {
        0
    };
    if apb_div > 15 {
        apb_div = 15;
    }
    let new4 = (clkdiv4 & !APB_N) | (apb_div << 8);
    proof {
        lemma_apb_field(clkdiv4, apb_div);
        if hclk1 <= 16 * target_khz {
            let h = hclk1 as int;
            let t = target_khz as int;
            vstd::arithmetic::div_mod::lemma_fundamental_div_mod(h, t);
            let q = h / t;
            let m = h % t;
            let c = apb_div as int + 1;
            if c == 16 {
                assert(c * t >= h && c >= 1);
            } else if m != 0 {
                assert(c == q + 1);
                assert(c * t == t * q + t) by (nonlinear_arith)
                    requires
                        c == q + 1,
                ;
                assert(q >= 0) by (nonlinear_arith)
                    requires
                        h == t * q + m,
                        0 <= m < t,
                        h >= 0,
                ;
            } else if q != 0 {
                assert(c == q);
                assert(c * t >= h && c >= 1) by (nonlinear_arith)
                    requires
                        h == t * q + m,
                        m == 0,
                        c == q,
                        q != 0,
                        t > 0,
                        h >= 0,
                ;
            } else {
                assert(c == 1 && h == 0) by (nonlinear_arith)
                    requires
                        h == t * q + m,
                        m == 0,
                        q == 0,
                        c == 1,
                ;
            }
            vstd::arithmetic::div_mod::lemma_div_is_ordered(h, c * t, c);
            vstd::arithmetic::div_mod::lemma_div_by_multiple(t, c);
            assert(c * t == t * c) by (nonlinear_arith);
        }
    }
    (new4, get_apb_clock(cpu_khz, new4))
}

/// Extended clock source enumeration for `get_clock`.
#[derive(Clone, Copy, PartialEq, Eq, Debug, Structural)]
pub enum ClockNode {
    UPll,
    APll,
    System,
    Hclk1,
    Hclk234,
    Pclk,
    Cpu,
}

/// System clock: the source selected by CLKDIV0 (crystal, 32 KHz, APLL
/// or UPLL) divided by N0 + 1.
pub open spec fn system_clock_khz(fin: u32, clkdiv0: u32, apllcon: u32, upllcon: u32) -> int {
    let s = system_source_field(clkdiv0);
    let src = if s == 1 {
        32
    } else {
        cpu_source_khz(fin, clkdiv0, apllcon, upllcon)
    };
    src / ((clkdiv0 & SYSTEM_N0) + 1)
}

/// Get the frequency (KHz) of any clock tree node.
pub fn get_clock(
    node: ClockNode,
    fin_khz: u32,
    clkdiv0: u32,
    clkdiv4: u32,
    apllcon: u32,
    upllcon: u32,
) -> (r: u32)
    requires
        pll_outputs_fit(fin_khz, apllcon, upllcon),
    ensures
        r == match node {
            ClockNode::UPll => pll_output_spec(upllcon, fin_khz),
            ClockNode::APll => pll_output_spec(apllcon, fin_khz),
            ClockNode::System => system_clock_khz(fin_khz, clkdiv0, apllcon, upllcon),
            ClockNode::Hclk1 => system_clock_khz(fin_khz, clkdiv0, apllcon, upllcon) / 2,
            ClockNode::Hclk234 => system_clock_khz(fin_khz, clkdiv0, apllcon, upllcon) / 2,
            ClockNode::Pclk => apb_clock_spec(
                cpu_clock_spec(fin_khz, clkdiv0, clkdiv4, apllcon, upllcon) as u32,
                clkdiv4,
            ),
            ClockNode::Cpu => cpu_clock_spec(fin_khz, clkdiv0, clkdiv4, apllcon, upllcon),
        },
{
    match node {
        ClockNode::UPll => sys_get_pll_output_khz(upllcon, fin_khz),
        ClockNode::APll => sys_get_pll_output_khz(apllcon, fin_khz),
        ClockNode::System | ClockNode::Hclk1 | ClockNode::Hclk234 => {
            let src_freq = if (clkdiv0 & SYSTEM_S) >> 3 == 1 {
                32
            } else {
                cpu_source_frequency(fin_khz, clkdiv0, apllcon, upllcon)
            };
            proof {
                lemma_and_le(clkdiv0, 7);
            }
            let sys = src_freq / ((clkdiv0 & SYSTEM_N0) + 1);
            match node {
                ClockNode::System => sys,
                _ => sys / 2,
            }
        },
        ClockNode::Pclk => {
            let cpu = get_cpu_clock(fin_khz, clkdiv0, clkdiv4, apllcon, upllcon);
            get_apb_clock(cpu, clkdiv4)
        },
        ClockNode::Cpu => get_cpu_clock(fin_khz, clkdiv0, clkdiv4, apllcon, upllcon),
    }
}

} // verus!
