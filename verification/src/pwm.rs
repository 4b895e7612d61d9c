//! PWM timers and capture inputs: four output channels (0–3) and four
//! capture channels (0x10–0x13) on pins GPD[0]–GPD[3].
//!
//! A channel number is a byte: bit 4 marks a capture channel, bits 2:0
//! give its index, bit 1 picks the capture control register (CCR0 for
//! 0/1, CCR1 for 2/3) and bit 0 the half of it (bits 15:0 or 31:16).
//! The functions here compute the register values of each driver
//! operation from the values the registers held before.

use vstd::prelude::*;
use crate::registers::{
    CH0EN, CH0INV, CH0MOD, CH1EN, CH1INV, CH1MOD, CH2EN, CH2INV, CH2MOD, CH3EN, CH3INV, CH3MOD,
    CIIR0, CIIR1, CIIR2, CIIR3, CP0, CP1, DZEN0, DZEN1, DZI0, DZI1, PIIR0, PIIR1, PIIR2, PIIR3,
    PWM_CSR_DIV1, PWM_CSR_DIV16, PWM_CSR_DIV2, PWM_CSR_DIV4, PWM_CSR_DIV8, REG_CCR0, REG_CCR1,
    REG_CFLR0, REG_CMR0, REG_CNR0, REG_CRLR0, REG_PCR, REG_PDR0, REG_PIIR, REG_PPR, REG_PWM_CSR,
    RegOp,
};

verus! {

/// PWM timer channel.
#[derive(Clone, Copy, PartialEq, Eq, Debug, Structural)]
pub enum PwmChannel {
    Ch0,
    Ch1,
    Ch2,
    Ch3,
}

impl PwmChannel {
    /// Channel number (0–3).
    pub fn number(self) -> (r: u8)
        ensures
            r == spec_pwm_number(self),
    {
        match self {
            PwmChannel::Ch0 => 0,
            PwmChannel::Ch1 => 1,
            PwmChannel::Ch2 => 2,
            PwmChannel::Ch3 => 3,
        }
    }
}

pub open spec fn spec_pwm_number(c: PwmChannel) -> u8 {
    match c {
        PwmChannel::Ch0 => 0,
        PwmChannel::Ch1 => 1,
        PwmChannel::Ch2 => 2,
        PwmChannel::Ch3 => 3,
    }
}

/// Capture channel.
#[derive(Clone, Copy, PartialEq, Eq, Debug, Structural)]
pub enum CapChannel {
    Cap0,
    Cap1,
    Cap2,
    Cap3,
}

impl CapChannel {
    /// Channel number (0x10–0x13).
    pub fn number(self) -> (r: u8)
        ensures
            r == spec_cap_number(self),
    {
        match self {
            CapChannel::Cap0 => 0x10,
            CapChannel::Cap1 => 0x11,
            CapChannel::Cap2 => 0x12,
            CapChannel::Cap3 => 0x13,
        }
    }
}

pub open spec fn spec_cap_number(c: CapChannel) -> u8 {
    match c {
        CapChannel::Cap0 => 0x10,
        CapChannel::Cap1 => 0x11,
        CapChannel::Cap2 => 0x12,
        CapChannel::Cap3 => 0x13,
    }
}

/// Output mode of a PWM timer.
#[derive(Clone, Copy, PartialEq, Eq, Debug, Structural)]
pub enum PwmMode {
    OneShot,
    Toggle,
}

/// Clock divider of a PWM timer.
#[derive(Clone, Copy, PartialEq, Eq, Debug, Structural)]
pub enum PwmClkDiv {
    Div1,
    Div2,
    Div4,
    Div8,
    Div16,
}

pub open spec fn spec_divider(d: PwmClkDiv) -> u32 {
    match d {
        PwmClkDiv::Div1 => 1,
        PwmClkDiv::Div2 => 2,
        PwmClkDiv::Div4 => 4,
        PwmClkDiv::Div8 => 8,
        PwmClkDiv::Div16 => 16,
    }
}

pub open spec fn spec_csr_code(d: PwmClkDiv) -> u32 {
    match d {
        PwmClkDiv::Div1 => PWM_CSR_DIV1,
        PwmClkDiv::Div2 => PWM_CSR_DIV2,
        PwmClkDiv::Div4 => PWM_CSR_DIV4,
        PwmClkDiv::Div8 => PWM_CSR_DIV8,
        PwmClkDiv::Div16 => PWM_CSR_DIV16,
    }
}

impl PwmClkDiv {
    /// The division factor (1, 2, 4, 8 or 16).
    pub fn divider(self) -> (r: u32)
        ensures
            r == spec_divider(self),
    {
        match self {
            PwmClkDiv::Div1 => 1,
            PwmClkDiv::Div2 => 2,
            PwmClkDiv::Div4 => 4,
            PwmClkDiv::Div8 => 8,
            PwmClkDiv::Div16 => 16,
        }
    }

    /// The clock-select code of the divider in CSR.
    pub fn csr_code(self) -> (r: u32)
        ensures
            r == spec_csr_code(self),
            r <= 4,
    {
        match self {
            PwmClkDiv::Div1 => PWM_CSR_DIV1,
            PwmClkDiv::Div2 => PWM_CSR_DIV2,
            PwmClkDiv::Div4 => PWM_CSR_DIV4,
            PwmClkDiv::Div8 => PWM_CSR_DIV8,
            PwmClkDiv::Div16 => PWM_CSR_DIV16,
        }
    }
}

/// Edges on which a capture channel interrupts.
#[derive(Clone, Copy, PartialEq, Eq, Debug, Structural)]
pub enum CapIntType {
    Rising,
    Falling,
    Both,
}

pub open spec fn spec_cap_int_code(t: CapIntType) -> u32 {
    match t {
        CapIntType::Rising => 1,
        CapIntType::Falling => 2,
        CapIntType::Both => 3,
    }
}

impl CapIntType {
    /// The type's edge enable bits (rising 1, falling 2, both 3).
    pub fn code(self) -> (r: u32)
        ensures
            r == spec_cap_int_code(self),
    {
        match self {
            CapIntType::Rising => 1,
            CapIntType::Falling => 2,
            CapIntType::Both => 3,
        }
    }
}

/// Capture status flag: its bit position within the channel's half of CCR.
#[derive(Clone, Copy, PartialEq, Eq, Debug, Structural)]
pub enum CapIntFlag {
    Rising,
    Falling,
}

pub open spec fn spec_flag_pos(f: CapIntFlag) -> u32 {
    match f {
        CapIntFlag::Rising => 6,
        CapIntFlag::Falling => 7,
    }
}

impl CapIntFlag {
    /// Bit position of the flag (6 or 7).
    pub fn position(self) -> (r: u32)
        ensures
            r == spec_flag_pos(self),
    {
        match self {
            CapIntFlag::Rising => 6,
            CapIntFlag::Falling => 7,
        }
    }
}

/// Register stride between timer channels.
pub const CH_STRIDE: u32 = 12;
/// Register stride between capture latches.
pub const CAP_STRIDE: u32 = 8;

/// CNR (counter) register of a channel.
pub fn cnr_reg(ch: u8) -> (r: u32)
    ensures
        r == REG_CNR0 + ch * CH_STRIDE,
{
    REG_CNR0 + (ch as u32) * CH_STRIDE
}

/// CMR (comparator) register of a channel.
pub fn cmr_reg(ch: u8) -> (r: u32)
    ensures
        r == REG_CMR0 + ch * CH_STRIDE,
{
    REG_CMR0 + (ch as u32) * CH_STRIDE
}

/// PDR (data) register of a channel.
pub fn pdr_reg(ch: u8) -> (r: u32)
    ensures
        r == REG_PDR0 + ch * CH_STRIDE,
{
    REG_PDR0 + (ch as u32) * CH_STRIDE
}

/// CRLR (rising latch) register of a capture channel.
pub fn crlr_reg(ch: u8) -> (r: u32)
    ensures
        r == REG_CRLR0 + ch * CAP_STRIDE,
{
    REG_CRLR0 + (ch as u32) * CAP_STRIDE
}

/// CFLR (falling latch) register of a capture channel.
pub fn cflr_reg(ch: u8) -> (r: u32)
    ensures
        r == REG_CFLR0 + ch * CAP_STRIDE,
{
    REG_CFLR0 + (ch as u32) * CAP_STRIDE
}

/// Whether a channel number names a capture channel.
pub open spec fn is_cap(ch: u8) -> bool {
    ch & 0x10 != 0
}

/// Index (bits 2:0) of a channel number.
pub open spec fn ch_index(ch: u8) -> u32 {
    (ch & 0x07) as u32
}

/// The channel's capture control register.
pub open spec fn spec_ccr_reg(ch: u8) -> u32 {
    if ch & 0x02 != 0 {
        REG_CCR1
    } else {
        REG_CCR0
    }
}

/// Bit offset of the channel's half of its capture control register.
pub open spec fn cap_shift(ch: u8) -> u32 {
    if ch & 0x01 != 0 {
        16
    } else {
        0
    }
}

/// Enable bit of timer `i` in PCR.
pub open spec fn en_bit(i: u32) -> u32 {
    if i == 0 {
        CH0EN
    } else if i == 1 {
        CH1EN
    } else if i == 2 {
        CH2EN
    } else {
        CH3EN
    }
}

/// Mode (toggle) bit of timer `i` in PCR.
pub open spec fn mod_bit(i: u32) -> u32 {
    if i == 0 {
        CH0MOD
    } else if i == 1 {
        CH1MOD
    } else if i == 2 {
        CH2MOD
    } else {
        CH3MOD
    }
}

/// Inverter bit of timer `i` in PCR.
pub open spec fn inv_bit(i: u32) -> u32 {
    if i == 0 {
        CH0INV
    } else if i == 1 {
        CH1INV
    } else if i == 2 {
        CH2INV
    } else {
        CH3INV
    }
}

/// `x` with bit(s) `b` set or cleared.
pub open spec fn set_or_clear(x: u32, b: u32, set: bool) -> u32 {
    if set {
        x | b
    } else {
        x & !b
    }
}

/// The capture control register of a channel.
pub fn ccr_reg(ch: u8) -> (r: u32)
    ensures
        r == spec_ccr_reg(ch),
{
    if ch & 0x02 != 0 {
        REG_CCR1
    } else {
        REG_CCR0
    }
}

fn cap_shift_of(ch: u8) -> (r: u32)
    ensures
        r == cap_shift(ch),
{
    if ch & 0x01 != 0 {
        16
    } else {
        0
    }
}

fn index_of(ch: u8) -> (r: u32)
    ensures
        r == ch_index(ch),
        r < 8,
{
    let r = (ch & 0x07) as u32;
    assert(ch & 0x07 <= 0x07) by (bit_vector);
    r
}

fn timer_bit_index(ch: u8) -> (r: u32)
    ensures
        r == (ch & 0x03) as u32,
        r < 4,
{
    assert(ch & 0x03 <= 0x03) by (bit_vector);
    (ch & 0x03) as u32
}

fn en_bit_of(i: u32) -> (r: u32)
    ensures
        r == en_bit(i),
        r != 0,
{
    if i == 0 {
        CH0EN
    } else if i == 1 {
        CH1EN
    } else if i == 2 {
        CH2EN
    } else {
        CH3EN
    }
}

fn set_or_clear_bit(x: u32, b: u32, set: bool) -> (r: u32)
    ensures
        r == set_or_clear(x, b, set),
{
    if set {
        x | b
    } else {
        x & !b
    }
}

/// Whether timer `ch` is enabled in a PCR value.
pub fn pwm_is_enabled(ch: PwmChannel, pcr: u32) -> (r: bool)
    ensures
        r == (pcr & en_bit(spec_pwm_number(ch) as u32) != 0),
{
    let b = en_bit_of(ch.number() as u32);
    pcr & b != 0
}

/// Enable (or disable) a timer or capture channel: the channel's enable
/// bit in PCR is set (cleared); a capture channel also has its capture
/// enable bit (bit 3 of its half) in its CCR set (cleared).  Returns the
/// new PCR and the new value of the channel's CCR (`ccr` itself for a
/// timer channel).  The index bits of `ch` must name one of the four
/// channels.
pub fn pwm_enable(ch: u8, enable: bool, pcr: u32, ccr: u32) -> (r: (u32, u32))
    requires
        ch_index(ch) < 4,
    ensures
        r.0 == set_or_clear(pcr, en_bit(ch_index(ch)), enable),
        r.1 == if is_cap(ch) {
            set_or_clear(ccr, 0x08u32 << cap_shift(ch), enable)
        } else {
            ccr
        },
{
    let idx = index_of(ch);
    let new_pcr = set_or_clear_bit(pcr, en_bit_of(idx), enable);
    let new_ccr = if ch & 0x10 != 0 {
        set_or_clear_bit(ccr, 0x08u32 << cap_shift_of(ch), enable)
    } else {
        ccr
    };
    (new_pcr, new_ccr)
}

/// After `pwm_enable` on a timer channel, the channel reads back as
/// enabled exactly when it was asked to be.
pub proof fn lemma_enable_then_is_enabled(c: PwmChannel, enable: bool, pcr: u32)
    ensures
        (set_or_clear(pcr, en_bit(spec_pwm_number(c) as u32), enable) & en_bit(
            spec_pwm_number(c) as u32,
        ) != 0) == enable,
{
    let b = en_bit(spec_pwm_number(c) as u32);
    crate::bits::lemma_flag(pcr, b, 0);
}

/// Turn the output pin (or capture input) of a channel on or off: bit
/// `index` of POE (CAPENR for a capture channel) is set or cleared, and
/// the pin's multi-function field (two bits at 2·index) of GPDFUN is set to
/// the PWM function (2) or back to GPIO (0).  `enable_reg` is POE or CAPENR
/// as the channel asks; returns the new values of that register and of
/// GPDFUN.
pub fn pwm_set_io(ch: u8, enable: bool, enable_reg: u32, gpdfun: u32) -> (r: (u32, u32))
    ensures
        r.0 == set_or_clear(enable_reg, 1u32 << ch_index(ch), enable),
        r.1 == if enable {
            (gpdfun & !(0x3u32 << (ch_index(ch) * 2))) | (0x2u32 << (ch_index(ch) * 2))
        } else {
            gpdfun & !(0x3u32 << (ch_index(ch) * 2))
        },
{
    let idx = index_of(ch);
    let bit = 1u32 << idx;
    let mf_mask = 0x3u32 << (idx * 2);
    if enable {
        (enable_reg | bit, (gpdfun & !mf_mask) | (0x2u32 << (idx * 2)))
    } else {
        (enable_reg & !bit, gpdfun & !mf_mask)
    }
}

/// Register and value that set a channel's counter (CNR of channel
/// `ch & 7`).
pub fn pwm_set_counter(ch: u8, counter: u16) -> (r: (u32, u32))
    ensures
        r.0 == REG_CNR0 + ch_index(ch) * CH_STRIDE,
        r.1 == counter as u32,
{
    let idx = index_of(ch);
    (REG_CNR0 + idx * CH_STRIDE, counter as u32)
}

/// The counter value (low 16 bits) of a PDR or capture latch reading.
pub fn pwm_get_counter(raw: u32) -> (r: u16)
    ensures
        r as u32 == raw & 0xFFFF,
{
    let v = raw & 0xFFFF;
    assert(raw & 0xFFFF <= 0xFFFF) by (bit_vector);
    v as u16
}

/// The rising-edge latch value of a CRLR reading.
pub fn pwm_get_rising_counter(raw: u32) -> (r: u16)
    ensures
        r as u32 == raw & 0xFFFF,
{
    pwm_get_counter(raw)
}

/// The falling-edge latch value of a CFLR reading.
pub fn pwm_get_falling_counter(raw: u32) -> (r: u16)
    ensures
        r as u32 == raw & 0xFFFF,
{
    pwm_get_counter(raw)
}

/// Dead-zone set-up of a channel pair: channels 0/1 use generator 0
/// (interval in PPR bits 23:16, enable DZEN0), channels 2/3 generator 1
/// (interval in bits 31:24, enable DZEN1).  Returns the new PPR and PCR.
pub fn pwm_dead_zone(ch: u8, length: u8, enable: bool, ppr: u32, pcr: u32) -> (r: (u32, u32))
    ensures
        r == if ch & 0x02 != 0 {
            ((ppr & !DZI1) | ((length as u32) << 24u32), set_or_clear(pcr, DZEN1, enable))
        } else {
            ((ppr & !DZI0) | ((length as u32) << 16u32), set_or_clear(pcr, DZEN0, enable))
        },
{
    if ch & 0x02 != 0 {
        ((ppr & !DZI1) | ((length as u32) << 24), set_or_clear_bit(pcr, DZEN1, enable))
    } else {
        ((ppr & !DZI0) | ((length as u32) << 16), set_or_clear_bit(pcr, DZEN0, enable))
    }
}

/// The inverter set-up of a channel: a capture channel has its inverter
/// (bit 0 of its half) in its CCR, a timer its CHnINV bit in PCR.
/// `current` is that register's value; returns its new value.
pub fn pwm_set_inverter(ch: u8, inverter: bool, current: u32) -> (r: u32)
    requires
        is_cap(ch) || ch_index(ch) < 4,
    ensures
        r == if is_cap(ch) {
            set_or_clear(current, 1u32 << cap_shift(ch), inverter)
        } else {
            set_or_clear(current, inv_bit(ch_index(ch)), inverter)
        },
{
    if ch & 0x10 != 0 {
        set_or_clear_bit(current, 1u32 << cap_shift_of(ch), inverter)
    } else {
        let idx = index_of(ch);
        let b = if idx == 0 {
            CH0INV
        } else if idx == 1 {
            CH1INV
        } else if idx == 2 {
            CH2INV
        } else {
            CH3INV
        };
        set_or_clear_bit(current, b, inverter)
    }
}

/// The PCR layout: timer `i` has its enable bit at 8·i, its inverter bit
/// at 8·i + 2 and its mode (toggle) bit at 8·i + 3.
pub proof fn lemma_pcr_layout(i: u32)
    requires
        i < 4,
    ensures
        en_bit(i) == 1u32 << (8 * i),
        inv_bit(i) == 1u32 << (8 * i + 2),
        mod_bit(i) == 1u32 << (8 * i + 3),
{
    assert(1u32 << 0u32 == 0x1u32 && 1u32 << 2u32 == 0x4u32 && 1u32 << 3u32 == 0x8u32 && 1u32
        << 8u32 == 0x100u32 && 1u32 << 10u32 == 0x400u32 && 1u32 << 11u32 == 0x800u32 && 1u32
        << 16u32 == 0x1_0000u32 && 1u32 << 18u32 == 0x4_0000u32 && 1u32 << 19u32 == 0x8_0000u32
        && 1u32 << 24u32 == 0x100_0000u32 && 1u32 << 26u32 == 0x400_0000u32 && 1u32 << 27u32
        == 0x800_0000u32) by (bit_vector);
}

/// PCR with the channel's mode bit (bit 8·index + 3) set for toggle mode,
/// cleared for one-shot; every other bit kept.
pub fn pwm_set_mode(ch: u8, mode: PwmMode, pcr: u32) -> (r: u32)
    requires
        ch_index(ch) < 4,
    ensures
        r == set_or_clear(pcr, mod_bit(ch_index(ch)), mode == PwmMode::Toggle),
        (r & (1u32 << (8 * ch_index(ch) + 3)) != 0) == (mode == PwmMode::Toggle),
        forall|k: u32|
            k & (1u32 << (8 * ch_index(ch) + 3)) == 0 ==> #[trigger] (r & k) == pcr & k,
{
    proof {
        let i = ch_index(ch);
        lemma_pcr_layout(i);
        let b = mod_bit(i);
        let t = mode == PwmMode::Toggle;
        let v = set_or_clear(pcr, b, t);
        assert(b != 0);
        crate::bits::lemma_flag(pcr, b, 0);
        assert forall|k: u32| k & b == 0 implies #[trigger] (v & k) == pcr & k by {
            crate::bits::lemma_flag(pcr, b, k);
        }
    }
    let idx = index_of(ch);
    let b = if idx == 0 {
        CH0MOD
    } else if idx == 1 {
        CH1MOD
    } else if idx == 2 {
        CH2MOD
    } else {
        CH3MOD
    };
    let toggle = match mode {
        PwmMode::Toggle => true,
        PwmMode::OneShot => false,
    };
    set_or_clear_bit(pcr, b, toggle)
}

/// PPR value with the prescaler field of the channel's pair set to `p`:
/// CP1 (bits 15:8) for channels 2/3, CP0 (bits 7:0) for 0/1.
pub open spec fn prescaler_value(ch: u8, p: u32, ppr: u32) -> u32 {
    if ch & 0x02 != 0 {
        (ppr & !CP1) | (p << 8u32)
    } else {
        (ppr & !CP0) | p
    }
}

/// Prescaler field bits: writing an 8-bit value into CP1 (bits 15:8) or
/// CP0 (bits 7:0) reads back and keeps every other bit.
proof fn lemma_prescaler_bits(ppr: u32, p: u32)
    by (bit_vector)
    requires
        p <= 0xFF,
    ensures
        (((ppr & !0xFF00u32) | (p << 8u32)) & 0xFF00u32) >> 8u32 == p,
        ((ppr & !0xFF00u32) | (p << 8u32)) & !0xFF00u32 == ppr & !0xFF00u32,
        ((ppr & !0xFFu32) | p) & 0xFFu32 == p,
        ((ppr & !0xFFu32) | p) & !0xFFu32 == ppr & !0xFFu32,
{
}

/// Each channel pair has its own prescaler: channels whose number has bit
/// 1 set (timers 2 and 3, captures 0x12 and 0x13) use CP1 (bits 15:8),
/// all others (timers 0 and 1, captures 0x10 and 0x11) use CP0 (bits 7:0);
/// the capture flag does not choose the pair.  The pair's field reads back
/// the prescaler and the rest of PPR, the other pair's field included, is
/// kept.
pub proof fn lemma_prescaler_pairs(ch: u8, p: u32, ppr: u32)
    requires
        p <= 0xFF,
    ensures
        ch & 0x02 != 0 ==> (prescaler_value(ch, p, ppr) & CP1) >> 8u32 == p
            && prescaler_value(ch, p, ppr) & !CP1 == ppr & !CP1,
        ch & 0x02 == 0 ==> prescaler_value(ch, p, ppr) & CP0 == p && prescaler_value(ch, p, ppr)
            & !CP0 == ppr & !CP0,
        prescaler_value(ch | 0x10, p, ppr) == prescaler_value(ch & 0x0F, p, ppr),
{
    lemma_prescaler_bits(ppr, p);
    assert((ch | 0x10) & 0x02 == ch & 0x02 && (ch & 0x0F) & 0x02 == ch & 0x02) by (bit_vector);
}

/// PPR with the prescaler field of the channel's pair set to
/// `prescale_minus_one`: CP1 for channels with bit 1 set, CP0 otherwise.
pub fn pwm_set_prescaler(ch: u8, prescale_minus_one: u32, ppr: u32) -> (r: u32)
    ensures
        r == prescaler_value(ch, prescale_minus_one, ppr),
        prescale_minus_one <= 0xFF && ch & 0x02 != 0 ==> (r & CP1) >> 8u32 == prescale_minus_one
            && r & !CP1 == ppr & !CP1,
        prescale_minus_one <= 0xFF && ch & 0x02 == 0 ==> r & CP0 == prescale_minus_one && r & !CP0
            == ppr & !CP0,
{
    proof {
        if prescale_minus_one <= 0xFF {
            lemma_prescaler_pairs(ch, prescale_minus_one, ppr);
        }
    }

    if ch & 0x02 != 0 {
        (ppr & !CP1) | (prescale_minus_one << 8)
    } else {
        (ppr & !CP0) | prescale_minus_one
    }
}

/// CSR value with the clock-select field of channel index `ch & 7` (three
/// bits at 4·index) set to `div_code`.
pub open spec fn clock_select_value(ch: u8, div_code: u32, csr: u32) -> u32 {
    (csr & !(0x7u32 << (ch_index(ch) * 4))) | ((div_code & 0x7) << (ch_index(ch) * 4))
}

/// CSR with the clock-select field of the channel set to `div_code`.
pub fn pwm_set_clock_select(ch: u8, div_code: u32, csr: u32) -> (r: u32)
    ensures
        r == clock_select_value(ch, div_code, csr),
{
    let shift = index_of(ch) * 4;
    (csr & !(0x7u32 << shift)) | ((div_code & 0x7) << shift)
}

/// `x - 1` wrapping in 32 bits.
pub open spec fn wrap_dec(x: int) -> u32 {
    if x == 0 {
        u32::MAX
    } else {
        (x - 1) as u32
    }
}

/// Counter and comparator values of the manual set-up: CNR = duty - 1 and
/// CMR = duty · ratio / 100 - 1 (both wrapping), CMR = 0 when `duty` is 0.
pub open spec fn manual_counters(duty: u32, ratio: u8) -> (u32, u32) {
    (wrap_dec(duty as int), if duty == 0 {
        0
    } else {
        wrap_dec(duty * ratio / 100)
    })
}

/// Counter and comparator values of the automatic set-up from the
/// computed count `cnr_val`: a capture channel with a non-zero `duty` keeps
/// its manual values; otherwise CNR = cnr_val - 1 (wrapping in 16 bits)
/// and CMR = cnr_val · ratio / 100 - 1 (wrapping).
pub open spec fn auto_counters(ch: u8, duty: u32, ratio: u8, cnr_val: u16) -> (u32, u32) {
    if is_cap(ch) && duty != 0 {
        manual_counters(duty, ratio)
    } else {
        (
            if cnr_val == 0 {
                0xFFFFu32
            } else {
                (cnr_val - 1) as u32
            },
            wrap_dec(cnr_val * ratio / 100),
        )
    }
}

/// Counter and comparator values of the manual set-up.
pub fn pwm_manual_counters(duty: u32, high_pulse_ratio: u8) -> (r: (u32, u32))
    requires
        duty * high_pulse_ratio <= u32::MAX,
    ensures
        r == manual_counters(duty, high_pulse_ratio),
{
    let cnr = duty.wrapping_sub(1);
    let cmr = if duty > 0 {
        (duty * high_pulse_ratio as u32 / 100).wrapping_sub(1)
    } else {
        0
    };
    (cnr, cmr)
}

/// Counter and comparator values of the automatic set-up.
pub fn pwm_auto_counters(ch: u8, duty: u32, high_pulse_ratio: u8, cnr_val: u16) -> (r: (u32, u32))
    requires
        (is_cap(ch) && duty != 0) ==> duty * high_pulse_ratio <= u32::MAX,
    ensures
        r == auto_counters(ch, duty, high_pulse_ratio, cnr_val),
{
    if ch & 0x10 != 0 && duty != 0 {
        pwm_manual_counters(duty, high_pulse_ratio)
    } else {
        assert(cnr_val * high_pulse_ratio <= 0xFFFF * 0xFF) by (nonlinear_arith)
            requires
                cnr_val <= 0xFFFF,
                high_pulse_ratio <= 0xFF,
        ;
        let cnr = cnr_val.wrapping_sub(1) as u32;
        let cmr = (cnr_val as u32 * high_pulse_ratio as u32 / 100).wrapping_sub(1);
        (cnr, cmr)
    }
}

/// The integer settings of a PWM timer set-up.
#[derive(Clone, Copy, Debug)]
pub struct PwmClkSetting {
    /// Toggle or one-shot mode
    pub mode: PwmMode,
    /// High pulse ratio (0–100 %)
    pub high_pulse_ratio: u8,
    /// Invert the output
    pub inverter: bool,
    /// Clock divider of the manual set-up
    pub clock_div: PwmClkDiv,
    /// Prescaler (2–256) of the manual set-up
    pub prescale: u8,
    /// Period count of the manual set-up (and of a capture channel)
    pub duty: u32,
}

/// Prescaler, clock-select code and period count that the frequency
/// computation chose.
#[derive(Clone, Copy, Debug)]
pub struct PwmDividers {
    pub pre: u16,
    pub div_code: u32,
    pub cnr: u16,
}

/// The PWM registers a timer set-up reads: PCR, the channel's CCR, PPR and
/// CSR.
#[derive(Clone, Copy, Debug)]
pub struct PwmRegs {
    pub pcr: u32,
    pub ccr: u32,
    pub ppr: u32,
    pub csr: u32,
}

/// The register steps of a timer set-up, assuming each register reads back
/// what was last written: the inverter (in the channel's CCR for a capture
/// channel, in PCR for a timer), the mode bit in PCR, the prescaler, the
/// clock select, then CNR and CMR.  Without dividers (`None`) the manual
/// prescaler, divider and period of `s` are used; with them, the chosen
/// prescaler, clock select and count.
pub open spec fn timer_clk_plan(ch: u8, s: PwmClkSetting, d: Option<PwmDividers>, regs: PwmRegs) -> Seq<RegOp> {
    let idx = ch_index(ch);
    let inv_reg = if is_cap(ch) {
        spec_ccr_reg(ch)
    } else {
        REG_PCR
    };
    let inv_val = if is_cap(ch) {
        set_or_clear(regs.ccr, 1u32 << cap_shift(ch), s.inverter)
    } else {
        set_or_clear(regs.pcr, inv_bit(idx), s.inverter)
    };
    let pcr1 = if is_cap(ch) {
        regs.pcr
    } else {
        inv_val
    };
    let pcr2 = set_or_clear(pcr1, mod_bit(idx), s.mode == PwmMode::Toggle);
    let (p, code, counters) = match d {
        None => (
            (if s.prescale == 0 {
                255
            } else {
                s.prescale - 1
            }) as u32,
            spec_csr_code(s.clock_div),
            manual_counters(s.duty, s.high_pulse_ratio),
        ),
        Some(dv) => (
            (dv.pre - 1) as u32,
            dv.div_code,
            auto_counters(ch, s.duty, s.high_pulse_ratio, dv.cnr),
        ),
    };
    seq![
        RegOp::Write { addr: inv_reg, value: inv_val },
        RegOp::Write { addr: REG_PCR, value: pcr2 },
        RegOp::Write { addr: REG_PPR, value: prescaler_value(ch, p, regs.ppr) },
        RegOp::Write { addr: REG_PWM_CSR, value: clock_select_value(ch, code, regs.csr) },
        RegOp::Write { addr: (REG_CNR0 + idx * CH_STRIDE) as u32, value: counters.0 },
        RegOp::Write { addr: (REG_CMR0 + idx * CH_STRIDE) as u32, value: counters.1 },
    ]
}

/// The register steps that set up a timer or capture channel's clock,
/// mode, inverter and period.  The index bits of `ch` name one of the four
/// channels.
pub fn pwm_set_timer_clk(ch: u8, s: &PwmClkSetting, d: Option<PwmDividers>, regs: PwmRegs) -> (r: Vec<
    RegOp,
>)
    requires
        ch_index(ch) < 4,
        (d is None || (is_cap(ch) && s.duty != 0)) ==> s.duty * s.high_pulse_ratio <= u32::MAX,
        d matches Some(dv) ==> dv.pre >= 1,
    ensures
        r@ == timer_clk_plan(ch, *s, d, regs),
{
    let idx = index_of(ch);
    let cap = ch & 0x10 != 0;
    let inv_reg = if cap {
        ccr_reg(ch)
    } else {
        REG_PCR
    };
    let inv_val = pwm_set_inverter(ch, s.inverter, if cap {
        regs.ccr
    } else {
        regs.pcr
    });
    let pcr1 = if cap {
        regs.pcr
    } else {
        inv_val
    };
    let pcr2 = pwm_set_mode(ch, s.mode, pcr1);
    let (p, code, counters) = match d {
        None => (
            s.prescale.wrapping_sub(1) as u32,
            s.clock_div.csr_code(),
            pwm_manual_counters(s.duty, s.high_pulse_ratio),
        ),
        Some(dv) => (
            (dv.pre - 1) as u32,
            dv.div_code,
            pwm_auto_counters(ch, s.duty, s.high_pulse_ratio, dv.cnr),
        ),
    };
    let r = vec![
        RegOp::Write { addr: inv_reg, value: inv_val },
        RegOp::Write { addr: REG_PCR, value: pcr2 },
        RegOp::Write { addr: REG_PPR, value: pwm_set_prescaler(ch, p, regs.ppr) },
        RegOp::Write { addr: REG_PWM_CSR, value: pwm_set_clock_select(ch, code, regs.csr) },
        RegOp::Write { addr: REG_CNR0 + idx * CH_STRIDE, value: counters.0 },
        RegOp::Write { addr: REG_CMR0 + idx * CH_STRIDE, value: counters.1 },
    ];
    assert(r@ =~= timer_clk_plan(ch, *s, d, regs));
    r
}

/// 2 to the power `k`.
pub open spec fn pow2(k: nat) -> nat
    decreases k,
{
    if k == 0 {
        1
    } else {
        2 * pow2((k - 1) as nat)
    }
}

/// `p` is the smallest power of two not below `n`.
pub open spec fn is_ceil_pow2(p: int, n: int) -> bool {
    (exists|k: nat| p == pow2(k)) && n <= p && (p == 1 || p < 2 * n)
}

/// The clock divider of the automatic set-up: the smallest power of two
/// not below `div_val`, and at most 16 (the largest divider), so that the
/// period count fits its 16 bits whenever some divider can make it fit.
pub fn pwm_divider_for(div_val: u16) -> (r: u16)
    ensures
        exists|c: int| is_ceil_pow2(c, div_val as int) && r == if c > 16 {
            16
        } else {
            c
        },
{
    let mut p: u32 = 1;
    let ghost mut k: nat = 0;
    while p < div_val as u32
        invariant
            p == pow2(k),
            1 <= p,
            p == 1 || p < 2 * div_val,
            div_val <= 0xFFFF,
        decreases 2 * (div_val as int) - p,
    {
        p = p * 2;
        proof {
            k = k + 1;
        }
    }
    proof {
        assert(is_ceil_pow2(p as int, div_val as int));
    }
    if p > 16 {
        16
    } else {
        p as u16
    }
}

/// CSR clock-select code of a division factor; factors other than 1, 2,
/// 4, 8 and 16 select the undivided clock.
pub fn pwm_div_code(div_val: u16) -> (r: u32)
    ensures
        r == if div_val == 2 {
            PWM_CSR_DIV2
        } else if div_val == 4 {
            PWM_CSR_DIV4
        } else if div_val == 8 {
            PWM_CSR_DIV8
        } else if div_val == 16 {
            PWM_CSR_DIV16
        } else {
            PWM_CSR_DIV1
        },
{
    match div_val {
        1 => PWM_CSR_DIV1,
        2 => PWM_CSR_DIV2,
        4 => PWM_CSR_DIV4,
        8 => PWM_CSR_DIV8,
        16 => PWM_CSR_DIV16,
        _ => PWM_CSR_DIV1,
    }
}

/// Interrupt enable: for a capture channel, the two edge enables of its
/// half of CCR (rising at bit `shift + 1`, falling at `shift + 2`) are
/// replaced by the type's edge bits, every other bit (the capture enable
/// among them) kept; for a timer, bit `ch & 3` of PIER is set.  `current`
/// is the value of that register; returns its new value.
pub fn pwm_int_enable(ch: u8, int_type: CapIntType, current: u32) -> (r: u32)
    ensures
        r == if is_cap(ch) {
            (current & !(0x03u32 << (cap_shift(ch) + 1))) | ((spec_cap_int_code(int_type) & 0x03)
                << (cap_shift(ch) + 1))
        } else {
            current | (1u32 << ((ch & 0x03) as u32))
        },
{
    if ch & 0x10 != 0 {
        let base_shift = cap_shift_of(ch) + 1;
        let mask = 0x03u32 << base_shift;
        let val = (int_type.code() & 0x03) << base_shift;
        (current & !mask) | val
    } else {
        current | (1u32 << timer_bit_index(ch))
    }
}

/// Interrupt disable: for a capture channel, the type's code shifted to
/// `shift + 1` is cleared from its CCR; for a timer, bit `ch & 3` is
/// cleared from PIER and from PIIR.  Returns the new value of the CCR (or
/// PIER) and the new PIIR (`piir` itself for a capture channel).
pub fn pwm_int_disable(ch: u8, int_type: CapIntType, current: u32, piir: u32) -> (r: (u32, u32))
    ensures
        r == if is_cap(ch) {
            (current & !((spec_cap_int_code(int_type) & 0x03) << (cap_shift(ch) + 1)), piir)
        } else {
            (current & !(1u32 << ((ch & 0x03) as u32)), piir & !(1u32 << ((ch & 0x03) as u32)))
        },
{
    if ch & 0x10 != 0 {
        let base_shift = cap_shift_of(ch) + 1;
        let mask = (int_type.code() & 0x03) << base_shift;
        (current & !mask, piir)
    } else {
        let bit = 1u32 << timer_bit_index(ch);
        (current & !bit, piir & !bit)
    }
}

/// Whether every PWM interrupt is off: no timer enable in PIER bits 3:0
/// and no capture edge enable in either CCR.  The shared PWM interrupt is
/// then disabled at the controller.
pub fn pwm_all_int_disabled(pier: u32, ccr0: u32, ccr1: u32) -> (r: bool)
    ensures
        r == ((pier & 0xF) == 0 && (ccr0 & 0x0006_0006) == 0 && (ccr1 & 0x0006_0006) == 0),
{
    (pier & 0xF) == 0 && (ccr0 & 0x0006_0006) == 0 && (ccr1 & 0x0006_0006) == 0
}

/// Bit of the interrupt flag of a channel: bit 4 of its half of CCR for a
/// capture channel, bit `ch & 3` of PIIR for a timer.
pub open spec fn int_flag_bit(ch: u8) -> u32 {
    if is_cap(ch) {
        1u32 << (cap_shift(ch) + 4)
    } else {
        1u32 << ((ch & 0x03) as u32)
    }
}

fn int_flag_bit_of(ch: u8) -> (r: u32)
    ensures
        r == int_flag_bit(ch),
{
    if ch & 0x10 != 0 {
        1u32 << (cap_shift_of(ch) + 4)
    } else {
        1u32 << timer_bit_index(ch)
    }
}

/// Clear a channel's interrupt flag in its CCR (capture) or PIIR (timer):
/// returns the register's new value.
pub fn pwm_int_clear(ch: u8, current: u32) -> (r: u32)
    ensures
        r == current & !int_flag_bit(ch),
{
    current & !int_flag_bit_of(ch)
}

/// Whether a channel's interrupt flag is set in its CCR (capture) or PIIR
/// (timer) value.
pub fn pwm_get_int_flag(ch: u8, current: u32) -> (r: bool)
    ensures
        r == (current & int_flag_bit(ch) != 0),
{
    current & int_flag_bit_of(ch) != 0
}

/// A cleared interrupt flag reads as clear, and nothing else in the
/// register changes.
pub proof fn lemma_int_clear_then_flag(ch: u8, current: u32)
    ensures
        (current & !int_flag_bit(ch)) & int_flag_bit(ch) == 0,
        forall|k: u32|
            k & int_flag_bit(ch) == 0 ==> #[trigger] ((current & !int_flag_bit(ch)) & k)
                == current & k,
{
    let b = int_flag_bit(ch);
    crate::bits::lemma_flag(current, b, 0);
    assert forall|k: u32| k & b == 0 implies #[trigger] ((current & !b) & k) == current & k by {
        crate::bits::lemma_flag(current, b, k);
    }
}

/// Bit of a capture status flag of channel `cap` in its CCR.
pub open spec fn cap_status_bit(cap: u8, flag: CapIntFlag) -> u32 {
    1u32 << (cap_shift(cap) + spec_flag_pos(flag))
}

/// Whether a capture status flag is set in the channel's CCR value.
pub fn pwm_get_capture_int_status(cap: u8, flag: CapIntFlag, ccr: u32) -> (r: bool)
    ensures
        r == (ccr & cap_status_bit(cap, flag) != 0),
{
    ccr & (1u32 << (cap_shift_of(cap) + flag.position())) != 0
}

/// Clear a capture status flag (the hardware clears on writing 1): the
/// channel's CCR with the flag's bit set.
pub fn pwm_clear_capture_int_status(cap: u8, flag: CapIntFlag, ccr: u32) -> (r: u32)
    ensures
        r == ccr | cap_status_bit(cap, flag),
{
    ccr | (1u32 << (cap_shift_of(cap) + flag.position()))
}

/// `seq![ch]` when `b` holds, else the empty sequence.
pub open spec fn when(b: bool, ch: u8) -> Seq<u8> {
    if b {
        seq![ch]
    } else {
        seq![]
    }
}

/// The channels the shared PWM interrupt serves, in order: timers 0–3 by
/// their PIIR flags, then captures 0/1 by the CCR0 flags and 2/3 by the
/// CCR1 flags.
pub open spec fn isr_pending(piir: u32, ccr0: u32, ccr1: u32) -> Seq<u8> {
    when(piir & PIIR0 != 0, 0) + when(piir & PIIR1 != 0, 1) + when(piir & PIIR2 != 0, 2) + when(
        piir & PIIR3 != 0,
        3,
    ) + when(ccr0 & CIIR0 != 0, 0x10) + when(ccr0 & CIIR1 != 0, 0x11) + when(
        ccr1 & CIIR2 != 0,
        0x12,
    ) + when(ccr1 & CIIR3 != 0, 0x13)
}

fn push_when(v: &mut Vec<u8>, b: bool, ch: u8)
    ensures
        final(v)@ == old(v)@ + when(b, ch),
{
    if b {
        v.push(ch);
    }
    assert(final(v)@ =~= old(v)@ + when(b, ch));
}

/// The channels whose interrupt is pending, in the order the interrupt
/// handler serves them.
pub fn pwm_isr_pending(piir: u32, ccr0: u32, ccr1: u32) -> (r: Vec<u8>)
    ensures
        r@ == isr_pending(piir, ccr0, ccr1),
{
    let mut v: Vec<u8> = Vec::new();
    assert(v@ =~= seq![]);
    push_when(&mut v, piir & PIIR0 != 0, 0);
    assert(v@ =~= when(piir & PIIR0 != 0, 0));
    push_when(&mut v, piir & PIIR1 != 0, 1);
    push_when(&mut v, piir & PIIR2 != 0, 2);
    push_when(&mut v, piir & PIIR3 != 0, 3);
    push_when(&mut v, ccr0 & CIIR0 != 0, 0x10);
    push_when(&mut v, ccr0 & CIIR1 != 0, 0x11);
    push_when(&mut v, ccr1 & CIIR2 != 0, 0x12);
    push_when(&mut v, ccr1 & CIIR3 != 0, 0x13);
    v
}

/// How the interrupt handler acknowledges a pending channel: a timer by
/// writing its flag to PIIR, a capture channel by clearing its flag from
/// its CCR (`ccr` is that register's value).  Returns register and value.
pub fn pwm_isr_ack(ch: u8, ccr: u32) -> (r: (u32, u32))
    ensures
        r == if is_cap(ch) {
            (spec_ccr_reg(ch), ccr & !int_flag_bit(ch))
        } else {
            (REG_PIIR, int_flag_bit(ch))
        },
{
    if ch & 0x10 != 0 {
        (ccr_reg(ch), ccr & !int_flag_bit_of(ch))
    } else {
        (REG_PIIR, int_flag_bit_of(ch))
    }
}

} // verus!
