//! GPIO ports A–E: direction, output, input, pull-up, multifunction pin
//! control, interrupt configuration, latch and debounce.
//!
//! Each operation takes the current value of the register it changes and
//! returns the value to write.  Bits of pins outside the mask are kept.

use vstd::prelude::*;
use crate::bits::{lemma_and_le, lemma_fits_low_mask, lemma_high_half, lemma_masked_write};
use crate::registers::{
    GPIO_BA, REG_GPAFUN, REG_GPBFUN, REG_GPCFUN, REG_GPDFUN, REG_GPEFUN, REG_IRQENGPA,
    REG_IRQENGPB, REG_IRQENGPC, REG_IRQENGPD, REG_IRQENGPE, REG_IRQLHGPA, REG_IRQLHGPB,
    REG_IRQLHGPC, REG_IRQLHGPD, REG_IRQLHGPE, REG_IRQSRCGPA, REG_IRQSRCGPB, REG_IRQSRCGPC,
    REG_IRQSRCGPD, REG_IRQSRCGPE, REG_IRQTGSRC0, REG_IRQTGSRC1, REG_IRQTGSRC2,
};

verus! {

// ============================================================================
// Public Types
// ============================================================================

/// GPIO port (A–E)
#[derive(Clone, Copy, PartialEq, Eq, Debug, Structural)]
pub enum GpioPort {
    PortA,
    PortB,
    PortC,
    PortD,
    PortE,
}

pub open spec fn spec_port_index(p: GpioPort) -> u32 {
    match p {
        GpioPort::PortA => 0,
        GpioPort::PortB => 1,
        GpioPort::PortC => 2,
        GpioPort::PortD => 3,
        GpioPort::PortE => 4,
    }
}

pub open spec fn spec_pin_mask(p: GpioPort) -> u16 {
    match p {
        GpioPort::PortA | GpioPort::PortE => 0x0FFF,
        _ => 0xFFFF,
    }
}

impl GpioPort {
    /// Number of pins on this port
    pub fn pin_count(self) -> (r: u8)
        ensures
            r == (if self == GpioPort::PortA || self == GpioPort::PortE { 12u8 } else { 16u8 }),
    {
        match self {
            GpioPort::PortA | GpioPort::PortE => 12,
            GpioPort::PortB | GpioPort::PortC | GpioPort::PortD => 16,
        }
    }

    /// Bit mask for all valid pins on this port
    pub fn pin_mask(self) -> (r: u16)
        ensures
            r == spec_pin_mask(self),
    {
        match self {
            GpioPort::PortA | GpioPort::PortE => 0x0FFF,
            GpioPort::PortB | GpioPort::PortC | GpioPort::PortD => 0xFFFF,
        }
    }

    /// Register base offset within GPIO_BA
    pub fn reg_offset(self) -> (r: u32)
        ensures
            r == spec_port_index(self) * 0x10,
    {
        let idx: u32 = match self {
            GpioPort::PortA => 0,
            GpioPort::PortB => 1,
            GpioPort::PortC => 2,
            GpioPort::PortD => 3,
            GpioPort::PortE => 4,
        };
        idx * 0x10
    }

    /// Multifunction register address for this port
    pub fn mfp_reg(self) -> (r: u32)
        ensures
            r == match self {
                GpioPort::PortA => REG_GPAFUN,
                GpioPort::PortB => REG_GPBFUN,
                GpioPort::PortC => REG_GPCFUN,
                GpioPort::PortD => REG_GPDFUN,
                GpioPort::PortE => REG_GPEFUN,
            },
    {
        match self {
            GpioPort::PortA => REG_GPAFUN,
            GpioPort::PortB => REG_GPBFUN,
            GpioPort::PortC => REG_GPCFUN,
            GpioPort::PortD => REG_GPDFUN,
            GpioPort::PortE => REG_GPEFUN,
        }
    }

    /// OMD (Output Mode) register for this port
    pub fn omd_reg(self) -> (r: u32)
        ensures
            r == GPIO_BA + spec_port_index(self) * 0x10,
    {
        GPIO_BA + self.reg_offset()
    }

    /// PUEN (Pull-Up Enable) register
    pub fn puen_reg(self) -> (r: u32)
        ensures
            r == GPIO_BA + spec_port_index(self) * 0x10 + 0x04,
    {
        GPIO_BA + self.reg_offset() + 0x04
    }

    /// DOUT (Data Output) register
    pub fn dout_reg(self) -> (r: u32)
        ensures
            r == GPIO_BA + spec_port_index(self) * 0x10 + 0x08,
    {
        GPIO_BA + self.reg_offset() + 0x08
    }

    /// PIN (Input Value) register
    pub fn pin_reg(self) -> (r: u32)
        ensures
            r == GPIO_BA + spec_port_index(self) * 0x10 + 0x0C,
    {
        GPIO_BA + self.reg_offset() + 0x0C
    }

    /// Interrupt source group register
    pub fn irqsrc_reg(self) -> (r: u32)
        ensures
            r == match self {
                GpioPort::PortA => REG_IRQSRCGPA,
                GpioPort::PortB => REG_IRQSRCGPB,
                GpioPort::PortC => REG_IRQSRCGPC,
                GpioPort::PortD => REG_IRQSRCGPD,
                GpioPort::PortE => REG_IRQSRCGPE,
            },
    {
        match self {
            GpioPort::PortA => REG_IRQSRCGPA,
            GpioPort::PortB => REG_IRQSRCGPB,
            GpioPort::PortC => REG_IRQSRCGPC,
            GpioPort::PortD => REG_IRQSRCGPD,
            GpioPort::PortE => REG_IRQSRCGPE,
        }
    }

    /// Interrupt edge enable register
    pub fn irqen_reg(self) -> (r: u32)
        ensures
            r == match self {
                GpioPort::PortA => REG_IRQENGPA,
                GpioPort::PortB => REG_IRQENGPB,
                GpioPort::PortC => REG_IRQENGPC,
                GpioPort::PortD => REG_IRQENGPD,
                GpioPort::PortE => REG_IRQENGPE,
            },
    {
        match self {
            GpioPort::PortA => REG_IRQENGPA,
            GpioPort::PortB => REG_IRQENGPB,
            GpioPort::PortC => REG_IRQENGPC,
            GpioPort::PortD => REG_IRQENGPD,
            GpioPort::PortE => REG_IRQENGPE,
        }
    }

    /// Latched interrupt value register
    pub fn irqlh_reg(self) -> (r: u32)
        ensures
            r == match self {
                GpioPort::PortA => REG_IRQLHGPA,
                GpioPort::PortB => REG_IRQLHGPB,
                GpioPort::PortC => REG_IRQLHGPC,
                GpioPort::PortD => REG_IRQLHGPD,
                GpioPort::PortE => REG_IRQLHGPE,
            },
    {
        match self {
            GpioPort::PortA => REG_IRQLHGPA,
            GpioPort::PortB => REG_IRQLHGPB,
            GpioPort::PortC => REG_IRQLHGPC,
            GpioPort::PortD => REG_IRQLHGPD,
            GpioPort::PortE => REG_IRQLHGPE,
        }
    }

    /// Trigger source register holding this port's half: A and B share
    /// TGSRC0, C and D share TGSRC1, E has TGSRC2.
    pub fn trigger_source_reg(self) -> (r: u32)
        ensures
            r == match self {
                GpioPort::PortA | GpioPort::PortB => REG_IRQTGSRC0,
                GpioPort::PortC | GpioPort::PortD => REG_IRQTGSRC1,
                GpioPort::PortE => REG_IRQTGSRC2,
            },
    {
        match self {
            GpioPort::PortA | GpioPort::PortB => REG_IRQTGSRC0,
            GpioPort::PortC | GpioPort::PortD => REG_IRQTGSRC1,
            GpioPort::PortE => REG_IRQTGSRC2,
        }
    }
}

/// Pin direction
#[derive(Clone, Copy, PartialEq, Eq, Debug, Structural)]
pub enum GpioDirection {
    Input,
    Output,
}

/// GPIO interrupt trigger edge
#[derive(Clone, Copy, PartialEq, Eq, Debug, Structural)]
pub struct GpioIntTrigger {
    pub falling: bool,
    pub rising: bool,
}

// ============================================================================
// Masked register update
// ============================================================================

/// The register value with the masked bits replaced by those of `value`
/// and every other bit kept.
pub open spec fn masked_update(current: u32, mask: u32, value: u32) -> u32 {
    (current & !mask) | (value & mask)
}

/// Update of the masked bits as the driver writes it:
/// `(current & !(mask & (mask ^ value))) | (mask & value)`.
fn masked_write(current: u32, mask: u32, value: u32) -> (r: u32)
    ensures
        r == masked_update(current, mask, value),
{
    proof {
        lemma_masked_write(current, mask, value);
    }
    (current & !(mask & (mask ^ value))) | (mask & value)
}

// ============================================================================
// Core GPIO Operations
// ============================================================================

/// Clear the multifunction bits of one pin, switching it to GPIO mode.
/// `None` when the pin number is out of range for the port.
pub fn gpio_configure_pin(port: GpioPort, pin: u8, mfp: u32) -> (r: Option<u32>)
    ensures
        pin >= (if port == GpioPort::PortA || port == GpioPort::PortE { 12u8 } else { 16u8 })
            ==> r is None,
        pin < (if port == GpioPort::PortA || port == GpioPort::PortE { 12u8 } else { 16u8 })
            ==> r == Some(mfp & !(3u32 << (2 * pin as u32))),
{
    if pin >= port.pin_count() {
        return None;
    }
    let mask = 0x3u32 << (pin as u32 * 2);
    Some(mfp & !mask)
}

/// Multifunction value with every peripheral function that blocks the
/// port's GPIO pins cleared (ports B and C have none).
pub fn gpio_open_port(port: GpioPort, mfp: u32) -> (r: u32)
    ensures
        r == match port {
            GpioPort::PortA => mfp & !0x00F0_0000u32,
            GpioPort::PortD => mfp & !0xFF00_03FFu32,
            GpioPort::PortE => mfp & !0xFF0u32,
            _ => mfp,
        },
{
    match port {
        GpioPort::PortA => mfp & !0x00F0_0000,
        GpioPort::PortD => mfp & !0xFF00_03FF,
        GpioPort::PortE => mfp & !0xFF0,
        _ => mfp,
    }
}

/// OMD value with the masked pins set to `dir` (1 = output).
pub fn gpio_set_direction(omd: u32, mask: u16, dir: GpioDirection) -> (r: u32)
    ensures
        r == masked_update(
            omd,
            mask as u32,
            if dir == GpioDirection::Output {
                0xFFFF_FFFFu32
            } else {
                0u32
            },
        ),
{
    let dir_val: u32 = if dir == GpioDirection::Output {
        0xFFFF_FFFF
    } else {
        0
    };
    masked_write(omd, mask as u32, dir_val)
}

/// DOUT value with the masked pins driving the levels in `value`.
pub fn gpio_set_output(dout: u32, mask: u16, value: u16) -> (r: u32)
    ensures
        r == masked_update(dout, mask as u32, value as u32),
{
    masked_write(dout, mask as u32, value as u32)
}

/// Pin input values of a port (from its PIN register), masked to valid pins.
pub fn gpio_read_port(port: GpioPort, pin_value: u32) -> (r: u16)
    ensures
        r == pin_value & (spec_pin_mask(port) as u32),
{
    let m = port.pin_mask() as u32;
    proof {
        lemma_and_le(pin_value, m);
    }
    (pin_value & m) as u16
}

/// PUEN value with pull-ups of the masked pins set as in `enable`.
pub fn gpio_set_pull(puen: u32, mask: u16, enable: u16) -> (r: u32)
    ensures
        r == masked_update(puen, mask as u32, enable as u32),
{
    masked_write(puen, mask as u32, enable as u32)
}

// ============================================================================
// GPIO Interrupt Operations
// ============================================================================

/// The 2-bit interrupt-group field of pin `i` in an IRQSRC value.
pub open spec fn group_field(v: u32, i: u32) -> u32 {
    (v >> (2 * i)) & 3
}

/// Whether pin `i` is in `mask`.
pub open spec fn pin_in(mask: u16, i: u32) -> bool {
    ((mask as u32) >> i) & 1 == 1
}

proof fn lemma_group_step(fm0: u32, m32: u32, i: u32, j: u32)
    by (bit_vector)
    requires
        i < 16,
        j < 16,
    ensures
        (m32 & (1u32 << i) != 0) == ((m32 >> i) & 1 == 1),
        ((fm0 | (3u32 << (i * 2))) >> (2 * j)) & 3 == if j == i {
            3u32
        } else {
            (fm0 >> (2 * j)) & 3
        },
        (0u32 >> (2 * j)) & 3 == 0,
{
}

proof fn lemma_group_merge(c: u32, fm: u32, pattern: u32, g: u32, j: u32)
    by (bit_vector)
    requires
        j < 16,
        (fm >> (2 * j)) & 3 == 3 || (fm >> (2 * j)) & 3 == 0,
        (g == 0 && pattern == 0) || (g == 1 && pattern == 0x5555_5555) || (g == 2 && pattern
            == 0xAAAA_AAAA) || (g == 3 && pattern == 0xFFFF_FFFF),
    ensures
        (((c & !fm) | (fm & pattern)) >> (2 * j)) & 3 == if (fm >> (2 * j)) & 3 == 3 {
            g
        } else {
            (c >> (2 * j)) & 3
        },
{
}

/// IRQSRC value with the masked pins assigned to interrupt group
/// `irq_group` (0–3, i.e. EXTINT0–EXTINT3).  `None` when the group is
/// out of range or the mask names pins the port does not have.
pub fn gpio_set_int_source_group(port: GpioPort, mask: u16, irq_group: u8, current: u32) -> (r:
    Option<u32>)
    ensures
        (irq_group > 3 || mask > spec_pin_mask(port)) ==> r is None,
        !(irq_group > 3 || mask > spec_pin_mask(port)) ==> r is Some,
        r matches Some(v) ==> forall|i: u32|
            i < 16 ==> #[trigger] group_field(v, i) == if pin_in(mask, i) {
                irq_group as u32
            } else {
                group_field(current, i)
            },
{
    if irq_group > 3 || mask > port.pin_mask() {
        return None;
    }
    let mut field_mask: u32 = 0;
    let mut i: u32 = 0;
    assert forall|j: u32| j < 16 implies #[trigger] group_field(0u32, j) == 0u32 by {
        lemma_group_step(0, 0, 0, j);
    }
    while i < 16
        invariant
            i <= 16,
            forall|j: u32|
                j < 16 ==> #[trigger] group_field(field_mask, j) == if j < i && pin_in(mask, j) {
                    3u32
                } else {
                    0u32
                },
        decreases 16 - i,
    {
        let ghost fm0 = field_mask;
        let m32 = mask as u32;
        if m32 & (1u32 << i) != 0 {
            field_mask = field_mask | (0x3u32 << (i * 2));
        }
        proof {
            lemma_group_step(fm0, m32, i, 0);
            assert((m32 & (1u32 << i) != 0) == pin_in(mask, i));
            assert forall|j: u32| j < 16 implies #[trigger] group_field(field_mask, j) == if j < i
                + 1 && pin_in(mask, j) {
                3u32
            } else {
                0u32
            } by {
                assert(group_field(fm0, j) == if j < i && pin_in(mask, j) {
                    3u32
                } else {
                    0u32
                });
                lemma_group_step(fm0, m32, i, j);
            }
        }
        i = i + 1;
    }
    let pattern: u32 = if irq_group == 0 {
        0x0000_0000
    } else if irq_group == 1 {
        0x5555_5555
    } else if irq_group == 2 {
        0xAAAA_AAAA
    } else {
        0xFFFF_FFFF
    };
    let r = (current & !field_mask) | (field_mask & pattern);
    proof {
        let g = irq_group as u32;
        assert forall|j: u32| j < 16 implies #[trigger] group_field(r, j) == if pin_in(mask, j) {
            g
        } else {
            group_field(current, j)
        } by {
            assert(group_field(field_mask, j) == 3 || group_field(field_mask, j) == 0);
            lemma_group_merge(current, field_mask, pattern, g, j);
        }
    }
    Some(r)
}

/// IRQEN value with, for the masked pins, falling-edge enables (bits 15:0)
/// set from `falling` and rising-edge enables (bits 31:16) set from
/// `rising`.  `None` when the mask names pins the port does not have.
pub fn gpio_set_int_mode(port: GpioPort, mask: u16, falling: u16, rising: u16, current: u32) -> (r:
    Option<u32>)
    ensures
        mask > spec_pin_mask(port) ==> r is None,
        mask <= spec_pin_mask(port) ==> r == Some(int_mode_value(current, mask, falling, rising)),
{
    if mask > port.pin_mask() {
        return None;
    }
    let mask32 = mask as u32;
    let fall32 = falling as u32 & mask32;
    let rise32 = rising as u32 & mask32;
    let clear_mask = !((mask32 << 16) | mask32);
    let set_mask = (rise32 << 16) | fall32;
    Some((current & clear_mask) | set_mask)
}

/// IRQEN value after setting edge modes: both halves of the mask cleared,
/// then the masked falling bits in the low half and the masked rising bits
/// in the high half.
pub open spec fn int_mode_value(current: u32, mask: u16, falling: u16, rising: u16) -> u32 {
    let m = mask as u32;
    (current & !((m << 16) | m)) | ((((rising as u32) & m) << 16) | ((falling as u32) & m))
}

/// Falling and rising edge masks of an IRQEN value.
pub fn gpio_get_int_mode(value: u32) -> (r: (u16, u16))
    ensures
        r.0 == value & 0xFFFF,
        r.1 == value >> 16,
{
    proof {
        lemma_and_le(value, 0xFFFF);
        lemma_high_half(value);
    }
    ((value & 0xFFFF) as u16, (value >> 16) as u16)
}

/// Setting the edge modes of some pins and reading them back gives the
/// new modes for those pins and the old modes for the others.
pub proof fn lemma_int_mode_round_trip(mask: u16, falling: u16, rising: u16, current: u32)
    ensures
        ({
            let v = int_mode_value(current, mask, falling, rising);
            &&& (v & 0xFFFF) & (mask as u32) == (falling as u32) & (mask as u32)
            &&& (v >> 16) & (mask as u32) == (rising as u32) & (mask as u32)
            &&& (v & 0xFFFF) & !(mask as u32) == (current & 0xFFFF) & !(mask as u32)
            &&& (v >> 16) & !(mask as u32) == (current >> 16) & !(mask as u32)
        }),
{
    lemma_int_mode_halves(current, mask as u32, falling as u32, rising as u32);
}

proof fn lemma_int_mode_halves(c: u32, m: u32, f: u32, rr: u32)
    by (bit_vector)
    requires
        m <= 0xFFFF,
        f <= 0xFFFF,
        rr <= 0xFFFF,
    ensures
        ((((c & !((m << 16) | m)) | (((rr & m) << 16) | (f & m))) & 0xFFFF) & m) == f & m,
        ((((c & !((m << 16) | m)) | (((rr & m) << 16) | (f & m))) >> 16) & m) == rr & m,
        ((((c & !((m << 16) | m)) | (((rr & m) << 16) | (f & m))) & 0xFFFF) & !m) == (c & 0xFFFF)
            & !m,
        ((((c & !((m << 16) | m)) | (((rr & m) << 16) | (f & m))) >> 16) & !m) == (c >> 16) & !m,
{
}

// ============================================================================
// GPIO Interrupt Latch
// ============================================================================

/// IRQLHSEL value selecting latch trigger source `src` (0–15); `None`
/// when out of range.
pub fn gpio_set_latch_trigger(src: u8) -> (r: Option<u32>)
    ensures
        src > 0xF ==> r is None,
        src <= 0xF ==> r == Some(src as u32),
{
    if src > 0xF {
        return None;
    }
    Some(src as u32)
}

/// Latch trigger source selected by an IRQLHSEL value.
pub fn gpio_get_latch_trigger(value: u32) -> (r: u8)
    ensures
        r == value & 0xF,
{
    proof {
        lemma_and_le(value, 0xF);
    }
    (value & 0xF) as u8
}

/// Selecting a latch trigger source and reading it back gives it.
pub proof fn lemma_latch_trigger_round_trip(src: u8)
    requires
        src <= 0xF,
    ensures
        (src as u32) & 0xF == src,
{
    lemma_fits_low_mask(src as u32, 0xF);
}

/// Latched interrupt value of a port, masked to valid pins.
pub fn gpio_get_latch_value(port: GpioPort, value: u32) -> (r: u16)
    ensures
        r == value & (spec_pin_mask(port) as u32),
{
    gpio_read_port(port, value)
}

// ============================================================================
// GPIO Trigger Source
// ============================================================================

/// Pins of `port` that triggered, from its trigger source register value:
/// the low half for A, C, E and the high half for B, D.
pub fn gpio_get_trigger_source(port: GpioPort, value: u32) -> (r: u16)
    ensures
        r == match port {
            GpioPort::PortB | GpioPort::PortD => (value >> 16) & 0xFFFF,
            _ => value & 0xFFFF,
        },
{
    proof {
        lemma_and_le(value, 0xFFFF);
        lemma_high_half(value);
    }
    match port {
        GpioPort::PortB | GpioPort::PortD => ((value >> 16) & 0xFFFF) as u16,
        _ => (value & 0xFFFF) as u16,
    }
}

/// Trigger source register value with `port`'s half cleared (the other
/// port's half kept).
pub fn gpio_clear_trigger_source(port: GpioPort, value: u32) -> (r: u32)
    ensures
        r == match port {
            GpioPort::PortB | GpioPort::PortD => value & 0xFFFF,
            _ => value & !0xFFFFu32,
        },
{
    match port {
        GpioPort::PortB | GpioPort::PortD => value & 0xFFFF,
        _ => value & !0xFFFF,
    }
}

// ============================================================================
// Debounce Control
// ============================================================================

/// Debounce clock divider of divider code `i` (0–15): 2^i.
pub open spec fn debounce_clock(i: u32) -> u32 {
    1u32 << i
}

/// DBNCECON value for a debounce clock divider (one of 1, 2, 4, …, 32768)
/// and clock source `src` (0–15): divider code at bits 7:4, source at 3:0.
/// `None` for any other divider or source.
pub fn gpio_set_debounce(clk_div: u32, src: u8) -> (r: Option<u32>)
    ensures
        src > 0xF ==> r is None,
        src <= 0xF && (exists|i: u32| i < 16 && #[trigger] debounce_clock(i) == clk_div) ==> r
            == Some(((choose|i: u32| i < 16 && #[trigger] debounce_clock(i) == clk_div) << 4) | (
        src as u32)),
        src <= 0xF && !(exists|i: u32| i < 16 && #[trigger] debounce_clock(i) == clk_div) ==> r
            is None,
{
    if src > 0xF {
        return None;
    }
    let mut i: u32 = 0;
    while i < 16
        invariant
            i <= 16,
            src <= 0xF,
            forall|j: u32| j < i ==> #[trigger] debounce_clock(j) != clk_div,
        decreases 16 - i,
    {
        if (1u32 << i) == clk_div {
            proof {
                assert(debounce_clock(i) == clk_div);
                let c = choose|k: u32| k < 16 && #[trigger] debounce_clock(k) == clk_div;
                assert(debounce_clock(c) == clk_div);
                lemma_shift_distinct(c, i);
                assert(c == i);
            }
            return Some((i << 4) | (src as u32));
        }
        i = i + 1;
    }
    None
}

/// Debounce divider and source of a DBNCECON value.
pub fn gpio_get_debounce(value: u32) -> (r: (u32, u8))
    ensures
        r.0 == debounce_clock((value >> 4) & 0xF),
        r.1 == value & 0xF,
{
    let idx = (value >> 4) & 0xF;
    proof {
        lemma_and_le(value >> 4, 0xF);
        lemma_and_le(value, 0xF);
    }
    (1u32 << idx, (value & 0xF) as u8)
}

/// Setting a debounce divider and source and reading them back gives the
/// same divider and source.
pub proof fn lemma_debounce_round_trip(i: u32, src: u8)
    requires
        i < 16,
        src <= 0xF,
    ensures
        debounce_clock((((i << 4) | (src as u32)) >> 4) & 0xF) == debounce_clock(i),
        ((i << 4) | (src as u32)) & 0xF == src,
{
    lemma_debounce_fields(i, src as u32);
}

proof fn lemma_debounce_fields(i: u32, s: u32)
    by (bit_vector)
    requires
        i < 16,
        s <= 0xF,
    ensures
        (((i << 4) | s) >> 4) & 0xF == i,
        ((i << 4) | s) & 0xF == s,
{
}

/// Distinct divider codes give distinct dividers.
proof fn lemma_shift_distinct(a: u32, b: u32)
    by (bit_vector)
    requires
        a < 16,
        b < 16,
        (1u32 << a) == (1u32 << b),
    ensures
        a == b,
{
}

} // verus!
