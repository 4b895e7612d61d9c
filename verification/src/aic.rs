//! Advanced Interrupt Controller: 31 interrupt sources with priority
//! levels 0–7 (0 routes to FIQ), edge/level trigger types, and the
//! dispatch decision taken on an IRQ or FIQ exception.

use vstd::prelude::*;
use crate::registers::{REG_AIC_MDCR, REG_AIC_MECR, REG_AIC_SCR1};

verus! {

// ============================================================================
// Public Types
// ============================================================================

/// Interrupt source numbers (matches hardware IRQ assignment)
pub type IntSource = u32;

/// Interrupt priority / level
#[derive(Clone, Copy, PartialEq, Eq, Debug, Structural)]
pub enum IntLevel {
    Fiq,
    Irq1,
    Irq2,
    Irq3,
    Irq4,
    Irq5,
    Irq6,
    Irq7,
}

pub open spec fn spec_level(l: IntLevel) -> u32 {
    match l {
        IntLevel::Fiq => 0,
        IntLevel::Irq1 => 1,
        IntLevel::Irq2 => 2,
        IntLevel::Irq3 => 3,
        IntLevel::Irq4 => 4,
        IntLevel::Irq5 => 5,
        IntLevel::Irq6 => 6,
        IntLevel::Irq7 => 7,
    }
}

impl IntLevel {
    /// Priority level number (0 = FIQ, 1–7 = IRQ levels).
    pub fn level(self) -> (r: u32)
        ensures
            r == spec_level(self),
            r <= 7,
    {
        match self {
            IntLevel::Fiq => 0,
            IntLevel::Irq1 => 1,
            IntLevel::Irq2 => 2,
            IntLevel::Irq3 => 3,
            IntLevel::Irq4 => 4,
            IntLevel::Irq5 => 5,
            IntLevel::Irq6 => 6,
            IntLevel::Irq7 => 7,
        }
    }
}

/// Interrupt trigger type
#[derive(Clone, Copy, PartialEq, Eq, Debug, Structural)]
pub enum IntType {
    LowLevel,
    HighLevel,
    FallingEdge,
    RisingEdge,
}

pub open spec fn spec_int_type(t: IntType) -> u32 {
    match t {
        IntType::LowLevel => 0,
        IntType::HighLevel => 1,
        IntType::FallingEdge => 2,
        IntType::RisingEdge => 3,
    }
}

impl IntType {
    /// Hardware encoding of the trigger type (0–3).
    pub fn code(self) -> (r: u32)
        ensures
            r == spec_int_type(self),
            r <= 3,
    {
        match self {
            IntType::LowLevel => 0,
            IntType::HighLevel => 1,
            IntType::FallingEdge => 2,
            IntType::RisingEdge => 3,
        }
    }
}

/// Exception type for installing exception handlers
#[derive(Clone, Copy, PartialEq, Eq, Debug, Structural)]
pub enum ExceptionType {
    Swi,
    DataAbort,
    PrefetchAbort,
    Undefined,
}

/// IRQ/FIQ enable/disable constants
#[derive(Clone, Copy, PartialEq, Eq, Debug, Structural)]
pub enum LocalIntState {
    EnableIrq,
    EnableFiq,
    EnableBoth,
    DisableIrq,
    DisableFiq,
    DisableBoth,
}

impl LocalIntState {
    /// The CPSR-style constant of the state.
    pub fn value(self) -> (r: u32)
        ensures
            r == match self {
                LocalIntState::EnableIrq => 0x7Fu32,
                LocalIntState::EnableFiq => 0xBF,
                LocalIntState::EnableBoth => 0x3F,
                LocalIntState::DisableIrq => 0x80,
                LocalIntState::DisableFiq => 0x40,
                LocalIntState::DisableBoth => 0xC0,
            },
    {
        match self {
            LocalIntState::EnableIrq => 0x7F,
            LocalIntState::EnableFiq => 0xBF,
            LocalIntState::EnableBoth => 0x3F,
            LocalIntState::DisableIrq => 0x80,
            LocalIntState::DisableFiq => 0x40,
            LocalIntState::DisableBoth => 0xC0,
        }
    }
}

// ============================================================================
// Constants
// ============================================================================

pub const MIN_INT_SOURCE: u32 = 1;

pub const MAX_INT_SOURCE: u32 = 31;

pub const NUM_AIC_REGS: u32 = 32;

/// AIC register stride (each SCRn is 4 bytes apart)
pub const AIC_REG_OFFSET: u32 = 0x4;

// ============================================================================
// Interrupt management
// ============================================================================

/// Whether `n` names an interrupt source (1–31).
pub open spec fn source_valid(n: u32) -> bool {
    MIN_INT_SOURCE <= n <= MAX_INT_SOURCE
}

/// Value to write to the mask enable command register to enable source
/// `n`; `None` for an invalid source.
pub fn aic_enable_interrupt(n: IntSource) -> (r: Option<u32>)
    ensures
        source_valid(n) ==> r == Some(1u32 << n),
        !source_valid(n) ==> r is None,
{
    if n > MAX_INT_SOURCE || n < MIN_INT_SOURCE {
        return None;
    }
    Some(1u32 << n)
}

/// Value to write to the mask disable command register to disable source
/// `n`; `None` for an invalid source.
pub fn aic_disable_interrupt(n: IntSource) -> (r: Option<u32>)
    ensures
        source_valid(n) ==> r == Some(1u32 << n),
        !source_valid(n) ==> r is None,
{
    if n > MAX_INT_SOURCE || n < MIN_INT_SOURCE {
        return None;
    }
    Some(1u32 << n)
}

/// Source control register holding source `n`'s byte (four sources per
/// register).
pub fn scr_reg(n: IntSource) -> (r: u32)
    requires
        n < 32,
    ensures
        r == REG_AIC_SCR1 + (n / 4) * AIC_REG_OFFSET,
{
    REG_AIC_SCR1 + (n / 4) * AIC_REG_OFFSET
}

/// Bit position of source `n`'s byte in its source control register.
pub open spec fn scr_shift(n: u32) -> u32 {
    ((n % 4) * 8) as u32
}

/// Source control value with source `n`'s 3-bit priority field set to
/// `level`.
pub open spec fn with_priority(scr: u32, n: u32, level: u32) -> u32 {
    (scr & !(7u32 << scr_shift(n))) | (level << scr_shift(n))
}

/// Source control value with source `n`'s 2-bit trigger type field (bits
/// 7:6 of its byte) set to `t`.
pub open spec fn with_int_type(scr: u32, n: u32, t: u32) -> u32 {
    (scr & !(3u32 << ((scr_shift(n) + 6) as u32))) | (t << ((scr_shift(n) + 6) as u32))
}

/// Source control value with source `n`'s priority set to `level`; `None`
/// for an invalid source.
pub fn aic_set_priority(n: IntSource, level: IntLevel, scr: u32) -> (r: Option<u32>)
    ensures
        source_valid(n) ==> r == Some(with_priority(scr, n, spec_level(level))),
        !source_valid(n) ==> r is None,
{
    if n > MAX_INT_SOURCE || n < MIN_INT_SOURCE {
        return None;
    }
    let shift = (n % 4) * 8;
    let mut reg_val = scr;
    reg_val = reg_val & !(0x7u32 << shift);
    reg_val = reg_val | (level.level() << shift);
    Some(reg_val)
}

/// Source control value with source `n`'s trigger type set; `None` for an
/// invalid source.
pub fn aic_set_interrupt_type(n: IntSource, int_type: IntType, scr: u32) -> (r: Option<u32>)
    ensures
        source_valid(n) ==> r == Some(with_int_type(scr, n, spec_int_type(int_type))),
        !source_valid(n) ==> r is None,
{
    if n > MAX_INT_SOURCE || n < MIN_INT_SOURCE {
        return None;
    }
    let shift = (n % 4) * 8 + 6;
    let mut reg_val = scr;
    reg_val = reg_val & !(0x3u32 << shift);
    reg_val = reg_val | (int_type.code() << shift);
    Some(reg_val)
}

/// Installing an interrupt service routine for source `n` (0–31): the
/// source control value with its priority set, and whether the handler
/// goes to the FIQ table (level 0) rather than the IRQ table.
pub fn aic_install_isr(level: IntLevel, n: IntSource, scr: u32) -> (r: (u32, bool))
    requires
        n < 32,
    ensures
        r.0 == with_priority(scr, n, spec_level(level)),
        r.1 == (level == IntLevel::Fiq),
{
    let shift = (n % 4) * 8;
    let mut reg_val = scr;
    reg_val = reg_val & !(0x7u32 << shift);
    reg_val = reg_val | (level.level() << shift);
    (reg_val, level == IntLevel::Fiq)
}

proof fn lemma_scr_fields(scr: u32, sh: u32, v: u32, w: u32, sh2: u32)
    by (bit_vector)
    requires
        sh == 0 || sh == 8 || sh == 16 || sh == 24,
        sh2 == 0 || sh2 == 8 || sh2 == 16 || sh2 == 24,
        v <= 7,
        w <= 3,
    ensures
        ((((scr & !(7u32 << sh)) | (v << sh)) >> sh) & 7) == v,
        ((((scr & !(7u32 << sh)) | (v << sh)) >> (sh + 6)) & 3) == (scr >> (sh + 6)) & 3,
        sh2 != sh ==> ((((scr & !(7u32 << sh)) | (v << sh)) >> sh2) & 0xFF) == (scr >> sh2)
            & 0xFF,
        ((((scr & !(3u32 << (sh + 6))) | (w << (sh + 6))) >> (sh + 6)) & 3) == w,
        ((((scr & !(3u32 << (sh + 6))) | (w << (sh + 6))) >> sh) & 7) == (scr >> sh) & 7,
        sh2 != sh ==> ((((scr & !(3u32 << (sh + 6))) | (w << (sh + 6))) >> sh2) & 0xFF) == (scr
            >> sh2) & 0xFF,
{
}

/// Setting a source's priority makes its priority field read back as the
/// level, and keeps its trigger type and the other three sources' bytes;
/// setting its trigger type reads back likewise and keeps its priority
/// and the other bytes.
pub proof fn lemma_scr_write_read(scr: u32, n: u32, m: u32, level: u32, t: u32)
    requires
        level <= 7,
        t <= 3,
        n < 32,
        m < 32,
        n / 4 == m / 4,
        n != m,
    ensures
        (with_priority(scr, n, level) >> scr_shift(n)) & 7 == level,
        (with_priority(scr, n, level) >> ((scr_shift(n) + 6) as u32)) & 3 == (scr >> ((scr_shift(n) + 6) as u32)) & 3,
        (with_priority(scr, n, level) >> scr_shift(m)) & 0xFF == (scr >> scr_shift(m)) & 0xFF,
        (with_int_type(scr, n, t) >> ((scr_shift(n) + 6) as u32)) & 3 == t,
        (with_int_type(scr, n, t) >> scr_shift(n)) & 7 == (scr >> scr_shift(n)) & 7,
        (with_int_type(scr, n, t) >> scr_shift(m)) & 0xFF == (scr >> scr_shift(m)) & 0xFF,
{
    assert(scr_shift(m) != scr_shift(n));
    lemma_scr_fields(scr, scr_shift(n), level, t, scr_shift(m));
}

// ============================================================================
// Exception vectors
// ============================================================================

/// Address of the handler slot of an ARM exception in the vector table.
pub fn exception_vector(except_type: ExceptionType) -> (r: u32)
    ensures
        r == match except_type {
            ExceptionType::Swi => 0x28u32,
            ExceptionType::DataAbort => 0x30,
            ExceptionType::PrefetchAbort => 0x2C,
            ExceptionType::Undefined => 0x24,
        },
{
    match except_type {
        ExceptionType::Swi => 0x28,
        ExceptionType::DataAbort => 0x30,
        ExceptionType::PrefetchAbort => 0x2C,
        ExceptionType::Undefined => 0x24,
    }
}

// ============================================================================
// IRQ / FIQ dispatch
// ============================================================================

/// Sources whose handlers an IRQ or FIQ exception runs, in order.
///
/// In hardware-priority mode: the source the priority encoder reports
/// (IPER >> 2), when it is nonzero and agrees with ISNR.  In software mode:
/// every source 1–31 whose bit is set in ISR, in ascending order.
pub fn aic_dispatch(hw_mode: bool, iper: u32, isnr: u32, isr: u32) -> (r: Vec<u32>)
    ensures
        hw_mode ==> r@ == (if isnr != 0 && (iper >> 2) == isnr {
            seq![iper >> 2]
        } else {
            Seq::<u32>::empty()
        }),
        !hw_mode ==> (forall|j: int| 0 <= j < r@.len() ==> 1 <= #[trigger] r@[j] < 32),
        !hw_mode ==> (forall|j: int, k: int| 0 <= j < k < r@.len() ==> r@[j] < r@[k]),
        !hw_mode ==> (forall|i: u32|
            1 <= i < 32 ==> (r@.contains(i) <==> #[trigger] (isr & (1u32 << i)) != 0)),
{
    let mut out: Vec<u32> = Vec::new();
    if hw_mode {
        let src = iper >> 2;
        if isnr != 0 && src == isnr {
            out.push(src);
        }
        return out;
    }
    let mut i: u32 = 1;
    while i < NUM_AIC_REGS
        invariant
            1 <= i <= 32,
            forall|j: int| 0 <= j < out@.len() ==> 1 <= #[trigger] out@[j] < i,
            forall|j: int, k: int| 0 <= j < k < out@.len() ==> out@[j] < out@[k],
            forall|s: u32| 1 <= s < i ==> (out@.contains(s) <==> #[trigger] (isr & (1u32 << s)) != 0),
        decreases 32 - i,
    {
        let ghost o0 = out@;
        if isr & (1u32 << i) != 0 {
            out.push(i);
        }
        proof {
            assert forall|s: u32| 1 <= s < i + 1 implies (out@.contains(s) <==> #[trigger] (isr & (
            1u32 << s)) != 0) by {
                if out@.contains(s) {
                    let w = choose|w: int| 0 <= w < out@.len() && out@[w] == s;
                    if w < o0.len() {
                        assert(o0.contains(s));
                    }
                }
                if s < i && o0.contains(s) {
                    let w = choose|w: int| 0 <= w < o0.len() && o0[w] == s;
                    assert(out@[w] == s);
                }
                if s == i && (isr & (1u32 << s)) != 0 {
                    assert(out@[out@.len() - 1] == s);
                }
            }
        }
        i = i + 1;
    }
    out
}

/// The write that enables (mask enable command) or disables (mask
/// disable command) every interrupt source: register and value.
pub fn aic_set_global_interrupt(enable: bool) -> (r: (u32, u32))
    ensures
        r == if enable {
            (REG_AIC_MECR, 0xFFFF_FFFFu32)
        } else {
            (REG_AIC_MDCR, 0xFFFF_FFFFu32)
        },
{
    if enable {
        (REG_AIC_MECR, 0xFFFF_FFFF)
    } else {
        (REG_AIC_MDCR, 0xFFFF_FFFF)
    }
}

/// Whether IRQs are enabled at the CPU: the I bit (bit 7) of a CPSR value
/// is clear.
pub fn aic_get_ibit_state(cpsr: u32) -> (r: bool)
    ensures
        r == (cpsr & 0x80 == 0),
{
    cpsr & 0x80 == 0
}

/// The CPSR mask bits a state sets (disable) or clears (enable): I (0x80)
/// for IRQ, F (0x40) for FIQ, both for the `Both` states.
pub open spec fn local_int_bits(state: LocalIntState) -> u32 {
    match state {
        LocalIntState::EnableIrq | LocalIntState::DisableIrq => 0x80,
        LocalIntState::EnableFiq | LocalIntState::DisableFiq => 0x40,
        LocalIntState::EnableBoth | LocalIntState::DisableBoth => 0xC0,
    }
}

/// Whether a state enables (clears the mask bits) rather than disables.
pub open spec fn local_int_enables(state: LocalIntState) -> bool {
    state == LocalIntState::EnableIrq || state == LocalIntState::EnableFiq || state
        == LocalIntState::EnableBoth
}

/// The CPSR value after enabling or disabling IRQs and/or FIQs at the CPU:
/// the state's I/F bits cleared (enable) or set (disable), every other bit
/// kept.
pub fn aic_set_local_interrupt(state: LocalIntState, cpsr: u32) -> (r: u32)
    ensures
        r == if local_int_enables(state) {
            cpsr & !local_int_bits(state)
        } else {
            cpsr | local_int_bits(state)
        },
        (r & local_int_bits(state) == 0) == local_int_enables(state),
        forall|k: u32| k & local_int_bits(state) == 0 ==> #[trigger] (r & k) == cpsr & k,
{
    let b: u32 = match state {
        LocalIntState::EnableIrq | LocalIntState::DisableIrq => 0x80,
        LocalIntState::EnableFiq | LocalIntState::DisableFiq => 0x40,
        LocalIntState::EnableBoth | LocalIntState::DisableBoth => 0xC0,
    };
    let enable = match state {
        LocalIntState::EnableIrq | LocalIntState::EnableFiq | LocalIntState::EnableBoth => true,
        _ => false,
    };
    let r = if enable {
        cpsr & !b
    } else {
        cpsr | b
    };
    proof {
        crate::bits::lemma_flag(cpsr, b, 0);
        assert forall|k: u32| k & b == 0 implies #[trigger] (r & k) == cpsr & k by {
            crate::bits::lemma_flag(cpsr, b, k);
        }
    }
    r
}

/// The IRQ enable state that `aic_get_ibit_state` reads after a state is
/// applied: enabled after `EnableIrq`/`EnableBoth`, disabled after
/// `DisableIrq`/`DisableBoth`, unchanged by the FIQ-only states.
pub proof fn lemma_local_int_ibit(state: LocalIntState, cpsr: u32)
    ensures
        ({
            let r = if local_int_enables(state) {
                cpsr & !local_int_bits(state)
            } else {
                cpsr | local_int_bits(state)
            };
            &&& (state == LocalIntState::EnableIrq || state == LocalIntState::EnableBoth) ==> r
                & 0x80 == 0
            &&& (state == LocalIntState::DisableIrq || state == LocalIntState::DisableBoth) ==> r
                & 0x80 != 0
            &&& (state == LocalIntState::EnableFiq || state == LocalIntState::DisableFiq) ==> r
                & 0x80 == cpsr & 0x80
        }),
{
    assert((cpsr & !0x80u32) & 0x80 == 0 && (cpsr & !0xC0u32) & 0x80 == 0 && (cpsr | 0x80u32) & 0x80
        != 0 && (cpsr | 0xC0u32) & 0x80 != 0 && (cpsr & !0x40u32) & 0x80 == cpsr & 0x80 && (cpsr
        | 0x40u32) & 0x80 == cpsr & 0x80) by (bit_vector);
}

} // verus!
