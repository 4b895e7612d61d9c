//! External Bus Interface: three external chip-select regions with base
//! address, size, bus width and access timing.

use vstd::prelude::*;
use crate::registers::{REG_EXT0CON, REG_EXT1CON, REG_EXT2CON};

verus! {

/// External chip-select index
#[derive(Clone, Copy, PartialEq, Eq, Debug, Structural)]
pub enum ExtIo {
    Ext0,
    Ext1,
    Ext2,
}

/// External bus width
#[derive(Clone, Copy, PartialEq, Eq, Debug, Structural)]
pub enum ExtBusWidth {
    Disable,
    Bits8,
    Bits16,
    Bits32,
}

impl ExtBusWidth {
    /// Numeric width code (12–15).
    pub fn code(self) -> (r: u32)
        ensures
            r == spec_width_code(self),
    {
        match self {
            ExtBusWidth::Disable => 12,
            ExtBusWidth::Bits8 => 13,
            ExtBusWidth::Bits16 => 14,
            ExtBusWidth::Bits32 => 15,
        }
    }
}

pub open spec fn spec_width_code(w: ExtBusWidth) -> u32 {
    match w {
        ExtBusWidth::Disable => 12,
        ExtBusWidth::Bits8 => 13,
        ExtBusWidth::Bits16 => 14,
        ExtBusWidth::Bits32 => 15,
    }
}

/// Data bus width field (bits 1:0) for a width.
pub open spec fn width_field(w: ExtBusWidth) -> u32 {
    match w {
        ExtBusWidth::Disable => 0,
        ExtBusWidth::Bits8 => 1,
        ExtBusWidth::Bits16 => 2,
        ExtBusWidth::Bits32 => 3,
    }
}

/// `current` with its data bus width field (bits 1:0) set for `w`.
pub open spec fn with_width(current: u32, w: ExtBusWidth) -> u32 {
    match w {
        ExtBusWidth::Disable => current & !0x03u32,
        _ => (current & !0x03u32) | width_field(w),
    }
}

/// External region size
#[derive(Clone, Copy, PartialEq, Eq, Debug, Structural)]
pub enum ExtSize {
    Size256K,
    Size512K,
    Size1M,
    Size2M,
    Size4M,
    Size8M,
    Size16M,
    Size32M,
}

pub open spec fn spec_size_code(s: ExtSize) -> u32 {
    match s {
        ExtSize::Size256K => 4,
        ExtSize::Size512K => 5,
        ExtSize::Size1M => 6,
        ExtSize::Size2M => 7,
        ExtSize::Size4M => 8,
        ExtSize::Size8M => 9,
        ExtSize::Size16M => 10,
        ExtSize::Size32M => 11,
    }
}

impl ExtSize {
    /// Numeric size code (4–11).
    pub fn code(self) -> (r: u32)
        ensures
            r == spec_size_code(self),
            4 <= r <= 11,
    {
        match self {
            ExtSize::Size256K => 4,
            ExtSize::Size512K => 5,
            ExtSize::Size1M => 6,
            ExtSize::Size2M => 7,
            ExtSize::Size4M => 8,
            ExtSize::Size8M => 9,
            ExtSize::Size16M => 10,
            ExtSize::Size32M => 11,
        }
    }
}

/// Control register of a chip-select region.
pub fn ext_reg(ext: ExtIo) -> (r: u32)
    ensures
        r == match ext {
            ExtIo::Ext0 => REG_EXT0CON,
            ExtIo::Ext1 => REG_EXT1CON,
            ExtIo::Ext2 => REG_EXT2CON,
        },
{
    match ext {
        ExtIo::Ext0 => REG_EXT0CON,
        ExtIo::Ext1 => REG_EXT1CON,
        ExtIo::Ext2 => REG_EXT2CON,
    }
}

/// Control value of a region with its bus width (bits 1:0), size (bits
/// 18:16, code - 4) and base address (bits 31:19, from `base_addr << 1`)
/// set; bits 15:2 kept.
pub fn ebi_set_external_io(base_addr: u32, size: ExtSize, bus_width: ExtBusWidth, current: u32) -> (r:
    u32)
    ensures
        r == (((with_width(current, bus_width)) & !0x0007_0000u32) | (((
        spec_size_code(size) - 4) as u32 & 0x7) << 16)) & 0x0007_FFFF | ((base_addr << 1)
            & 0xFFF8_0000),
{
    let mut val = current;
    val = match bus_width {
        ExtBusWidth::Disable => val & !0x03,
        ExtBusWidth::Bits8 => (val & !0x03) | 0x01,
        ExtBusWidth::Bits16 => (val & !0x03) | 0x02,
        ExtBusWidth::Bits32 => (val & !0x03) | 0x03,
    };
    val = val & !0x0007_0000;
    val = val | (((size.code() - 4) & 0x7) << 16);
    let addr_field = (base_addr << 1) & 0xFFF8_0000;
    val = (val & 0x0007_FFFF) | addr_field;
    val
}

/// Control value with the access time (bits 14:11) set when `t_acc` is at
/// most 15 and the access setup time (bits 7:5) set when `t_acs` is at
/// most 7; out-of-range values leave their field alone.
pub fn ebi_set_timing1(t_acc: u32, t_acs: u32, current: u32) -> (r: u32)
    ensures
        ({
            let v1 = if t_acc <= 0xF {
                (current & !0x0000_7800u32) | ((t_acc & 0xF) << 11)
            } else {
                current
            };
            r == if t_acs <= 0x7 {
                (v1 & !0x0000_00E0u32) | ((t_acs & 0x7) << 5)
            } else {
                v1
            }
        }),
{
    let mut val = current;
    if t_acc <= 0xF {
        val = (val & !0x0000_7800) | ((t_acc & 0xF) << 11);
    }
    if t_acs <= 0x7 {
        val = (val & !0x0000_00E0) | ((t_acs & 0x7) << 5);
    }
    val
}

/// Control value with the output hold time (bits 10:8) and output setup
/// time (bits 2:0) set, each only when at most 7.
pub fn ebi_set_timing2(t_coh: u32, t_cos: u32, current: u32) -> (r: u32)
    ensures
        ({
            let v1 = if t_coh <= 0x7 {
                (current & !0x0000_0700u32) | ((t_coh & 0x7) << 8)
            } else {
                current
            };
            r == if t_cos <= 0x7 {
                (v1 & !0x0000_0007u32) | (t_cos & 0x7)
            } else {
                v1
            }
        }),
{
    let mut val = current;
    if t_coh <= 0x7 {
        val = (val & !0x0000_0700) | ((t_coh & 0x7) << 8);
    }
    if t_cos <= 0x7 {
        val = (val & !0x0000_0007) | (t_cos & 0x7);
    }
    val
}

} // verus!
