//! Instruction/data cache bookkeeping, SDRAM size decoding and the cache
//! lines that a code lock loads.

use vstd::prelude::*;

verus! {

// ============================================================================
// Constants
// ============================================================================

/// Cache operation mode
#[derive(Clone, Copy, PartialEq, Eq, Debug, Structural)]
pub enum CacheMode {
    WriteBack,
    WriteThrough,
    Disabled,
}

impl CacheMode {
    /// Numeric mode (0 write-back, 1 write-through, -1 disabled).
    pub fn value(self) -> (r: i32)
        ensures
            r == match self {
                CacheMode::WriteBack => 0i32,
                CacheMode::WriteThrough => 1,
                CacheMode::Disabled => -1i32,
            },
    {
        match self {
            CacheMode::WriteBack => 0,
            CacheMode::WriteThrough => 1,
            CacheMode::Disabled => -1,
        }
    }
}

/// Which cache(s) to flush
#[derive(Clone, Copy, PartialEq, Eq, Debug, Structural)]
pub enum CacheType {
    ICache,
    DCache,
    Both,
}

/// Cache size for lock operations
#[derive(Clone, Copy, PartialEq, Eq, Debug, Structural)]
pub enum CacheSize {
    Cache4M,
    Cache8M,
    Cache16M,
    Cache32M,
}

impl CacheSize {
    /// Numeric size code (2–5).
    pub fn code(self) -> (r: u32)
        ensures
            r == match self {
                CacheSize::Cache4M => 2u32,
                CacheSize::Cache8M => 3,
                CacheSize::Cache16M => 4,
                CacheSize::Cache32M => 5,
            },
    {
        match self {
            CacheSize::Cache4M => 2,
            CacheSize::Cache8M => 3,
            CacheSize::Cache16M => 4,
            CacheSize::Cache32M => 5,
        }
    }
}

// ============================================================================
// Cache state
// ============================================================================

/// Whether the caches are on, and in which mode.
#[derive(Clone, Copy, Debug)]
pub struct CacheState {
    pub on: bool,
    pub mode: CacheMode,
}

impl CacheState {
    /// Caches off at reset.
    pub fn new() -> (r: CacheState)
        ensures
            !r.on,
            r.mode == CacheMode::Disabled,
    {
        CacheState { on: false, mode: CacheMode::Disabled }
    }
}

/// Record that the caches were enabled in `mode`.
pub fn cache_enable(state: &mut CacheState, mode: CacheMode)
    ensures
        final(state).on,
        final(state).mode == mode,
{
    state.on = true;
    state.mode = mode;
}

/// Record that the caches were disabled.
pub fn cache_disable(state: &mut CacheState)
    ensures
        !final(state).on,
        final(state).mode == CacheMode::Disabled,
{
    state.on = false;
    state.mode = CacheMode::Disabled;
}

/// Check whether the cache is currently enabled.
pub fn cache_is_enabled(state: &CacheState) -> (r: bool)
    ensures
        r == state.on,
{
    state.on
}

/// Get the current cache mode.
pub fn cache_get_mode(state: &CacheState) -> (r: CacheMode)
    ensures
        r == state.mode,
{
    state.mode
}

// ============================================================================
// SDRAM Size Detection
// ============================================================================

/// Size in MB that an SDSIZE register's low three bits encode (1 → 2 MB
/// doubling up to 6 → 64 MB; other codes give 0).
pub open spec fn sdsize_mb(v: u32) -> int {
    let c = v & 0x07;
    if c == 1 {
        2
    } else if c == 2 {
        4
    } else if c == 3 {
        8
    } else if c == 4 {
        16
    } else if c == 5 {
        32
    } else if c == 6 {
        64
    } else {
        0
    }
}

fn sdsize_code_mb(v: u32) -> (r: i32)
    ensures
        r == sdsize_mb(v),
{
    match v & 0x07 {
        1 => 2,
        2 => 4,
        3 => 8,
        4 => 16,
        5 => 32,
        6 => 64,
        _ => 0,
    }
}

/// Total SDRAM size in MB from the SDSIZE0 and SDSIZE1 registers; 0 (the
/// failure value) when neither bank reports a size.
pub fn sdram_size_mb(sdsize0: u32, sdsize1: u32) -> (r: i32)
    ensures
        r == sdsize_mb(sdsize0) + sdsize_mb(sdsize1),
{
    sdsize_code_mb(sdsize0) + sdsize_code_mb(sdsize1)
}

// ============================================================================
// Cache Locking
// ============================================================================

/// Number of 16-byte cache lines that cover `size` bytes.
pub open spec fn lock_line_count(size: u32) -> int {
    if size % 16 == 0 {
        size as int / 16
    } else {
        size as int / 16 + 1
    }
}

/// Addresses of the cache lines that locking `size` bytes of code at
/// `addr` into I-cache way 3 loads: `addr`, `addr + 16`, … one per
/// 16-byte block, the last block rounded up.
pub fn cache_lock_code(addr: u32, size: u32) -> (r: Vec<u32>)
    requires
        addr + 16 * lock_line_count(size) <= u32::MAX,
    ensures
        r@.len() == lock_line_count(size),
        forall|k: int| 0 <= k < r@.len() ==> #[trigger] r@[k] == addr + 16 * k,
{
    let cnt = if size % 16 == 0 {
        size / 16
    } else {
        size / 16 + 1
    };
    let mut lines: Vec<u32> = Vec::new();
    let mut a = addr;
    let mut k: u32 = 0;
    while k < cnt
        invariant
            cnt == lock_line_count(size),
            addr + 16 * cnt <= u32::MAX,
            k <= cnt,
            a == addr + 16 * k,
            lines@.len() == k,
            forall|j: int| 0 <= j < k ==> #[trigger] lines@[j] == addr + 16 * j,
        decreases cnt - k,
    {
        lines.push(a);
        a = a + 16;
        k = k + 1;
    }
    lines
}

/// CP15 lockdown value that selects way 3 for loading.
pub fn lock_select_way(lockdown: u32) -> (r: u32)
    ensures
        r == lockdown | 0x07,
{
    lockdown | 0x07
}

/// CP15 lockdown value that locks way 3 after loading.
pub fn lock_way(lockdown: u32) -> (r: u32)
    ensures
        r == (lockdown & !0x07u32) | 0x08,
{
    (lockdown & !0x07) | 0x08
}

/// CP15 lockdown value that unlocks way 3.
pub fn cache_unlock_code(lockdown: u32) -> (r: u32)
    ensures
        r == lockdown & !0x08u32,
{
    lockdown & !0x08
}

} // verus!
