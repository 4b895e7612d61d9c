//! MMU section table: a 4 GB flat map of 1 MB sections.  The first 64 MB
//! are cacheable (write-back); everything else is non-cacheable, and the
//! 64 MB at 0x8000_0000 mirror the first 64 MB without caching (used for
//! DMA and frame buffers).  Also the heap break arithmetic.

use vstd::prelude::*;

verus! {

/// Access permission: full read/write
pub const AP_RW: u32 = 0xC00;

/// Domain 0, client
pub const DOMAIN0: u32 = 0x000;

/// Section type
pub const SECTION_TYPE: u32 = 0x02;

/// Cacheable, write-back (C=1, B=1)
pub const CACHE_WB: u32 = 0x0C;

/// Non-cacheable, non-bufferable (C=0, B=0)
pub const CACHE_NONE: u32 = 0x00;

/// Number of 1 MB sections in the table.
pub const SECTION_COUNT: usize = 4096;

/// Section descriptor (ARM926EJ-S short-descriptor format): base address
/// in bits 31:20, full access, domain 0, bit 4 set, C/B per cacheability,
/// section type.
pub open spec fn section_desc_spec(base_mb: u32, cacheable: bool) -> u32 {
    (base_mb << 20) | AP_RW | DOMAIN0 | 0x10 | (if cacheable {
        CACHE_WB
    } else {
        CACHE_NONE
    }) | SECTION_TYPE
}

/// Full descriptor for a section.
pub fn section_desc(base_mb: u32, cacheable: bool) -> (r: u32)
    ensures
        r == section_desc_spec(base_mb, cacheable),
{
    let cb = if cacheable {
        CACHE_WB
    } else {
        CACHE_NONE
    };
    (base_mb << 20) | AP_RW | DOMAIN0 | 0x10 | cb | SECTION_TYPE
}

/// Physical section (in MB) that virtual section `i` maps to.
pub open spec fn section_target(i: int) -> int {
    if 2048 <= i < 2112 {
        i - 2048
    } else {
        i
    }
}

/// Whether virtual section `i` is cacheable.
pub open spec fn section_cacheable(i: int) -> bool {
    i < 64
}

/// Build the MMU section table (4096 descriptors).
///
/// Layout:
///   - 0x0000_0000 – 0x03FF_FFFF (first 64 MB): cacheable, write-back
///   - 0x0400_0000 – 0x7FFF_FFFF: non-cacheable
///   - 0x8000_0000 – 0x83FF_FFFF: non-cacheable mirror of first 64 MB
///   - 0x8400_0000 – 0xFFFF_FFFF: non-cacheable
pub fn mmu_section_table() -> (r: Vec<u32>)
    ensures
        r@.len() == SECTION_COUNT,
        forall|i: int|
            0 <= i < SECTION_COUNT ==> #[trigger] r@[i] == section_desc_spec(
                section_target(i) as u32,
                section_cacheable(i),
            ),
{
    let mut tbl: Vec<u32> = Vec::new();
    let mut i: usize = 0;
    while i < SECTION_COUNT
        invariant
            i <= SECTION_COUNT,
            tbl@.len() == i,
            forall|j: int|
                0 <= j < i ==> #[trigger] tbl@[j] == section_desc_spec(
                    section_target(j) as u32,
                    section_cacheable(j),
                ),
        decreases SECTION_COUNT - i,
    {
        let d = if i < 64 {
            section_desc(i as u32, true)
        } else if i < 2048 {
            section_desc(i as u32, false)
        } else if i < 2112 {
            section_desc((i - 2048) as u32, false)
        } else {
            section_desc(i as u32, false)
        };
        tbl.push(d);
        i = i + 1;
    }
    tbl
}

proof fn lemma_desc_fields(b: u32, cb: u32)
    by (bit_vector)
    requires
        b < 4096,
        cb == 0x0C || cb == 0,
    ensures
        ((b << 20) | 0xC00 | 0 | 0x10 | cb | 0x02) >> 20 == b,
        ((b << 20) | 0xC00 | 0 | 0x10 | cb | 0x02) & 0x3 == 0x2,
        ((b << 20) | 0xC00 | 0 | 0x10 | cb | 0x02) & 0xC == cb,
        ((b << 20) | 0xC00 | 0 | 0x10 | cb | 0x02) & 0xC00 == 0xC00,
{
}

/// Every entry of the section table is a full-access section descriptor
/// for its target section: virtual MB `i` maps to physical MB
/// `section_target(i)` (identity, except the uncached mirror of the first
/// 64 MB at 2 GB), cached (C and B set) exactly in the first 64 MB.
pub proof fn lemma_section_table_maps(i: int)
    requires
        0 <= i < SECTION_COUNT,
    ensures
        section_desc_spec(section_target(i) as u32, section_cacheable(i)) >> 20 == section_target(i),
        section_desc_spec(section_target(i) as u32, section_cacheable(i)) & 0x3 == SECTION_TYPE,
        section_desc_spec(section_target(i) as u32, section_cacheable(i)) & 0xC == (if i < 64 {
            CACHE_WB
        } else {
            CACHE_NONE
        }),
        section_desc_spec(section_target(i) as u32, section_cacheable(i)) & 0xC00 == AP_RW,
        2048 <= i < 2112 ==> section_target(i) == section_target(i - 2048),
{
    let b = section_target(i) as u32;
    let cb: u32 = if i < 64 {
        0x0C
    } else {
        0
    };
    lemma_desc_fields(b, cb);
}

/// New heap end after growing the heap at `current` by `incr` bytes
/// rounded up to a multiple of 4; `None` (out of memory) when it would
/// pass `heap_end`.
pub fn heap_grow(current: usize, incr: i32, heap_end: usize) -> (r: Option<usize>)
    requires
        incr >= 0,
        current + (incr as int + 3) / 4 * 4 <= usize::MAX,
    ensures
        current + (incr as int + 3) / 4 * 4 > heap_end ==> r is None,
        current + (incr as int + 3) / 4 * 4 <= heap_end ==> r == Some(
            (current + (incr as int + 3) / 4 * 4) as usize,
        ),
{
    let incr_aligned: usize = (incr as usize + 3) / 4 * 4;
    let new_end = current + incr_aligned;
    if new_end > heap_end {
        return None;
    }
    Some(new_end)
}

/// Whether the translation table has been built and the MMU enabled.
#[derive(Clone, Copy, Debug)]
pub struct MmuState {
    pub initialized: bool,
}

impl MmuState {
    /// The state at reset: no table yet.
    pub fn new() -> (r: MmuState)
        ensures
            !r.initialized,
    {
        MmuState { initialized: false }
    }
}

/// Build the translation table once: the first call gives the section
/// table (to be installed, after which the MMU and caches are enabled) and
/// records it; every later call gives nothing and changes nothing.
pub fn mmu_init_table(state: &mut MmuState) -> (r: Option<Vec<u32>>)
    ensures
        final(state).initialized,
        old(state).initialized ==> r is None,
        !old(state).initialized ==> (r matches Some(t) && t@.len() == SECTION_COUNT && forall|i: int|
            0 <= i < SECTION_COUNT ==> #[trigger] t@[i] == section_desc_spec(
                section_target(i) as u32,
                section_cacheable(i),
            )),
{
    if state.initialized {
        return None;
    }
    state.initialized = true;
    Some(mmu_section_table())
}

} // verus!
