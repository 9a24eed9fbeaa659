//! The memory layout that the security unit divides into regions.
//!
//! RAM is cut into regions of one fixed size, numbered from the RAM base
//! upwards. The extent shared with the modem is the half-open address range
//! from `shared_start` up to, and not including, `shared_end`.

use vstd::prelude::*;

verus! {

/// Size of one RAM region of the security unit, in bytes.
pub const SPU_REGION_SIZE: u32 = 0x2000;

/// Address of the first byte of RAM.
pub const RAM_START: u32 = 0x2000_0000;

/// Address of the first byte shared with the modem.
pub const SHARED_RAM_START: u32 = 0x2000_0000;

/// Address just past the last byte shared with the modem.
pub const SHARED_RAM_END: u32 = 0x2000_8000;

/// Number of RAM regions that have a permission register.
pub const RAM_REGION_COUNT: u32 = 32;

/// Base address, region size and shared extent, as the hardware fixes them.
#[derive(Clone, Copy, Debug, PartialEq, Eq, Structural)]
pub struct MemoryLayout {
    pub ram_base: u32,
    pub region_size: u32,
    pub shared_start: u32,
    pub shared_end: u32,
}

/// Whether the four numbers describe a layout that the hardware can hold:
/// regions have a size, the shared extent is not empty and starts at or
/// above the RAM base, and its last byte lies in a region that exists.
pub open spec fn valid_layout(
    ram_base: u32,
    region_size: u32,
    shared_start: u32,
    shared_end: u32,
) -> bool {
    &&& region_size > 0
    &&& ram_base <= shared_start
    &&& shared_start < shared_end
    &&& (shared_end - 1 - ram_base) / (region_size as int) < RAM_REGION_COUNT
}

impl MemoryLayout {
    /// The layout is one that the hardware can hold.
    pub open spec fn wf(self) -> bool {
        valid_layout(self.ram_base, self.region_size, self.shared_start, self.shared_end)
    }

    /// Index of the region that holds the first shared byte.
    pub open spec fn first_region(self) -> int {
        (self.shared_start - self.ram_base) / (self.region_size as int)
    }

    /// Index of the region that holds the last shared byte.
    pub open spec fn last_region(self) -> int {
        (self.shared_end - 1 - self.ram_base) / (self.region_size as int)
    }

    /// Number of regions from the first to the last, both counted.
    pub open spec fn region_count(self) -> int {
        self.last_region() - self.first_region() + 1
    }

    /// Whether region `index` and the shared extent have a byte in common.
    pub open spec fn overlaps(self, index: int) -> bool {
        &&& self.ram_base + index * self.region_size < self.shared_end
        &&& self.shared_start < self.ram_base + (index + 1) * self.region_size
    }

    /// The layout of the four numbers, or `None` where they describe none.
    pub fn new(ram_base: u32, region_size: u32, shared_start: u32, shared_end: u32) -> (layout:
        Option<MemoryLayout>)
        ensures
            layout.is_some() == valid_layout(ram_base, region_size, shared_start, shared_end),
            layout matches Some(l) ==> l == (MemoryLayout {
                ram_base,
                region_size,
                shared_start,
                shared_end,
            }),
    {
        if region_size == 0 || ram_base > shared_start || shared_start >= shared_end {
            return None;
        }
        if (shared_end - 1 - ram_base) / region_size >= RAM_REGION_COUNT {
            return None;
        }
        Some(MemoryLayout { ram_base, region_size, shared_start, shared_end })
    }

    /// The layout of the device: 8 KiB regions from the RAM base, of which
    /// the first 32 KiB are shared with the modem.
    pub fn modem_shared() -> (layout: MemoryLayout)
        ensures
            layout == (MemoryLayout {
                ram_base: RAM_START,
                region_size: SPU_REGION_SIZE,
                shared_start: SHARED_RAM_START,
                shared_end: SHARED_RAM_END,
            }),
            layout.wf(),
            layout.first_region() == 0,
            layout.last_region() == 3,
    {
        MemoryLayout {
            ram_base: RAM_START,
            region_size: SPU_REGION_SIZE,
            shared_start: SHARED_RAM_START,
            shared_end: SHARED_RAM_END,
        }
    }

    /// The first and the last index of the regions that the shared extent
    /// covers.
    pub fn region_range(&self) -> (range: (u32, u32))
        requires
            self.wf(),
        ensures
            range.0 == self.first_region(),
            range.1 == self.last_region(),
            range.0 <= range.1 < RAM_REGION_COUNT,
    {
        let first = (self.shared_start - self.ram_base) / self.region_size;
        let last = (self.shared_end - 1 - self.ram_base) / self.region_size;
        proof {
            self.lemma_range_is_ordered();
        }
        (first, last)
    }

    /// The first region does not lie above the last.
    pub proof fn lemma_range_is_ordered(self)
        requires
            self.wf(),
        ensures
            0 <= self.first_region() <= self.last_region() < RAM_REGION_COUNT,
    {
        let size = self.region_size as int;
        let a = self.shared_start - self.ram_base;
        let b = self.shared_end - 1 - self.ram_base;
        assert(a / size <= b / size) by (nonlinear_arith)
            requires
                0 <= a <= b,
                size > 0,
        ;
        assert(0 <= a / size) by (nonlinear_arith)
            requires
                0 <= a,
                size > 0,
        ;
    }

    /// The range from the first to the last region holds exactly the regions
    /// that overlap the shared extent.
    pub proof fn lemma_range_is_cover(self, index: int)
        requires
            self.wf(),
        ensures
            (self.first_region() <= index <= self.last_region()) == self.overlaps(index),
    {
        let size = self.region_size as int;
        let a = self.shared_start - self.ram_base;
        let b = self.shared_end - 1 - self.ram_base;
        let first = a / size;
        let last = b / size;
        assert(first * size <= a < (first + 1) * size) by (nonlinear_arith)
            requires
                first == a / size,
                0 <= a,
                size > 0,
        ;
        assert(last * size <= b < (last + 1) * size) by (nonlinear_arith)
            requires
                last == b / size,
                0 <= b,
                size > 0,
        ;
        if index < first {
            assert((index + 1) * size <= first * size) by (nonlinear_arith)
                requires
                    index + 1 <= first,
                    size > 0,
            ;
        } else {
            assert(first * size <= index * size) by (nonlinear_arith)
                requires
                    first <= index,
                    size > 0,
            ;
            assert(a < (index + 1) * size) by (nonlinear_arith)
                requires
                    a < (first + 1) * size,
                    first <= index,
                    size > 0,
            ;
        }
        if index > last {
            assert((last + 1) * size <= index * size) by (nonlinear_arith)
                requires
                    last + 1 <= index,
                    size > 0,
            ;
        } else {
            assert(index * size <= last * size) by (nonlinear_arith)
                requires
                    index <= last,
                    size > 0,
            ;
        }
    }
}

} // verus!
