//! Physical frames and the frame allocator that hands out the usable frames
//! of the boot memory map, one after the other.

use vstd::prelude::*;

verus! {

/// Size of a physical frame: 4 KiB.
pub const PAGE_SIZE: u64 = 4096;

/// Physical addresses have at most 52 bits.
pub const PHYS_ADDR_LIMIT: u64 = 0x10_0000_0000_0000;

/// The start of the frame that contains `addr`.
pub open spec fn frame_base(addr: int) -> int {
    addr - addr % 4096
}

/// A 4 KiB physical frame, given by its start address.
#[derive(Debug, Clone, Copy, PartialEq, Eq)]
pub struct PhysFrame {
    /// Start address of the frame.
    pub start_address: u64,
}

impl PhysFrame {
    /// A frame is 4 KiB aligned and lies below the physical address limit.
    pub open spec fn wf(self) -> bool {
        &&& self.start_address % 4096 == 0
        &&& self.start_address < PHYS_ADDR_LIMIT
    }

    /// The frame that contains the physical address `addr`.
    pub fn containing_address(addr: u64) -> (r: PhysFrame)
        requires
            addr < PHYS_ADDR_LIMIT,
        ensures
            r.start_address == frame_base(addr as int),
            r.wf(),
    {
        PhysFrame { start_address: addr - addr % PAGE_SIZE }
    }
}

/// One region of the boot memory map: the addresses `start_addr..end_addr`,
/// and whether the firmware marked them usable.
#[derive(Debug, Clone, Copy, PartialEq, Eq)]
pub struct MemoryRegion {
    pub start_addr: u64,
    pub end_addr: u64,
    pub usable: bool,
}

/// How many frame addresses the allocator takes from a region: the addresses
/// `start_addr, start_addr + 4096, ...` below `end_addr`, for usable regions.
pub open spec fn region_frame_count(r: MemoryRegion) -> nat {
    if r.usable && r.start_addr < r.end_addr {
        ((r.end_addr - r.start_addr - 1) / 4096 + 1) as nat
    } else {
        0
    }
}

/// The addresses the allocator takes from a region, in order.
pub open spec fn region_frame_addrs(r: MemoryRegion) -> Seq<int> {
    Seq::new(region_frame_count(r), |i: int| r.start_addr + 4096 * i)
}

/// The addresses the allocator steps through, region after region.
pub open spec fn usable_frame_addrs(regions: Seq<MemoryRegion>) -> Seq<int>
    decreases regions.len(),
{
    if regions.len() == 0 {
        Seq::empty()
    } else {
        region_frame_addrs(regions[0]) + usable_frame_addrs(regions.drop_first())
    }
}

/// The frames the allocator hands out, in order.
pub open spec fn usable_frames(regions: Seq<MemoryRegion>) -> Seq<int> {
    usable_frame_addrs(regions).map_values(|a: int| frame_base(a))
}

/// Whether the addresses at positions `0..=n` of the sequence (those that
/// exist) are physical addresses.
pub open spec fn addressable_through(addrs: Seq<int>, n: int) -> bool {
    forall|k: int| 0 <= k <= n && k < addrs.len() ==> #[trigger] addrs[k] < PHYS_ADDR_LIMIT
}

/// Hands out the usable frames of a boot memory map in order.
pub struct BootInfoFrameAllocator {
    /// The regions of the memory map.
    pub memory_map: Vec<MemoryRegion>,
    /// How many frames have been asked for so far.
    pub next: usize,
}

proof fn lemma_frame_addrs_unfold(regions: Seq<MemoryRegion>, i: int)
    requires
        0 <= i < regions.len(),
    ensures
        usable_frame_addrs(regions.skip(i)) == region_frame_addrs(regions[i])
            + usable_frame_addrs(regions.skip(i + 1)),
{
    assert(regions.skip(i).drop_first() =~= regions.skip(i + 1));
    assert(regions.skip(i)[0] == regions[i]);
}

proof fn lemma_region_offset_fits(start: u64, end: u64, r: u64)
    requires
        start < end,
        r < (end - start - 1) / 4096 + 1,
    ensures
        start + 4096 * r < end,
{
    let d = end - start - 1;
    assert(r <= d / 4096);
    assert(4096 * r <= 4096 * (d / 4096)) by (nonlinear_arith)
        requires
            r <= d / 4096,
    ;
    assert(4096 * (d / 4096) <= d) by (nonlinear_arith)
        requires
            d >= 0,
    ;
}

proof fn lemma_addressable_split(r: MemoryRegion, rest: Seq<int>, b: int)
    requires
        b >= 0,
    ensures
        ({
            let rs = region_frame_addrs(r);
            let m = if b < rs.len() { b } else { rs.len() as int };
            addressable_through(rs + rest, b - 1) <==> ((m == 0 || rs[m - 1] < PHYS_ADDR_LIMIT) && (b
                <= rs.len() || addressable_through(rest, b - rs.len() - 1)))
        }),
{
    let rs = region_frame_addrs(r);
    let all = rs + rest;
    let m = if b < rs.len() { b } else { rs.len() as int };
    if addressable_through(all, b - 1) {
        if m > 0 {
            assert(all[m - 1] == rs[m - 1]);
        }
        if b > rs.len() {
            assert forall|k: int| 0 <= k <= b - rs.len() - 1 && k < rest.len() implies #[trigger] rest[k]
                < PHYS_ADDR_LIMIT by {
                assert(all[k + rs.len()] == rest[k]);
            }
        }
    }
    if (m == 0 || rs[m - 1] < PHYS_ADDR_LIMIT) && (b <= rs.len() || addressable_through(
        rest,
        b - rs.len() - 1,
    )) {
        assert forall|k: int| 0 <= k <= b - 1 && k < all.len() implies #[trigger] all[k]
            < PHYS_ADDR_LIMIT by {
            if k < rs.len() {
                assert(rs[k] == r.start_addr + 4096 * k);
                assert(rs[m - 1] == r.start_addr + 4096 * (m - 1));
                assert(4096 * k <= 4096 * (m - 1));
            } else {
                assert(all[k] == rest[k - rs.len()]);
            }
        }
    }
}

impl BootInfoFrameAllocator {
    /// The addresses this allocator steps through.
    pub open spec fn frame_addrs(self) -> Seq<int> {
        usable_frame_addrs(self.memory_map@)
    }

    /// Whether the next allocation can be made: the counter can grow, and
    /// every address the allocator steps over on the way is a physical
    /// address.
    pub open spec fn can_allocate(self) -> bool {
        &&& self.next < usize::MAX
        &&& addressable_through(self.frame_addrs(), self.next as int)
    }

    /// An allocator for the memory map that has handed out nothing yet.
    pub fn init(memory_map: Vec<MemoryRegion>) -> (r: BootInfoFrameAllocator)
        ensures
            r.memory_map@ == memory_map@,
            r.next == 0,
    {
        BootInfoFrameAllocator { memory_map, next: 0 }
    }


    /// Whether `allocate_frame` may be called: tells exactly when
    /// `can_allocate` holds.
    pub fn can_allocate_frame(&self) -> (r: bool)
        ensures
            r == self.can_allocate(),
    {
        if self.next == usize::MAX {
            return false;
        }
        let ghost regions = self.memory_map@;
        let ghost all = usable_frame_addrs(regions);
        let mut budget: u64 = self.next as u64 + 1;
        let mut i: usize = 0;
        assert(regions.skip(0) =~= regions);
        while i < self.memory_map.len()
            invariant
                regions == self.memory_map@,
                all == usable_frame_addrs(regions),
                all == self.frame_addrs(),
                self.next < usize::MAX,
                0 <= i <= regions.len(),
                budget <= self.next + 1,
                addressable_through(all, self.next as int) == addressable_through(
                    usable_frame_addrs(regions.skip(i as int)),
                    budget - 1,
                ),
            decreases regions.len() - i,
        {
            let region = self.memory_map[i];
            proof {
                lemma_frame_addrs_unfold(regions, i as int);
                lemma_addressable_split(
                    region,
                    usable_frame_addrs(regions.skip(i + 1)),
                    budget as int,
                );
            }
            if region.usable && region.start_addr < region.end_addr {
                let count: u64 = (region.end_addr - region.start_addr - 1) / PAGE_SIZE + 1;
                let m: u64 = if budget < count { budget } else { count };
                if m > 0 {
                    proof {
                        lemma_region_offset_fits(region.start_addr, region.end_addr, (m - 1) as u64);
                    }
                    let last: u64 = region.start_addr + PAGE_SIZE * (m - 1);
                    if last >= PHYS_ADDR_LIMIT {
                        return false;
                    }
                }
                budget = budget - m;
            }
            i = i + 1;
        }
        assert(regions.skip(i as int).len() == 0);
        true
    }

    /// The frame at position `self.next` of the usable frames, if there is
    /// one.
    fn nth_usable_frame(&self) -> (r: Option<PhysFrame>)
        requires
            addressable_through(self.frame_addrs(), self.next as int),
        ensures
            self.next < self.frame_addrs().len() ==> r == Some(
                PhysFrame { start_address: frame_base(self.frame_addrs()[self.next as int]) as u64 },
            ),
            self.next >= self.frame_addrs().len() ==> r is None,
            r matches Some(f) ==> f.wf(),
    {
        let ghost regions = self.memory_map@;
        let ghost all = usable_frame_addrs(regions);
        let mut remaining: u64 = self.next as u64;
        let mut i: usize = 0;
        assert(regions.skip(0) =~= regions);
        while i < self.memory_map.len()
            invariant
                regions == self.memory_map@,
                all == usable_frame_addrs(regions),
                all == self.frame_addrs(),
                addressable_through(all, self.next as int),
                0 <= i <= regions.len(),
                remaining <= self.next,
                (self.next < all.len()) == (remaining < usable_frame_addrs(regions.skip(i as int)).len()),
                remaining < usable_frame_addrs(regions.skip(i as int)).len() ==> usable_frame_addrs(
                    regions.skip(i as int),
                )[remaining as int] == all[self.next as int],
            decreases regions.len() - i,
        {
            let region = self.memory_map[i];
            proof {
                lemma_frame_addrs_unfold(regions, i as int);
            }
            if region.usable && region.start_addr < region.end_addr {
                let count: u64 = (region.end_addr - region.start_addr - 1) / PAGE_SIZE + 1;
                if remaining < count {
                    proof {
                        lemma_region_offset_fits(region.start_addr, region.end_addr, remaining);
                        assert(all[self.next as int] == region.start_addr + 4096 * remaining);
                    }
                    let addr: u64 = region.start_addr + PAGE_SIZE * remaining;
                    return Some(PhysFrame::containing_address(addr));
                }
                remaining = remaining - count;
            }
            i = i + 1;
        }
        assert(regions.skip(i as int).len() == 0);
        None
    }

    /// Hands out the next usable frame, or `None` once they are used up.
    /// The counter grows on every call, also when `None` comes back.
    pub fn allocate_frame(&mut self) -> (r: Option<PhysFrame>)
        requires
            old(self).can_allocate(),
        ensures
            final(self).memory_map@ == old(self).memory_map@,
            final(self).next == old(self).next + 1,
            old(self).next < old(self).frame_addrs().len() ==> r == Some(
                PhysFrame {
                    start_address: frame_base(old(self).frame_addrs()[old(self).next as int]) as u64,
                },
            ),
            old(self).next >= old(self).frame_addrs().len() ==> r is None,
            r matches Some(f) ==> f.wf(),
    {
        let frame = self.nth_usable_frame();
        self.next = self.next + 1;
        frame
    }
}


/// Usable regions start on a frame boundary.
pub open spec fn usable_regions_page_aligned(regions: Seq<MemoryRegion>) -> bool {
    forall|j: int|
        0 <= j < regions.len() && #[trigger] regions[j].usable ==> regions[j].start_addr % 4096
            == 0
}

/// No two usable regions overlap.
pub open spec fn usable_regions_disjoint(regions: Seq<MemoryRegion>) -> bool {
    forall|i: int, j: int|
        0 <= i < j < regions.len() && (#[trigger] regions[i]).usable && (#[trigger] regions[j]).usable
            ==> regions[i].end_addr <= regions[j].start_addr || regions[j].end_addr
            <= regions[i].start_addr
}

/// The address lies in some usable region of the map.
pub open spec fn in_some_usable_region(regions: Seq<MemoryRegion>, a: int) -> bool {
    exists|j: int| in_usable_region(regions, j, a)
}

/// The address lies in the usable region `j` of the map.
pub open spec fn in_usable_region(regions: Seq<MemoryRegion>, j: int, a: int) -> bool {
    &&& 0 <= j < regions.len()
    &&& regions[j].usable
    &&& regions[j].start_addr <= a < regions[j].end_addr
}

proof fn lemma_region_addr_bounds(r: MemoryRegion, k: int)
    requires
        0 <= k < region_frame_count(r),
    ensures
        region_frame_addrs(r)[k] == r.start_addr + 4096 * k,
        r.usable,
        r.start_addr <= region_frame_addrs(r)[k] < r.end_addr,
{
    lemma_region_offset_fits(r.start_addr, r.end_addr, k as u64);
}

/// Every address the allocator steps through lies in a usable region.
proof fn lemma_addrs_in_usable_regions(regions: Seq<MemoryRegion>)
    ensures
        forall|k: int|
            0 <= k < usable_frame_addrs(regions).len() ==> in_some_usable_region(regions, #[trigger] usable_frame_addrs(regions)[k]),
    decreases regions.len(),
{
    if regions.len() > 0 {
        let rest = regions.drop_first();
        lemma_addrs_in_usable_regions(rest);
        let rs = region_frame_addrs(regions[0]);
        let all = usable_frame_addrs(regions);
        assert forall|k: int| 0 <= k < all.len() implies in_some_usable_region(regions, #[trigger] all[k]) by {
            if k < rs.len() {
                lemma_region_addr_bounds(regions[0], k);
                assert(in_usable_region(regions, 0, all[k]));
            } else {
                let a = usable_frame_addrs(rest)[k - rs.len()];
                assert(all[k] == a);
                let j = choose|j: int| in_usable_region(rest, j, a);
                assert(rest[j] == regions[j + 1]);
                assert(in_usable_region(regions, j + 1, all[k]));
            }
        }
    }
}

/// With page-aligned usable regions, every address stepped through is a
/// frame boundary.
proof fn lemma_addrs_page_aligned(regions: Seq<MemoryRegion>)
    requires
        usable_regions_page_aligned(regions),
    ensures
        forall|k: int|
            0 <= k < usable_frame_addrs(regions).len() ==> #[trigger] usable_frame_addrs(regions)[k]
                % 4096 == 0,
    decreases regions.len(),
{
    if regions.len() > 0 {
        let rest = regions.drop_first();
        assert(usable_regions_page_aligned(rest)) by {
            assert forall|j: int| 0 <= j < rest.len() && #[trigger] rest[j].usable implies rest[j].start_addr
                % 4096 == 0 by {
                assert(rest[j] == regions[j + 1]);
            }
        }
        lemma_addrs_page_aligned(rest);
        let rs = region_frame_addrs(regions[0]);
        let all = usable_frame_addrs(regions);
        assert forall|k: int| 0 <= k < all.len() implies #[trigger] all[k] % 4096 == 0 by {
            if k < rs.len() {
                lemma_region_addr_bounds(regions[0], k);
                let s0 = regions[0].start_addr as int;
                assert((s0 + 4096 * k) % 4096 == 0) by (nonlinear_arith)
                    requires
                        s0 % 4096 == 0,
                ;
            } else {
                assert(all[k] == usable_frame_addrs(rest)[k - rs.len()]);
            }
        }
    }
}

/// With disjoint usable regions, no address is stepped through twice.
proof fn lemma_addrs_distinct(regions: Seq<MemoryRegion>)
    requires
        usable_regions_disjoint(regions),
    ensures
        usable_frame_addrs(regions).no_duplicates(),
    decreases regions.len(),
{
    if regions.len() > 0 {
        let rest = regions.drop_first();
        assert(usable_regions_disjoint(rest)) by {
            assert forall|i: int, j: int|
                0 <= i < j < rest.len() && (#[trigger] rest[i]).usable && (#[trigger] rest[j]).usable
                    implies rest[i].end_addr <= rest[j].start_addr || rest[j].end_addr
                    <= rest[i].start_addr by {
                assert(rest[i] == regions[i + 1]);
                assert(rest[j] == regions[j + 1]);
            }
        }
        lemma_addrs_distinct(rest);
        lemma_addrs_in_usable_regions(rest);
        let rs = region_frame_addrs(regions[0]);
        let tail = usable_frame_addrs(rest);
        let all = usable_frame_addrs(regions);
        assert forall|k1: int, k2: int|
            0 <= k1 < all.len() && 0 <= k2 < all.len() && k1 != k2 implies all[k1] != all[k2] by {
            if k1 < rs.len() && k2 < rs.len() {
                lemma_region_addr_bounds(regions[0], k1);
                lemma_region_addr_bounds(regions[0], k2);
            } else if k1 >= rs.len() && k2 >= rs.len() {
                assert(all[k1] == tail[k1 - rs.len()]);
                assert(all[k2] == tail[k2 - rs.len()]);
            } else {
                let (ka, kb) = if k1 < rs.len() { (k1, k2) } else { (k2, k1) };
                lemma_region_addr_bounds(regions[0], ka);
                let b = tail[kb - rs.len()];
                assert(all[kb] == b);
                let j = choose|j: int| in_usable_region(rest, j, b);
                assert(rest[j] == regions[j + 1]);
                assert(regions[0].usable && regions[j + 1].usable);
            }
        }
    }
}

/// Every frame handed out starts a frame that lies inside a usable region of
/// the memory map, provided the usable regions start on frame boundaries.
pub proof fn lemma_frames_in_usable_regions(regions: Seq<MemoryRegion>)
    requires
        usable_regions_page_aligned(regions),
    ensures
        forall|k: int|
            0 <= k < usable_frames(regions).len() ==> in_some_usable_region(regions, #[trigger] usable_frames(regions)[k]),
        forall|k: int|
            0 <= k < usable_frames(regions).len() ==> #[trigger] usable_frames(regions)[k] % 4096 == 0,
{
    lemma_addrs_in_usable_regions(regions);
    lemma_addrs_page_aligned(regions);
    let addrs = usable_frame_addrs(regions);
    assert forall|k: int| 0 <= k < usable_frames(regions).len() implies usable_frames(regions)[k]
        == addrs[k] by {}
    assert forall|k: int| 0 <= k < usable_frames(regions).len() implies in_some_usable_region(
        regions,
        #[trigger] usable_frames(regions)[k],
    ) by {
        assert(usable_frames(regions)[k] == addrs[k]);
        assert(in_some_usable_region(regions, addrs[k]));
    }
}

/// The allocator never hands out the same frame twice, provided the usable
/// regions start on frame boundaries and do not overlap.
pub proof fn lemma_frames_never_repeat(regions: Seq<MemoryRegion>)
    requires
        usable_regions_page_aligned(regions),
        usable_regions_disjoint(regions),
    ensures
        usable_frames(regions).no_duplicates(),
{
    lemma_addrs_page_aligned(regions);
    lemma_addrs_distinct(regions);
    let addrs = usable_frame_addrs(regions);
    let frames = usable_frames(regions);
    assert forall|k1: int, k2: int|
        0 <= k1 < frames.len() && 0 <= k2 < frames.len() && k1 != k2 implies frames[k1]
        != frames[k2] by {
        assert(frames[k1] == addrs[k1]);
        assert(frames[k2] == addrs[k2]);
    }
}


/// Every frame of a usable region is handed out at some point, provided the
/// usable regions start on frame boundaries.
pub proof fn lemma_every_usable_frame_handed_out(regions: Seq<MemoryRegion>, j: int, a: int)
    requires
        usable_regions_page_aligned(regions),
        in_usable_region(regions, j, a),
        a % 4096 == 0,
    ensures
        usable_frames(regions).contains(a),
    decreases regions.len(),
{
    lemma_addrs_page_aligned(regions);
    let addrs = usable_frame_addrs(regions);
    let rs = region_frame_addrs(regions[0]);
    let rest = regions.drop_first();
    if j == 0 {
        let s0 = regions[0].start_addr as int;
        let e0 = regions[0].end_addr as int;
        let k = (a - s0) / 4096;
        assert(s0 % 4096 == 0);
        assert(s0 + 4096 * k == a && 0 <= k <= (e0 - s0 - 1) / 4096) by (nonlinear_arith)
            requires
                s0 % 4096 == 0,
                a % 4096 == 0,
                s0 <= a < e0,
                k == (a - s0) / 4096,
        ;
        assert(rs[k] == a);
        assert(addrs[k] == a);
        assert(usable_frames(regions)[k] == frame_base(a));
        assert(usable_frames(regions)[k] == a);
    } else {
        assert(rest[j - 1] == regions[j]);
        assert(usable_regions_page_aligned(rest)) by {
            assert forall|i: int| 0 <= i < rest.len() && #[trigger] rest[i].usable implies rest[i].start_addr
                % 4096 == 0 by {
                assert(rest[i] == regions[i + 1]);
            }
        }
        lemma_every_usable_frame_handed_out(rest, j - 1, a);
        let k = choose|k: int| 0 <= k < usable_frames(rest).len() && usable_frames(rest)[k] == a;
        lemma_addrs_page_aligned(rest);
        assert(usable_frame_addrs(rest)[k] % 4096 == 0);
        assert(addrs[k + rs.len()] == usable_frame_addrs(rest)[k]);
        assert(usable_frames(regions)[k + rs.len()] == a);
    }
}

} // verus!
