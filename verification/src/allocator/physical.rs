//! The frame allocator: every usable region of physical memory, and the
//! allocation and release of frames across them.

use vstd::prelude::*;
use arrayvec::{ArrayVec, CapacityError};
use core::sync::atomic::{AtomicUsize, Ordering};
use crate::allocator::chunk::FrameBitmapChunk;
use crate::allocator::layout::RegionLayout;
use crate::allocator::region::MemoryRegion;
use crate::arch::boot::{
    lemma_apart_is_pairwise,
    lemma_usable_entries_prefix,
    lemma_usable_entries_step,
    usable_entries,
    MemoryMap,
    MemoryMapEntry,
};
use crate::arch::paging::{IdentityMapToken, PAGE_SIZE};
use crate::arch::PhysicalAddress;
use crate::common::sync::InitOnce;
use crate::common::token::InnerToken;

verus! {

/// Size of a frame in bytes.
pub const FRAME_SIZE: usize = PAGE_SIZE;

/// Regions that the allocator can hold. Usable ranges beyond this number are
/// left out.
pub const MAX_MEMORY_REGION_COUNT: usize = 4096;

/// `arrayvec::ArrayVec`, a vector of fixed capacity that stores its items
/// in place. Nothing is claimed of it here; what is claimed of the list of
/// regions stands at the functions below.
#[verifier::external_type_specification]
#[verifier::external_body]
#[verifier::reject_recursive_types(T)]
pub struct ExArrayVec<T, const CAP: usize>(ArrayVec<T, CAP>);

/// `arrayvec::CapacityError`, the error of a push to a full vector. It
/// carries the item that was not taken; nothing is claimed of it.
#[verifier::external_type_specification]
#[verifier::external_body]
#[verifier::reject_recursive_types(T)]
pub struct ExCapacityError<T>(CapacityError<T>);

/// The regions that a region list holds, in the order in which they were
/// pushed.
pub uninterp spec fn region_list(regions: ArrayVec<MemoryRegion, MAX_MEMORY_REGION_COUNT>) -> Seq<
    MemoryRegion,
>;

/// `ArrayVec::new`: the list that it creates holds nothing.
#[verifier::external_body]
fn regions_new() -> (regions: ArrayVec<MemoryRegion, MAX_MEMORY_REGION_COUNT>)
    ensures
        region_list(regions) == Seq::<MemoryRegion>::empty(),
{
    ArrayVec::new()
}

/// `ArrayVec::len`: the number of regions that the list holds, which is
/// never more than its capacity.
#[verifier::external_body]
fn regions_len(regions: &ArrayVec<MemoryRegion, MAX_MEMORY_REGION_COUNT>) -> (len: usize)
    ensures
        len == region_list(*regions).len(),
        len <= MAX_MEMORY_REGION_COUNT,
{
    regions.len()
}

/// Indexing an `ArrayVec` through its slice: the region at `index`.
#[verifier::external_body]
fn regions_get(regions: &ArrayVec<MemoryRegion, MAX_MEMORY_REGION_COUNT>, index: usize) -> (region:
    &MemoryRegion)
    requires
        index < region_list(*regions).len(),
    ensures
        *region == region_list(*regions)[index as int],
{
    &regions[index]
}

/// `ArrayVec::try_push`: a list that holds fewer regions than its capacity
/// takes `region` at its end; a full list stays as it is and the call fails.
#[verifier::external_body]
fn regions_try_push(
    regions: &mut ArrayVec<MemoryRegion, MAX_MEMORY_REGION_COUNT>,
    region: MemoryRegion,
) -> (pushed: Result<(), CapacityError<MemoryRegion>>)
    ensures
        region_list(*old(regions)).len() < MAX_MEMORY_REGION_COUNT ==> pushed is Ok && region_list(
            *final(regions),
        ) == region_list(*old(regions)).push(region),
        region_list(*old(regions)).len() >= MAX_MEMORY_REGION_COUNT ==> pushed is Err
            && region_list(*final(regions)) == region_list(*old(regions)),
{
    regions.try_push(region)
}

/// Proof that the frame allocator has been set up. Only `initialize` hands it
/// out.
#[derive(Clone, Copy)]
pub struct FrameAllocatorToken {
    _inner: InnerToken,
}

/// `carve` hands out storage for the bitmap of any region: asked with the
/// base of a region and its layout, it answers with chunks that suit the
/// layout.
pub open spec fn carves<F: Fn(PhysicalAddress, RegionLayout) -> &'static [FrameBitmapChunk]>(
    carve: F,
) -> bool {
    &&& forall|base: PhysicalAddress, layout: RegionLayout|
        layout.wf() ==> #[trigger] carve.requires((base, layout))
    &&& forall|base: PhysicalAddress, layout: RegionLayout, storage: &'static [FrameBitmapChunk]|
        layout.wf() && #[trigger] carve.ensures((base, layout), storage) ==> MemoryRegion::suits(
            layout,
            storage@,
        )
}

/// Sets up the frame allocator of `gate` from the usable entries of
/// `memory_map`, with the bitmaps on the heap, and hands out the token that
/// the allocator's users need.
///
/// The allocator is set up once: `completed` is what the caller has just
/// read from `gate.is_completed()`, and a caller that has read `true` must
/// not call. Where several cores come here at the same time, one of them
/// makes the allocator and all of them get a token once it is made.
pub fn initialize(
    completed: bool,
    gate: &InitOnce<FrameAllocator>,
    memory_map: MemoryMap,
    identity_map_token: IdentityMapToken,
) -> (token: FrameAllocatorToken)
    requires
        !completed,
        memory_map.wf(),
        FrameAllocator::can_take(memory_map),
{
    let make = || -> (allocator: FrameAllocator)
        requires
            memory_map.wf(),
            FrameAllocator::can_take(memory_map),
        ensures
            allocator.holds_usable(memory_map),
        {
            let mut allocator = FrameAllocator::empty();
            allocator.fill(memory_map, identity_map_token);
            allocator
        };
    let _ = gate.initialize(make);
    FrameAllocatorToken { _inner: InnerToken::new() }
}

/// Sets the allocator up as `initialize` does, with the bitmap of every
/// region in the storage that `carve` hands out for it: the caller carves it
/// out of the first frames of the region, which are reserved for it.
pub fn initialize_with<F: Fn(PhysicalAddress, RegionLayout) -> &'static [FrameBitmapChunk]>(
    completed: bool,
    gate: &InitOnce<FrameAllocator>,
    memory_map: MemoryMap,
    identity_map_token: IdentityMapToken,
    carve: F,
) -> (token: FrameAllocatorToken)
    requires
        !completed,
        memory_map.wf(),
        FrameAllocator::can_take(memory_map),
        carves(carve),
{
    let make = || -> (allocator: FrameAllocator)
        requires
            memory_map.wf(),
            FrameAllocator::can_take(memory_map),
            carves(carve),
        ensures
            allocator.holds_usable(memory_map),
        {
            let mut allocator = FrameAllocator::empty();
            allocator.fill_with(memory_map, identity_map_token, carve);
            allocator
        };
    let _ = gate.initialize(make);
    FrameAllocatorToken { _inner: InnerToken::new() }
}

/// The frame allocator of `gate`, for the holder of a token. `None` where
/// the token comes from another gate and this one has not been set up.
pub fn global_allocator(gate: &InitOnce<FrameAllocator>, token: FrameAllocatorToken) -> Option<
    &FrameAllocator,
> {
    gate.get()
}

/// The regions of usable physical memory, ordered by address, and the region
/// at which the next allocation starts looking.
pub struct FrameAllocator {
    regions: ArrayVec<MemoryRegion, MAX_MEMORY_REGION_COUNT>,
    last_allocation_region: AtomicUsize,
}

fn advance_cursor(cursor: &AtomicUsize) -> usize {
    cursor.fetch_add(1, Ordering::SeqCst)
}

/// The region that is asked at step `step` of a search that the cursor value
/// `start` begins: the search starts at region `start % region_count` and
/// wraps around.
pub open spec fn probe(start: int, step: int, region_count: int) -> int {
    (start % region_count + step) % region_count
}

/// Computes `probe(start, step, region_count)`.
pub fn probe_index(start: usize, step: usize, region_count: usize) -> (index: usize)
    requires
        0 < region_count,
        step < region_count,
        2 * region_count <= usize::MAX,
    ensures
        index == probe(start as int, step as int, region_count as int),
        index < region_count,
{
    (start % region_count + step) % region_count
}

/// One search asks every region: for every region there is a step of the
/// search at which it is asked.
pub proof fn lemma_search_asks_every_region(start: int, region: int, region_count: int)
    requires
        0 <= start,
        0 <= region < region_count,
    ensures
        0 <= (region - start % region_count + region_count) % region_count < region_count,
        probe(start, (region - start % region_count + region_count) % region_count, region_count)
            == region,
{
    let first = start % region_count;
    let step = (region - first + region_count) % region_count;
    if region >= first {
        vstd::arithmetic::div_mod::lemma_fundamental_div_mod_converse(
            region - first + region_count,
            region_count,
            1,
            region - first,
        );
        vstd::arithmetic::div_mod::lemma_small_mod((first + step) as nat, region_count as nat);
    } else {
        vstd::arithmetic::div_mod::lemma_small_mod(
            (region - first + region_count) as nat,
            region_count as nat,
        );
        vstd::arithmetic::div_mod::lemma_fundamental_div_mod_converse(
            first + step,
            region_count,
            1,
            region,
        );
    }
}

impl FrameAllocator {
    /// The regions, in the order of their addresses.
    pub closed spec fn regions(&self) -> Seq<MemoryRegion> {
        region_list(self.regions)
    }

    /// Every region is well formed, and each ends before or where the next
    /// one starts. This holds of every allocator.
    #[verifier::type_invariant]
    pub closed spec fn wf(&self) -> bool {
        &&& self.regions().len() <= MAX_MEMORY_REGION_COUNT
        &&& forall|index: int|
            0 <= index < self.regions().len() ==> (#[trigger] self.regions()[index]).wf()
        &&& forall|lower: int, upper: int|
            0 <= lower < upper < self.regions().len() ==> (#[trigger] self.regions()[lower])
                .end_address() <= (#[trigger] self.regions()[upper]).base()@
    }

    /// Some region owns `address`.
    pub open spec fn owns(&self, address: usize) -> bool {
        exists|index: int|
            0 <= index < self.regions().len() && (#[trigger] self.regions()[index]).owns(address)
    }

    /// An allocator without regions.
    pub fn empty() -> (allocator: Self)
        ensures
            allocator.regions().len() == 0,
    {
        FrameAllocator { regions: regions_new(), last_allocation_region: AtomicUsize::new(0) }
    }

    /// Every usable entry of the map that the allocator has room for can be
    /// made into a region. Nothing is asked of the entries beyond the first
    /// `MAX_MEMORY_REGION_COUNT` usable ones, which are dropped.
    pub open spec fn can_take(memory_map: MemoryMap) -> bool {
        let usable = usable_entries(memory_map.entries@);
        forall|position: int|
            0 <= position < usable.len() && position < MAX_MEMORY_REGION_COUNT
                ==> MemoryRegion::constructible(
                (#[trigger] usable[position]).base@,
                usable[position].len,
            )
    }

    /// Whether every usable entry of the map that the allocator has room for
    /// can be made into a region.
    pub fn check_can_take(memory_map: MemoryMap) -> (possible: bool)
        ensures
            possible == Self::can_take(memory_map),
    {
        let usable = MemoryMap::usable(memory_map.entries);
        let mut position: usize = 0;
        while position < usable.len() && position < MAX_MEMORY_REGION_COUNT
            invariant
                usable@ == usable_entries(memory_map.entries@),
                forall|earlier: int|
                    0 <= earlier < position ==> MemoryRegion::constructible(
                        (#[trigger] usable@[earlier]).base@,
                        usable@[earlier].len,
                    ),
            decreases usable@.len() - position,
        {
            if !MemoryRegion::can_hold(usable[position].base, usable[position].len) {
                return false;
            }
            position = position + 1;
        }
        true
    }

    /// The regions are those of the usable entries of the map, in order, as
    /// far as the allocator has room for them.
    pub open spec fn holds_usable(&self, memory_map: MemoryMap) -> bool {
        let usable = usable_entries(memory_map.entries@);
        &&& self.regions().len() == if usable.len() <= MAX_MEMORY_REGION_COUNT {
            usable.len()
        } else {
            MAX_MEMORY_REGION_COUNT as nat
        }
        &&& forall|position: int|
            0 <= position < self.regions().len() ==> (#[trigger] self.regions()[position]).is_fresh(
                usable[position].base@,
                usable[position].len,
            )
    }

    /// Makes a region of every usable entry of `memory_map`, in order, with
    /// its bitmap on the heap. Once the allocator holds
    /// `MAX_MEMORY_REGION_COUNT` regions, the usable entries that are left are
    /// dropped.
    pub fn fill(&mut self, memory_map: MemoryMap, identity_map_token: IdentityMapToken)
        requires
            old(self).regions().len() == 0,
            memory_map.wf(),
            Self::can_take(memory_map),
        ensures
            final(self).holds_usable(memory_map),
    {
        let on_heap = |base: PhysicalAddress, layout: RegionLayout| -> (storage: &'static [
            FrameBitmapChunk
        ])
            requires
                layout.wf(),
            ensures
                MemoryRegion::suits(layout, storage@),
            { MemoryRegion::heap_storage(layout) };
        self.fill_with(memory_map, identity_map_token, on_heap)
    }

    /// Makes a region of every usable entry of `memory_map`, in order, with
    /// its bitmap in the storage that `carve` hands out for it. Once the
    /// allocator holds `MAX_MEMORY_REGION_COUNT` regions, the usable entries
    /// that are left are dropped, and `carve` is not asked for them.
    pub fn fill_with<F: Fn(PhysicalAddress, RegionLayout) -> &'static [FrameBitmapChunk]>(
        &mut self,
        memory_map: MemoryMap,
        identity_map_token: IdentityMapToken,
        carve: F,
    )
        requires
            old(self).regions().len() == 0,
            memory_map.wf(),
            Self::can_take(memory_map),
            carves(carve),
        ensures
            final(self).holds_usable(memory_map),
    {
        let entries = memory_map.entries;
        let ghost usable = usable_entries(entries@);
        let mut regions = regions_new();
        let mut full = false;
        let mut index: usize = 0;
        assert(entries@.take(0) =~= Seq::<MemoryMapEntry>::empty());
        while index < entries.len() && !full
            invariant
                index <= entries@.len(),
                entries == memory_map.entries,
                usable == usable_entries(entries@),
                Self::can_take(memory_map),
                carves(carve),
                region_list(regions).len() <= MAX_MEMORY_REGION_COUNT,
                region_list(regions).len() <= usable.len(),
                !full ==> region_list(regions).len() == usable_entries(
                    entries@.take(index as int),
                ).len(),
                full ==> region_list(regions).len() == MAX_MEMORY_REGION_COUNT,
                forall|position: int|
                    0 <= position < region_list(regions).len() ==> (#[trigger] region_list(
                        regions,
                    )[position]).is_fresh(usable[position].base@, usable[position].len),
            decreases entries@.len() - index,
        {
            proof {
                lemma_usable_entries_step(entries@, index as int);
                lemma_usable_entries_prefix(entries@, index + 1);
            }
            let entry = entries[index];
            if entry.is_usable() {
                if regions_len(&regions) == MAX_MEMORY_REGION_COUNT {
                    full = true;
                } else {
                    let ghost before = region_list(regions);
                    let ghost position = before.len() as int;
                    proof {
                        assert(usable_entries(entries@.take(index + 1))[position] == entry);
                        assert(usable[position] == entry);
                        MemoryRegion::lemma_constructible(entry.base@, entry.len);
                    }
                    let layout = RegionLayout::for_size(entry.len);
                    let storage = carve(entry.base, layout);
                    let region = MemoryRegion::with_storage(
                        entry.base,
                        entry.len,
                        identity_map_token,
                        storage,
                    );
                    let pushed = regions_try_push(&mut regions, region);
                    proof {
                        assert forall|other: int|
                            0 <= other < region_list(regions).len() implies (
                        #[trigger] region_list(regions)[other]).is_fresh(
                            usable[other].base@,
                            usable[other].len,
                        ) by {
                            if other < position {
                                assert(region_list(regions)[other] == before[other]);
                            }
                        }
                    }
                }
            }
            index = index + 1;
        }
        proof {
            if !full {
                assert(entries@.take(index as int) =~= entries@);
            }
            Self::lemma_fresh_regions_are_ordered(region_list(regions), memory_map);
        }
        self.regions = regions;
    }

    /// Regions made of the usable entries of a valid map, in order, are well
    /// formed and ordered by address without overlap.
    proof fn lemma_fresh_regions_are_ordered(regions: Seq<MemoryRegion>, memory_map: MemoryMap)
        requires
            memory_map.wf(),
            regions.len() <= usable_entries(memory_map.entries@).len(),
            forall|position: int|
                0 <= position < regions.len() ==> (#[trigger] regions[position]).is_fresh(
                    usable_entries(memory_map.entries@)[position].base@,
                    usable_entries(memory_map.entries@)[position].len,
                ),
        ensures
            forall|index: int| 0 <= index < regions.len() ==> (#[trigger] regions[index]).wf(),
            forall|lower: int, upper: int|
                0 <= lower < upper < regions.len() ==> (#[trigger] regions[lower]).end_address() <= (
                #[trigger] regions[upper]).base()@,
    {
        let usable = usable_entries(memory_map.entries@);
        assert forall|index: int| 0 <= index < regions.len() implies (
        #[trigger] regions[index]).wf() by {
            regions[index].lemma_fresh(usable[index].base@, usable[index].len);
        }
        assert forall|lower: int, upper: int| 0 <= lower < upper < regions.len() implies (
        #[trigger] regions[lower]).end_address() <= (#[trigger] regions[upper]).base()@ by {
            lemma_apart_is_pairwise(usable, lower, upper);
            regions[lower].lemma_fresh(usable[lower].base@, usable[lower].len);
            regions[upper].lemma_fresh(usable[upper].base@, usable[upper].len);
        }
    }

    /// Number of regions.
    pub fn region_count(&self) -> (count: usize)
        ensures
            count == self.regions().len(),
            count <= MAX_MEMORY_REGION_COUNT,
    {
        regions_len(&self.regions)
    }

    /// The region at `index`.
    pub fn region(&self, index: usize) -> (region: &MemoryRegion)
        requires
            index < self.regions().len(),
        ensures
            *region == self.regions()[index as int],
    {
        regions_get(&self.regions, index)
    }

    /// Allocates `frame_count` consecutive frames from the first region that
    /// grants them and returns the address of the first frame.
    ///
    /// The search starts at a region that changes with every call, so that
    /// concurrent requests spread over the regions, and visits every region
    /// once.
    pub fn allocate(&self, frame_count: usize) -> (allocated: Option<PhysicalAddress>)
        ensures
            frame_count > usize::BITS ==> allocated is None,
            self.regions().len() == 0 ==> allocated is None,
            allocated matches Some(address) ==> exists|index: int|
                0 <= index < self.regions().len() && (#[trigger] self.regions()[index]).holds_run(
                    address@,
                    frame_count as int,
                ),
    {
        proof {
            use_type_invariant(self);
        }
        let region_count = self.region_count();
        if region_count == 0 {
            return None;
        }
        let start_region_id = advance_cursor(&self.last_allocation_region);
        let mut step: usize = 0;
        while step < region_count
            invariant
                self.wf(),
                region_count == self.regions().len(),
                0 < region_count <= MAX_MEMORY_REGION_COUNT,
            decreases region_count - step,
        {
            let index = probe_index(start_region_id, step, region_count);
            let region = self.region(index);
            if let Some(address) = region.allocate(frame_count) {
                return Some(address);
            }
            step = step + 1;
        }
        None
    }

    /// No address has two owners: the regions do not overlap.
    pub proof fn lemma_one_owner(&self, address: usize, first: int, second: int)
        requires
            self.wf(),
            0 <= first < self.regions().len(),
            0 <= second < self.regions().len(),
            self.regions()[first].owns(address),
            self.regions()[second].owns(address),
        ensures
            first == second,
    {
        if first < second {
            assert(self.regions()[first].end_address() <= self.regions()[second].base()@);
        } else if second < first {
            assert(self.regions()[second].end_address() <= self.regions()[first].base()@);
        }
    }

    /// An address that lies outside every region has no owner, and `free`
    /// cannot be asked to release it.
    pub proof fn lemma_unowned_is_refused(&self, address: usize)
        requires
            forall|index: int|
                0 <= index < self.regions().len() ==> !(#[trigger] self.regions()[index]).owns(
                    address,
                ),
        ensures
            !self.owns(address),
    {
    }

    /// Finds the region that owns `address`: the only one that does, or
    /// `None` where the address lies outside every region.
    pub fn find_region(&self, address: PhysicalAddress) -> (found: Option<usize>)
        ensures
            found is None <==> !self.owns(address@),
            match found {
                Some(index) => index < self.regions().len() && self.regions()[index as int].owns(
                    address@,
                ),
                None => !self.owns(address@),
            },
    {
        proof {
            use_type_invariant(self);
        }
        let mut low: usize = 0;
        let mut high: usize = self.region_count();
        while low < high
            invariant
                self.wf(),
                low <= high <= self.regions().len(),
                forall|index: int|
                    0 <= index < low ==> !(#[trigger] self.regions()[index]).owns(address@),
                forall|index: int|
                    high <= index < self.regions().len() ==> !(#[trigger] self.regions()[index])
                        .owns(address@),
            decreases high - low,
        {
            let middle = low + (high - low) / 2;
            let region = self.region(middle);
            if region.check_if_owned(address) {
                return Some(middle);
            } else if region.start().0 < address.0 {
                proof {
                    assert forall|index: int| 0 <= index < middle + 1 implies !(
                    #[trigger] self.regions()[index]).owns(address@) by {
                        if index < middle {
                            assert(self.regions()[index].end_address()
                                <= self.regions()[middle as int].base()@);
                            self.regions()[index].lemma_extent();
                        }
                    }
                }
                low = middle + 1;
            } else {
                proof {
                    assert forall|index: int|
                        middle <= index < self.regions().len() implies !(
                    #[trigger] self.regions()[index]).owns(address@) by {
                        if middle < index {
                            assert(self.regions()[middle as int].end_address()
                                <= self.regions()[index].base()@);
                            self.regions()[middle as int].lemma_extent();
                        }
                    }
                }
                high = middle;
            }
        }
        None
    }

    /// Releases the `frame_count` frames that start at `address` in the
    /// region that owns the address.
    ///
    /// Returns whether all of them were in use: `false` means that a frame
    /// was released that was not allocated.
    pub fn free(&self, address: PhysicalAddress, frame_count: usize) -> (released: bool)
        requires
            self.owns(address@),
            frame_count <= usize::BITS,
    {
        match self.find_region(address) {
            Some(region_ix) => self.region(region_ix).free(address, frame_count),
            None => false,
        }
    }
}

} // verus!
