use kernel::allocator::chunk::FrameBitmapChunk;
use kernel::allocator::layout::RegionLayout;
use kernel::allocator::physical::{
    global_allocator, initialize, initialize_with, probe_index, FrameAllocator, FRAME_SIZE,
    MAX_MEMORY_REGION_COUNT,
};
use kernel::allocator::region::MemoryRegion;
use std::cell::Cell;
use kernel::arch::boot::{MemoryMap, MemoryMapEntry, MemoryMapEntryKind};
use kernel::arch::paging::{initialize_identity_map, IdentityMapToken};
use kernel::arch::PhysicalAddress;
use kernel::common::sync::InitOnce;

const W: usize = usize::BITS as usize;

fn token() -> IdentityMapToken {
    initialize_identity_map(PhysicalAddress::new(0))
}

fn entry(base: usize, frames: usize, kind: MemoryMapEntryKind) -> MemoryMapEntry {
    MemoryMapEntry::new(PhysicalAddress::new(base), frames * FRAME_SIZE, kind)
}

fn map_of(entries: Vec<MemoryMapEntry>) -> MemoryMap {
    let entries: &'static [MemoryMapEntry] = Box::leak(entries.into_boxed_slice());
    assert!(MemoryMap::is_valid(entries));
    MemoryMap::new(entries)
}

fn three_regions() -> Box<FrameAllocator> {
    let map = map_of(vec![
        entry(0x0, 16, MemoryMapEntryKind::Reserved),
        entry(0x10_0000, 2 * W, MemoryMapEntryKind::Usable),
        entry(0x80_0000, 32, MemoryMapEntryKind::Kernel),
        entry(0x100_0000, W + 6, MemoryMapEntryKind::Usable),
        entry(0x200_0000, 8, MemoryMapEntryKind::Usable),
    ]);
    let mut allocator = Box::new(FrameAllocator::empty());
    allocator.fill(map, token());
    allocator
}

#[test]
fn probe_index_rotates_and_wraps() {
    assert_eq!(probe_index(0, 0, 3), 0);
    assert_eq!(probe_index(0, 2, 3), 2);
    assert_eq!(probe_index(1, 2, 3), 0);
    assert_eq!(probe_index(5, 0, 3), 2);
    assert_eq!(probe_index(5, 1, 3), 0);
    assert_eq!(probe_index(usize::MAX, 1, 4), (usize::MAX % 4 + 1) % 4);
    assert_eq!(probe_index(7, 0, 1), 0);
}

#[test]
fn probes_of_one_search_visit_every_region_once() {
    for start in [0usize, 1, 5, 4095, usize::MAX] {
        let mut seen = [false; 7];
        for step in 0..7 {
            let index = probe_index(start, step, 7);
            assert!(!seen[index]);
            seen[index] = true;
        }
    }
}

#[test]
fn empty_allocator_has_nothing_to_give() {
    let allocator = Box::new(FrameAllocator::empty());
    assert_eq!(allocator.region_count(), 0);
    assert_eq!(allocator.allocate(1), None);
    assert_eq!(allocator.allocate(0), None);
    assert_eq!(allocator.find_region(PhysicalAddress::new(0x1000)), None);
}

#[test]
fn fill_makes_a_region_of_every_usable_entry() {
    let allocator = three_regions();
    assert_eq!(allocator.region_count(), 3);
    assert_eq!(allocator.region(0).start(), PhysicalAddress::new(0x10_0000));
    assert_eq!(allocator.region(0).frame_count(), 2 * W);
    assert_eq!(allocator.region(1).start(), PhysicalAddress::new(0x100_0000));
    assert_eq!(allocator.region(1).frame_count(), W + 6);
    assert_eq!(allocator.region(2).start(), PhysicalAddress::new(0x200_0000));
    assert_eq!(allocator.region(2).frame_count(), 8);
    assert_eq!(allocator.region(2).end(), PhysicalAddress::new(0x200_0000 + 8 * FRAME_SIZE));
}

#[test]
fn fill_reserves_the_bitmap_frame_of_every_region() {
    let allocator = three_regions();
    for index in 0..3 {
        let region = allocator.region(index);
        let first: usize = region.allocate(1).unwrap().into();
        let base: usize = region.start().into();
        assert_eq!(first, base + FRAME_SIZE);
    }
}

#[test]
fn fill_drops_the_regions_it_has_no_room_for() {
    let mut entries = Vec::new();
    for index in 0..MAX_MEMORY_REGION_COUNT + 5 {
        entries.push(entry(0x10_0000 + index * 4 * FRAME_SIZE, 2, MemoryMapEntryKind::Usable));
    }
    let map = map_of(entries);
    let mut allocator = Box::new(FrameAllocator::empty());
    allocator.fill(map, token());
    assert_eq!(allocator.region_count(), MAX_MEMORY_REGION_COUNT);
    let last = allocator.region(MAX_MEMORY_REGION_COUNT - 1);
    assert_eq!(
        last.start(),
        PhysicalAddress::new(0x10_0000 + (MAX_MEMORY_REGION_COUNT - 1) * 4 * FRAME_SIZE)
    );
    let dropped = PhysicalAddress::new(0x10_0000 + MAX_MEMORY_REGION_COUNT * 4 * FRAME_SIZE);
    assert_eq!(allocator.find_region(dropped), None);
}

#[test]
fn allocate_starts_at_another_region_every_time() {
    let allocator = three_regions();
    let first: usize = allocator.allocate(1).unwrap().into();
    let second: usize = allocator.allocate(1).unwrap().into();
    let third: usize = allocator.allocate(1).unwrap().into();
    let fourth: usize = allocator.allocate(1).unwrap().into();
    assert_eq!(first, 0x10_0000 + FRAME_SIZE);
    assert_eq!(second, 0x100_0000 + FRAME_SIZE);
    assert_eq!(third, 0x200_0000 + FRAME_SIZE);
    assert_eq!(fourth, 0x10_0000 + 2 * FRAME_SIZE);
}

#[test]
fn allocate_moves_on_when_a_region_refuses() {
    let allocator = three_regions();
    // only the first region has a chunk without a reserved frame
    assert_eq!(allocator.allocate(W), Some(PhysicalAddress::new(0x10_0000 + W * FRAME_SIZE)));
    assert_eq!(allocator.allocate(W), None);
    assert_eq!(allocator.allocate(W), None);
    // the third search starts at the smallest region, which is down to its last frames
    let third = allocator.region(2);
    while third.allocate(1).is_some() {}
    assert_eq!(third.frames_available(), 3);
    let next: usize = allocator.allocate(2).unwrap().into();
    assert!(next < 0x200_0000);
}

#[test]
fn allocate_never_hands_out_an_address_twice() {
    let allocator = three_regions();
    let mut handed_out = Vec::new();
    while let Some(address) = allocator.allocate(1) {
        let address: usize = address.into();
        assert!(!handed_out.contains(&address));
        assert!(allocator.find_region(PhysicalAddress::new(address)).is_some());
        handed_out.push(address);
    }
    // every region keeps three frames of what its counter sees
    assert_eq!(handed_out.len(), (2 * W - 3) + (W + 6 - 3) + (8 - 3));
    // after a release the same address can come again
    let released = handed_out[17];
    assert!(allocator.free(PhysicalAddress::new(released), 1));
    let mut again = Vec::new();
    while let Some(address) = allocator.allocate(1) {
        again.push(usize::from(address));
    }
    assert_eq!(again, vec![released]);
}

#[test]
fn allocator_refuses_runs_longer_than_a_word() {
    let allocator = three_regions();
    assert_eq!(allocator.allocate(W + 1), None);
    assert_eq!(allocator.allocate(usize::MAX), None);
}

#[test]
fn find_region_tells_the_owner_of_an_address() {
    let allocator = three_regions();
    assert_eq!(allocator.find_region(PhysicalAddress::new(0x10_0000)), Some(0));
    assert_eq!(allocator.find_region(PhysicalAddress::new(0x10_0000 + 2 * W * FRAME_SIZE - 1)), Some(0));
    assert_eq!(allocator.find_region(PhysicalAddress::new(0x100_0000 + 5)), Some(1));
    assert_eq!(allocator.find_region(PhysicalAddress::new(0x200_0000 + 7 * FRAME_SIZE)), Some(2));
}

#[test]
fn find_region_finds_no_owner_outside_every_region() {
    let allocator = three_regions();
    assert_eq!(allocator.find_region(PhysicalAddress::new(0)), None);
    assert_eq!(allocator.find_region(PhysicalAddress::new(0x10_0000 - 1)), None);
    assert_eq!(allocator.find_region(PhysicalAddress::new(0x10_0000 + 2 * W * FRAME_SIZE)), None);
    assert_eq!(allocator.find_region(PhysicalAddress::new(0x80_0000)), None);
    assert_eq!(allocator.find_region(PhysicalAddress::new(0x100_0000 + (W + 6) * FRAME_SIZE)), None);
    assert_eq!(allocator.find_region(PhysicalAddress::new(0x200_0000 + 8 * FRAME_SIZE)), None);
    assert_eq!(allocator.find_region(PhysicalAddress::new(usize::MAX)), None);
}

#[test]
fn free_goes_to_the_region_that_owns_the_address() {
    let allocator = three_regions();
    let in_second = allocator.region(1).allocate(4).unwrap();
    assert_eq!(allocator.region(1).frames_available(), W + 6 - 4);
    assert!(allocator.free(in_second, 4));
    assert_eq!(allocator.region(1).frames_available(), W + 6);
    assert_eq!(allocator.region(0).frames_available(), 2 * W);
    assert_eq!(allocator.region(1).allocate(4), Some(in_second));
}

#[test]
fn allocator_free_reports_a_double_free() {
    let allocator = three_regions();
    let address = allocator.allocate(2).unwrap();
    assert!(allocator.free(address, 2));
    assert!(!allocator.free(address, 2));
}

#[test]
fn initialize_sets_the_allocator_up_once() {
    let gate: &'static InitOnce<FrameAllocator> = Box::leak(Box::new(InitOnce::new()));
    let map = map_of(vec![entry(0x10_0000, 2 * W, MemoryMapEntryKind::Usable)]);
    assert!(gate.get().is_none());
    assert!(!gate.is_completed());
    let first = initialize(gate.is_completed(), gate, map, token());
    // from now on the caller reads `true` and must not initialize again
    assert!(gate.is_completed());
    let allocator = global_allocator(gate, first).unwrap();
    assert_eq!(allocator.region_count(), 1);
    assert_eq!(allocator.allocate(1), Some(PhysicalAddress::new(0x10_0000 + FRAME_SIZE)));
    let allocator = global_allocator(gate, first).unwrap();
    assert_eq!(allocator.allocate(1), Some(PhysicalAddress::new(0x10_0000 + 2 * FRAME_SIZE)));
}

#[test]
fn cores_that_race_to_initialize_share_one_allocator() {
    let gate: &'static InitOnce<FrameAllocator> = Box::leak(Box::new(InitOnce::new()));
    let map = map_of(vec![entry(0x10_0000, 8, MemoryMapEntryKind::Usable)]);
    let other = map_of(vec![entry(0x900_0000, 8, MemoryMapEntryKind::Usable)]);
    // both cores look before either of them sets the allocator up
    let seen_by_first = gate.is_completed();
    let seen_by_second = gate.is_completed();
    let first = initialize(seen_by_first, gate, map, token());
    let second = initialize(seen_by_second, gate, other, token());
    let allocator = global_allocator(gate, first).unwrap();
    assert_eq!(allocator.region_count(), 1);
    assert_eq!(allocator.region(0).start(), PhysicalAddress::new(0x10_0000));
    let same = global_allocator(gate, second).unwrap();
    assert_eq!(same.region(0).start(), PhysicalAddress::new(0x10_0000));
}

#[test]
fn a_token_opens_no_other_gate() {
    let ready: &'static InitOnce<FrameAllocator> = Box::leak(Box::new(InitOnce::new()));
    let idle: &'static InitOnce<FrameAllocator> = Box::leak(Box::new(InitOnce::new()));
    let map = map_of(vec![entry(0x10_0000, 8, MemoryMapEntryKind::Usable)]);
    let token = initialize(ready.is_completed(), ready, map, token());
    assert!(global_allocator(ready, token).is_some());
    assert!(global_allocator(idle, token).is_none());
}

fn leaked(layout: RegionLayout) -> &'static [FrameBitmapChunk] {
    Box::leak(MemoryRegion::initial_chunks(layout).into_boxed_slice())
}

#[test]
fn fill_with_asks_for_storage_once_for_every_region() {
    let map = map_of(vec![
        entry(0x10_0000, 2 * W, MemoryMapEntryKind::Usable),
        entry(0x80_0000, 32, MemoryMapEntryKind::Kernel),
        entry(0x100_0000, W + 6, MemoryMapEntryKind::Usable),
    ]);
    let asked = Cell::new(0usize);
    let chunks = Cell::new(0usize);
    let mut allocator = Box::new(FrameAllocator::empty());
    allocator.fill_with(map, token(), |_base, layout| {
        asked.set(asked.get() + 1);
        chunks.set(chunks.get() + layout.chunks());
        leaked(layout)
    });
    assert_eq!(asked.get(), 2);
    assert_eq!(chunks.get(), 2 + 2);
    assert_eq!(allocator.region_count(), 2);
    assert_eq!(allocator.region(1).allocate(1), Some(PhysicalAddress::new(0x100_0000 + FRAME_SIZE)));
}

#[test]
fn fill_with_asks_for_no_storage_beyond_its_room() {
    let mut entries = Vec::new();
    for index in 0..MAX_MEMORY_REGION_COUNT + 3 {
        entries.push(entry(0x10_0000 + index * 4 * FRAME_SIZE, 2, MemoryMapEntryKind::Usable));
    }
    let map = map_of(entries);
    let asked = Cell::new(0usize);
    let mut allocator = Box::new(FrameAllocator::empty());
    allocator.fill_with(map, token(), |_base, layout| {
        asked.set(asked.get() + 1);
        leaked(layout)
    });
    assert_eq!(asked.get(), MAX_MEMORY_REGION_COUNT);
    assert_eq!(allocator.region_count(), MAX_MEMORY_REGION_COUNT);
}

#[test]
fn entries_that_are_dropped_need_not_make_regions() {
    let mut entries = Vec::new();
    for index in 0..MAX_MEMORY_REGION_COUNT {
        entries.push(entry(0x10_0000 + index * 4 * FRAME_SIZE, 2, MemoryMapEntryKind::Usable));
    }
    // one frame only: no region can be made of it, but there is no room for it anyway
    entries.push(entry(0x10_0000 + MAX_MEMORY_REGION_COUNT * 4 * FRAME_SIZE, 1, MemoryMapEntryKind::Usable));
    let map = map_of(entries);
    assert!(FrameAllocator::check_can_take(map));
    let mut allocator = Box::new(FrameAllocator::empty());
    allocator.fill(map, token());
    assert_eq!(allocator.region_count(), MAX_MEMORY_REGION_COUNT);
}

#[test]
fn check_can_take_looks_at_the_usable_entries() {
    let good = map_of(vec![
        entry(0x1001, 1, MemoryMapEntryKind::Reserved),
        entry(0x10_0000, 2, MemoryMapEntryKind::Usable),
    ]);
    assert!(FrameAllocator::check_can_take(good));
    let short = map_of(vec![
        entry(0x10_0000, 2, MemoryMapEntryKind::Usable),
        entry(0x20_0000, 1, MemoryMapEntryKind::Usable),
    ]);
    assert!(!FrameAllocator::check_can_take(short));
    let unaligned = map_of(vec![MemoryMapEntry::new(
        PhysicalAddress::new(0x10_0008),
        2 * FRAME_SIZE,
        MemoryMapEntryKind::Usable,
    )]);
    assert!(!FrameAllocator::check_can_take(unaligned));
}

#[test]
fn initialize_with_puts_the_bitmaps_where_it_is_told() {
    let gate: &'static InitOnce<FrameAllocator> = Box::leak(Box::new(InitOnce::new()));
    let map = map_of(vec![entry(0x10_0000, 2 * W, MemoryMapEntryKind::Usable)]);
    let kept: &'static Cell<Option<&'static [FrameBitmapChunk]>> = Box::leak(Box::new(Cell::new(None)));
    let token = initialize_with(gate.is_completed(), gate, map, token(), move |_base, layout| {
        let storage = leaked(layout);
        kept.set(Some(storage));
        storage
    });
    let allocator = global_allocator(gate, token).unwrap();
    let storage = kept.get().unwrap();
    assert_eq!(storage.len(), 2);
    assert_eq!(storage[0].snapshot(), 0b1);
    assert_eq!(allocator.allocate(2), Some(PhysicalAddress::new(0x10_0000 + FRAME_SIZE)));
    // the allocation shows in the storage that the caller handed out
    assert_eq!(storage[0].snapshot(), 0b111);
}
