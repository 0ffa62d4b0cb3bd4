use kernel::arch::boot::{BootMemoryType, MemoryMap, MemoryMapEntry, MemoryMapEntryKind};
use kernel::arch::PhysicalAddress;

fn entry(base: usize, len: usize, kind: MemoryMapEntryKind) -> MemoryMapEntry {
    MemoryMapEntry::new(PhysicalAddress::new(base), len, kind)
}

use MemoryMapEntryKind::{Kernel, Reserved, Usable};

#[test]
fn entry_ends_after_its_last_byte() {
    let range = entry(0x1000, 0x2000, Usable);
    assert_eq!(range.base, PhysicalAddress::new(0x1000));
    assert_eq!(range.len, 0x2000);
    assert_eq!(range.kind, Usable);
    assert_eq!(range.end(), PhysicalAddress::new(0x3000));
    assert!(range.is_usable());
    assert!(!entry(0, 1, Kernel).is_usable());
    assert!(!entry(0, 1, Reserved).is_usable());
}

#[test]
fn ends_before_compares_end_and_base() {
    let first = entry(0x1000, 0x1000, Usable);
    assert!(first.ends_before(&entry(0x2000, 1, Usable)));
    assert!(first.ends_before(&entry(0x3000, 1, Usable)));
    assert!(!first.ends_before(&entry(0x1fff, 1, Usable)));
    assert!(!first.ends_before(&entry(0, 1, Usable)));
    assert!(!entry(usize::MAX, 1, Usable).ends_before(&entry(usize::MAX, 1, Usable)));
}

#[test]
fn empty_map_is_not_valid() {
    assert!(!MemoryMap::is_valid(&[]));
}

#[test]
fn map_must_be_sorted_by_base() {
    assert!(MemoryMap::is_sorted(&[]));
    assert!(MemoryMap::is_sorted(&[entry(5, 1, Kernel)]));
    assert!(MemoryMap::is_sorted(&[entry(5, 1, Kernel), entry(5, 1, Reserved), entry(9, 1, Usable)]));
    assert!(!MemoryMap::is_sorted(&[entry(5, 1, Kernel), entry(4, 1, Reserved)]));
    assert!(!MemoryMap::is_valid(&[entry(0x3000, 0x1000, Reserved), entry(0x1000, 0x1000, Usable)]));
}

#[test]
fn usable_keeps_the_usable_entries_in_order() {
    let entries = [
        entry(0x1000, 0x1000, Usable),
        entry(0x2000, 0x1000, Kernel),
        entry(0x3000, 0x1000, Usable),
        entry(0x4000, 0x1000, Reserved),
        entry(0x5000, 0x1000, Usable),
    ];
    let usable = MemoryMap::usable(&entries);
    let bases: Vec<usize> = usable.iter().map(|range| usize::from(range.base)).collect();
    assert_eq!(bases, vec![0x1000, 0x3000, 0x5000]);
    assert!(MemoryMap::usable(&[entry(0, 1, Kernel)]).is_empty());
}

#[test]
fn usable_ranges_must_not_overlap() {
    let apart = [
        entry(0x1000, 0x1000, Usable),
        entry(0x2000, 0x1000, Usable),
        entry(0x8000, 0x1000, Usable),
    ];
    assert!(MemoryMap::is_valid(&apart));
    let overlapping = [
        entry(0x1000, 0x1000, Usable),
        entry(0x2000, 0x7000, Usable),
        entry(0x8000, 0x1000, Usable),
    ];
    assert!(!MemoryMap::is_valid(&overlapping));
    let first_pair = [
        entry(0x1000, 0x1001, Usable),
        entry(0x2000, 0x1000, Usable),
        entry(0x8000, 0x1000, Usable),
    ];
    assert!(!MemoryMap::is_valid(&first_pair));
}

#[test]
fn only_usable_ranges_are_held_apart() {
    let entries = [
        entry(0x1000, 0x9000, Reserved),
        entry(0x2000, 0x1000, Usable),
        entry(0x2800, 0x1000, Kernel),
        entry(0x3000, 0x1000, Usable),
    ];
    assert!(MemoryMap::is_valid(&entries));
    let through_a_gap = [
        entry(0x1000, 0x3000, Usable),
        entry(0x2000, 0x1000, Kernel),
        entry(0x3000, 0x1000, Usable),
    ];
    assert!(!MemoryMap::is_valid(&through_a_gap));
}

#[test]
fn map_without_usable_ranges_is_valid() {
    assert!(MemoryMap::is_valid(&[entry(0x1000, 0x1000, Kernel)]));
    assert!(MemoryMap::is_valid(&[entry(0x1000, 0x1000, Usable)]));
}

#[test]
fn new_wraps_the_entries() {
    let entries: &'static [MemoryMapEntry] =
        Box::leak(vec![entry(0x1000, 0x1000, Usable), entry(0x2000, 0x1000, Kernel)].into_boxed_slice());
    assert!(MemoryMap::is_valid(entries));
    let map = MemoryMap::new(entries);
    assert_eq!(map.entries.len(), 2);
    assert_eq!(map.entries[1].base, PhysicalAddress::new(0x2000));
}

#[test]
fn reported_memory_types_map_to_three_kinds() {
    assert_eq!(MemoryMapEntryKind::from_reported(BootMemoryType::Usable), Usable);
    assert_eq!(MemoryMapEntryKind::from_reported(BootMemoryType::KernelAndModules), Kernel);
    for reported in [
        BootMemoryType::Reserved,
        BootMemoryType::AcpiReclaimable,
        BootMemoryType::AcpiNvs,
        BootMemoryType::BadMemory,
        BootMemoryType::BootloaderReclaimable,
        BootMemoryType::Framebuffer,
    ] {
        assert_eq!(MemoryMapEntryKind::from_reported(reported), Reserved);
    }
}
