//! What the boot loader hands to the kernel.

use vstd::prelude::*;
use itertools::Itertools;
use crate::arch::devices::framebuffer::FramebufferList;
use crate::arch::{PhysicalAddress, VirtualAddress};
use crate::common::time::UnixEpochTime;

verus! {

/// The protocol by which the boot loader started the kernel.
#[derive(Clone, Copy, Debug, PartialEq, Eq, Structural)]
#[non_exhaustive]
pub enum BootloaderProtocol {
    Limine,
}

/// What the boot loader says of itself.
#[derive(Clone, Copy, Debug)]
pub struct BootloaderInfo {
    pub protocol: BootloaderProtocol,
    pub name: Option<&'static str>,
    pub version: Option<&'static str>,
}

/// What the boot loader hands over, but for the means to print.
#[derive(Clone, Copy, Debug)]
pub struct BootData {
    pub bootloader_info: BootloaderInfo,
    pub memory_map: MemoryMap,
    pub identity_map_base: PhysicalAddress,
    pub framebuffers: FramebufferList,
    /// Unix epoch time on boot
    pub boot_time: UnixEpochTime,
    /// Where the kernel lies in physical and in virtual memory.
    pub kernel_address: (PhysicalAddress, VirtualAddress),
}

/// What a range of physical memory is used for.
#[derive(Clone, Copy, Debug, PartialEq, Eq, Structural)]
#[non_exhaustive]
pub enum MemoryMapEntryKind {
    /// Free memory that the kernel may use.
    Usable,
    /// Memory that holds the kernel and its modules.
    Kernel,
    /// Memory that must be left alone.
    Reserved,
}

/// What the boot loader says a range of physical memory is used for.
#[derive(Clone, Copy, Debug, PartialEq, Eq, Structural)]
pub enum BootMemoryType {
    Usable,
    Reserved,
    AcpiReclaimable,
    AcpiNvs,
    BadMemory,
    BootloaderReclaimable,
    KernelAndModules,
    Framebuffer,
}

impl MemoryMapEntryKind {
    /// What the kernel takes a range of the given type for: only memory that
    /// the boot loader calls usable is used, the kernel and its modules are
    /// kept track of, and everything else is left alone.
    pub open spec fn of(reported: BootMemoryType) -> MemoryMapEntryKind {
        match reported {
            BootMemoryType::Usable => MemoryMapEntryKind::Usable,
            BootMemoryType::KernelAndModules => MemoryMapEntryKind::Kernel,
            _ => MemoryMapEntryKind::Reserved,
        }
    }

    /// Computes `of(reported)`.
    pub fn from_reported(reported: BootMemoryType) -> (kind: MemoryMapEntryKind)
        ensures
            kind == Self::of(reported),
    {
        match reported {
            BootMemoryType::AcpiNvs
            | BootMemoryType::AcpiReclaimable
            | BootMemoryType::BadMemory
            | BootMemoryType::BootloaderReclaimable
            | BootMemoryType::Framebuffer
            | BootMemoryType::Reserved => MemoryMapEntryKind::Reserved,
            BootMemoryType::KernelAndModules => MemoryMapEntryKind::Kernel,
            BootMemoryType::Usable => MemoryMapEntryKind::Usable,
        }
    }
}

/// One range of physical memory.
#[derive(Clone, Copy, Debug)]
pub struct MemoryMapEntry {
    /// Base physical address
    pub base: PhysicalAddress,
    /// Length in bytes
    pub len: usize,
    pub kind: MemoryMapEntryKind,
}

impl MemoryMapEntry {
    pub fn new(base: PhysicalAddress, len: usize, kind: MemoryMapEntryKind) -> (entry: Self)
        ensures
            entry.base == base,
            entry.len == len,
            entry.kind == kind,
    {
        MemoryMapEntry { base, len, kind }
    }

    /// Address of the first byte after the range.
    pub open spec fn end_address(self) -> int {
        self.base@ + self.len
    }

    /// Address of the first byte after the range.
    pub fn end(self) -> (address: PhysicalAddress)
        requires
            self.end_address() <= usize::MAX,
        ensures
            address@ == self.end_address(),
    {
        PhysicalAddress::new(self.base.0 + self.len)
    }

    /// The range is free memory.
    pub open spec fn usable(self) -> bool {
        self.kind == MemoryMapEntryKind::Usable
    }

    /// Whether the range is free memory.
    pub fn is_usable(&self) -> (usable: bool)
        ensures
            usable == self.usable(),
    {
        match self.kind {
            MemoryMapEntryKind::Usable => true,
            _ => false,
        }
    }

    /// Whether this range ends before or where `next` starts.
    pub fn ends_before(&self, next: &MemoryMapEntry) -> (apart: bool)
        ensures
            apart == (self.end_address() <= next.base@),
    {
        self.len <= next.base.0 && self.base.0 <= next.base.0 - self.len
    }
}

/// The entries are ordered by their base addresses.
pub open spec fn sorted_by_base(entries: Seq<MemoryMapEntry>) -> bool {
    forall|lower: int, upper: int|
        0 <= lower < upper < entries.len() ==> (#[trigger] entries[lower]).base@ <= (
        #[trigger] entries[upper]).base@
}

/// The usable entries among `entries`, in order.
pub open spec fn usable_entries(entries: Seq<MemoryMapEntry>) -> Seq<MemoryMapEntry> {
    entries.filter(|entry: MemoryMapEntry| entry.usable())
}

/// Each entry ends before or where the next one starts.
pub open spec fn each_ends_before_next(entries: Seq<MemoryMapEntry>) -> bool {
    forall|index: int, next: int|
        0 <= index && next == index + 1 && next < entries.len() ==> (
        #[trigger] entries[index]).end_address() <= (#[trigger] entries[next]).base@
}

/// What a memory map must fulfil: it is not empty, its entries are ordered by
/// base address, and no usable range reaches into the next usable range.
pub open spec fn valid_memory_map(entries: Seq<MemoryMapEntry>) -> bool {
    &&& entries.len() > 0
    &&& sorted_by_base(entries)
    &&& each_ends_before_next(usable_entries(entries))
}

/// `Itertools::tuple_windows` for pairs, collected: every entry but the last
/// paired with the entry that follows it, in order.
#[verifier::external_body]
fn adjacent_pairs(entries: &Vec<MemoryMapEntry>) -> (pairs: Vec<(MemoryMapEntry, MemoryMapEntry)>)
    ensures
        pairs@.len() == if entries@.len() == 0 {
            0
        } else {
            entries@.len() - 1
        },
        forall|index: int|
            0 <= index < pairs@.len() ==> #[trigger] pairs@[index] == (
                entries@[index],
                entries@[index + 1],
            ),
{
    entries.iter().copied().tuple_windows().collect()
}

/// The ranges of physical memory that the boot loader reports.
#[derive(Clone, Copy, Debug)]
pub struct MemoryMap {
    pub entries: &'static [MemoryMapEntry],
}

impl MemoryMap {
    /// The map fulfils `valid_memory_map`.
    pub open spec fn wf(&self) -> bool {
        valid_memory_map(self.entries@)
    }

    /// Wraps a list of entries that is not empty, is sorted by base address,
    /// and whose usable ranges do not overlap.
    pub fn new(entries: &'static [MemoryMapEntry]) -> (map: Self)
        requires
            valid_memory_map(entries@),
        ensures
            map.entries@ == entries@,
            map.wf(),
    {
        MemoryMap { entries }
    }

    /// Whether `entries` are ordered by their base addresses.
    pub fn is_sorted(entries: &[MemoryMapEntry]) -> (sorted: bool)
        ensures
            sorted == sorted_by_base(entries@),
    {
        if entries.len() == 0 {
            return true;
        }
        let mut index: usize = 1;
        while index < entries.len()
            invariant
                1 <= index <= entries@.len(),
                sorted_by_base(entries@.take(index as int)),
            decreases entries@.len() - index,
        {
            if entries[index - 1].base.0 > entries[index].base.0 {
                return false;
            }
            proof {
                let shorter = entries@.take(index as int);
                let longer = entries@.take(index + 1);
                assert forall|lower: int, upper: int| 0 <= lower < upper < longer.len() implies (
                #[trigger] longer[lower]).base@ <= (#[trigger] longer[upper]).base@ by {
                    if upper < index {
                        assert(shorter[lower].base@ <= shorter[upper].base@);
                    } else if lower < index - 1 {
                        assert(shorter[lower].base@ <= shorter[index - 1].base@);
                    }
                }
            }
            index = index + 1;
        }
        assert(entries@.take(index as int) =~= entries@);
        true
    }

    /// The usable entries among `entries`, in order.
    pub fn usable(entries: &[MemoryMapEntry]) -> (usable: Vec<MemoryMapEntry>)
        ensures
            usable@ == usable_entries(entries@),
    {
        let mut usable: Vec<MemoryMapEntry> = Vec::new();
        let mut index: usize = 0;
        assert(entries@.take(0) =~= Seq::<MemoryMapEntry>::empty());
        while index < entries.len()
            invariant
                index <= entries@.len(),
                usable@ == usable_entries(entries@.take(index as int)),
            decreases entries@.len() - index,
        {
            proof {
                lemma_usable_entries_step(entries@, index as int);
            }
            if entries[index].is_usable() {
                usable.push(entries[index]);
            }
            index = index + 1;
        }
        assert(entries@.take(index as int) =~= entries@);
        usable
    }

    /// Whether `entries` fulfil `valid_memory_map`.
    pub fn is_valid(entries: &[MemoryMapEntry]) -> (valid: bool)
        ensures
            valid == valid_memory_map(entries@),
    {
        if entries.len() == 0 {
            return false;
        }
        if !Self::is_sorted(entries) {
            return false;
        }
        let usable = Self::usable(entries);
        let pairs = adjacent_pairs(&usable);
        let mut index: usize = 0;
        while index < pairs.len()
            invariant
                index <= pairs@.len(),
                entries@.len() > 0,
                sorted_by_base(entries@),
                usable@ == usable_entries(entries@),
                pairs@.len() == if usable@.len() == 0 {
                    0
                } else {
                    usable@.len() - 1
                },
                forall|pair: int|
                    0 <= pair < pairs@.len() ==> #[trigger] pairs@[pair] == (
                        usable@[pair],
                        usable@[pair + 1],
                    ),
                forall|pair: int, next: int|
                    0 <= pair < index && next == pair + 1 ==> (
                    #[trigger] usable@[pair]).end_address() <= (#[trigger] usable@[next]).base@,
            decreases pairs@.len() - index,
        {
            let pair = &pairs[index];
            if !pair.0.ends_before(&pair.1) {
                assert(pairs@[index as int] == (usable@[index as int], usable@[index + 1]));
                assert(!(usable@[index as int].end_address() <= usable@[index + 1].base@));
                return false;
            }
            index = index + 1;
        }
        true
    }
}

/// The usable entries among the first `index + 1` entries are those among
/// the first `index`, followed by entry `index` if it is usable.
pub proof fn lemma_usable_entries_step(entries: Seq<MemoryMapEntry>, index: int)
    requires
        0 <= index < entries.len(),
    ensures
        usable_entries(entries.take(index + 1)) == if entries[index].usable() {
            usable_entries(entries.take(index)).push(entries[index])
        } else {
            usable_entries(entries.take(index))
        },
{
    let longer = entries.take(index + 1);
    assert(longer.drop_last() =~= entries.take(index));
    assert(longer.last() == entries[index]);
    reveal(Seq::filter);
}

/// The usable entries among the first `index` entries are the first of the
/// usable entries among all.
pub proof fn lemma_usable_entries_prefix(entries: Seq<MemoryMapEntry>, index: int)
    requires
        0 <= index <= entries.len(),
    ensures
        usable_entries(entries.take(index)).len() <= usable_entries(entries).len(),
        forall|position: int|
            0 <= position < usable_entries(entries.take(index)).len() ==> #[trigger] usable_entries(
                entries.take(index),
            )[position] == usable_entries(entries)[position],
    decreases entries.len() - index,
{
    if index == entries.len() {
        assert(entries.take(index) =~= entries);
    } else {
        lemma_usable_entries_step(entries, index);
        lemma_usable_entries_prefix(entries, index + 1);
        let shorter = usable_entries(entries.take(index));
        let longer = usable_entries(entries.take(index + 1));
        assert forall|position: int| 0 <= position < shorter.len() implies #[trigger] shorter[position]
            == usable_entries(entries)[position] by {
            assert(shorter[position] == longer[position]);
        }
    }
}

/// Where each entry ends before or where the next one starts, every entry ends
/// before or where every later one starts.
pub proof fn lemma_apart_is_pairwise(entries: Seq<MemoryMapEntry>, lower: int, upper: int)
    requires
        each_ends_before_next(entries),
        0 <= lower < upper < entries.len(),
    ensures
        entries[lower].end_address() <= entries[upper].base@,
    decreases upper - lower,
{
    if lower + 1 < upper {
        lemma_apart_is_pairwise(entries, lower, upper - 1);
        assert(entries[upper - 1].end_address() <= entries[upper].base@);
    } else {
        assert(entries[lower].end_address() <= entries[upper].base@);
    }
}

} // verus!
