//! The entries of the page tables.

use vstd::prelude::*;
use crate::arch::PhysicalAddress;

verus! {

/// Size of a page in bytes.
pub const PAGE_SIZE: usize = 4096;

/// Entries of one table.
pub const TABLE_ENTRIES: usize = 512;

/// The bits of an entry that hold the address of the frame: bits 12 to 51.
pub const ADDRESS_MASK: u64 = 0x000F_FFFF_FFFF_F000;

/// Whether bit `bit` of `entry` is set.
pub open spec fn flag(entry: u64, bit: u64) -> bool {
    entry & (1u64 << bit) != 0
}

/// `entry` with bit `bit` set or cleared and every other bit as it was.
pub open spec fn with_flag(entry: u64, bit: u64, value: bool) -> u64 {
    if value {
        entry | (1u64 << bit)
    } else {
        entry & !(1u64 << bit)
    }
}

/// Setting a flag makes it read as set to, and leaves the other flags and
/// the address as they were.
pub proof fn lemma_with_flag(entry: u64, bit: u64, value: bool, other: u64)
    requires
        bit < 64,
        other < 64,
    ensures
        flag(with_flag(entry, bit, value), bit) == value,
        other != bit ==> flag(with_flag(entry, bit, value), other) == flag(entry, other),
        !(12 <= bit < 52) ==> with_flag(entry, bit, value) & ADDRESS_MASK == entry & ADDRESS_MASK,
{
    assert(flag(with_flag(entry, bit, value), bit) == value && (other != bit ==> flag(
        with_flag(entry, bit, value),
        other,
    ) == flag(entry, other)) && (!(12 <= bit < 52) ==> with_flag(entry, bit, value)
        & 0x000F_FFFF_FFFF_F000 == entry & 0x000F_FFFF_FFFF_F000)) by (bit_vector)
        requires
            bit < 64,
            other < 64,
    ;
}

// Page table entry layout (x86_64):
// 0        present
// 1        writable
// 2        userspace accessible
// 3        write-through (no write caching)
// 4        disable cache
// 5        accessed
// 6        dirty (written)
// 7        PAT / reserved (0)
// 8        global, CR4 PGE bit must be set
// 9:11     ignored
// 12:51    physical address
// 52:62    reserved (0)
// 63       no execute / reserved (0)
/// An entry of a page table: the frame that a page is mapped to, and how.
#[derive(Clone, Copy, PartialEq, Eq, Structural)]
pub struct PageTableEntry(pub u64);

impl View for PageTableEntry {
    type V = u64;

    /// The entry as the 64 bits that the processor reads.
    open spec fn view(&self) -> u64 {
        self.0
    }
}

impl PageTableEntry {
    pub const PRESENT: u64 = 0;

    pub const WRITABLE: u64 = 1;

    pub const USER: u64 = 2;

    pub const WRITETHROUGH: u64 = 3;

    pub const DISABLE_CACHE: u64 = 4;

    pub const ACCESSED: u64 = 5;

    pub const DIRTY: u64 = 6;

    pub const PAT: u64 = 7;

    pub const GLOBAL: u64 = 8;

    pub const NO_EXECUTE: u64 = 63;

    /// Whether flag `bit` is set.
    pub fn get_flag(&self, bit: u64) -> (set: bool)
        requires
            bit < 64,
        ensures
            set == flag(self@, bit),
    {
        (self.0 & (1u64 << bit)) != 0
    }

    /// Sets or clears flag `bit` and leaves every other bit as it is.
    pub fn set_flag(&mut self, bit: u64, value: bool)
        requires
            bit < 64,
        ensures
            final(self)@ == with_flag(old(self)@, bit, value),
    {
        let mask = 1u64 << bit;
        if value {
            self.0 = self.0 | mask;
        } else {
            self.0 = self.0 & !mask;
        }
    }

    pub fn present(&self) -> (set: bool)
        ensures
            set == flag(self@, Self::PRESENT),
    {
        self.get_flag(Self::PRESENT)
    }

    pub fn set_present(&mut self, value: bool)
        ensures
            final(self)@ == with_flag(old(self)@, Self::PRESENT, value),
    {
        self.set_flag(Self::PRESENT, value)
    }

    pub fn writable(&self) -> (set: bool)
        ensures
            set == flag(self@, Self::WRITABLE),
    {
        self.get_flag(Self::WRITABLE)
    }

    pub fn set_writable(&mut self, value: bool)
        ensures
            final(self)@ == with_flag(old(self)@, Self::WRITABLE, value),
    {
        self.set_flag(Self::WRITABLE, value)
    }

    pub fn user(&self) -> (set: bool)
        ensures
            set == flag(self@, Self::USER),
    {
        self.get_flag(Self::USER)
    }

    pub fn set_user(&mut self, value: bool)
        ensures
            final(self)@ == with_flag(old(self)@, Self::USER, value),
    {
        self.set_flag(Self::USER, value)
    }

    pub fn no_execute(&self) -> (set: bool)
        ensures
            set == flag(self@, Self::NO_EXECUTE),
    {
        self.get_flag(Self::NO_EXECUTE)
    }

    pub fn set_no_execute(&mut self, value: bool)
        ensures
            final(self)@ == with_flag(old(self)@, Self::NO_EXECUTE, value),
    {
        self.set_flag(Self::NO_EXECUTE, value)
    }

    /// The address of the frame that the entry maps to.
    pub fn address(&self) -> (address: PhysicalAddress)
        ensures
            address@ == (self@ & ADDRESS_MASK) as usize,
    {
        PhysicalAddress::new(#[verifier::truncate] ((self.0 & ADDRESS_MASK) as usize))
    }

    /// Makes the entry map to the frame at `value`. The bits of `value`
    /// that an entry has no room for are dropped, and the flags stay as they
    /// are.
    pub fn set_address(&mut self, value: PhysicalAddress)
        ensures
            final(self)@ == (old(self)@ & !ADDRESS_MASK) | (value@ as u64 & ADDRESS_MASK),
            final(self)@ & ADDRESS_MASK == value@ as u64 & ADDRESS_MASK,
            final(self)@ & !ADDRESS_MASK == old(self)@ & !ADDRESS_MASK,
    {
        let whole: u64 = value.0 as u64;
        let entry = self.0;
        self.0 = (self.0 & !ADDRESS_MASK) | (whole & ADDRESS_MASK);
        let after = self.0;
        assert(after & 0x000F_FFFF_FFFF_F000 == whole & 0x000F_FFFF_FFFF_F000 && after
            & !0x000F_FFFF_FFFF_F000u64 == entry & !0x000F_FFFF_FFFF_F000u64) by (bit_vector)
            requires
                after == (entry & !0x000F_FFFF_FFFF_F000u64) | (whole & 0x000F_FFFF_FFFF_F000),
        ;
    }
}

/// A table of one level of the page map.
pub trait PageMapLevel {
}

/// Page Map Level 4 Table
pub struct Level4PageTable {
    pub entries: [PageTableEntry; 512],
}

/// Page Directory Pointer Table
pub struct Level3PageTable {
    pub entries: [PageTableEntry; 512],
}

/// Page Directory Table
pub struct Level2PageTable {
    pub entries: [PageTableEntry; 512],
}

/// Page Table
pub struct PageTable {
    pub entries: [PageTableEntry; 512],
}

impl PageMapLevel for PageTable {
}

impl PageMapLevel for Level2PageTable {
}

impl PageMapLevel for Level3PageTable {
}

impl PageMapLevel for Level4PageTable {
}

} // verus!
