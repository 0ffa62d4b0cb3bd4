//! Items specific to x86_64.

pub mod interrupts;
pub mod intrinsics;
pub mod paging;

use vstd::prelude::*;
use vstd::std_specs::convert::FromSpecImpl;

verus! {

/// Index of a segment descriptor in a descriptor table: 13 bits.
#[derive(Clone, Copy, Debug, PartialEq, Eq, Structural)]
pub struct SegmentIndex(u16);

impl SegmentIndex {
    /// Every index is lower than 8192.
    #[verifier::type_invariant]
    pub closed spec fn wf(self) -> bool {
        self.0 < 8192
    }

    /// The index as a number.
    pub closed spec fn value(self) -> u16 {
        self.0
    }

    /// `value` must be lower than 8192
    pub fn new(value: u16) -> (index: Self)
        requires
            value < 8192,
        ensures
            index.value() == value,
    {
        Self(value)
    }

    /// The index as a number.
    pub fn get(self) -> (value: u16)
        ensures
            value == self.value(),
            value < 8192,
    {
        proof {
            use_type_invariant(self);
        }
        self.0
    }
}

/// The descriptor table that a selector refers to.
#[derive(Clone, Copy, Debug, PartialEq, Eq, Structural)]
pub enum TableIndicator {
    Gdt,
    Ldt,
}

impl TableIndicator {
    /// The bit that stands for the table in a selector.
    pub open spec fn bit(self) -> u16 {
        match self {
            TableIndicator::Gdt => 0,
            TableIndicator::Ldt => 1,
        }
    }
}

/// A privilege level (ring): 2 bits.
#[derive(Clone, Copy, Debug, PartialEq, Eq, Structural)]
pub struct PrivilegeLevel(u8);

impl PrivilegeLevel {
    /// Every level is lower than 4.
    #[verifier::type_invariant]
    pub closed spec fn wf(self) -> bool {
        self.0 < 4
    }

    /// The level as a number.
    pub closed spec fn value(self) -> u8 {
        self.0
    }

    /// `value` must be smaller than 4
    pub fn new(value: u8) -> (level: Self)
        requires
            value < 4,
        ensures
            level.value() == value,
    {
        PrivilegeLevel(value)
    }

    /// The level of the kernel: ring 0.
    pub fn kernel() -> (level: Self)
        ensures
            level.value() == 0,
    {
        PrivilegeLevel(0)
    }

    /// The level of user programs: ring 3.
    pub fn userspace() -> (level: Self)
        ensures
            level.value() == 3,
    {
        PrivilegeLevel(3)
    }

    /// The level as a number.
    pub fn get(self) -> (value: u8)
        ensures
            value == self.value(),
            value < 4,
    {
        proof {
            use_type_invariant(self);
        }
        self.0
    }
}

impl From<PrivilegeLevel> for u8 {
    fn from(val: PrivilegeLevel) -> (value: u8) {
        val.0
    }
}

impl FromSpecImpl<PrivilegeLevel> for u8 {
    open spec fn obeys_from_spec() -> bool {
        true
    }

    open spec fn from_spec(val: PrivilegeLevel) -> u8 {
        val.value()
    }
}

/// Segment selector
///
/// # Fields
/// [0, 1]  - RPL (requested privilage level)
/// [2, 2]  - Table indicator
/// [3, 15] - Segment index
#[derive(Clone, Copy, Debug, Default, PartialEq, Eq, Structural)]
pub struct SegmentSelector(u16);

/// The segment index field of the selector `bits`.
pub open spec fn selector_index(bits: u16) -> u16 {
    bits >> 3
}

/// The table indicator bit of the selector `bits`.
pub open spec fn selector_table_bit(bits: u16) -> u16 {
    (bits >> 2) & 1
}

/// The requested privilege level field of the selector `bits`.
pub open spec fn selector_rpl(bits: u16) -> u16 {
    bits & 3
}

/// The three fields of a selector determine it.
pub proof fn lemma_selector_fields(bits: u16)
    ensures
        bits == (selector_index(bits) << 3) | (selector_table_bit(bits) << 2) | selector_rpl(bits),
        selector_index(bits) < 8192,
        selector_table_bit(bits) < 2,
        selector_rpl(bits) < 4,
{
    assert(bits == (selector_index(bits) << 3) | (selector_table_bit(bits) << 2) | selector_rpl(
        bits,
    ) && selector_index(bits) < 8192 && selector_table_bit(bits) < 2 && selector_rpl(bits) < 4)
        by (bit_vector);
}

impl View for SegmentSelector {
    type V = u16;

    /// The selector as the 16 bits that the processor reads.
    closed spec fn view(&self) -> u16 {
        self.0
    }
}

impl SegmentSelector {
    pub fn new(index: SegmentIndex, ti: TableIndicator, rpl: PrivilegeLevel) -> (selector: Self)
        ensures
            selector_index(selector@) == index.value(),
            selector_table_bit(selector@) == ti.bit(),
            selector_rpl(selector@) == rpl.value(),
    {
        let mut selector = Self(0);
        selector.set_index(index);
        selector.set_table_indicator(ti);
        selector.set_rpl(rpl);
        selector
    }

    /// The selector whose fields are all zero.
    pub fn null() -> (selector: Self)
        ensures
            selector@ == 0,
    {
        SegmentSelector(0)
    }

    /// The selector as the 16 bits that the processor reads.
    pub fn bits(self) -> (bits: u16)
        ensures
            bits == self@,
    {
        self.0
    }

    pub fn index(self) -> (index: u16)
        ensures
            index == selector_index(self@),
            index < 8192,
    {
        let bits = self.0;
        assert(bits >> 3 < 8192) by (bit_vector);
        self.0 >> 3
    }

    pub fn set_index(&mut self, index: SegmentIndex)
        ensures
            selector_index(final(self)@) == index.value(),
            selector_table_bit(final(self)@) == selector_table_bit(old(self)@),
            selector_rpl(final(self)@) == selector_rpl(old(self)@),
    {
        let value = index.get();
        let bits = self.0;
        assert(selector_index(((bits & 7) | (value << 3))) == value && selector_table_bit(
            ((bits & 7) | (value << 3)),
        ) == selector_table_bit(bits) && selector_rpl(((bits & 7) | (value << 3))) == selector_rpl(
            bits,
        )) by (bit_vector)
            requires
                value < 8192,
        ;
        self.0 = (self.0 & 7) | (value << 3);
    }

    pub fn rpl(self) -> (rpl: PrivilegeLevel)
        ensures
            rpl.value() == selector_rpl(self@),
    {
        let bits = self.0;
        assert(bits & 3 < 4) by (bit_vector);
        PrivilegeLevel((self.0 & 3) as u8)
    }

    pub fn set_rpl(&mut self, rpl: PrivilegeLevel)
        ensures
            selector_rpl(final(self)@) == rpl.value(),
            selector_index(final(self)@) == selector_index(old(self)@),
            selector_table_bit(final(self)@) == selector_table_bit(old(self)@),
    {
        let value = rpl.get() as u16;
        let bits = self.0;
        assert(selector_rpl((bits & !3u16) | value) == value && selector_index(
            (bits & !3u16) | value,
        ) == selector_index(bits) && selector_table_bit((bits & !3u16) | value)
            == selector_table_bit(bits)) by (bit_vector)
            requires
                value < 4,
        ;
        self.0 = (self.0 & !3u16) | value;
    }

    pub fn table_indicator(self) -> (ti: TableIndicator)
        ensures
            ti.bit() == selector_table_bit(self@),
    {
        let bits = self.0;
        assert((bits >> 2) & 1 == 0 || (bits >> 2) & 1 == 1) by (bit_vector);
        if (self.0 >> 2) & 1 == 0 {
            TableIndicator::Gdt
        } else {
            TableIndicator::Ldt
        }
    }

    pub fn set_table_indicator(&mut self, value: TableIndicator)
        ensures
            selector_table_bit(final(self)@) == value.bit(),
            selector_index(final(self)@) == selector_index(old(self)@),
            selector_rpl(final(self)@) == selector_rpl(old(self)@),
    {
        let bit: u16 = match value {
            TableIndicator::Gdt => 0,
            TableIndicator::Ldt => 1,
        };
        let bits = self.0;
        assert(selector_table_bit((bits & !4u16) | (bit << 2)) == bit && selector_index(
            (bits & !4u16) | (bit << 2),
        ) == selector_index(bits) && selector_rpl((bits & !4u16) | (bit << 2)) == selector_rpl(
            bits,
        )) by (bit_vector)
            requires
                bit < 2,
        ;
        self.0 = (self.0 & !4u16) | (bit << 2);
    }
}

} // verus!
