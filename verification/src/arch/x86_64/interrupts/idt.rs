//! The interrupt descriptor table.

use vstd::prelude::*;
use vstd::std_specs::convert::FromSpecImpl;
use crate::arch::x86_64::{PrivilegeLevel, SegmentSelector};

verus! {

/// A 3 bit offset into the Interrupt Stack Table, unused if 0
#[derive(Clone, Copy, Debug, PartialEq, Eq, Structural)]
pub struct IstIndex(u8);

impl IstIndex {
    /// Every index is lower than 8.
    #[verifier::type_invariant]
    pub closed spec fn wf(self) -> bool {
        self.0 < 8
    }

    /// The index as a number.
    pub closed spec fn value(self) -> u8 {
        self.0
    }

    /// Must be valid (3 bit)
    pub fn new(value: u8) -> (index: Self)
        requires
            value < 8,
        ensures
            index.value() == value,
    {
        IstIndex(value)
    }

    /// No stack of the Interrupt Stack Table.
    pub fn unused() -> (index: Self)
        ensures
            index.value() == 0,
    {
        IstIndex(0)
    }

    /// The index as a number.
    pub fn get(self) -> (value: u8)
        ensures
            value == self.value(),
            value < 8,
    {
        proof {
            use_type_invariant(self);
        }
        self.0
    }
}

/// The kind of gate of an entry: 4 bits.
#[derive(Clone, Copy, Debug, PartialEq, Eq, Structural)]
pub struct GateType(u8);

impl GateType {
    /// Every gate type is lower than 16.
    #[verifier::type_invariant]
    pub closed spec fn wf(self) -> bool {
        self.0 < 16
    }

    /// The kind of gate as a number.
    pub closed spec fn value(self) -> u8 {
        self.0
    }

    /// The type of an entry that is not in use.
    pub fn invalid() -> (gate: Self)
        ensures
            gate.value() == 0,
    {
        GateType(0)
    }

    /// An interrupt gate: interrupts are disabled while the handler runs.
    pub fn interrupt() -> (gate: Self)
        ensures
            gate.value() == 0xE,
    {
        GateType(0xE)
    }

    /// A trap gate: interrupts stay enabled while the handler runs.
    pub fn trap() -> (gate: Self)
        ensures
            gate.value() == 0xF,
    {
        GateType(0xF)
    }

    /// Checks if this gate type is valid on x86_64
    pub fn is_valid(self) -> (valid: bool)
        ensures
            valid == (self.value() == 0xE || self.value() == 0xF),
    {
        self.0 == 0xE || self.0 == 0xF
    }

    /// The kind of gate as a number.
    pub fn get(self) -> (value: u8)
        ensures
            value == self.value(),
            value < 16,
    {
        proof {
            use_type_invariant(self);
        }
        self.0
    }
}

impl From<GateType> for u8 {
    fn from(val: GateType) -> (value: u8) {
        val.0
    }
}

impl FromSpecImpl<GateType> for u8 {
    open spec fn obeys_from_spec() -> bool {
        true
    }

    open spec fn from_spec(val: GateType) -> u8 {
        val.value()
    }
}

/// The IST index field of the entry data `bits`.
pub open spec fn data_ist(bits: u16) -> u16 {
    bits & 7
}

/// The field of the entry data `bits` that holds the kind of gate.
pub open spec fn data_gate_type(bits: u16) -> u16 {
    (bits >> 8) & 15
}

/// The privilege level field of the entry data `bits`.
pub open spec fn data_dpl(bits: u16) -> u16 {
    (bits >> 13) & 3
}

/// The present bit of the entry data `bits`.
pub open spec fn data_present(bits: u16) -> bool {
    bits >> 15 != 0
}

/// `bits` with the `width` bits from bit `shift` on replaced by `value`.
pub open spec fn with_field(bits: u16, shift: u16, width: u16, value: u16) -> u16 {
    (bits & !((((1u16 << width) - 1) as u16) << shift)) | (value << shift)
}

/// IDT entry data
///
/// # Fields
/// [0, 2]   - IST index - offset into the Interrupt Stack Table
/// [3, 7]   - reserved
/// [8, 11]  - Gate type (Interrupt / Trap)
/// [12, 12] - must be 0
/// [13, 14] - DPL - privilage level required to invoke this software interrupt
/// [15, 15] - Present bit
#[derive(Clone, Copy, Debug, Default, PartialEq, Eq, Structural)]
pub struct IdtEntryData(u16);

impl View for IdtEntryData {
    type V = u16;

    /// The data as the 16 bits that the processor reads.
    closed spec fn view(&self) -> u16 {
        self.0
    }
}

impl IdtEntryData {
    /// The data of an entry that is present, with the given fields. The
    /// reserved bits are zero.
    pub fn new(ist_index: IstIndex, gate_type: GateType, dpl: PrivilegeLevel) -> (data: Self)
        ensures
            data_ist(data@) == ist_index.value(),
            data_gate_type(data@) == gate_type.value(),
            data_dpl(data@) == dpl.value(),
            data_present(data@),
            data@ == (ist_index.value() as u16) | ((gate_type.value() as u16) << 8) | ((
            dpl.value() as u16) << 13) | (1u16 << 15),
    {
        let mut entry = IdtEntryData(0);
        entry.set_ist(ist_index);
        entry.set_gate_type(gate_type);
        entry.set_dpl(dpl);
        entry.set_present(true);
        proof {
            let ist = ist_index.value() as u16;
            let gate = gate_type.value() as u16;
            let level = dpl.value() as u16;
            use_type_invariant(ist_index);
            use_type_invariant(gate_type);
            use_type_invariant(dpl);
            assert(with_field(
                with_field(with_field(with_field(0, 0, 3, ist), 8, 4, gate), 13, 2, level),
                15,
                1,
                1,
            ) == ist | (gate << 8) | (level << 13) | (1u16 << 15)) by (bit_vector)
                requires
                    ist < 8,
                    gate < 16,
                    level < 4,
            ;
        }
        entry
    }

    /// The data of an entry that is not present: all bits are zero.
    pub fn empty() -> (data: Self)
        ensures
            data@ == 0,
    {
        IdtEntryData(0)
    }

    /// The data as the 16 bits that the processor reads.
    pub fn bits(self) -> (bits: u16)
        ensures
            bits == self@,
    {
        self.0
    }

    pub fn ist(self) -> (ist: IstIndex)
        ensures
            ist.value() == data_ist(self@),
    {
        let bits = self.0;
        assert(bits & 7 < 8) by (bit_vector);
        IstIndex((self.0 & 7) as u8)
    }

    pub fn set_ist(&mut self, value: IstIndex)
        ensures
            final(self)@ == with_field(old(self)@, 0, 3, value.value() as u16),
            data_ist(final(self)@) == value.value(),
            data_gate_type(final(self)@) == data_gate_type(old(self)@),
            data_dpl(final(self)@) == data_dpl(old(self)@),
            data_present(final(self)@) == data_present(old(self)@),
    {
        let field = value.get() as u16;
        let bits = self.0;
        assert({
            let after = (bits & !7u16) | field;
            &&& after == with_field(bits, 0, 3, field)
            &&& data_ist(after) == field
            &&& data_gate_type(after) == data_gate_type(bits)
            &&& data_dpl(after) == data_dpl(bits)
            &&& data_present(after) == data_present(bits)
        }) by (bit_vector)
            requires
                field < 8,
        ;
        self.0 = (self.0 & !7u16) | field;
    }

    pub fn gate_type(self) -> (gate: GateType)
        ensures
            gate.value() == data_gate_type(self@),
    {
        let bits = self.0;
        assert((bits >> 8) & 15 < 16) by (bit_vector);
        GateType(((self.0 >> 8) & 15) as u8)
    }

    pub fn set_gate_type(&mut self, value: GateType)
        ensures
            final(self)@ == with_field(old(self)@, 8, 4, value.value() as u16),
            data_gate_type(final(self)@) == value.value(),
            data_ist(final(self)@) == data_ist(old(self)@),
            data_dpl(final(self)@) == data_dpl(old(self)@),
            data_present(final(self)@) == data_present(old(self)@),
    {
        let field = value.get() as u16;
        let bits = self.0;
        assert({
            let after = (bits & !(15u16 << 8)) | (field << 8);
            &&& after == with_field(bits, 8, 4, field)
            &&& data_gate_type(after) == field
            &&& data_ist(after) == data_ist(bits)
            &&& data_dpl(after) == data_dpl(bits)
            &&& data_present(after) == data_present(bits)
        }) by (bit_vector)
            requires
                field < 16,
        ;
        self.0 = (self.0 & !(15u16 << 8)) | (field << 8);
    }

    pub fn dpl(self) -> (dpl: PrivilegeLevel)
        ensures
            dpl.value() == data_dpl(self@),
    {
        let bits = self.0;
        assert((bits >> 13) & 3 < 4) by (bit_vector);
        PrivilegeLevel::new(((self.0 >> 13) & 3) as u8)
    }

    pub fn set_dpl(&mut self, value: PrivilegeLevel)
        ensures
            final(self)@ == with_field(old(self)@, 13, 2, value.value() as u16),
            data_dpl(final(self)@) == value.value(),
            data_ist(final(self)@) == data_ist(old(self)@),
            data_gate_type(final(self)@) == data_gate_type(old(self)@),
            data_present(final(self)@) == data_present(old(self)@),
    {
        let field = value.get() as u16;
        let bits = self.0;
        assert({
            let after = (bits & !(3u16 << 13)) | (field << 13);
            &&& after == with_field(bits, 13, 2, field)
            &&& data_dpl(after) == field
            &&& data_ist(after) == data_ist(bits)
            &&& data_gate_type(after) == data_gate_type(bits)
            &&& data_present(after) == data_present(bits)
        }) by (bit_vector)
            requires
                field < 4,
        ;
        self.0 = (self.0 & !(3u16 << 13)) | (field << 13);
    }

    pub fn present(self) -> (present: bool)
        ensures
            present == data_present(self@),
    {
        self.0 >> 15 != 0
    }

    pub fn set_present(&mut self, value: bool)
        ensures
            final(self)@ == with_field(
                old(self)@,
                15,
                1,
                if value {
                    1
                } else {
                    0
                },
            ),
            data_present(final(self)@) == value,
            data_ist(final(self)@) == data_ist(old(self)@),
            data_gate_type(final(self)@) == data_gate_type(old(self)@),
            data_dpl(final(self)@) == data_dpl(old(self)@),
    {
        let field: u16 = if value {
            1
        } else {
            0
        };
        let bits = self.0;
        assert({
            let after = (bits & !(1u16 << 15)) | (field << 15);
            &&& after == with_field(bits, 15, 1, field)
            &&& data_present(after) == (field == 1)
            &&& data_ist(after) == data_ist(bits)
            &&& data_gate_type(after) == data_gate_type(bits)
            &&& data_dpl(after) == data_dpl(bits)
        }) by (bit_vector)
            requires
                field < 2,
        ;
        self.0 = (self.0 & !(1u16 << 15)) | (field << 15);
    }
}

/// The handler address that the three offset fields of an entry stand for.
pub open spec fn joined_offset(low: u16, mid: u16, high: u32) -> u64 {
    (low as u64) | ((mid as u64) << 16) | ((high as u64) << 32)
}

/// One entry of the table: where the handler of an interrupt is, in which
/// segment, and how it is entered.
#[derive(Clone, Copy, Debug, Default)]
pub struct IdtEntry {
    pub offset_low: u16,
    pub segment: SegmentSelector,
    pub data: IdtEntryData,
    pub offset_mid: u16,
    pub offset_high: u32,
    pub reserved: u32,
}

impl IdtEntry {
    /// The address of the handler.
    pub open spec fn handler(self) -> u64 {
        joined_offset(self.offset_low, self.offset_mid, self.offset_high)
    }

    /// Every bit of the entry is zero: it names no handler and no segment,
    /// and it is not present.
    pub open spec fn is_blank(self) -> bool {
        &&& self.offset_low == 0
        &&& self.offset_mid == 0
        &&& self.offset_high == 0
        &&& self.reserved == 0
        &&& self.segment@ == 0
        &&& self.data@ == 0
    }

    /// The segment that the handler runs in: the field `segment`.
    pub open spec fn selector(self) -> SegmentSelector {
        self.segment
    }

    /// How the handler is entered: the field `data`.
    pub open spec fn entry_data(self) -> IdtEntryData {
        self.data
    }

    /// An entry that is present, for the handler at `offset`.
    pub fn new(
        offset: usize,
        segment: SegmentSelector,
        ist_index: IstIndex,
        gate_type: GateType,
        dpl: PrivilegeLevel,
    ) -> (entry: Self)
        ensures
            entry.handler() == offset,
            entry.selector() == segment,
            data_ist(entry.entry_data()@) == ist_index.value(),
            data_gate_type(entry.entry_data()@) == gate_type.value(),
            data_dpl(entry.entry_data()@) == dpl.value(),
            data_present(entry.entry_data()@),
    {
        let mut entry = Self {
            offset_low: 0,
            segment,
            data: IdtEntryData::new(ist_index, gate_type, dpl),
            offset_mid: 0,
            offset_high: 0,
            reserved: 0,
        };
        entry.set_offset(offset);
        entry
    }

    /// An entry that is not present: all its bits are zero.
    pub fn empty() -> (entry: Self)
        ensures
            entry.is_blank(),
            entry.handler() == 0,
            entry.selector()@ == 0,
            entry.entry_data()@ == 0,
            !data_present(entry.entry_data()@),
    {
        assert(!data_present(0)) by (bit_vector);
        assert(joined_offset(0, 0, 0) == 0) by (bit_vector);
        Self {
            offset_low: 0,
            segment: SegmentSelector::null(),
            data: IdtEntryData::empty(),
            offset_mid: 0,
            offset_high: 0,
            reserved: 0,
        }
    }

    /// The address of the handler.
    pub fn offset(self) -> (offset: usize)
        ensures
            offset == self.handler() as usize,
    {
        ((self.offset_low as u64) | ((self.offset_mid as u64) << 16) | ((self.offset_high as u64)
            << 32)) as usize
    }

    pub fn set_offset(&mut self, value: usize)
        ensures
            final(self).handler() == value,
            final(self).selector() == old(self).selector(),
            final(self).entry_data() == old(self).entry_data(),
    {
        let value = value as u64;
        assert(joined_offset(value as u16, (value >> 16) as u16, (value >> 32) as u32) == value)
            by (bit_vector);
        self.offset_low = value as u16;
        self.offset_mid = (value >> 16) as u16;
        self.offset_high = (value >> 32) as u32;
    }
}

/// Number of an interrupt: the index of its entry in the table.
#[derive(Clone, Copy, Debug, PartialEq, Eq, Structural)]
pub struct IdtVector(pub u8);

impl IdtVector {
    pub const INTEGER_DIVIDE_BY_ZERO: u8 = 0;

    pub const DEBUG: u8 = 1;

    pub const NON_MASKABLE_INTERRUPT: u8 = 2;

    pub const BREAKPOINT: u8 = 3;

    pub const OVERFLOW: u8 = 4;

    pub const BOUND_RANGE_EXCEEDED: u8 = 5;

    pub const INVALID_OPCODE: u8 = 6;

    pub const DEVICE_NOT_AVAILABLE: u8 = 7;

    pub const DOUBLE_FAULT: u8 = 8;

    /// Unused
    pub const COPROCESSOR_SEGMENT_OVERRUN: u8 = 9;

    pub const INVALID_TTS: u8 = 10;

    pub const SEGMENT_NOT_PRESENT: u8 = 11;

    pub const STACK_SEGMENT_FAULT: u8 = 12;

    pub const GENERAL_PROTECTION: u8 = 13;

    pub const PAGE_FAULT: u8 = 14;

    pub const X87_FLOATING_POINT_ERROR: u8 = 16;

    pub const ALIGNMENT_CHECK: u8 = 17;

    pub const MACHINE_CHECK: u8 = 18;

    pub const SIMD_FLOATING_POINT_EXCEPTION: u8 = 19;

    /// Intel specific
    pub const VIRTUALIZATION_EXCEPTION: u8 = 20;

    pub const CONTROL_PROTECTION_EXCEPTION: u8 = 21;

    /// AMD specific
    pub const HYPERVISOR_INJECTION_EXCEPTION: u8 = 28;

    /// AMD specific
    pub const VMM_COMMUNICATION_EXCEPTION: u8 = 29;

    /// AMD specific
    pub const SECURITY_EXCEPTION: u8 = 30;

    /// [0:32) - predefined interrupts \
    /// [32: 255] - software / maskable external interrupts
    pub fn is_predefined(self) -> (predefined: bool)
        ensures
            predefined == (self.0 < 32),
    {
        self.0 < 32
    }
}

impl From<IdtVector> for u8 {
    fn from(val: IdtVector) -> (value: u8) {
        val.0
    }
}

impl FromSpecImpl<IdtVector> for u8 {
    open spec fn obeys_from_spec() -> bool {
        true
    }

    open spec fn from_spec(val: IdtVector) -> u8 {
        val.0
    }
}

impl From<u8> for IdtVector {
    fn from(value: u8) -> (vector: Self) {
        IdtVector(value)
    }
}

impl FromSpecImpl<u8> for IdtVector {
    open spec fn obeys_from_spec() -> bool {
        true
    }

    open spec fn from_spec(value: u8) -> Self {
        IdtVector(value)
    }
}

/// The interrupt descriptor table: one entry for each of the 256 vectors.
#[derive(Debug)]
pub struct Idt {
    entries: [IdtEntry; 256],
}

impl Idt {
    /// The entry of `vector`.
    pub closed spec fn entry(&self, vector: IdtVector) -> IdtEntry {
        self.entries@[vector.0 as int]
    }

    /// A table in which every entry is blank: no entry is present, and none
    /// names a handler or a segment.
    pub fn new() -> (idt: Self)
        ensures
            forall|vector: IdtVector|
                {
                    let entry = #[trigger] idt.entry(vector);
                    &&& entry.is_blank()
                    &&& entry.handler() == 0
                    &&& entry.selector()@ == 0
                    &&& entry.entry_data()@ == 0
                    &&& !data_present(entry.entry_data()@)
                },
    {
        let blank = IdtEntry::empty();
        let idt = Idt { entries: [blank;256] };
        assert forall|vector: IdtVector|
            {
                let entry = #[trigger] idt.entry(vector);
                &&& entry.is_blank()
                &&& entry.handler() == 0
                &&& entry.selector()@ == 0
                &&& entry.entry_data()@ == 0
                &&& !data_present(entry.entry_data()@)
            } by {
            assert(idt.entries@[vector.0 as int] == blank);
        }
        idt
    }

    /// The entry of `vector`.
    pub fn get(&self, vector: IdtVector) -> (entry: IdtEntry)
        ensures
            entry == self.entry(vector),
    {
        self.entries[vector.0 as usize]
    }

    /// Registers the handler at address `handler` for `vector` and returns
    /// the previous entry if it was present.
    ///
    /// The new entry is a trap gate without a stack of its own that user
    /// programs may invoke.
    pub fn swap_handler(
        &mut self,
        vector: IdtVector,
        handler: usize,
        segment_descriptor: SegmentSelector,
    ) -> (previous: Option<IdtEntry>)
        ensures
            final(self).entry(vector).handler() == handler,
            final(self).entry(vector).selector() == segment_descriptor,
            data_present(final(self).entry(vector).entry_data()@),
            data_ist(final(self).entry(vector).entry_data()@) == 0,
            data_gate_type(final(self).entry(vector).entry_data()@) == 0xF,
            data_dpl(final(self).entry(vector).entry_data()@) == 3,
            forall|other: IdtVector|
                other != vector ==> final(self).entry(other) == old(self).entry(other),
            previous == if data_present(old(self).entry(vector).entry_data()@) {
                Some(old(self).entry(vector))
            } else {
                None
            },
    {
        let old = self.entries[vector.0 as usize];
        self.entries[vector.0 as usize] = IdtEntry::new(
            handler,
            segment_descriptor,
            IstIndex::unused(),
            GateType::trap(),
            PrivilegeLevel::userspace(),
        );
        if old.data.present() {
            Some(old)
        } else {
            None
        }
    }
}

} // verus!
