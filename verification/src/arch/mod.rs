//! Architecture-level value types.

pub mod boot;
pub mod devices;
pub mod processor;
pub mod x86_64;

pub use x86_64::{interrupts, intrinsics, paging};
pub use x86_64::{PrivilegeLevel, SegmentIndex, SegmentSelector, TableIndicator};

use vstd::prelude::*;
use vstd::std_specs::convert::FromSpecImpl;
use vstd::std_specs::ops::{AddSpecImpl, RemSpecImpl, SubSpecImpl};
use core::ops::{Add, AddAssign, Rem, RemAssign, Sub, SubAssign};

verus! {

/// The smallest multiple of `unit` that is not below `value`.
pub open spec fn round_up(value: int, unit: int) -> int {
    if value % unit == 0 {
        value
    } else {
        value + (unit - value % unit)
    }
}

/// The largest multiple of `unit` that is not above `value`.
pub open spec fn round_down(value: int, unit: int) -> int {
    value - value % unit
}

/// A byte offset into physical memory.
#[derive(Clone, Copy, PartialEq, Eq, Structural, PartialOrd, Ord, Hash, Debug)]
pub struct PhysicalAddress(pub usize);

impl View for PhysicalAddress {
    type V = usize;

    open spec fn view(&self) -> usize {
        self.0
    }
}

impl PhysicalAddress {
    #[must_use]
    pub fn new(value: usize) -> (address: Self)
        ensures
            address@ == value,
    {
        Self(value)
    }

    /// The lowest address not below this one that is a multiple of `rhs`.
    #[must_use]
    pub fn next_multiple_of(&self, rhs: usize) -> (address: Self)
        requires
            rhs > 0,
            round_up(self@ as int, rhs as int) <= usize::MAX,
        ensures
            address@ == round_up(self@ as int, rhs as int),
            address@ % rhs == 0,
            self@ <= address@ < self@ + rhs,
    {
        let rest = self.0 % rhs;
        if rest == 0 {
            Self(self.0)
        } else {
            let up = self.0 + (rhs - rest);
            assert(up % rhs == 0) by (nonlinear_arith)
                requires
                    rhs > 0,
                    0 < rest < rhs,
                    rest == self.0 % rhs,
                    up == self.0 + (rhs - rest),
            ;
            Self(up)
        }
    }

    /// The highest address not above this one that is a multiple of `rhs`.
    #[must_use]
    pub fn last_multiple_of(&self, rhs: usize) -> (address: Self)
        requires
            rhs > 0,
        ensures
            address@ == round_down(self@ as int, rhs as int),
            address@ % rhs == 0,
            address@ <= self@ < address@ + rhs,
    {
        let rest = self.0 % rhs;
        assert(rest <= self.0) by (nonlinear_arith)
            requires
                rhs > 0,
                rest == self.0 % rhs,
        ;
        let down = self.0 - rest;
        assert(down % rhs == 0 && down == (self.0 / rhs) * rhs) by (nonlinear_arith)
            requires
                rhs > 0,
                rest == self.0 % rhs,
                down == self.0 - rest,
        ;
        Self(down)
    }

    /// Whether the address is a multiple of the alignment of `T`.
    #[must_use]
    pub fn is_aligned<T>(&self) -> (aligned: bool)
        requires
            vstd::layout::align_of::<T>() > 0,
        ensures
            aligned == (self@ as nat % vstd::layout::align_of::<T>() == 0),
    {
        (self.0 % core::mem::align_of::<T>()) == 0
    }

    /// Whether the address is a multiple of `alignment`.
    #[must_use]
    pub fn is_aligned_to(&self, alignment: usize) -> (aligned: bool)
        requires
            alignment > 0,
        ensures
            aligned == (self@ % alignment == 0),
    {
        (self.0 % alignment) == 0
    }
}

impl Add<usize> for PhysicalAddress {
    type Output = Self;

    fn add(self, rhs: usize) -> (sum: Self) {
        Self(self.0 + rhs)
    }
}

impl AddSpecImpl<usize> for PhysicalAddress {
    open spec fn obeys_add_spec() -> bool {
        true
    }

    open spec fn add_req(self, rhs: usize) -> bool {
        self@ + rhs <= usize::MAX
    }

    open spec fn add_spec(self, rhs: usize) -> Self {
        PhysicalAddress((self@ + rhs) as usize)
    }
}

impl Sub<usize> for PhysicalAddress {
    type Output = Self;

    fn sub(self, rhs: usize) -> (difference: Self) {
        Self(self.0 - rhs)
    }
}

impl SubSpecImpl<usize> for PhysicalAddress {
    open spec fn obeys_sub_spec() -> bool {
        true
    }

    open spec fn sub_req(self, rhs: usize) -> bool {
        rhs <= self@
    }

    open spec fn sub_spec(self, rhs: usize) -> Self {
        PhysicalAddress((self@ - rhs) as usize)
    }
}

impl Sub<PhysicalAddress> for PhysicalAddress {
    type Output = usize;

    fn sub(self, rhs: PhysicalAddress) -> (distance: usize) {
        self.0 - rhs.0
    }
}

impl SubSpecImpl<PhysicalAddress> for PhysicalAddress {
    open spec fn obeys_sub_spec() -> bool {
        true
    }

    open spec fn sub_req(self, rhs: PhysicalAddress) -> bool {
        rhs@ <= self@
    }

    open spec fn sub_spec(self, rhs: PhysicalAddress) -> usize {
        (self@ - rhs@) as usize
    }
}

impl Rem<usize> for PhysicalAddress {
    type Output = usize;

    fn rem(self, rhs: usize) -> (rest: usize) {
        self.0 % rhs
    }
}

impl RemSpecImpl<usize> for PhysicalAddress {
    open spec fn obeys_rem_spec() -> bool {
        true
    }

    open spec fn rem_req(self, rhs: usize) -> bool {
        rhs > 0
    }

    open spec fn rem_spec(self, rhs: usize) -> usize {
        self@ % rhs
    }
}

impl From<usize> for PhysicalAddress {
    fn from(value: usize) -> (address: Self) {
        Self(value)
    }
}

impl FromSpecImpl<usize> for PhysicalAddress {
    open spec fn obeys_from_spec() -> bool {
        true
    }

    open spec fn from_spec(value: usize) -> Self {
        PhysicalAddress(value)
    }
}

impl From<PhysicalAddress> for usize {
    fn from(val: PhysicalAddress) -> (value: usize) {
        val.0
    }
}

impl FromSpecImpl<PhysicalAddress> for usize {
    open spec fn obeys_from_spec() -> bool {
        true
    }

    open spec fn from_spec(val: PhysicalAddress) -> usize {
        val@
    }
}

impl From<PhysicalAddress> for u64 {
    fn from(val: PhysicalAddress) -> (value: u64) {
        val.0 as u64
    }
}

impl FromSpecImpl<PhysicalAddress> for u64 {
    open spec fn obeys_from_spec() -> bool {
        true
    }

    open spec fn from_spec(val: PhysicalAddress) -> u64 {
        val@ as u64
    }
}

impl AddAssign<usize> for PhysicalAddress {
    fn add_assign(&mut self, rhs: usize)
        requires
            old(self)@ + rhs <= usize::MAX,
        ensures
            final(self)@ == old(self)@ + rhs,
    {
        self.0 = self.0 + rhs;
    }
}

impl SubAssign<usize> for PhysicalAddress {
    fn sub_assign(&mut self, rhs: usize)
        requires
            rhs <= old(self)@,
        ensures
            final(self)@ == old(self)@ - rhs,
    {
        self.0 = self.0 - rhs;
    }
}

impl RemAssign<usize> for PhysicalAddress {
    fn rem_assign(&mut self, rhs: usize)
        requires
            rhs > 0,
        ensures
            final(self)@ == old(self)@ % rhs,
    {
        self.0 = self.0 % rhs;
    }
}

/// An address in the virtual address space.
#[derive(Clone, Copy, PartialEq, Eq, Structural, PartialOrd, Ord, Hash, Debug)]
pub struct VirtualAddress(pub usize);

impl View for VirtualAddress {
    type V = usize;

    open spec fn view(&self) -> usize {
        self.0
    }
}

impl VirtualAddress {
    #[must_use]
    pub fn new(value: usize) -> (address: Self)
        ensures
            address@ == value,
    {
        Self(value)
    }

    /// The lowest address not below this one that is a multiple of `rhs`.
    #[must_use]
    pub fn next_multiple_of(&self, rhs: usize) -> (address: Self)
        requires
            rhs > 0,
            round_up(self@ as int, rhs as int) <= usize::MAX,
        ensures
            address@ == round_up(self@ as int, rhs as int),
            address@ % rhs == 0,
            self@ <= address@ < self@ + rhs,
    {
        let rest = self.0 % rhs;
        if rest == 0 {
            Self(self.0)
        } else {
            let up = self.0 + (rhs - rest);
            assert(up % rhs == 0) by (nonlinear_arith)
                requires
                    rhs > 0,
                    0 < rest < rhs,
                    rest == self.0 % rhs,
                    up == self.0 + (rhs - rest),
            ;
            Self(up)
        }
    }

    /// The highest address not above this one that is a multiple of `rhs`.
    #[must_use]
    pub fn last_multiple_of(&self, rhs: usize) -> (address: Self)
        requires
            rhs > 0,
        ensures
            address@ == round_down(self@ as int, rhs as int),
            address@ % rhs == 0,
            address@ <= self@ < address@ + rhs,
    {
        let rest = self.0 % rhs;
        assert(rest <= self.0) by (nonlinear_arith)
            requires
                rhs > 0,
                rest == self.0 % rhs,
        ;
        let down = self.0 - rest;
        assert(down % rhs == 0 && down == (self.0 / rhs) * rhs) by (nonlinear_arith)
            requires
                rhs > 0,
                rest == self.0 % rhs,
                down == self.0 - rest,
        ;
        Self(down)
    }
}

impl Add<usize> for VirtualAddress {
    type Output = Self;

    fn add(self, rhs: usize) -> (sum: Self) {
        Self(self.0 + rhs)
    }
}

impl AddSpecImpl<usize> for VirtualAddress {
    open spec fn obeys_add_spec() -> bool {
        true
    }

    open spec fn add_req(self, rhs: usize) -> bool {
        self@ + rhs <= usize::MAX
    }

    open spec fn add_spec(self, rhs: usize) -> Self {
        VirtualAddress((self@ + rhs) as usize)
    }
}

impl Sub<usize> for VirtualAddress {
    type Output = Self;

    fn sub(self, rhs: usize) -> (difference: Self) {
        Self(self.0 - rhs)
    }
}

impl SubSpecImpl<usize> for VirtualAddress {
    open spec fn obeys_sub_spec() -> bool {
        true
    }

    open spec fn sub_req(self, rhs: usize) -> bool {
        rhs <= self@
    }

    open spec fn sub_spec(self, rhs: usize) -> Self {
        VirtualAddress((self@ - rhs) as usize)
    }
}

impl Sub<VirtualAddress> for VirtualAddress {
    type Output = usize;

    fn sub(self, rhs: VirtualAddress) -> (distance: usize) {
        self.0 - rhs.0
    }
}

impl SubSpecImpl<VirtualAddress> for VirtualAddress {
    open spec fn obeys_sub_spec() -> bool {
        true
    }

    open spec fn sub_req(self, rhs: VirtualAddress) -> bool {
        rhs@ <= self@
    }

    open spec fn sub_spec(self, rhs: VirtualAddress) -> usize {
        (self@ - rhs@) as usize
    }
}

impl Rem<usize> for VirtualAddress {
    type Output = usize;

    fn rem(self, rhs: usize) -> (rest: usize) {
        self.0 % rhs
    }
}

impl RemSpecImpl<usize> for VirtualAddress {
    open spec fn obeys_rem_spec() -> bool {
        true
    }

    open spec fn rem_req(self, rhs: usize) -> bool {
        rhs > 0
    }

    open spec fn rem_spec(self, rhs: usize) -> usize {
        self@ % rhs
    }
}

impl From<usize> for VirtualAddress {
    fn from(value: usize) -> (address: Self) {
        Self(value)
    }
}

impl FromSpecImpl<usize> for VirtualAddress {
    open spec fn obeys_from_spec() -> bool {
        true
    }

    open spec fn from_spec(value: usize) -> Self {
        VirtualAddress(value)
    }
}

impl From<VirtualAddress> for usize {
    fn from(val: VirtualAddress) -> (value: usize) {
        val.0
    }
}

impl FromSpecImpl<VirtualAddress> for usize {
    open spec fn obeys_from_spec() -> bool {
        true
    }

    open spec fn from_spec(val: VirtualAddress) -> usize {
        val@
    }
}

impl From<VirtualAddress> for u64 {
    fn from(val: VirtualAddress) -> (value: u64) {
        val.0 as u64
    }
}

impl FromSpecImpl<VirtualAddress> for u64 {
    open spec fn obeys_from_spec() -> bool {
        true
    }

    open spec fn from_spec(val: VirtualAddress) -> u64 {
        val@ as u64
    }
}

impl AddAssign<usize> for VirtualAddress {
    fn add_assign(&mut self, rhs: usize)
        requires
            old(self)@ + rhs <= usize::MAX,
        ensures
            final(self)@ == old(self)@ + rhs,
    {
        self.0 = self.0 + rhs;
    }
}

impl SubAssign<usize> for VirtualAddress {
    fn sub_assign(&mut self, rhs: usize)
        requires
            rhs <= old(self)@,
        ensures
            final(self)@ == old(self)@ - rhs,
    {
        self.0 = self.0 - rhs;
    }
}

impl RemAssign<usize> for VirtualAddress {
    fn rem_assign(&mut self, rhs: usize)
        requires
            rhs > 0,
        ensures
            final(self)@ == old(self)@ % rhs,
    {
        self.0 = self.0 % rhs;
    }
}

} // verus!
