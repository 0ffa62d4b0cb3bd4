//! Paging and the identity map.

pub mod structs;

pub use structs::PAGE_SIZE;

use vstd::prelude::*;
use crate::arch::{PhysicalAddress, VirtualAddress};
use crate::common::token::InnerToken;

verus! {

/// Asserts that the identity map is set up, and records where it starts: the
/// virtual alias of physical address `a` is at `base + a`.
#[derive(Clone, Copy)]
pub struct IdentityMapToken {
    base: PhysicalAddress,
    _inner: InnerToken,
}

impl IdentityMapToken {
    /// Where the identity map starts.
    pub closed spec fn base(&self) -> PhysicalAddress {
        self.base
    }
}

/// Records the start of the identity map and hands out the token that later
/// steps of the boot sequence ask for.
pub fn initialize_identity_map(identity_map_base: PhysicalAddress) -> (token: IdentityMapToken)
    ensures
        token.base() == identity_map_base,
{
    IdentityMapToken { base: identity_map_base, _inner: InnerToken::new() }
}

/// Returns corresponding virtual address from the identity mapping
pub fn to_virtual(address: PhysicalAddress, token: IdentityMapToken) -> (alias: VirtualAddress)
    requires
        token.base()@ + address@ <= usize::MAX,
    ensures
        alias@ == token.base()@ + address@,
{
    VirtualAddress::new(token.base.0 + address.0)
}

/// Whether `address` has an alias in the identity map that `token` stands
/// for: whether `to_virtual` can be asked for it.
pub fn has_alias(address: PhysicalAddress, token: IdentityMapToken) -> (mapped: bool)
    ensures
        mapped == (token.base()@ + address@ <= usize::MAX),
{
    address.0 <= usize::MAX - token.base.0
}

} // verus!
