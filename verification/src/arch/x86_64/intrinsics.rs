//! Operations of the processor.

use vstd::prelude::*;
use vstd::std_specs::convert::FromSpecImpl;

verus! {

/// What the `cpuid` instruction leaves in the four registers.
#[derive(Clone, Copy, PartialEq, Eq, Structural)]
pub struct CpuidResult {
    pub eax: u32,
    pub ebx: u32,
    pub ecx: u32,
    pub edx: u32,
}

impl From<(u32, u32, u32, u32)> for CpuidResult {
    fn from(value: (u32, u32, u32, u32)) -> (result: Self) {
        let (eax, ebx, ecx, edx) = value;
        Self { eax, ebx, ecx, edx }
    }
}

impl FromSpecImpl<(u32, u32, u32, u32)> for CpuidResult {
    open spec fn obeys_from_spec() -> bool {
        true
    }

    open spec fn from_spec(value: (u32, u32, u32, u32)) -> Self {
        CpuidResult { eax: value.0, ebx: value.1, ecx: value.2, edx: value.3 }
    }
}

/// The twelve bytes of the vendor string, in the order in which the
/// registers hold them: `ebx`, `edx`, `ecx`, each with its lowest byte first.
pub open spec fn brand_bytes(result: CpuidResult) -> Seq<u8> {
    seq![
        result.ebx as u8,
        (result.ebx >> 8) as u8,
        (result.ebx >> 16) as u8,
        (result.ebx >> 24) as u8,
        result.edx as u8,
        (result.edx >> 8) as u8,
        (result.edx >> 16) as u8,
        (result.edx >> 24) as u8,
        result.ecx as u8,
        (result.ecx >> 8) as u8,
        (result.ecx >> 16) as u8,
        (result.ecx >> 24) as u8,
    ]
}

/// The vendor string that `cpuid` with `eax` 0 reports in `result`.
pub fn brand(result: CpuidResult) -> (out: [u8; 12])
    ensures
        out@ == brand_bytes(result),
{
    let b = result.ebx;
    let d = result.edx;
    let c = result.ecx;
    let out = [
        #[verifier::truncate] (b as u8),
        #[verifier::truncate] ((b >> 8) as u8),
        #[verifier::truncate] ((b >> 16) as u8),
        #[verifier::truncate] ((b >> 24) as u8),
        #[verifier::truncate] (d as u8),
        #[verifier::truncate] ((d >> 8) as u8),
        #[verifier::truncate] ((d >> 16) as u8),
        #[verifier::truncate] ((d >> 24) as u8),
        #[verifier::truncate] (c as u8),
        #[verifier::truncate] ((c >> 8) as u8),
        #[verifier::truncate] ((c >> 16) as u8),
        #[verifier::truncate] ((c >> 24) as u8),
    ];
    assert(out@ =~= brand_bytes(result));
    out
}

/// The time stamp counter as one number, of the two halves that `rdtsc`
/// leaves in `edx` and `eax`.
pub fn time_stamp_counter(high: u32, low: u32) -> (counter: u64)
    ensures
        counter == ((high as u64) << 32) | (low as u64),
{
    (high as u64) << 32 | (low as u64)
}

} // verus!
