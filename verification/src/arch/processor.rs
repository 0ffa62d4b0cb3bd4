//! What every processor has of its own.

use vstd::prelude::*;
use crate::arch::x86_64::interrupts::idt::Idt;

verus! {

/// Core local structures
#[derive(Debug)]
pub struct Processor {
    pub idt: Idt,
}

} // verus!
