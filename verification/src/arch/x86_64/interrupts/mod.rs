//! Interrupts and the table that routes them.

pub mod idt;

use vstd::prelude::*;
use vstd::std_specs::convert::FromSpecImpl;

verus! {

/// What the processor pushes on the stack when it enters a handler.
pub struct StackFrame;

/// The error code that the processor hands to the handlers of some
/// exceptions.
#[derive(Clone, Copy, Debug, PartialEq, Eq, Structural, PartialOrd, Ord)]
pub struct ErrorCode(pub usize);

impl From<usize> for ErrorCode {
    fn from(value: usize) -> (code: Self) {
        ErrorCode(value)
    }
}

impl FromSpecImpl<usize> for ErrorCode {
    open spec fn obeys_from_spec() -> bool {
        true
    }

    open spec fn from_spec(value: usize) -> Self {
        ErrorCode(value)
    }
}

impl From<ErrorCode> for usize {
    fn from(val: ErrorCode) -> (value: usize) {
        val.0
    }
}

impl FromSpecImpl<ErrorCode> for usize {
    open spec fn obeys_from_spec() -> bool {
        true
    }

    open spec fn from_spec(val: ErrorCode) -> usize {
        val.0
    }
}

} // verus!
