//! Capability tokens: values that can only be obtained by performing a step
//! of the boot sequence, and that later steps ask for.

use vstd::prelude::*;

verus! {

/// The private part of every token. It cannot be built outside this crate, so
/// neither can a token.
#[derive(Clone, Copy)]
pub struct InnerToken {
    _private: (),
}

impl InnerToken {
    pub(crate) fn new() -> Self {
        Self { _private: () }
    }
}

} // verus!
