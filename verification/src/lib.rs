//! Core of a bare-metal kernel: the physical frame allocator and the
//! architecture-level value types that surround it.

pub mod allocator;
pub mod arch;
pub mod common;
