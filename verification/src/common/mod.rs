//! Items shared by every part of the kernel.

pub mod collections;
pub mod random;
pub mod sync;
pub mod time;
pub mod token;
