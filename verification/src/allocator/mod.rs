//! Physical memory management.

pub mod bits;
pub mod chunk;
pub mod layout;
pub mod physical;
pub mod region;
