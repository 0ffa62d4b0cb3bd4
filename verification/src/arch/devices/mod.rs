//! Devices that the kernel drives itself.

pub mod framebuffer;
