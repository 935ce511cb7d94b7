//! Acquisition and ordered teardown of a hardware-virtualization session:
//! device, virtual machine, virtual CPU and the vCPU's shared state region.
//!
//! The kernel calls themselves are made by the caller; this crate decides
//! what to request next from what the kernel answered, and owns the
//! bookkeeping that guarantees every acquired resource is released exactly
//! once, in reverse order of acquisition.

pub mod config;
pub mod error;
pub mod resources;
pub mod session;
