//! Allocation of device memory.

pub mod kinds;
pub mod error;
pub mod device_memory;
pub mod hollow_device_memory_allocator;

pub use kinds::{AllocationLifetime, MemoryKind};
