//! Device memory: choosing memory types, checking allocations and counting
//! mappings.

pub mod allocation;
pub mod memory_object;
pub mod resources;

pub use memory_object::{AllocationInfo, AllocationProblem, MemoryObject};
