//! Descriptor pools and the sets allocated from them.

pub mod descriptor_set;

use vstd::prelude::*;
use super::DescriptorType;

verus! {

/// How many descriptors of one kind a pool holds.
#[derive(Debug, Clone, Copy, PartialEq, Eq, Hash, Structural)]
pub struct DescriptorPoolSize {
    pub ty: DescriptorType,
    pub count: u32,
}

/// A pool size as the driver takes it (`VkDescriptorPoolSize`).
#[derive(Debug, Clone, Copy, PartialEq, Eq, Hash, Structural)]
pub struct RawDescriptorPoolSize {
    pub ty: i32,
    pub descriptor_count: u32,
}

impl DescriptorPoolSize {
    /// The pool size of a raw `VkDescriptorPoolSize`; only Vulkan 1.0 kinds are accepted.
    pub fn from_raw(raw: RawDescriptorPoolSize) -> (r: Self)
        requires
            0 <= raw.ty <= 10,
        ensures
            r.ty == super::spec_descriptor_type_of(raw.ty),
            r.count == raw.descriptor_count,
    {
        DescriptorPoolSize { ty: DescriptorType::from_raw(raw.ty), count: raw.descriptor_count }
    }

    /// The pool size as the driver takes it.
    pub fn to_raw(self) -> (r: RawDescriptorPoolSize)
        ensures
            r.ty == self.ty.spec_raw(),
            r.descriptor_count == self.count,
    {
        RawDescriptorPoolSize { ty: self.ty.as_raw(), descriptor_count: self.count }
    }
}

/// What a descriptor pool is created with: how many sets and descriptors it holds.
#[derive(Debug, Default, Clone, PartialEq, Eq, Hash)]
pub struct DescriptorPoolCreateInfo {
    pub max_sets: u32,
    pub pool_sizes: Vec<DescriptorPoolSize>,
}

/// How much of a pool is used: sets allocated, and descriptors left per pool size.
#[derive(Debug, Clone, PartialEq, Eq)]
pub struct DescriptorPoolTracker {
    pub sets_tracker: u32,
    pub pool_sizes_tracker: Vec<u32>,
}

impl DescriptorPoolTracker {
    /// The tracker of a fresh pool: no set allocated, every descriptor free.
    pub fn new(pool_sizes: &[DescriptorPoolSize]) -> (r: Self)
        ensures
            r.sets_tracker == 0,
            r.pool_sizes_tracker@.len() == pool_sizes@.len(),
            forall|i: int|
                0 <= i < pool_sizes@.len() ==> #[trigger] r.pool_sizes_tracker@[i] == pool_sizes@[i].count,
    {
        let mut counts: Vec<u32> = Vec::new();
        let mut i: usize = 0;
        while i < pool_sizes.len()
            invariant
                0 <= i <= pool_sizes@.len(),
                counts@.len() == i,
                forall|j: int| 0 <= j < i ==> #[trigger] counts@[j] == pool_sizes@[j].count,
            decreases pool_sizes@.len() - i,
        {
            counts.push(pool_sizes[i].count);
            i = i + 1;
        }
        DescriptorPoolTracker { sets_tracker: 0, pool_sizes_tracker: counts }
    }
}

/// The pool sizes as the driver takes them, in order.
pub fn raw_pool_sizes(pool_sizes: &[DescriptorPoolSize]) -> (r: Vec<RawDescriptorPoolSize>)
    ensures
        r@.len() == pool_sizes@.len(),
        forall|i: int|
            0 <= i < pool_sizes@.len() ==> (#[trigger] r@[i]).ty == pool_sizes@[i].ty.spec_raw()
                && r@[i].descriptor_count == pool_sizes@[i].count,
{
    let mut raw: Vec<RawDescriptorPoolSize> = Vec::new();
    let mut i: usize = 0;
    while i < pool_sizes.len()
        invariant
            0 <= i <= pool_sizes@.len(),
            raw@.len() == i,
            forall|j: int|
                0 <= j < i ==> (#[trigger] raw@[j]).ty == pool_sizes@[j].ty.spec_raw()
                    && raw@[j].descriptor_count == pool_sizes@[j].count,
        decreases pool_sizes@.len() - i,
    {
        raw.push(pool_sizes[i].to_raw());
        i = i + 1;
    }
    raw
}

} // verus!
