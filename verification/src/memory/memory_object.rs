use vstd::prelude::*;
use crate::error::VkError;
use crate::instance::physical_device::{MemoryTypeProperties, PhysicalDevice};

verus! {

/// How much memory to allocate, and of which memory type.
#[derive(Debug, Clone, Copy, PartialEq, Eq, Hash, Structural)]
pub struct AllocationInfo {
    pub size: u64,
    pub memory_type: u32,
}

/// What is wrong with an allocation request.
#[derive(Debug, Clone, Copy, PartialEq, Eq, Hash, Structural)]
pub enum AllocationProblem {
    /// The size is zero.
    ZeroSize,
    /// The device has no memory type with this index.
    NoSuchMemoryType { memory_type: u32 },
    /// The size is larger than the heap of the memory type.
    LargerThanHeap,
}

/// What checking `info` against `device` finds, in the order the checks are made.
pub open spec fn spec_allocation_problem(info: AllocationInfo, device: &PhysicalDevice) -> Option<
    AllocationProblem,
> {
    let memory = device.spec_memory_properties();
    if info.size == 0 {
        Some(AllocationProblem::ZeroSize)
    } else if info.memory_type as int >= memory.types().len() {
        Some(AllocationProblem::NoSuchMemoryType { memory_type: info.memory_type })
    } else if info.size > memory.heaps()[memory.types()[info.memory_type as int].heap_index as int].size {
        Some(AllocationProblem::LargerThanHeap)
    } else {
        None
    }
}

impl AllocationInfo {
    /// Asserts that the request fits the memory of `device`: a zero size, a
    /// memory type the device lacks, or a size larger than the type's heap is a
    /// misuse that is not accepted here. [`Self::check`] tells which problem the
    /// request has, so that a caller can refuse it first.
    pub fn validate(&self, device: &PhysicalDevice)
        requires
            spec_allocation_problem(*self, device) is None,
    {
    }

    /// Checks the request against the memory of `device`, in the order of
    /// [`spec_allocation_problem`]. It is `Ok` exactly on the requests that
    /// [`Self::validate`] accepts.
    pub fn check(&self, device: &PhysicalDevice) -> (r: Result<(), AllocationProblem>)
        requires
            device.spec_memory_properties().wf(),
        ensures
            match spec_allocation_problem(*self, device) {
                Some(p) => r == Err::<(), AllocationProblem>(p),
                None => r == Ok::<(), AllocationProblem>(()),
            },
    {
        if self.size == 0 {
            return Err(AllocationProblem::ZeroSize);
        }
        let memory = device.memory_properties();
        if self.memory_type as usize >= memory.memory_type_count() {
            return Err(AllocationProblem::NoSuchMemoryType { memory_type: self.memory_type });
        }
        let memory_type = memory.memory_type(self.memory_type as usize);
        let heap = memory.memory_heap(memory_type.heap_index as usize);
        if self.size > heap.size {
            return Err(AllocationProblem::LargerThanHeap);
        }
        Ok(())
    }
}

/// A block of device memory: its size, its type and how often it is mapped.
#[derive(Debug)]
pub struct MemoryObject {
    size: u64,
    memory_type: u32,
    memory_properties: MemoryTypeProperties,
    map_count: u32,
}

impl MemoryObject {
    pub closed spec fn spec_size(&self) -> u64 {
        self.size
    }

    pub closed spec fn spec_memory_type(&self) -> u32 {
        self.memory_type
    }

    pub closed spec fn spec_memory_properties(&self) -> MemoryTypeProperties {
        self.memory_properties
    }

    pub closed spec fn spec_map_count(&self) -> u32 {
        self.map_count
    }

    /// Decides whether memory for `allocation_info` may be allocated on `device`,
    /// which holds `memory_objects_count` allocations already: the device allows
    /// only `max_memory_allocation_count` of them. On success the result is the
    /// unmapped memory object that the driver is then asked to back. The request
    /// must pass `AllocationInfo::validate`
    /// (which `AllocationInfo::check` tells).
    pub fn allocate_from(
        device: &PhysicalDevice,
        allocation_info: AllocationInfo,
        memory_objects_count: u32,
    ) -> (r: Result<MemoryObject, VkError>)
        requires
            device.spec_memory_properties().wf(),
            spec_allocation_problem(allocation_info, device) is None,
        ensures
            memory_objects_count >= device.spec_properties().limits.max_memory_allocation_count
                ==> r is Err && r->Err_0 == VkError::TooManyObjects,
            memory_objects_count < device.spec_properties().limits.max_memory_allocation_count
                ==> r is Ok && ({
                let m = r->Ok_0;
                &&& m.spec_size() == allocation_info.size
                &&& m.spec_memory_type() == allocation_info.memory_type
                &&& m.spec_memory_properties() == device.spec_memory_properties().types()[allocation_info.memory_type as int].properties
                &&& m.spec_map_count() == 0
            }),
    {
        let memory = device.memory_properties();
        let memory_properties = memory.memory_type(allocation_info.memory_type as usize).properties;
        let max_memory_objects_count = device.properties().limits.max_memory_allocation_count;
        if memory_objects_count >= max_memory_objects_count {
            return Err(VkError::TooManyObjects);
        }
        Ok(MemoryObject {
            size: allocation_info.size,
            memory_type: allocation_info.memory_type,
            memory_properties,
            map_count: 0,
        })
    }

    pub fn size(&self) -> (r: u64)
        ensures
            r == self.spec_size(),
    {
        self.size
    }

    pub fn memory_type(&self) -> (r: u32)
        ensures
            r == self.spec_memory_type(),
    {
        self.memory_type
    }

    /// How often the memory is mapped now.
    pub fn map_count(&self) -> (r: u32)
        ensures
            r == self.spec_map_count(),
    {
        self.map_count
    }

    /// The properties of the memory type.
    pub fn memory_properties(&self) -> (r: MemoryTypeProperties)
        ensures
            r == self.spec_memory_properties(),
    {
        self.memory_properties
    }

    /// Decides a map at `offset`: memory that the host cannot see cannot be
    /// mapped, whatever the offset; otherwise `Ok(true)` when the driver has to map
    /// the memory (nobody holds a mapping yet) and `Ok(false)` when the existing
    /// mapping is shared. An offset past the end of host-visible memory is a
    /// misuse and is not accepted.
    pub fn plan_map(&self, offset: u64) -> (r: Result<bool, VkError>)
        requires
            self.spec_memory_properties()@ & 0x2u32 == 0x2u32 ==> offset <= self.spec_size(),
        ensures
            self.spec_memory_properties()@ & 0x2u32 != 0x2u32 ==> r == Err::<bool, VkError>(
                VkError::MemoryMapFailed,
            ),
            self.spec_memory_properties()@ & 0x2u32 == 0x2u32 ==> r == Ok::<bool, VkError>(
                self.spec_map_count() == 0,
            ),
    {
        if !self.memory_properties.contains(MemoryTypeProperties::HOST_VISIBLE()) {
            return Err(VkError::MemoryMapFailed);
        }
        Ok(self.map_count == 0)
    }

    /// Counts a map that succeeded.
    pub fn record_map(&mut self)
        requires
            old(self).spec_map_count() < u32::MAX,
        ensures
            final(self).spec_map_count() == old(self).spec_map_count() + 1,
            final(self).spec_size() == old(self).spec_size(),
            final(self).spec_memory_type() == old(self).spec_memory_type(),
            final(self).spec_memory_properties() == old(self).spec_memory_properties(),
    {
        self.map_count = self.map_count + 1;
    }

    /// Counts an unmap of a mapped object; `true` when it was the last mapping and
    /// the driver has to unmap the memory.
    pub fn unmap(&mut self) -> (r: bool)
        requires
            old(self).spec_map_count() > 0,
        ensures
            final(self).spec_map_count() == old(self).spec_map_count() - 1,
            r == (old(self).spec_map_count() == 1),
            final(self).spec_size() == old(self).spec_size(),
            final(self).spec_memory_type() == old(self).spec_memory_type(),
            final(self).spec_memory_properties() == old(self).spec_memory_properties(),
    {
        self.map_count = self.map_count - 1;
        self.map_count == 0
    }
}

} // verus!
