//! What a physical device reports about itself.

pub mod queue_info;
pub mod memory_properties;
pub mod format_properties;
pub mod properties;
pub mod features;

pub use queue_info::{QueueFamily, QueueFamilyCapabilities};
pub use memory_properties::{
    DeviceMemoryProperties, MemoryHeap, MemoryHeapProperties, MemoryType, MemoryTypeProperties,
};
pub use format_properties::{FormatFeatures, FormatProperties, ImageFormatProperties};
pub use properties::{DeviceLimits, DeviceProperties, DeviceType};
pub use features::DeviceFeatures;

use vstd::prelude::*;

verus! {

/// What the wrapper knows of a physical device: the driver's handle for it and
/// what it reported about its queue families, features, properties and memory.
pub struct PhysicalDevice {
    handle: u64,
    queue_families: Vec<QueueFamily>,
    features: DeviceFeatures,
    properties: DeviceProperties,
    memory_properties: DeviceMemoryProperties,
}

impl PhysicalDevice {
    pub closed spec fn spec_handle(&self) -> u64 {
        self.handle
    }

    pub closed spec fn spec_queue_families(&self) -> Seq<QueueFamily> {
        self.queue_families@
    }

    pub closed spec fn spec_features(&self) -> DeviceFeatures {
        self.features
    }

    pub closed spec fn spec_properties(&self) -> DeviceProperties {
        self.properties
    }

    pub closed spec fn spec_memory_properties(&self) -> DeviceMemoryProperties {
        self.memory_properties
    }

    /// Puts together what the driver reported for the device with raw handle `handle`.
    pub fn new(
        handle: u64,
        queue_families: Vec<QueueFamily>,
        features: DeviceFeatures,
        properties: DeviceProperties,
        memory_properties: DeviceMemoryProperties,
    ) -> (r: Self)
        ensures
            r.spec_handle() == handle,
            r.spec_queue_families() == queue_families@,
            r.spec_features() == features,
            r.spec_properties() == properties,
            r.spec_memory_properties() == memory_properties,
    {
        PhysicalDevice { handle, queue_families, features, properties, memory_properties }
    }

    /// The driver's raw handle of the device.
    pub fn handle(&self) -> (r: u64)
        ensures
            r == self.spec_handle(),
    {
        self.handle
    }

    pub fn features(&self) -> (r: &DeviceFeatures)
        ensures
            *r == self.spec_features(),
    {
        &self.features
    }

    pub fn properties(&self) -> (r: &DeviceProperties)
        ensures
            *r == self.spec_properties(),
    {
        &self.properties
    }

    pub fn memory_properties(&self) -> (r: &DeviceMemoryProperties)
        ensures
            *r == self.spec_memory_properties(),
    {
        &self.memory_properties
    }

    /// The queue families, indexed by family index.
    pub fn queue_family_infos(&self) -> (r: &[QueueFamily])
        ensures
            r@ == self.spec_queue_families(),
    {
        self.queue_families.as_slice()
    }
}

} // verus!
