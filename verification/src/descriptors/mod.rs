//! Descriptor types, set layouts, pools and writes.

pub mod layout;
pub mod allocation;

pub use layout::{DescriptorBinding, DescriptorSetLayoutCreateInfo};
pub use allocation::{DescriptorPoolCreateInfo, DescriptorPoolSize};

use vstd::prelude::*;

verus! {

/// The kind of resource a descriptor refers to (Vulkan 1.0 kinds).
#[derive(Debug, Clone, Copy, PartialEq, Eq, Hash, Structural)]
pub enum DescriptorType {
    Sampler,
    CombinedImageSampler,
    SampledImage,
    StorageImage,
    UniformTexelBuffer,
    StorageTexelBuffer,
    UniformBuffer,
    StorageBuffer,
    UniformBufferDynamic,
    StorageBufferDynamic,
    InputAttachment,
}

/// The descriptor type whose raw `VkDescriptorType` is `raw`, for the Vulkan 1.0 kinds.
pub open spec fn spec_descriptor_type_of(raw: i32) -> DescriptorType {
    if raw == 0 {
        DescriptorType::Sampler
    } else if raw == 1 {
        DescriptorType::CombinedImageSampler
    } else if raw == 2 {
        DescriptorType::SampledImage
    } else if raw == 3 {
        DescriptorType::StorageImage
    } else if raw == 4 {
        DescriptorType::UniformTexelBuffer
    } else if raw == 5 {
        DescriptorType::StorageTexelBuffer
    } else if raw == 6 {
        DescriptorType::UniformBuffer
    } else if raw == 7 {
        DescriptorType::StorageBuffer
    } else if raw == 8 {
        DescriptorType::UniformBufferDynamic
    } else if raw == 9 {
        DescriptorType::StorageBufferDynamic
    } else {
        DescriptorType::InputAttachment
    }
}

impl DescriptorType {
    pub open spec fn spec_raw(self) -> i32 {
        match self {
            DescriptorType::Sampler => 0,
            DescriptorType::CombinedImageSampler => 1,
            DescriptorType::SampledImage => 2,
            DescriptorType::StorageImage => 3,
            DescriptorType::UniformTexelBuffer => 4,
            DescriptorType::StorageTexelBuffer => 5,
            DescriptorType::UniformBuffer => 6,
            DescriptorType::StorageBuffer => 7,
            DescriptorType::UniformBufferDynamic => 8,
            DescriptorType::StorageBufferDynamic => 9,
            DescriptorType::InputAttachment => 10,
        }
    }

    /// The raw `VkDescriptorType`.
    pub fn as_raw(self) -> (r: i32)
        ensures
            r == self.spec_raw(),
    {
        match self {
            DescriptorType::Sampler => 0,
            DescriptorType::CombinedImageSampler => 1,
            DescriptorType::SampledImage => 2,
            DescriptorType::StorageImage => 3,
            DescriptorType::UniformTexelBuffer => 4,
            DescriptorType::StorageTexelBuffer => 5,
            DescriptorType::UniformBuffer => 6,
            DescriptorType::StorageBuffer => 7,
            DescriptorType::UniformBufferDynamic => 8,
            DescriptorType::StorageBufferDynamic => 9,
            DescriptorType::InputAttachment => 10,
        }
    }

    /// The descriptor type of a raw `VkDescriptorType`; kinds of later Vulkan
    /// versions are not accepted.
    pub fn from_raw(raw: i32) -> (r: Self)
        requires
            0 <= raw <= 10,
        ensures
            r == spec_descriptor_type_of(raw),
    {
        if raw == 0 {
            DescriptorType::Sampler
        } else if raw == 1 {
            DescriptorType::CombinedImageSampler
        } else if raw == 2 {
            DescriptorType::SampledImage
        } else if raw == 3 {
            DescriptorType::StorageImage
        } else if raw == 4 {
            DescriptorType::UniformTexelBuffer
        } else if raw == 5 {
            DescriptorType::StorageTexelBuffer
        } else if raw == 6 {
            DescriptorType::UniformBuffer
        } else if raw == 7 {
            DescriptorType::StorageBuffer
        } else if raw == 8 {
            DescriptorType::UniformBufferDynamic
        } else if raw == 9 {
            DescriptorType::StorageBufferDynamic
        } else {
            DescriptorType::InputAttachment
        }
    }
}

/// A descriptor type survives the trip through its raw value, and every accepted
/// raw value survives the trip back.
pub proof fn lemma_descriptor_type_round_trip(t: DescriptorType, raw: i32)
    ensures
        0 <= t.spec_raw() <= 10,
        spec_descriptor_type_of(t.spec_raw()) == t,
        0 <= raw <= 10 ==> spec_descriptor_type_of(raw).spec_raw() == raw,
{
}

} // verus!
