use vstd::prelude::*;
use crate::shaders::PipelineShaderStageFlags;
use super::DescriptorType;

verus! {

/// One binding of a descriptor set layout: which stages see it, the kind of its
/// descriptors and how many there are.
#[derive(Debug, Clone, Copy, PartialEq, Eq, Hash, Structural)]
pub struct DescriptorBinding {
    pub shader_stage_flags: PipelineShaderStageFlags,
    pub ty: DescriptorType,
    pub count: u32,
}

/// A binding as the driver takes it (`VkDescriptorSetLayoutBinding`, without
/// immutable samplers).
#[derive(Debug, Clone, Copy, PartialEq, Eq, Hash, Structural)]
pub struct RawDescriptorBinding {
    pub binding: u32,
    pub descriptor_type: i32,
    pub descriptor_count: u32,
    pub stage_flags: u32,
}

/// The raw form of `b` placed at binding number `idx`.
pub open spec fn spec_raw_binding(b: DescriptorBinding, idx: u32) -> RawDescriptorBinding {
    RawDescriptorBinding {
        binding: idx,
        descriptor_type: b.ty.spec_raw(),
        descriptor_count: b.count,
        stage_flags: b.shader_stage_flags@,
    }
}

impl DescriptorBinding {
    /// The binding as the driver takes it, at binding number `idx`.
    pub fn into_raw_binding_with_index(self, idx: u32) -> (r: RawDescriptorBinding)
        ensures
            r == spec_raw_binding(self, idx),
    {
        RawDescriptorBinding {
            binding: idx,
            descriptor_type: self.ty.as_raw(),
            descriptor_count: self.count,
            stage_flags: self.shader_stage_flags.bits(),
        }
    }
}

/// The bindings of a descriptor set layout; binding `i` gets binding number `i`.
#[derive(Debug, Default, Clone, PartialEq, Eq, Hash)]
pub struct DescriptorSetLayoutCreateInfo {
    pub bindings: Vec<DescriptorBinding>,
}

/// The bindings of a layout as the driver takes them: each at the binding number
/// of its position.
pub fn raw_layout_bindings(bindings: &[DescriptorBinding]) -> (r: Vec<RawDescriptorBinding>)
    ensures
        r@.len() == bindings@.len(),
        forall|i: int|
            0 <= i < bindings@.len() ==> #[trigger] r@[i] == spec_raw_binding(bindings@[i], i as u32),
{
    let mut raw: Vec<RawDescriptorBinding> = Vec::new();
    let mut i: usize = 0;
    while i < bindings.len()
        invariant
            0 <= i <= bindings@.len(),
            raw@.len() == i,
            forall|j: int| 0 <= j < i ==> #[trigger] raw@[j] == spec_raw_binding(bindings@[j], j as u32),
        decreases bindings@.len() - i,
    {
        raw.push(bindings[i].into_raw_binding_with_index(i as u32));
        i = i + 1;
    }
    raw
}

} // verus!
