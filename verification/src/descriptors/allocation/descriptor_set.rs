use vstd::prelude::*;
use crate::descriptors::layout::DescriptorBinding;

verus! {

/// What a descriptor write points the descriptor at: a buffer range or an image
/// view. The wrapper's write infos implement it.
pub trait WriteInfo {}

/// A write of one descriptor: array element `index` of binding `binding`.
#[derive(Debug, Clone)]
pub struct DescriptorWrite<I: WriteInfo> {
    pub binding: u32,
    pub index: u32,
    pub write_info: I,
}

/// Where a descriptor write lands, as the driver takes it (the target part of
/// `VkWriteDescriptorSet`).
#[derive(Debug, Clone, Copy, PartialEq, Eq, Hash, Structural)]
pub struct RawWriteTarget {
    pub dst_binding: u32,
    pub dst_array_element: u32,
    pub descriptor_count: u32,
    pub descriptor_type: i32,
}

/// Places each write in a set with layout bindings `bindings`: one descriptor at
/// the write's binding and index, of the kind the layout gives that binding.
/// Every write must name a binding of the layout.
pub fn descriptor_write_targets<I: WriteInfo>(
    bindings: &[DescriptorBinding],
    writes: &[DescriptorWrite<I>],
) -> (r: Vec<RawWriteTarget>)
    requires
        forall|i: int| 0 <= i < writes@.len() ==> (#[trigger] writes@[i]).binding < bindings@.len(),
    ensures
        r@.len() == writes@.len(),
        forall|i: int|
            0 <= i < writes@.len() ==> #[trigger] r@[i] == (RawWriteTarget {
                dst_binding: writes@[i].binding,
                dst_array_element: writes@[i].index,
                descriptor_count: 1,
                descriptor_type: bindings@[writes@[i].binding as int].ty.spec_raw(),
            }),
{
    let mut targets: Vec<RawWriteTarget> = Vec::new();
    let mut i: usize = 0;
    while i < writes.len()
        invariant
            0 <= i <= writes@.len(),
            targets@.len() == i,
            forall|k: int| 0 <= k < writes@.len() ==> (#[trigger] writes@[k]).binding < bindings@.len(),
            forall|j: int|
                0 <= j < i ==> #[trigger] targets@[j] == (RawWriteTarget {
                    dst_binding: writes@[j].binding,
                    dst_array_element: writes@[j].index,
                    descriptor_count: 1,
                    descriptor_type: bindings@[writes@[j].binding as int].ty.spec_raw(),
                }),
        decreases writes@.len() - i,
    {
        let write = &writes[i];
        let binding = bindings[write.binding as usize];
        targets.push(RawWriteTarget {
            dst_binding: write.binding,
            dst_array_element: write.index,
            descriptor_count: 1,
            descriptor_type: binding.ty.as_raw(),
        });
        i = i + 1;
    }
    targets
}

} // verus!
