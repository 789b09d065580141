use qubicon_vulkan::commands::command_buffers::copy::BufferImageCopy;
use qubicon_vulkan::commands::command_buffers::memory_barrier::{AccessFlags, MemoryBarrier, PipelineBarrierDependencyFlags};
use qubicon_vulkan::commands::command_buffers::CommandBufferUsageFlags;
use qubicon_vulkan::descriptors::allocation::descriptor_set::{descriptor_write_targets, DescriptorWrite, WriteInfo};
use qubicon_vulkan::descriptors::allocation::{raw_pool_sizes, DescriptorPoolSize, DescriptorPoolTracker, RawDescriptorPoolSize};
use qubicon_vulkan::descriptors::layout::raw_layout_bindings;
use qubicon_vulkan::descriptors::{DescriptorBinding, DescriptorType};
use qubicon_vulkan::memory::resources::image_view::{ImageAspect, ImageSubresourceLayers};
use qubicon_vulkan::shaders::PipelineShaderStageFlags;

#[derive(Debug, Clone)]
struct TestWrite;

impl WriteInfo for TestWrite {}

fn bindings() -> Vec<DescriptorBinding> {
    vec![
        DescriptorBinding { shader_stage_flags: PipelineShaderStageFlags::COMPUTE(), ty: DescriptorType::StorageBuffer, count: 1 },
        DescriptorBinding { shader_stage_flags: PipelineShaderStageFlags::FRAGMENT(), ty: DescriptorType::CombinedImageSampler, count: 4 },
    ]
}

#[test]
fn layout_bindings_are_numbered_by_position() {
    let raw = raw_layout_bindings(&bindings());
    assert_eq!(raw.len(), 2);
    assert_eq!((raw[0].binding, raw[0].descriptor_type, raw[0].descriptor_count, raw[0].stage_flags), (0, 7, 1, 0x20));
    assert_eq!((raw[1].binding, raw[1].descriptor_type, raw[1].descriptor_count, raw[1].stage_flags), (1, 1, 4, 0x10));
}

#[test]
fn writes_take_their_kind_from_the_layout() {
    let writes = vec![
        DescriptorWrite { binding: 1, index: 3, write_info: TestWrite },
        DescriptorWrite { binding: 0, index: 0, write_info: TestWrite },
    ];
    let targets = descriptor_write_targets(&bindings(), &writes);
    assert_eq!((targets[0].dst_binding, targets[0].dst_array_element, targets[0].descriptor_count, targets[0].descriptor_type), (1, 3, 1, 1));
    assert_eq!((targets[1].dst_binding, targets[1].dst_array_element, targets[1].descriptor_count, targets[1].descriptor_type), (0, 0, 1, 7));
}

#[test]
fn pool_tracking_starts_full() {
    let sizes = vec![
        DescriptorPoolSize { ty: DescriptorType::UniformBuffer, count: 8 },
        DescriptorPoolSize { ty: DescriptorType::Sampler, count: 2 },
    ];
    let tracker = DescriptorPoolTracker::new(&sizes);
    assert_eq!(tracker.sets_tracker, 0);
    assert_eq!(tracker.pool_sizes_tracker, vec![8, 2]);
    let raw = raw_pool_sizes(&sizes);
    assert_eq!(raw, vec![RawDescriptorPoolSize { ty: 6, descriptor_count: 8 }, RawDescriptorPoolSize { ty: 0, descriptor_count: 2 }]);
    assert_eq!(DescriptorPoolSize::from_raw(raw[1]), sizes[1]);
}

#[test]
fn copies_and_barriers_in_raw_form() {
    let copy = BufferImageCopy {
        buffer_offset: 64,
        buffer_row_length: 16,
        buffer_image_height: 16,
        image_subresource: ImageSubresourceLayers { aspect_mask: ImageAspect::COLOR(), mip_level: 0, array_layers: 0..1 },
        image_offset: (1, 2, 3),
        image_extent: (16, 16, 1),
    };
    let raw = copy.clone().to_raw();
    assert_eq!(raw.buffer_offset, 64);
    assert_eq!(raw.image_subresource.layer_count, 1);
    assert_eq!(raw.image_offset, (1, 2, 3));
    assert_eq!(raw.image_extent, (16, 16, 1));

    let barrier = MemoryBarrier {
        src_access_mask: AccessFlags::TRANSFER_WRITE(),
        dst_access_mask: AccessFlags::SHADER_READ().union(AccessFlags::HOST_READ()),
    };
    let raw = barrier.to_raw();
    assert_eq!((raw.src_access_mask, raw.dst_access_mask), (0x1000, 0x2020));
    assert_eq!(PipelineBarrierDependencyFlags::VIEW_LOCAL().as_raw(), 4);
    assert_eq!(CommandBufferUsageFlags::ONE_TIME_SUBMIT().bits(), ash::vk::CommandBufferUsageFlags::ONE_TIME_SUBMIT.as_raw());
}
