use ash::vk;
use qubicon_vulkan::commands::command_buffers::command_buffer_builder::{IndexType, PipelineBindPoint};
use qubicon_vulkan::descriptors::DescriptorType;
use qubicon_vulkan::error::{Error, ValidationError, VkError};
use qubicon_vulkan::instance::physical_device::DeviceType;
use qubicon_vulkan::memory::allocation::error::AllocationError;
use qubicon_vulkan::memory::resources::image::{ImageLayout, ImageTiling, ImageType};
use qubicon_vulkan::memory::resources::image_view::{ComponentSwizzle, ImageViewType};
use qubicon_vulkan::queue::present_results;

#[test]
fn vk_error_codes_follow_ash() {
    let cases = [
        (vk::Result::NOT_READY, VkError::NotReady),
        (vk::Result::TIMEOUT, VkError::Timeout),
        (vk::Result::EVENT_SET, VkError::EventSet),
        (vk::Result::EVENT_RESET, VkError::EventReset),
        (vk::Result::ERROR_OUT_OF_HOST_MEMORY, VkError::OutOfHostMemory),
        (vk::Result::ERROR_OUT_OF_DEVICE_MEMORY, VkError::OutOfDeviceMemory),
        (vk::Result::ERROR_INITIALIZATION_FAILED, VkError::InitializationFailed),
        (vk::Result::ERROR_DEVICE_LOST, VkError::DeviceLost),
        (vk::Result::ERROR_MEMORY_MAP_FAILED, VkError::MemoryMapFailed),
        (vk::Result::ERROR_FEATURE_NOT_PRESENT, VkError::FeatureNotPresent),
        (vk::Result::ERROR_INCOMPATIBLE_DRIVER, VkError::IncompatibleDriver),
        (vk::Result::ERROR_TOO_MANY_OBJECTS, VkError::TooManyObjects),
        (vk::Result::ERROR_FORMAT_NOT_SUPPORTED, VkError::FormatNotSupported),
        (vk::Result::ERROR_FRAGMENTED_POOL, VkError::FragmentedPool),
        (vk::Result::ERROR_UNKNOWN, VkError::Unknown),
    ];
    for (code, error) in cases {
        assert_eq!(VkError::try_from_code(code.as_raw()), Ok(error));
    }
}

#[test]
fn non_error_codes_are_refused() {
    for code in [
        vk::Result::SUCCESS,
        vk::Result::INCOMPLETE,
        vk::Result::ERROR_LAYER_NOT_PRESENT,
        vk::Result::ERROR_EXTENSION_NOT_PRESENT,
        vk::Result::ERROR_OUT_OF_POOL_MEMORY,
    ] {
        assert_eq!(VkError::try_from_code(code.as_raw()), Err(()));
    }
}

#[test]
fn errors_convert_into_error() {
    assert_eq!(Error::from(VkError::DeviceLost), Error::Vulkan(VkError::DeviceLost));
    assert_eq!(
        Error::from(ValidationError::InvalidDevice),
        Error::Validation(ValidationError::InvalidDevice)
    );
}

#[test]
fn allocation_error_codes_follow_ash() {
    assert_eq!(
        AllocationError::from_result_code(vk::Result::ERROR_OUT_OF_DEVICE_MEMORY.as_raw()),
        AllocationError::OutOfDeviceMemory
    );
    assert_eq!(
        AllocationError::from_result_code(vk::Result::ERROR_OUT_OF_HOST_MEMORY.as_raw()),
        AllocationError::OutOfHostMemory
    );
}

#[test]
fn image_layout_codes_follow_ash() {
    let cases = [
        (ImageLayout::Undefined, vk::ImageLayout::UNDEFINED),
        (ImageLayout::General, vk::ImageLayout::GENERAL),
        (ImageLayout::ColorAttachmentOptimal, vk::ImageLayout::COLOR_ATTACHMENT_OPTIMAL),
        (ImageLayout::DepthStencilAttachmentOptimal, vk::ImageLayout::DEPTH_STENCIL_ATTACHMENT_OPTIMAL),
        (ImageLayout::DepthStencilReadOnlyOptimal, vk::ImageLayout::DEPTH_STENCIL_READ_ONLY_OPTIMAL),
        (ImageLayout::ShaderReadOnlyOptimal, vk::ImageLayout::SHADER_READ_ONLY_OPTIMAL),
        (ImageLayout::TransferSrcOptimal, vk::ImageLayout::TRANSFER_SRC_OPTIMAL),
        (ImageLayout::TransferDstOptimal, vk::ImageLayout::TRANSFER_DST_OPTIMAL),
        (ImageLayout::Preinitialized, vk::ImageLayout::PREINITIALIZED),
        (ImageLayout::DepthAttachmentOptimal, vk::ImageLayout::DEPTH_ATTACHMENT_OPTIMAL),
        (ImageLayout::StencilAttachmentOptimal, vk::ImageLayout::STENCIL_ATTACHMENT_OPTIMAL),
        (ImageLayout::DepthReadOnlyOptimal, vk::ImageLayout::DEPTH_READ_ONLY_OPTIMAL),
        (ImageLayout::StencilReadOnlyOptimal, vk::ImageLayout::STENCIL_READ_ONLY_OPTIMAL),
    ];
    for (layout, raw) in cases {
        assert_eq!(layout.as_raw(), raw.as_raw());
    }
}

#[test]
fn tiling_and_type_codes_follow_ash() {
    assert_eq!(ImageTiling::Linear.as_raw(), vk::ImageTiling::LINEAR.as_raw());
    assert_eq!(ImageTiling::Optimal.as_raw(), vk::ImageTiling::OPTIMAL.as_raw());
    assert_eq!(ImageType::Type1D { width: 4 }.as_raw(), vk::ImageType::TYPE_1D.as_raw());
    assert_eq!(
        ImageType::Type2D { width: 4, height: 4, miplevels_enabled: true }.as_raw(),
        vk::ImageType::TYPE_2D.as_raw()
    );
    assert_eq!(
        ImageType::Type3D { width: 4, height: 4, depth: 4 }.as_raw(),
        vk::ImageType::TYPE_3D.as_raw()
    );
}

#[test]
fn swizzle_codes_follow_ash() {
    let cases = [
        (ComponentSwizzle::Identity, vk::ComponentSwizzle::IDENTITY),
        (ComponentSwizzle::Zero, vk::ComponentSwizzle::ZERO),
        (ComponentSwizzle::One, vk::ComponentSwizzle::ONE),
        (ComponentSwizzle::R, vk::ComponentSwizzle::R),
        (ComponentSwizzle::G, vk::ComponentSwizzle::G),
        (ComponentSwizzle::B, vk::ComponentSwizzle::B),
    ];
    for (swizzle, raw) in cases {
        assert_eq!(swizzle.as_raw(), raw.as_raw());
        assert_eq!(ComponentSwizzle::from_raw(raw.as_raw()), swizzle);
    }
}

#[test]
fn view_type_codes_follow_ash() {
    let cases = [
        (ImageViewType::Type1D, vk::ImageViewType::TYPE_1D),
        (ImageViewType::Type2D, vk::ImageViewType::TYPE_2D),
        (ImageViewType::Type3D, vk::ImageViewType::TYPE_3D),
        (ImageViewType::Cube, vk::ImageViewType::CUBE),
        (ImageViewType::Type1DArray, vk::ImageViewType::TYPE_1D_ARRAY),
        (ImageViewType::Type2DArray, vk::ImageViewType::TYPE_2D_ARRAY),
        (ImageViewType::CubeArray, vk::ImageViewType::CUBE_ARRAY),
    ];
    for (view_type, raw) in cases {
        assert_eq!(view_type.as_raw(), raw.as_raw());
    }
}

#[test]
fn descriptor_type_codes_follow_ash() {
    let cases = [
        (DescriptorType::Sampler, vk::DescriptorType::SAMPLER),
        (DescriptorType::CombinedImageSampler, vk::DescriptorType::COMBINED_IMAGE_SAMPLER),
        (DescriptorType::SampledImage, vk::DescriptorType::SAMPLED_IMAGE),
        (DescriptorType::StorageImage, vk::DescriptorType::STORAGE_IMAGE),
        (DescriptorType::UniformTexelBuffer, vk::DescriptorType::UNIFORM_TEXEL_BUFFER),
        (DescriptorType::StorageTexelBuffer, vk::DescriptorType::STORAGE_TEXEL_BUFFER),
        (DescriptorType::UniformBuffer, vk::DescriptorType::UNIFORM_BUFFER),
        (DescriptorType::StorageBuffer, vk::DescriptorType::STORAGE_BUFFER),
        (DescriptorType::UniformBufferDynamic, vk::DescriptorType::UNIFORM_BUFFER_DYNAMIC),
        (DescriptorType::StorageBufferDynamic, vk::DescriptorType::STORAGE_BUFFER_DYNAMIC),
        (DescriptorType::InputAttachment, vk::DescriptorType::INPUT_ATTACHMENT),
    ];
    for (ty, raw) in cases {
        assert_eq!(ty.as_raw(), raw.as_raw());
        assert_eq!(DescriptorType::from_raw(raw.as_raw()), ty);
    }
}

#[test]
fn bind_point_and_index_codes_follow_ash() {
    assert_eq!(PipelineBindPoint::Graphics.as_raw(), vk::PipelineBindPoint::GRAPHICS.as_raw());
    assert_eq!(PipelineBindPoint::Compute.as_raw(), vk::PipelineBindPoint::COMPUTE.as_raw());
    assert_eq!(PipelineBindPoint::from_raw(vk::PipelineBindPoint::COMPUTE.as_raw()), PipelineBindPoint::Compute);
    assert_eq!(IndexType::U16.as_raw(), vk::IndexType::UINT16.as_raw());
    assert_eq!(IndexType::U32.as_raw(), vk::IndexType::UINT32.as_raw());
    assert_eq!(IndexType::from_raw(vk::IndexType::UINT16.as_raw()), IndexType::U16);
}

#[test]
fn device_type_codes_follow_ash() {
    let cases = [
        (vk::PhysicalDeviceType::OTHER, DeviceType::Other),
        (vk::PhysicalDeviceType::INTEGRATED_GPU, DeviceType::IntegratedGpu),
        (vk::PhysicalDeviceType::DISCRETE_GPU, DeviceType::DiscreteGpu),
        (vk::PhysicalDeviceType::VIRTUAL_GPU, DeviceType::VirtualGpu),
        (vk::PhysicalDeviceType::CPU, DeviceType::Cpu),
    ];
    for (raw, ty) in cases {
        assert_eq!(DeviceType::from_raw(raw.as_raw()), ty);
        assert_eq!(ty.code() as i32, raw.as_raw());
    }
}

#[test]
fn bind_points_and_index_types_survive_their_raw_values() {
    for p in [PipelineBindPoint::Graphics, PipelineBindPoint::Compute] {
        assert_eq!(PipelineBindPoint::from_raw(p.as_raw()), p);
    }
    for t in [IndexType::U16, IndexType::U32] {
        assert_eq!(IndexType::from_raw(t.as_raw()), t);
    }
}

#[test]
fn present_results_follow_their_codes() {
    let codes = [0, vk::Result::ERROR_DEVICE_LOST.as_raw(), 0, vk::Result::ERROR_OUT_OF_HOST_MEMORY.as_raw()];
    assert_eq!(
        present_results(&codes),
        vec![
            Ok(()),
            Err(Error::Vulkan(VkError::DeviceLost)),
            Ok(()),
            Err(Error::Vulkan(VkError::OutOfHostMemory)),
        ]
    );
    assert!(present_results(&[]).is_empty());
}
