use qubicon_vulkan::memory::resources::buffer::{self, BufferCreateFlags, BufferCreateInfo, BufferUsageFlags};
use qubicon_vulkan::memory::resources::format::Format;
use qubicon_vulkan::memory::resources::image::{
    calc_mip_levels_for_resolution, create_flags_supported, image_extent, image_mip_levels, map_texel_count,
    texel_count_fits_usize,
    Extent3D, ImageCreateFlags, ImageCreateInfo, ImageLayout, ImageMapError, ImageSampleCountFlags, ImageTiling,
    ImageType, ImageUsageFlags,
};
use qubicon_vulkan::memory::resources::image_view::{
    ComponentMapping, ComponentSwizzle, ImageAspect, ImageSubresourceLayers, ImageSubresourceRange,
    ImageViewCreateInfo, ImageViewType,
};
use qubicon_vulkan::memory::resources::ResourceCreationError;
use qubicon_vulkan::error::{Error, VkError};

#[test]
fn mip_chain_lengths() {
    assert_eq!(calc_mip_levels_for_resolution(150, 150), 8);
    assert_eq!(calc_mip_levels_for_resolution(16, 16), 5);
    assert_eq!(calc_mip_levels_for_resolution(1024, 1), 11);
    assert_eq!(calc_mip_levels_for_resolution(1, 1023), 10);
    assert_eq!(calc_mip_levels_for_resolution(1, 1), 1);
    assert_eq!(calc_mip_levels_for_resolution(0, 0), 1);
    assert_eq!(calc_mip_levels_for_resolution(u32::MAX, 3), 32);
}

#[test]
fn extents_and_levels_by_type() {
    assert_eq!(image_extent(ImageType::Type1D { width: 7 }), Extent3D { width: 7, height: 1, depth: 1 });
    assert_eq!(
        image_extent(ImageType::Type2D { width: 7, height: 9, miplevels_enabled: true }),
        Extent3D { width: 7, height: 9, depth: 1 }
    );
    assert_eq!(
        image_extent(ImageType::Type3D { width: 7, height: 9, depth: 2 }),
        Extent3D { width: 7, height: 9, depth: 2 }
    );
    assert_eq!(image_mip_levels(ImageType::Type2D { width: 150, height: 150, miplevels_enabled: true }), 8);
    assert_eq!(image_mip_levels(ImageType::Type2D { width: 150, height: 150, miplevels_enabled: false }), 1);
    assert_eq!(image_mip_levels(ImageType::Type3D { width: 150, height: 150, depth: 150 }), 1);
}

#[test]
fn only_cube_compatibility_is_supported() {
    assert!(create_flags_supported(ImageCreateFlags::empty()));
    assert!(create_flags_supported(ImageCreateFlags::CUBE_COMPATIBLE()));
    assert!(!create_flags_supported(ImageCreateFlags::MUTABLE_FORMAT()));
    assert!(buffer::create_flags_supported(BufferCreateFlags::empty()));
    assert!(!buffer::create_flags_supported(BufferCreateFlags::SPARSE_BINDING()));
}

fn image_info(tiling: ImageTiling, image_type: ImageType) -> ImageCreateInfo {
    ImageCreateInfo {
        usage_flags: ImageUsageFlags::SAMPLED(),
        create_flags: ImageCreateFlags::empty(),
        sample_count_flags: ImageSampleCountFlags::TYPE_1(),
        initial_layout: ImageLayout::General,
        image_tiling: tiling,
        image_type,
        array_layers: 1,
        mipmaps_enabled: false,
        format: Format::R8G8B8A8_SRGB(),
    }
}

#[test]
fn image_mapping_checks() {
    let linear = image_info(ImageTiling::Linear, ImageType::Type2D { width: 16, height: 16, miplevels_enabled: false });
    assert_eq!(map_texel_count::<()>(&linear, Format::R8G8B8A8_SRGB()), Ok(256));
    assert_eq!(map_texel_count::<()>(&linear, Format::R8G8B8A8_UINT()), Err(ImageMapError::FormatMismatch));
    let optimal = image_info(ImageTiling::Optimal, ImageType::Type1D { width: 16 });
    assert_eq!(map_texel_count::<()>(&optimal, Format::R8G8B8A8_SRGB()), Err(ImageMapError::NotLinearLayout));
    let volume = image_info(ImageTiling::Linear, ImageType::Type3D { width: 4, height: 5, depth: 6 });
    assert_eq!(map_texel_count::<()>(&volume, Format::R8G8B8A8_SRGB()), Ok(120));
}

#[test]
fn buffer_mappings_count_whole_elements() {
    assert_eq!(buffer::mapped_element_count(1024, 4), Some(256));
    assert_eq!(buffer::mapped_element_count(1022, 4), None);
    assert_eq!(buffer::mapped_element_count(0, 16), Some(0));
    let info = BufferCreateInfo { usage_flags: BufferUsageFlags::TRANSFER_SRC(), size: 1024, ..Default::default() };
    assert_eq!(info.usage_flags.bits(), 1);
    assert!(info.create_flags.is_empty());
}

#[test]
fn subresource_ranges_in_raw_form() {
    let range = ImageSubresourceRange::default();
    let raw = range.to_raw();
    assert_eq!((raw.aspect_mask, raw.base_mip_level, raw.level_count, raw.base_array_layer, raw.layer_count), (1, 0, 1, 0, 1));
    let range = ImageSubresourceRange {
        aspect_mask: ImageAspect::DEPTH().union(ImageAspect::STENCIL()),
        mip_levels: 2..6,
        array_layers: 5..3,
    };
    let raw = range.clone().to_raw();
    assert_eq!((raw.aspect_mask, raw.base_mip_level, raw.level_count, raw.base_array_layer, raw.layer_count), (6, 2, 4, 5, 0));
    let layers = ImageSubresourceLayers { aspect_mask: ImageAspect::COLOR(), mip_level: 3, array_layers: 0..1 };
    let raw = layers.to_raw();
    assert_eq!((raw.aspect_mask, raw.mip_level, raw.base_array_layer, raw.layer_count), (1, 3, 0, 1));
}

#[test]
fn view_defaults() {
    assert_eq!(ImageAspect::default(), ImageAspect::COLOR());
    assert_eq!(ComponentSwizzle::default(), ComponentSwizzle::Identity);
    assert_eq!(ImageViewType::default(), ImageViewType::Type2D);
    let info = ImageViewCreateInfo::default();
    assert_eq!(info.components, ComponentMapping::default());
    assert_eq!(info.subresource_range, ImageSubresourceRange::default());
    assert_eq!(ImageSubresourceLayers::default().array_layers, 0..1);
    assert_eq!(ImageAspect::from_raw(0x10f).bits(), 0xf);
    assert_eq!(ImageAspect::METADATA().as_raw(), 8);
}

#[test]
fn resource_errors() {
    let e: ResourceCreationError<VkError> = ResourceCreationError::from_creation_error(Error::Vulkan(VkError::DeviceLost));
    assert_eq!(e, ResourceCreationError::CreationError(Error::Vulkan(VkError::DeviceLost)));
    let e: ResourceCreationError<VkError> = ResourceCreationError::from_allocation_error(VkError::OutOfDeviceMemory);
    assert_eq!(e, ResourceCreationError::AllocationError(VkError::OutOfDeviceMemory));
}

#[test]
fn flag_sets() {
    let usage = ImageUsageFlags::SAMPLED().union(ImageUsageFlags::STORAGE());
    assert!(usage.contains(ImageUsageFlags::SAMPLED()));
    assert!(!usage.contains(ImageUsageFlags::TRANSFER_SRC()));
    assert_eq!(usage.difference(ImageUsageFlags::SAMPLED()), ImageUsageFlags::STORAGE());
    assert_eq!(ImageUsageFlags::from_bits_truncate(0xffff).bits(), 0xff);
    assert_eq!(ImageUsageFlags::from_bits_retain(0xffff).bits(), 0xffff);
    assert!(ImageUsageFlags::empty().is_empty());
    assert_eq!(ImageSampleCountFlags::TYPE_64().bits(), 0x40);
}

#[test]
fn texel_counts_that_fit_the_address_space() {
    assert!(texel_count_fits_usize(ImageType::Type1D { width: u32::MAX }));
    assert!(texel_count_fits_usize(ImageType::Type2D { width: 1024, height: 1024, miplevels_enabled: false }));
    assert!(texel_count_fits_usize(ImageType::Type3D { width: 64, height: 64, depth: 64 }));
    let huge = ImageType::Type3D { width: u32::MAX, height: u32::MAX, depth: u32::MAX };
    assert_eq!(texel_count_fits_usize(huge), usize::MAX as u128 >= (u32::MAX as u128).pow(3));
    let wide = ImageType::Type2D { width: u32::MAX, height: u32::MAX, miplevels_enabled: false };
    assert_eq!(texel_count_fits_usize(wide), usize::MAX as u128 >= (u32::MAX as u128) * (u32::MAX as u128));
}

#[test]
fn aspects_survive_their_raw_values() {
    for bits in 0u8..=0xf {
        let aspect = ImageAspect::from_bits_retain(bits);
        assert_eq!(ImageAspect::from_raw(aspect.as_raw()), aspect);
    }
}

#[test]
fn mip_levels_count_the_bits_of_the_larger_side() {
    for side in [1u32, 2, 3, 150, 1024, 1025, 65535, 65536, (1 << 25) - 1, u32::MAX] {
        assert_eq!(calc_mip_levels_for_resolution(side, 1), 32 - side.leading_zeros());
        assert_eq!(calc_mip_levels_for_resolution(1, side), calc_mip_levels_for_resolution(side, 1));
    }
    assert_eq!(calc_mip_levels_for_resolution(0, 0), 1);
    let mut last = 0;
    for side in 0u32..5000 {
        let levels = calc_mip_levels_for_resolution(side, 7);
        assert!(levels >= last);
        last = levels;
    }
}
