use vstd::prelude::*;
use arrayvec::ArrayString;

verus! {

/// The kind of a physical device.
#[derive(Debug, Clone, Copy, PartialEq, Eq, Structural)]
pub enum DeviceType {
    Cpu,
    IntegratedGpu,
    DiscreteGpu,
    VirtualGpu,
    Other,
}

/// The device type whose number (`VkPhysicalDeviceType`) is `code`.
pub open spec fn spec_device_type_of(code: u8) -> DeviceType {
    if code == 0 {
        DeviceType::Other
    } else if code == 1 {
        DeviceType::IntegratedGpu
    } else if code == 2 {
        DeviceType::DiscreteGpu
    } else if code == 3 {
        DeviceType::VirtualGpu
    } else {
        DeviceType::Cpu
    }
}

impl DeviceType {
    /// The number of the type, as `VkPhysicalDeviceType` numbers it.
    pub open spec fn spec_code(self) -> u8 {
        match self {
            DeviceType::Other => 0,
            DeviceType::IntegratedGpu => 1,
            DeviceType::DiscreteGpu => 2,
            DeviceType::VirtualGpu => 3,
            DeviceType::Cpu => 4,
        }
    }

    /// The number of the type, as `VkPhysicalDeviceType` numbers it.
    pub fn code(self) -> (r: u8)
        ensures
            r == self.spec_code(),
    {
        match self {
            DeviceType::Other => 0,
            DeviceType::IntegratedGpu => 1,
            DeviceType::DiscreteGpu => 2,
            DeviceType::VirtualGpu => 3,
            DeviceType::Cpu => 4,
        }
    }

    /// The device type of a raw `VkPhysicalDeviceType`, read through its low byte.
    /// Only the five types that Vulkan 1.0 knows are accepted.
    pub fn from_raw(raw: i32) -> (r: DeviceType)
        requires
            (raw as u8) <= 4,
        ensures
            r == spec_device_type_of(raw as u8),
    {
        let code = raw as u8;
        if code == 0 {
            DeviceType::Other
        } else if code == 1 {
            DeviceType::IntegratedGpu
        } else if code == 2 {
            DeviceType::DiscreteGpu
        } else if code == 3 {
            DeviceType::VirtualGpu
        } else {
            DeviceType::Cpu
        }
    }
}

/// A device type survives the trip through its number.
pub proof fn lemma_device_type_code_round_trip(t: DeviceType)
    ensures
        spec_device_type_of(t.spec_code()) == t,
        t.spec_code() <= 4,
{
}

#[verifier::external_type_specification]
#[verifier::external_body]
pub struct ExArrayString<const CAP: usize>(ArrayString<CAP>);

/// The limits of a physical device. Floating-point limits are kept as the bit
/// patterns of their `f32` values.
#[derive(Clone, Copy, PartialEq, Eq, Debug, Default)]
pub struct DeviceLimits {
    pub max_image_dimension1_d: u32,
    pub max_image_dimension2_d: u32,
    pub max_image_dimension3_d: u32,
    pub max_image_dimension_cube: u32,
    pub max_image_array_layers: u32,
    pub max_texel_buffer_elements: u32,
    pub max_uniform_buffer_range: u32,
    pub max_storage_buffer_range: u32,
    pub max_push_constants_size: u32,
    pub max_memory_allocation_count: u32,
    pub max_sampler_allocation_count: u32,
    pub max_bound_descriptor_sets: u32,
    pub max_per_stage_descriptor_samplers: u32,
    pub max_per_stage_descriptor_uniform_buffers: u32,
    pub max_per_stage_descriptor_storage_buffers: u32,
    pub max_per_stage_descriptor_sampled_images: u32,
    pub max_per_stage_descriptor_storage_images: u32,
    pub max_per_stage_descriptor_input_attachments: u32,
    pub max_per_stage_resources: u32,
    pub max_descriptor_set_samplers: u32,
    pub max_descriptor_set_uniform_buffers: u32,
    pub max_descriptor_set_uniform_buffers_dynamic: u32,
    pub max_descriptor_set_storage_buffers: u32,
    pub max_descriptor_set_storage_buffers_dynamic: u32,
    pub max_descriptor_set_sampled_images: u32,
    pub max_descriptor_set_storage_images: u32,
    pub max_descriptor_set_input_attachments: u32,
    pub max_vertex_input_attributes: u32,
    pub max_vertex_input_bindings: u32,
    pub max_vertex_input_attribute_offset: u32,
    pub max_vertex_input_binding_stride: u32,
    pub max_vertex_output_components: u32,
    pub max_tessellation_generation_level: u32,
    pub max_tessellation_patch_size: u32,
    pub max_tessellation_control_per_vertex_input_components: u32,
    pub max_tessellation_control_per_vertex_output_components: u32,
    pub max_tessellation_control_per_patch_output_components: u32,
    pub max_tessellation_control_total_output_components: u32,
    pub max_tessellation_evaluation_input_components: u32,
    pub max_tessellation_evaluation_output_components: u32,
    pub max_geometry_shader_invocations: u32,
    pub max_geometry_input_components: u32,
    pub max_geometry_output_components: u32,
    pub max_geometry_output_vertices: u32,
    pub max_geometry_total_output_components: u32,
    pub max_fragment_input_components: u32,
    pub max_fragment_output_attachments: u32,
    pub max_fragment_dual_src_attachments: u32,
    pub max_fragment_combined_output_resources: u32,
    pub max_compute_shared_memory_size: u32,
    pub max_compute_work_group_count: [u32; 3],
    pub max_compute_work_group_invocations: u32,
    pub max_compute_work_group_size: [u32; 3],
    pub sub_pixel_precision_bits: u32,
    pub sub_texel_precision_bits: u32,
    pub mipmap_precision_bits: u32,
    pub max_draw_indexed_index_value: u32,
    pub max_draw_indirect_count: u32,
    /// The bit pattern of the `f32` limit.
    pub max_sampler_lod_bias: u32,
    /// The bit pattern of the `f32` limit.
    pub max_sampler_anisotropy: u32,
    pub max_viewports: u32,
    pub max_viewport_dimensions: [u32; 2],
    /// The bit patterns of the two `f32` bounds.
    pub viewport_bounds_range: [u32; 2],
    pub viewport_sub_pixel_bits: u32,
    pub min_memory_map_alignment: usize,
    pub min_texel_offset: i32,
    pub max_texel_offset: u32,
    pub min_texel_gather_offset: i32,
    pub max_texel_gather_offset: u32,
    /// The bit pattern of the `f32` limit.
    pub min_interpolation_offset: u32,
    /// The bit pattern of the `f32` limit.
    pub max_interpolation_offset: u32,
    pub sub_pixel_interpolation_offset_bits: u32,
    pub max_framebuffer_width: u32,
    pub max_framebuffer_height: u32,
    pub max_framebuffer_layers: u32,
    pub max_color_attachments: u32,
    pub max_sample_mask_words: u32,
    pub timestamp_compute_and_graphics: bool,
    /// The bit pattern of the `f32` limit.
    pub timestamp_period: u32,
    pub max_clip_distances: u32,
    pub max_cull_distances: u32,
    pub max_combined_clip_and_cull_distances: u32,
    pub discrete_queue_priorities: u32,
    /// The bit patterns of the two `f32` bounds.
    pub point_size_range: [u32; 2],
    /// The bit patterns of the two `f32` bounds.
    pub line_width_range: [u32; 2],
    /// The bit pattern of the `f32` limit.
    pub point_size_granularity: u32,
    /// The bit pattern of the `f32` limit.
    pub line_width_granularity: u32,
    pub strict_lines: bool,
    pub standard_sample_locations: bool,
}

/// Identity and limits of a physical device.
#[derive(Debug, Clone, Copy, PartialEq, Eq)]
pub struct DeviceProperties {
    pub driver_version: u32,
    pub vendor_id: u32,
    pub device_id: u32,
    pub device_type: DeviceType,
    pub device_name: ArrayString<256>,
    pub pipeline_chache_uuid: [u8; 16],
    pub limits: DeviceLimits,
}

} // verus!
