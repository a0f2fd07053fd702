//! The records and constants of the API, as plain values.
//!
//! Each record holds what the driver reads from a request or writes into an
//! answer. Flags are bit masks over the constants below; structure type tags
//! are the integers that a request carries in its first field.

use crate::dispatch::CommandPool;
use vstd::prelude::*;

verus! {

/// Tag of an instance creation request.
pub const STRUCTURE_TYPE_INSTANCE_CREATE_INFO: u32 = 1;

/// Tag of a device creation request.
pub const STRUCTURE_TYPE_DEVICE_CREATE_INFO: u32 = 3;

/// Tag of a command pool creation request.
pub const STRUCTURE_TYPE_COMMAND_POOL_CREATE_INFO: u32 = 39;

/// Tag of a command buffer allocation request.
pub const STRUCTURE_TYPE_COMMAND_BUFFER_ALLOCATE_INFO: u32 = 40;

/// Size of the name field of an extension record, the closing zero included.
pub const MAX_EXTENSION_NAME_SIZE: usize = 256;

/// Number of memory type slots in a memory report.
pub const MAX_MEMORY_TYPES: usize = 32;

/// Number of memory heap slots in a memory report.
pub const MAX_MEMORY_HEAPS: usize = 16;

/// The queues of a family take drawing commands.
pub const QUEUE_GRAPHICS_BIT: u32 = 0x1;

/// The queues of a family take compute commands.
pub const QUEUE_COMPUTE_BIT: u32 = 0x2;

/// The queues of a family take copy commands.
pub const QUEUE_TRANSFER_BIT: u32 = 0x4;

/// Memory of the type is the fastest for the device.
pub const MEMORY_PROPERTY_DEVICE_LOCAL_BIT: u32 = 0x1;

/// Memory of the type can be mapped by the host.
pub const MEMORY_PROPERTY_HOST_VISIBLE_BIT: u32 = 0x2;

/// Writes of host and device to memory of the type are seen without a flush.
pub const MEMORY_PROPERTY_HOST_COHERENT_BIT: u32 = 0x4;

/// Memory of the type is cached on the host.
pub const MEMORY_PROPERTY_HOST_CACHED_BIT: u32 = 0x8;

/// The heap is memory of the device.
pub const MEMORY_HEAP_DEVICE_LOCAL_BIT: u32 = 0x1;

/// Images are presented as they are.
pub const SURFACE_TRANSFORM_IDENTITY_BIT_KHR: u32 = 0x1;

/// The alpha of an image is ignored when it is presented.
pub const COMPOSITE_ALPHA_OPAQUE_BIT_KHR: u32 = 0x1;

/// The colours of an image are taken as multiplied by its alpha already.
pub const COMPOSITE_ALPHA_PRE_MULTIPLIED_BIT_KHR: u32 = 0x2;

/// An image can be copied from.
pub const IMAGE_USAGE_TRANSFER_SRC_BIT: u32 = 0x1;

/// An image can be copied to.
pub const IMAGE_USAGE_TRANSFER_DST_BIT: u32 = 0x2;

/// An image can be sampled by a shader.
pub const IMAGE_USAGE_SAMPLED_BIT: u32 = 0x4;

/// An image can be drawn to.
pub const IMAGE_USAGE_COLOR_ATTACHMENT_BIT: u32 = 0x10;

/// The format that names no format.
pub const FORMAT_UNDEFINED: u32 = 0;

/// The sRGB colour space with its nonlinear transfer function.
pub const COLORSPACE_SRGB_NONLINEAR_KHR: u32 = 0;

/// A table of host allocation callbacks. The driver never calls through one:
/// it only sees whether a request brings one along.
#[derive(Clone, Copy, Debug, PartialEq, Eq, Structural)]
pub struct AllocationCallbacks {
    /// The word that the host wants handed back to its callbacks.
    pub user_data: usize,
}

/// A presentation surface of the window system.
#[derive(Clone, Copy, Debug, PartialEq, Eq, Structural)]
pub struct SurfaceKHR {
    pub handle: u64,
}

/// What an application says of itself when it asks for an instance.
#[derive(Clone, Copy, Debug, PartialEq, Eq, Structural)]
pub struct ApplicationInfo {
    /// The packed API version that the application was written for; zero
    /// where it names none.
    pub api_version: u32,
}

/// A request for an instance.
#[derive(Debug)]
pub struct InstanceCreateInfo {
    pub s_type: u32,
    pub application_info: Option<ApplicationInfo>,
    /// The extensions to switch on, by name, in the order asked for.
    pub enabled_extension_names: Vec<String>,
}

/// A request for a logical device.
#[derive(Clone, Copy, Debug, PartialEq, Eq, Structural)]
pub struct DeviceCreateInfo {
    pub s_type: u32,
}

/// A request for a command pool.
#[derive(Clone, Copy, Debug, PartialEq, Eq, Structural)]
pub struct CommandPoolCreateInfo {
    pub s_type: u32,
    /// Whether further structures are chained to the request.
    pub chained: bool,
}

/// Whether a command buffer is submitted by itself or run from another.
#[derive(Clone, Copy, Debug, PartialEq, Eq, Structural)]
pub enum CommandBufferLevel {
    Primary,
    Secondary,
}

/// A request for command buffers. It holds the pool that the buffers are
/// to join.
#[derive(Debug)]
pub struct CommandBufferAllocateInfo<'a> {
    pub s_type: u32,
    /// Whether further structures are chained to the request.
    pub chained: bool,
    pub command_pool: &'a mut CommandPool,
    pub level: CommandBufferLevel,
    pub command_buffer_count: u32,
}

/// The kind of hardware behind a physical device.
#[derive(Clone, Copy, Debug, PartialEq, Eq, Structural)]
pub enum PhysicalDeviceType {
    Other,
    IntegratedGpu,
    DiscreteGpu,
    VirtualGpu,
    Cpu,
}

/// How finished images reach the screen.
#[derive(Clone, Copy, Debug, PartialEq, Eq, Structural)]
pub enum PresentModeKHR {
    Immediate,
    Mailbox,
    Fifo,
    FifoRelaxed,
}

#[derive(Clone, Copy, Debug, PartialEq, Eq, Structural)]
pub struct Extent2D {
    pub width: u32,
    pub height: u32,
}

#[derive(Clone, Copy, Debug, PartialEq, Eq, Structural)]
pub struct Extent3D {
    pub width: u32,
    pub height: u32,
    pub depth: u32,
}

/// An extension as it is handed to a caller: the name in a field of fixed
/// size, closed by a zero and padded with zeros, and the version.
#[derive(Clone, Copy, Debug, PartialEq, Eq)]
pub struct ExtensionProperties {
    pub extension_name: [u8; 256],
    pub spec_version: u32,
}

#[derive(Clone, Copy, Debug, PartialEq, Eq, Structural)]
pub struct QueueFamilyProperties {
    pub queue_flags: u32,
    pub queue_count: u32,
    pub timestamp_valid_bits: u32,
    pub min_image_transfer_granularity: Extent3D,
}

#[derive(Clone, Copy, Debug, PartialEq, Eq, Structural)]
pub struct MemoryType {
    pub property_flags: u32,
    pub heap_index: u32,
}

#[derive(Clone, Copy, Debug, PartialEq, Eq, Structural)]
pub struct MemoryHeap {
    pub size: u64,
    pub flags: u32,
}

/// The memory report of a physical device: as many of the leading slots of
/// each array are in use as the count beside it says.
#[derive(Clone, Copy, Debug, PartialEq, Eq)]
pub struct PhysicalDeviceMemoryProperties {
    pub memory_type_count: u32,
    pub memory_types: [MemoryType; 32],
    pub memory_heap_count: u32,
    pub memory_heaps: [MemoryHeap; 16],
}

#[derive(Clone, Copy, Debug, PartialEq, Eq, Structural)]
pub struct SurfaceFormatKHR {
    pub format: u32,
    pub color_space: u32,
}

#[derive(Clone, Copy, Debug, PartialEq, Eq, Structural)]
pub struct SurfaceCapabilitiesKHR {
    pub min_image_count: u32,
    pub max_image_count: u32,
    pub current_extent: Extent2D,
    pub min_image_extent: Extent2D,
    pub max_image_extent: Extent2D,
    pub max_image_array_layers: u32,
    pub supported_transforms: u32,
    pub current_transform: u32,
    pub supported_composite_alpha: u32,
    pub supported_usage_flags: u32,
}

/// The ceilings that the driver reports. Every limit of the API that has no
/// field here is reported as zero.
#[derive(Clone, Copy, Debug, PartialEq, Eq, Structural)]
pub struct PhysicalDeviceLimits {
    pub max_image_dimension_1d: u32,
    pub max_image_dimension_2d: u32,
    pub max_image_dimension_3d: u32,
    pub max_image_dimension_cube: u32,
    pub max_image_array_layers: u32,
    pub max_texel_buffer_elements: u32,
    pub max_uniform_buffer_range: u32,
    pub max_storage_buffer_range: u32,
    pub max_push_constants_size: u32,
    pub max_memory_allocation_count: u32,
    pub max_sampler_allocation_count: u32,
    pub buffer_image_granularity: u64,
    pub sparse_address_space_size: u64,
    pub max_bound_descriptor_sets: u32,
    pub max_per_stage_descriptor_samplers: u32,
    pub max_per_stage_descriptor_uniform_buffers: u32,
    pub max_per_stage_descriptor_storage_buffers: u32,
    pub max_per_stage_descriptor_sampled_images: u32,
    pub max_per_stage_descriptor_storage_images: u32,
    pub max_per_stage_descriptor_input_attachments: u32,
    pub max_per_stage_resources: u32,
    pub max_descriptor_set_samplers: u32,
    pub max_descriptor_set_uniform_buffers: u32,
    pub max_descriptor_set_uniform_buffers_dynamic: u32,
    pub max_descriptor_set_storage_buffers: u32,
    pub max_descriptor_set_storage_buffers_dynamic: u32,
    pub max_descriptor_set_sampled_images: u32,
    pub max_descriptor_set_storage_images: u32,
    pub max_descriptor_set_input_attachments: u32,
    pub max_vertex_input_attributes: u32,
    pub max_vertex_input_bindings: u32,
    pub max_vertex_input_attribute_offset: u32,
    pub max_vertex_input_binding_stride: u32,
    pub max_vertex_output_components: u32,
    pub max_tessellation_generation_level: u32,
    pub max_tessellation_patch_size: u32,
    pub max_tessellation_control_per_vertex_input_components: u32,
}

/// What the driver reports of a physical device.
#[derive(Clone, Copy, Debug, PartialEq, Eq, Structural)]
pub struct PhysicalDeviceProperties {
    pub api_version: u32,
    pub driver_version: u32,
    pub vendor_id: u32,
    pub device_id: u32,
    pub device_type: PhysicalDeviceType,
    pub limits: PhysicalDeviceLimits,
}

/// The optional features of the API, one flag each, in the order in which
/// the API lists them.
#[derive(Clone, Copy, Debug, PartialEq, Eq, Structural)]
pub struct PhysicalDeviceFeatures {
    pub robust_buffer_access: bool,
    pub full_draw_index_uint32: bool,
    pub image_cube_array: bool,
    pub independent_blend: bool,
    pub geometry_shader: bool,
    pub tessellation_shader: bool,
    pub sample_rate_shading: bool,
    pub dual_src_blend: bool,
    pub logic_op: bool,
    pub multi_draw_indirect: bool,
    pub draw_indirect_first_instance: bool,
    pub depth_clamp: bool,
    pub depth_bias_clamp: bool,
    pub fill_mode_non_solid: bool,
    pub depth_bounds: bool,
    pub wide_lines: bool,
    pub large_points: bool,
    pub alpha_to_one: bool,
    pub multi_viewport: bool,
    pub sampler_anisotropy: bool,
    pub texture_compression_etc2: bool,
    pub texture_compression_astc_ldr: bool,
    pub texture_compression_bc: bool,
    pub occlusion_query_precise: bool,
    pub pipeline_statistics_query: bool,
    pub vertex_pipeline_stores_and_atomics: bool,
    pub fragment_stores_and_atomics: bool,
    pub shader_tessellation_and_geometry_point_size: bool,
    pub shader_image_gather_extended: bool,
    pub shader_storage_image_extended_formats: bool,
    pub shader_storage_image_multisample: bool,
    pub shader_storage_image_read_without_format: bool,
    pub shader_storage_image_write_without_format: bool,
    pub shader_uniform_buffer_array_dynamic_indexing: bool,
    pub shader_sampled_image_array_dynamic_indexing: bool,
    pub shader_storage_buffer_array_dynamic_indexing: bool,
    pub shader_storage_image_array_dynamic_indexing: bool,
    pub shader_clip_distance: bool,
    pub shader_cull_distance: bool,
    pub shader_float64: bool,
    pub shader_int64: bool,
    pub shader_int16: bool,
    pub shader_resource_residency: bool,
    pub shader_resource_min_lod: bool,
    pub sparse_binding: bool,
    pub sparse_residency_buffer: bool,
    pub sparse_residency_image_2d: bool,
    pub sparse_residency_image_3d: bool,
    pub sparse_residency_2_samples: bool,
    pub sparse_residency_4_samples: bool,
    pub sparse_residency_8_samples: bool,
    pub sparse_residency_16_samples: bool,
    pub sparse_residency_aliased: bool,
    pub variable_multisample_rate: bool,
    pub inherited_queries: bool,
}

/// The feature record with every flag off.
pub open spec fn no_features() -> PhysicalDeviceFeatures {
    PhysicalDeviceFeatures {
        robust_buffer_access: false,
        full_draw_index_uint32: false,
        image_cube_array: false,
        independent_blend: false,
        geometry_shader: false,
        tessellation_shader: false,
        sample_rate_shading: false,
        dual_src_blend: false,
        logic_op: false,
        multi_draw_indirect: false,
        draw_indirect_first_instance: false,
        depth_clamp: false,
        depth_bias_clamp: false,
        fill_mode_non_solid: false,
        depth_bounds: false,
        wide_lines: false,
        large_points: false,
        alpha_to_one: false,
        multi_viewport: false,
        sampler_anisotropy: false,
        texture_compression_etc2: false,
        texture_compression_astc_ldr: false,
        texture_compression_bc: false,
        occlusion_query_precise: false,
        pipeline_statistics_query: false,
        vertex_pipeline_stores_and_atomics: false,
        fragment_stores_and_atomics: false,
        shader_tessellation_and_geometry_point_size: false,
        shader_image_gather_extended: false,
        shader_storage_image_extended_formats: false,
        shader_storage_image_multisample: false,
        shader_storage_image_read_without_format: false,
        shader_storage_image_write_without_format: false,
        shader_uniform_buffer_array_dynamic_indexing: false,
        shader_sampled_image_array_dynamic_indexing: false,
        shader_storage_buffer_array_dynamic_indexing: false,
        shader_storage_image_array_dynamic_indexing: false,
        shader_clip_distance: false,
        shader_cull_distance: false,
        shader_float64: false,
        shader_int64: false,
        shader_int16: false,
        shader_resource_residency: false,
        shader_resource_min_lod: false,
        sparse_binding: false,
        sparse_residency_buffer: false,
        sparse_residency_image_2d: false,
        sparse_residency_image_3d: false,
        sparse_residency_2_samples: false,
        sparse_residency_4_samples: false,
        sparse_residency_8_samples: false,
        sparse_residency_16_samples: false,
        sparse_residency_aliased: false,
        variable_multisample_rate: false,
        inherited_queries: false,
    }
}

impl Default for PhysicalDeviceFeatures {
    /// Every feature off.
    fn default() -> (r: PhysicalDeviceFeatures)
        ensures
            r == no_features(),
    {
        PhysicalDeviceFeatures {
            robust_buffer_access: false,
            full_draw_index_uint32: false,
            image_cube_array: false,
            independent_blend: false,
            geometry_shader: false,
            tessellation_shader: false,
            sample_rate_shading: false,
            dual_src_blend: false,
            logic_op: false,
            multi_draw_indirect: false,
            draw_indirect_first_instance: false,
            depth_clamp: false,
            depth_bias_clamp: false,
            fill_mode_non_solid: false,
            depth_bounds: false,
            wide_lines: false,
            large_points: false,
            alpha_to_one: false,
            multi_viewport: false,
            sampler_anisotropy: false,
            texture_compression_etc2: false,
            texture_compression_astc_ldr: false,
            texture_compression_bc: false,
            occlusion_query_precise: false,
            pipeline_statistics_query: false,
            vertex_pipeline_stores_and_atomics: false,
            fragment_stores_and_atomics: false,
            shader_tessellation_and_geometry_point_size: false,
            shader_image_gather_extended: false,
            shader_storage_image_extended_formats: false,
            shader_storage_image_multisample: false,
            shader_storage_image_read_without_format: false,
            shader_storage_image_write_without_format: false,
            shader_uniform_buffer_array_dynamic_indexing: false,
            shader_sampled_image_array_dynamic_indexing: false,
            shader_storage_buffer_array_dynamic_indexing: false,
            shader_storage_image_array_dynamic_indexing: false,
            shader_clip_distance: false,
            shader_cull_distance: false,
            shader_float64: false,
            shader_int64: false,
            shader_int16: false,
            shader_resource_residency: false,
            shader_resource_min_lod: false,
            sparse_binding: false,
            sparse_residency_buffer: false,
            sparse_residency_image_2d: false,
            sparse_residency_image_3d: false,
            sparse_residency_2_samples: false,
            sparse_residency_4_samples: false,
            sparse_residency_8_samples: false,
            sparse_residency_16_samples: false,
            sparse_residency_aliased: false,
            variable_multisample_rate: false,
            inherited_queries: false,
        }
    }
}

} // verus!
