//! What the driver reports of its physical device, and how a logical device
//! is made on it.
//!
//! There is one physical device, the host processor, and nothing it reports
//! depends on anything: each report is a constant.

use crate::dispatch::{device_creation, Device, PhysicalDevice, Queue, ICD_LOADER_MAGIC};
use crate::result::VkResult;
use crate::two_call::{answer, fill_outcome, filled, written};
use crate::version::{pack, Version};
use crate::vk;
use vstd::prelude::*;

verus! {

/// The size of the one memory heap: one gibibyte.
pub const HEAP_SIZE: u64 = 0x4000_0000;

/// The limits that the driver reports.
pub open spec fn reported_limits() -> vk::PhysicalDeviceLimits {
    vk::PhysicalDeviceLimits {
        max_image_dimension_1d: 0x4000,
        max_image_dimension_2d: 0x4000,
        max_image_dimension_3d: 0x4000,
        max_image_dimension_cube: 0x4000,
        max_image_array_layers: 0x800,
        max_texel_buffer_elements: 0x800_0000,
        max_uniform_buffer_range: 0xffff_ffff,
        max_storage_buffer_range: 0xffff_ffff,
        max_push_constants_size: 0,
        max_memory_allocation_count: 0xffff_ffff,
        max_sampler_allocation_count: 0x1_0000,
        buffer_image_granularity: 64,
        sparse_address_space_size: 0,
        max_bound_descriptor_sets: 0,
        max_per_stage_descriptor_samplers: 64,
        max_per_stage_descriptor_uniform_buffers: 64,
        max_per_stage_descriptor_storage_buffers: 64,
        max_per_stage_descriptor_sampled_images: 64,
        max_per_stage_descriptor_storage_images: 64,
        max_per_stage_descriptor_input_attachments: 64,
        max_per_stage_resources: 128,
        max_descriptor_set_samplers: 256,
        max_descriptor_set_uniform_buffers: 256,
        max_descriptor_set_uniform_buffers_dynamic: 256,
        max_descriptor_set_storage_buffers: 256,
        max_descriptor_set_storage_buffers_dynamic: 256,
        max_descriptor_set_sampled_images: 256,
        max_descriptor_set_storage_images: 256,
        max_descriptor_set_input_attachments: 256,
        max_vertex_input_attributes: 32,
        max_vertex_input_bindings: 32,
        max_vertex_input_attribute_offset: 2047,
        max_vertex_input_binding_stride: 2048,
        max_vertex_output_components: 128,
        max_tessellation_generation_level: 0,
        max_tessellation_patch_size: 0,
        max_tessellation_control_per_vertex_input_components: 0,
    }
}

/// The properties that the driver reports: API version 1.0.5, driver
/// version 1, no vendor and no device number, a device of the kind
/// "processor", and the limits above.
pub open spec fn reported_properties() -> vk::PhysicalDeviceProperties {
    vk::PhysicalDeviceProperties {
        api_version: pack(1, 0, 5) as u32,
        driver_version: 1,
        vendor_id: 0,
        device_id: 0,
        device_type: vk::PhysicalDeviceType::Cpu,
        limits: reported_limits(),
    }
}

/// The features that the driver reports: robust buffer access, and no other.
pub open spec fn reported_features() -> vk::PhysicalDeviceFeatures {
    vk::PhysicalDeviceFeatures { robust_buffer_access: true, ..vk::no_features() }
}

/// The one queue family: graphics, compute and transfer, one queue, time
/// stamps of 64 bits, transfers of any granularity.
pub open spec fn the_queue_family() -> vk::QueueFamilyProperties {
    vk::QueueFamilyProperties {
        queue_flags: vk::QUEUE_GRAPHICS_BIT | vk::QUEUE_COMPUTE_BIT | vk::QUEUE_TRANSFER_BIT,
        queue_count: 1,
        timestamp_valid_bits: 64,
        min_image_transfer_granularity: vk::Extent3D { width: 1, height: 1, depth: 1 },
    }
}

/// The queue families of the device.
pub open spec fn queue_families() -> Seq<vk::QueueFamilyProperties> {
    seq![the_queue_family()]
}

/// The one memory type: local to the device, and visible to the host,
/// coherent and cached there; it lies in heap zero.
pub open spec fn the_memory_type() -> vk::MemoryType {
    vk::MemoryType {
        property_flags: vk::MEMORY_PROPERTY_DEVICE_LOCAL_BIT | vk::MEMORY_PROPERTY_HOST_VISIBLE_BIT
            | vk::MEMORY_PROPERTY_HOST_COHERENT_BIT | vk::MEMORY_PROPERTY_HOST_CACHED_BIT,
        heap_index: 0,
    }
}

/// The one memory heap: one gibibyte, local to the device.
pub open spec fn the_memory_heap() -> vk::MemoryHeap {
    vk::MemoryHeap { size: HEAP_SIZE, flags: vk::MEMORY_HEAP_DEVICE_LOCAL_BIT }
}

/// The surface formats of the device: one, with no format named, in the
/// nonlinear sRGB colour space.
pub open spec fn surface_formats() -> Seq<vk::SurfaceFormatKHR> {
    seq![
        vk::SurfaceFormatKHR {
            format: vk::FORMAT_UNDEFINED,
            color_space: vk::COLORSPACE_SRGB_NONLINEAR_KHR,
        },
    ]
}

/// The present modes of the device, in the order in which they are listed.
pub open spec fn present_modes() -> Seq<vk::PresentModeKHR> {
    seq![vk::PresentModeKHR::Fifo, vk::PresentModeKHR::Mailbox]
}

/// What the driver reports of a surface: one to four images, of one pixel
/// by one at the least and now, of any size at the most, with one layer,
/// untransformed, opaque or with premultiplied alpha, to be copied from and
/// to, sampled and drawn to.
pub open spec fn reported_surface_capabilities() -> vk::SurfaceCapabilitiesKHR {
    vk::SurfaceCapabilitiesKHR {
        min_image_count: 1,
        max_image_count: 4,
        current_extent: vk::Extent2D { width: 1, height: 1 },
        min_image_extent: vk::Extent2D { width: 1, height: 1 },
        max_image_extent: vk::Extent2D { width: 0xffff_ffff, height: 0xffff_ffff },
        max_image_array_layers: 1,
        supported_transforms: vk::SURFACE_TRANSFORM_IDENTITY_BIT_KHR,
        current_transform: vk::SURFACE_TRANSFORM_IDENTITY_BIT_KHR,
        supported_composite_alpha: vk::COMPOSITE_ALPHA_OPAQUE_BIT_KHR
            | vk::COMPOSITE_ALPHA_PRE_MULTIPLIED_BIT_KHR,
        supported_usage_flags: vk::IMAGE_USAGE_TRANSFER_SRC_BIT | vk::IMAGE_USAGE_SAMPLED_BIT
            | vk::IMAGE_USAGE_TRANSFER_DST_BIT | vk::IMAGE_USAGE_COLOR_ATTACHMENT_BIT,
    }
}

/// The flag sets of the reports, as numbers.
pub proof fn lemma_reported_flags()
    ensures
        the_queue_family().queue_flags == 0x7,
        the_memory_type().property_flags == 0xf,
        the_memory_heap().flags == 0x1,
        reported_surface_capabilities().supported_composite_alpha == 0x3,
        reported_surface_capabilities().supported_usage_flags == 0x17,
        reported_properties().api_version == 0x40_0005,
{
    assert(0x1u32 | 0x2u32 | 0x4u32 == 0x7u32) by (bit_vector);
    assert(0x1u32 | 0x2u32 | 0x4u32 | 0x8u32 == 0xfu32) by (bit_vector);
    assert(0x1u32 | 0x2u32 == 0x3u32) by (bit_vector);
    assert(0x1u32 | 0x4u32 | 0x2u32 | 0x10u32 == 0x17u32) by (bit_vector);
}

impl PhysicalDevice {
    /// The number of the vendor: none is registered, so zero.
    pub fn vendor_id(&self) -> (r: u32)
        ensures
            r == 0,
    {
        0
    }

    /// The number of the device: none is registered, so zero.
    pub fn device_id(&self) -> (r: u32)
        ensures
            r == 0,
    {
        0
    }
}

/// Reports the properties of the physical device.
pub fn get_physical_device_properties(
    phys_device: &PhysicalDevice,
    properties: &mut vk::PhysicalDeviceProperties,
) -> (r: VkResult)
    ensures
        r == VkResult::Success,
        *final(properties) == reported_properties(),
{
    properties.api_version = Version::new(1, 0, 5).repr();
    properties.driver_version = 1;
    properties.vendor_id = phys_device.vendor_id();
    properties.device_id = phys_device.device_id();
    properties.device_type = vk::PhysicalDeviceType::Cpu;
    let limits = vk::PhysicalDeviceLimits {
        max_image_dimension_1d: 0x4000,
        max_image_dimension_2d: 0x4000,
        max_image_dimension_3d: 0x4000,
        max_image_dimension_cube: 0x4000,
        max_image_array_layers: 0x800,
        max_texel_buffer_elements: 0x800_0000,
        max_uniform_buffer_range: u32::MAX,
        max_storage_buffer_range: u32::MAX,
        max_push_constants_size: 0,
        max_memory_allocation_count: u32::MAX,
        max_sampler_allocation_count: 0x1_0000,
        buffer_image_granularity: 64,
        sparse_address_space_size: 0,
        max_bound_descriptor_sets: 0,
        max_per_stage_descriptor_samplers: 64,
        max_per_stage_descriptor_uniform_buffers: 64,
        max_per_stage_descriptor_storage_buffers: 64,
        max_per_stage_descriptor_sampled_images: 64,
        max_per_stage_descriptor_storage_images: 64,
        max_per_stage_descriptor_input_attachments: 64,
        max_per_stage_resources: 128,
        max_descriptor_set_samplers: 256,
        max_descriptor_set_uniform_buffers: 256,
        max_descriptor_set_uniform_buffers_dynamic: 256,
        max_descriptor_set_storage_buffers: 256,
        max_descriptor_set_storage_buffers_dynamic: 256,
        max_descriptor_set_sampled_images: 256,
        max_descriptor_set_storage_images: 256,
        max_descriptor_set_input_attachments: 256,
        max_vertex_input_attributes: 32,
        max_vertex_input_bindings: 32,
        max_vertex_input_attribute_offset: 2047,
        max_vertex_input_binding_stride: 2048,
        max_vertex_output_components: 128,
        max_tessellation_generation_level: 0,
        max_tessellation_patch_size: 0,
        max_tessellation_control_per_vertex_input_components: 0,
    };
    properties.limits = limits;
    VkResult::Success
}

/// Lists the queue families of the physical device by the two-call
/// protocol. The buffer, where there is one, has to hold the entry that is
/// written.
pub fn get_physical_device_queue_family_properties(
    phys_device: &PhysicalDevice,
    property_count: &mut u32,
    properties: Option<&mut [vk::QueueFamilyProperties]>,
) -> (r: VkResult)
    requires
        properties matches Some(b) ==> b@.len() >= written(
            *old(property_count) as int,
            queue_families().len() as int,
        ),
    ensures
        properties is None ==> r == VkResult::Success && *final(property_count)
            == queue_families().len(),
        properties matches Some(b) ==> {
            &&& r == fill_outcome(*old(property_count) as int, queue_families().len() as int)
            &&& *final(property_count) == written(
                *old(property_count) as int,
                queue_families().len() as int,
            )
            &&& final(b)@ == filled(queue_families(), *old(property_count) as int, b@)
        },
{
    let mut families: Vec<vk::QueueFamilyProperties> = Vec::new();
    families.push(
        vk::QueueFamilyProperties {
            queue_flags: vk::QUEUE_GRAPHICS_BIT | vk::QUEUE_COMPUTE_BIT | vk::QUEUE_TRANSFER_BIT,
            queue_count: 1,
            timestamp_valid_bits: 64,
            min_image_transfer_granularity: vk::Extent3D { width: 1, height: 1, depth: 1 },
        },
    );
    answer(families.as_slice(), property_count, properties)
}

/// Reports the features of the physical device.
pub fn get_physical_device_features(
    phys_device: &PhysicalDevice,
    features: &mut vk::PhysicalDeviceFeatures,
) -> (r: VkResult)
    ensures
        r == VkResult::Success,
        *final(features) == reported_features(),
{
    *features = vk::PhysicalDeviceFeatures { robust_buffer_access: true, ..Default::default() };
    VkResult::Success
}

/// Reports the memory of the physical device: one type and one heap, in the
/// first slot of their arrays. The other slots are left as they are.
pub fn get_physical_device_memory_properties(
    phys_device: &PhysicalDevice,
    memory_properties: &mut vk::PhysicalDeviceMemoryProperties,
)
    ensures
        final(memory_properties).memory_type_count == 1,
        final(memory_properties).memory_types@ == old(memory_properties).memory_types@.update(
            0,
            the_memory_type(),
        ),
        final(memory_properties).memory_heap_count == 1,
        final(memory_properties).memory_heaps@ == old(memory_properties).memory_heaps@.update(
            0,
            the_memory_heap(),
        ),
{
    memory_properties.memory_type_count = 1;
    memory_properties.memory_types[0] = vk::MemoryType {
        property_flags: vk::MEMORY_PROPERTY_DEVICE_LOCAL_BIT | vk::MEMORY_PROPERTY_HOST_VISIBLE_BIT
            | vk::MEMORY_PROPERTY_HOST_COHERENT_BIT | vk::MEMORY_PROPERTY_HOST_CACHED_BIT,
        heap_index: 0,
    };
    memory_properties.memory_heap_count = 1;
    memory_properties.memory_heaps[0] = vk::MemoryHeap {
        size: HEAP_SIZE,
        flags: vk::MEMORY_HEAP_DEVICE_LOCAL_BIT,
    };
}

/// Reports whether a queue family can present to a surface: any can, to any.
pub fn get_physical_device_surface_support_khr(
    phys_device: &PhysicalDevice,
    queue_family_index: u32,
    surface: vk::SurfaceKHR,
    supported: &mut bool,
) -> (r: VkResult)
    ensures
        r == VkResult::Success,
        *final(supported),
{
    *supported = true;
    VkResult::Success
}

/// Lists the formats of a surface by the two-call protocol. The buffer,
/// where there is one, has to hold the entry that is written.
pub fn get_physical_device_surface_formats_khr(
    phys_device: &PhysicalDevice,
    surface: vk::SurfaceKHR,
    surface_format_count: &mut u32,
    surface_formats: Option<&mut [vk::SurfaceFormatKHR]>,
) -> (r: VkResult)
    requires
        surface_formats matches Some(b) ==> b@.len() >= written(
            *old(surface_format_count) as int,
            self::surface_formats().len() as int,
        ),
    ensures
        surface_formats is None ==> r == VkResult::Success && *final(surface_format_count)
            == self::surface_formats().len(),
        surface_formats matches Some(b) ==> {
            &&& r == fill_outcome(
                *old(surface_format_count) as int,
                self::surface_formats().len() as int,
            )
            &&& *final(surface_format_count) == written(
                *old(surface_format_count) as int,
                self::surface_formats().len() as int,
            )
            &&& final(b)@ == filled(self::surface_formats(), *old(surface_format_count) as int, b@)
        },
{
    let mut formats: Vec<vk::SurfaceFormatKHR> = Vec::new();
    formats.push(
        vk::SurfaceFormatKHR {
            format: vk::FORMAT_UNDEFINED,
            color_space: vk::COLORSPACE_SRGB_NONLINEAR_KHR,
        },
    );
    answer(formats.as_slice(), surface_format_count, surface_formats)
}

/// Reports what a surface can do.
pub fn get_physical_device_surface_capabilities_khr(
    phys_device: &PhysicalDevice,
    surface: vk::SurfaceKHR,
    surface_capabilities: &mut vk::SurfaceCapabilitiesKHR,
) -> (r: VkResult)
    ensures
        r == VkResult::Success,
        *final(surface_capabilities) == reported_surface_capabilities(),
{
    surface_capabilities.min_image_count = 1;
    surface_capabilities.max_image_count = 4;
    surface_capabilities.current_extent = vk::Extent2D { width: 1, height: 1 };
    surface_capabilities.min_image_extent = vk::Extent2D { width: 1, height: 1 };
    surface_capabilities.max_image_extent = vk::Extent2D { width: u32::MAX, height: u32::MAX };
    surface_capabilities.supported_transforms = vk::SURFACE_TRANSFORM_IDENTITY_BIT_KHR;
    surface_capabilities.current_transform = vk::SURFACE_TRANSFORM_IDENTITY_BIT_KHR;
    surface_capabilities.max_image_array_layers = 1;
    surface_capabilities.supported_composite_alpha = vk::COMPOSITE_ALPHA_OPAQUE_BIT_KHR
        | vk::COMPOSITE_ALPHA_PRE_MULTIPLIED_BIT_KHR;
    surface_capabilities.supported_usage_flags = vk::IMAGE_USAGE_TRANSFER_SRC_BIT
        | vk::IMAGE_USAGE_SAMPLED_BIT | vk::IMAGE_USAGE_TRANSFER_DST_BIT
        | vk::IMAGE_USAGE_COLOR_ATTACHMENT_BIT;
    VkResult::Success
}

/// Lists the present modes of a surface.
///
/// Without a buffer the count becomes the number of modes. A caller that
/// brings a buffer has to bring room for every mode, and declare it: a
/// shorter buffer is not filled in part. Every mode is then written, in
/// order, and the count becomes the number of modes.
pub fn get_physical_device_surface_present_modes_khr(
    phys_device: &PhysicalDevice,
    surface: vk::SurfaceKHR,
    present_mode_count: &mut u32,
    present_modes: Option<&mut [vk::PresentModeKHR]>,
) -> (r: VkResult)
    requires
        present_modes matches Some(b) ==> *old(present_mode_count) >= self::present_modes().len()
            && b@.len() >= self::present_modes().len(),
    ensures
        r == VkResult::Success,
        *final(present_mode_count) == self::present_modes().len(),
        present_modes matches Some(b) ==> final(b)@ == self::present_modes() + b@.subrange(
            self::present_modes().len() as int,
            b@.len() as int,
        ),
{
    let mut modes: Vec<vk::PresentModeKHR> = Vec::new();
    modes.push(vk::PresentModeKHR::Fifo);
    modes.push(vk::PresentModeKHR::Mailbox);
    match present_modes {
        None => {
            *present_mode_count = modes.len() as u32;
            VkResult::Success
        },
        Some(out) => {
            let ghost before = out@;
            let n = modes.len();
            let mut i: usize = 0;
            while i < n
                invariant
                    i <= n,
                    n == modes@.len(),
                    n <= out@.len(),
                    out@.len() == before.len(),
                    forall|j: int| 0 <= j < i ==> out@[j] == modes@[j],
                    forall|j: int| i <= j < out@.len() ==> out@[j] == before[j],
                decreases n - i,
            {
                out[i] = modes[i];
                i += 1;
            }
            assert(out@ =~= modes@ + before.subrange(n as int, before.len() as int));
            *present_mode_count = modes.len() as u32;
            VkResult::Success
        },
    }
}

/// Makes a logical device on the physical device, or turns the request
/// down.
///
/// The request has to carry the tag of a device creation request.
pub fn create_device(
    phys_device: &PhysicalDevice,
    create_info: &vk::DeviceCreateInfo,
    allocator: Option<&vk::AllocationCallbacks>,
) -> (r: Result<Box<Device>, VkResult>)
    requires
        create_info.s_type == vk::STRUCTURE_TYPE_DEVICE_CREATE_INFO,
    ensures
        match r {
            Ok(device) => device_creation(allocator is Some) == Ok::<Device, VkResult>(*device)
                && device.spec_loader_magic() == ICD_LOADER_MAGIC && device.spec_queue()
                == Queue::fresh(),
            Err(e) => device_creation(allocator is Some) == Err::<Device, VkResult>(e),
        },
{
    match Device::from_create_info(create_info, allocator) {
        Ok(device) => Ok(Box::new(device)),
        Err(e) => Err(e),
    }
}

} // verus!
