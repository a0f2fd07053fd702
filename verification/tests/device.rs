use rusterizer::device::{
    allocate_command_buffers, create_command_pool, destroy_device, get_device_queue,
};
use rusterizer::dispatch::{CommandPool, Device, PhysicalDevice, ICD_LOADER_MAGIC};
use rusterizer::physical_device::create_device;
use rusterizer::result::VkResult;
use rusterizer::vk;

fn device() -> Box<Device> {
    let physical = PhysicalDevice::default();
    let info = vk::DeviceCreateInfo { s_type: vk::STRUCTURE_TYPE_DEVICE_CREATE_INFO };
    create_device(&physical, &info, None).unwrap()
}

fn pool_request() -> vk::CommandPoolCreateInfo {
    vk::CommandPoolCreateInfo {
        s_type: vk::STRUCTURE_TYPE_COMMAND_POOL_CREATE_INFO,
        chained: false,
    }
}

fn allocate(
    device: &Device,
    pool: &mut CommandPool,
    level: vk::CommandBufferLevel,
    count: u32,
) -> VkResult {
    let mut info = vk::CommandBufferAllocateInfo {
        s_type: vk::STRUCTURE_TYPE_COMMAND_BUFFER_ALLOCATE_INFO,
        chained: false,
        command_pool: pool,
        level,
        command_buffer_count: count,
    };
    let r = allocate_command_buffers(device, &mut info);
    assert_eq!(info.command_buffer_count, count);
    assert_eq!(info.level, level);
    assert_eq!(info.s_type, vk::STRUCTURE_TYPE_COMMAND_BUFFER_ALLOCATE_INFO);
    r
}

#[test]
fn create_device_makes_a_tagged_device_with_a_queue() {
    let device = device();
    assert_eq!(device.loader_magic(), ICD_LOADER_MAGIC);
    assert_eq!(device.queue().loader_magic(), ICD_LOADER_MAGIC);
}

#[test]
fn create_device_rejects_a_host_allocator() {
    let physical = PhysicalDevice::default();
    let info = vk::DeviceCreateInfo { s_type: vk::STRUCTURE_TYPE_DEVICE_CREATE_INFO };
    let allocator = vk::AllocationCallbacks { user_data: 1 };
    assert_eq!(
        create_device(&physical, &info, Some(&allocator)).err(),
        Some(VkResult::ErrorInitializationFailed)
    );
    assert_eq!(physical.loader_magic(), ICD_LOADER_MAGIC);
}

#[test]
fn queue_zero_is_the_same_queue_every_time() {
    let device = device();
    let first = get_device_queue(&device, 0, 0);
    let second = get_device_queue(&device, 0, 0);
    let third = get_device_queue(&device, 17, 0);
    assert!(std::ptr::eq(first, second));
    assert!(std::ptr::eq(first, third));
    assert!(std::ptr::eq(first, device.queue()));
    assert_eq!(first.loader_magic(), ICD_LOADER_MAGIC);
}

#[test]
fn two_devices_have_two_queues() {
    let one = device();
    let other = device();
    assert!(!std::ptr::eq(get_device_queue(&one, 0, 0), get_device_queue(&other, 0, 0)));
}

#[test]
fn device_can_be_destroyed() {
    destroy_device(device(), None);
}

#[test]
fn new_pool_is_empty() {
    let device = device();
    let pool = create_command_pool(&device, &pool_request(), None).unwrap();
    assert!(pool.buffers.is_empty());
}

#[test]
fn create_command_pool_rejects_a_host_allocator() {
    let device = device();
    let allocator = vk::AllocationCallbacks { user_data: 0 };
    assert_eq!(
        create_command_pool(&device, &pool_request(), Some(&allocator)).err(),
        Some(VkResult::ErrorInitializationFailed)
    );
}

#[test]
fn allocation_adds_exactly_what_was_asked_for() {
    let device = device();
    let mut pool = create_command_pool(&device, &pool_request(), None).unwrap();
    assert_eq!(allocate(&device, &mut pool, vk::CommandBufferLevel::Primary, 3), VkResult::Success);
    assert_eq!(pool.buffers.len(), 3);
    for buffer in pool.buffers.iter() {
        assert_eq!(buffer.level(), vk::CommandBufferLevel::Primary);
        assert_eq!(buffer.loader_magic(), ICD_LOADER_MAGIC);
    }
}

#[test]
fn second_allocation_appends() {
    let device = device();
    let mut pool = create_command_pool(&device, &pool_request(), None).unwrap();
    allocate(&device, &mut pool, vk::CommandBufferLevel::Primary, 2);
    let before: Vec<String> = pool.buffers.iter().map(|b| format!("{:p}", &**b)).collect();
    assert_eq!(
        allocate(&device, &mut pool, vk::CommandBufferLevel::Secondary, 3),
        VkResult::Success
    );
    assert_eq!(pool.buffers.len(), 5);
    let after: Vec<String> = pool.buffers.iter().map(|b| format!("{:p}", &**b)).collect();
    assert_eq!(&after[..2], &before[..]);
    let levels: Vec<vk::CommandBufferLevel> = pool.buffers.iter().map(|b| b.level()).collect();
    assert_eq!(
        levels,
        vec![
            vk::CommandBufferLevel::Primary,
            vk::CommandBufferLevel::Primary,
            vk::CommandBufferLevel::Secondary,
            vk::CommandBufferLevel::Secondary,
            vk::CommandBufferLevel::Secondary,
        ]
    );
}

#[test]
fn allocation_of_none_changes_nothing() {
    let device = device();
    let mut pool = create_command_pool(&device, &pool_request(), None).unwrap();
    assert_eq!(allocate(&device, &mut pool, vk::CommandBufferLevel::Primary, 0), VkResult::Success);
    assert!(pool.buffers.is_empty());
    allocate(&device, &mut pool, vk::CommandBufferLevel::Secondary, 1);
    assert_eq!(allocate(&device, &mut pool, vk::CommandBufferLevel::Primary, 0), VkResult::Success);
    assert_eq!(pool.buffers.len(), 1);
    assert_eq!(pool.buffers[0].level(), vk::CommandBufferLevel::Secondary);
}
