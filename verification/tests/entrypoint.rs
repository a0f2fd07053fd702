use rusterizer::dispatch::{create_instance, Device};
use rusterizer::entrypoint::{
    entries, lookup, lookup_entrypoint_device, lookup_entrypoint_instance, Entrypoint, Table,
};
use rusterizer::vk;

fn device() -> Device {
    let info = vk::DeviceCreateInfo { s_type: vk::STRUCTURE_TYPE_DEVICE_CREATE_INFO };
    Device::from_create_info(&info, None).unwrap()
}

#[test]
fn four_names_resolve_without_an_instance() {
    assert_eq!(
        lookup_entrypoint_instance(None, "vkGetInstanceProcAddr"),
        Some(Entrypoint::GetInstanceProcAddr)
    );
    assert_eq!(
        lookup_entrypoint_instance(None, "vkCreateInstance"),
        Some(Entrypoint::CreateInstance)
    );
    assert_eq!(
        lookup_entrypoint_instance(None, "vkEnumerateInstanceExtensionProperties"),
        Some(Entrypoint::EnumerateInstanceExtensionProperties)
    );
    assert_eq!(
        lookup_entrypoint_instance(None, "vkEnumerateInstanceLayerProperties"),
        Some(Entrypoint::EnumerateInstanceLayerProperties)
    );
    assert_eq!(entries(Table::Global).len(), 4);
}

#[test]
fn nothing_else_resolves_without_an_instance() {
    for name in [
        "vkDestroyInstance",
        "vkCreateDevice",
        "vkGetDeviceProcAddr",
        "vkEnumeratePhysicalDevices",
        "vkQueueSubmit",
        "vkCreateInstanc",
        "vkCreateInstance ",
        "VkCreateInstance",
        "",
        "vkNoSuchFunction",
    ] {
        assert_eq!(lookup_entrypoint_instance(None, name), None);
    }
}

#[test]
fn instance_table() {
    let info = vk::InstanceCreateInfo {
        s_type: vk::STRUCTURE_TYPE_INSTANCE_CREATE_INFO,
        application_info: None,
        enabled_extension_names: Vec::new(),
    };
    let instance = create_instance(&info, None).unwrap();
    let expected = [
        ("vkGetDeviceProcAddr", Entrypoint::GetDeviceProcAddr),
        ("vkDestroyInstance", Entrypoint::DestroyInstance),
        ("vkEnumeratePhysicalDevices", Entrypoint::EnumeratePhysicalDevices),
        ("vkGetPhysicalDeviceFeatures", Entrypoint::GetPhysicalDeviceFeatures),
        ("vkGetPhysicalDeviceFormatProperties", Entrypoint::GetPhysicalDeviceFormatProperties),
        (
            "vkGetPhysicalDeviceImageFormatProperties",
            Entrypoint::GetPhysicalDeviceImageFormatProperties,
        ),
        ("vkCreateDevice", Entrypoint::CreateDevice),
        ("vkGetPhysicalDeviceProperties", Entrypoint::GetPhysicalDeviceProperties),
        ("vkGetPhysicalDeviceMemoryProperties", Entrypoint::GetPhysicalDeviceMemoryProperties),
        (
            "vkGetPhysicalDeviceQueueFamilyProperties",
            Entrypoint::GetPhysicalDeviceQueueFamilyProperties,
        ),
        ("vkEnumerateDeviceExtensionProperties", Entrypoint::EnumerateDeviceExtensionProperties),
        (
            "vkGetPhysicalDeviceSparseImageFormatProperties",
            Entrypoint::GetPhysicalDeviceSparseImageFormatProperties,
        ),
        ("vkGetPhysicalDeviceSurfaceSupportKHR", Entrypoint::GetPhysicalDeviceSurfaceSupportKhr),
        ("vkGetPhysicalDeviceSurfaceFormatsKHR", Entrypoint::GetPhysicalDeviceSurfaceFormatsKhr),
        (
            "vkGetPhysicalDeviceSurfaceCapabilitiesKHR",
            Entrypoint::GetPhysicalDeviceSurfaceCapabilitiesKhr,
        ),
        (
            "vkGetPhysicalDeviceSurfacePresentModesKHR",
            Entrypoint::GetPhysicalDeviceSurfacePresentModesKhr,
        ),
    ];
    for (name, entry) in expected {
        assert_eq!(lookup_entrypoint_instance(Some(&instance), name), Some(entry));
    }
    assert_eq!(entries(Table::Instance).len(), expected.len());
}

#[test]
fn global_names_do_not_resolve_through_an_instance() {
    let info = vk::InstanceCreateInfo {
        s_type: vk::STRUCTURE_TYPE_INSTANCE_CREATE_INFO,
        application_info: None,
        enabled_extension_names: Vec::new(),
    };
    let instance = create_instance(&info, None).unwrap();
    for name in [
        "vkGetInstanceProcAddr",
        "vkCreateInstance",
        "vkEnumerateInstanceExtensionProperties",
        "vkEnumerateInstanceLayerProperties",
        "vkDestroyDevice",
        "vkAllocateCommandBuffers",
        "vkGetPhysicalDeviceSurfaceSupportKhr",
        "nothing",
    ] {
        assert_eq!(lookup_entrypoint_instance(Some(&instance), name), None);
    }
}

#[test]
fn device_table() {
    let device = device();
    let expected = [
        ("vkGetDeviceProcAddr", Entrypoint::GetDeviceProcAddr),
        ("vkDestroyDevice", Entrypoint::DestroyDevice),
        ("vkGetDeviceQueue", Entrypoint::GetDeviceQueue),
        ("vkQueueSubmit", Entrypoint::QueueSubmit),
        ("vkQueueWaitIdle", Entrypoint::QueueWaitIdle),
        ("vkDeviceWaitIdle", Entrypoint::DeviceWaitIdle),
        ("vkAllocateMemory", Entrypoint::AllocateMemory),
        ("vkFreeMemory", Entrypoint::FreeMemory),
        ("vkMapMemory", Entrypoint::MapMemory),
        ("vkUnmapMemory", Entrypoint::UnmapMemory),
        ("vkFlushMappedMemoryRanges", Entrypoint::FlushMappedMemoryRanges),
        ("vkInvalidateMappedMemoryRanges", Entrypoint::InvalidateMappedMemoryRanges),
        ("vkCreateCommandPool", Entrypoint::CreateCommandPool),
        ("vkAllocateCommandBuffers", Entrypoint::AllocateCommandBuffers),
        ("vkCreateSwapchainKHR", Entrypoint::CreateSwapchainKhr),
        ("vkGetSwapchainImagesKHR", Entrypoint::GetSwapchainImagesKhr),
    ];
    for (name, entry) in expected {
        assert_eq!(lookup_entrypoint_device(&device, name), Some(entry));
    }
    assert_eq!(entries(Table::Device).len(), expected.len());
}

#[test]
fn other_names_do_not_resolve_through_a_device() {
    let device = device();
    for name in ["vkCreateInstance", "vkDestroyInstance", "vkCreateDevice", "vkFreeMemor", ""] {
        assert_eq!(lookup_entrypoint_device(&device, name), None);
    }
}

#[test]
fn every_entry_is_found_under_its_own_name() {
    for table in [Table::Global, Table::Instance, Table::Device] {
        for entry in entries(table) {
            assert_eq!(lookup(table, entry.name()), Some(entry));
            assert!(entry.name().starts_with("vk"));
        }
    }
}

#[test]
fn names_are_all_different() {
    let mut names: Vec<&str> = Vec::new();
    for table in [Table::Global, Table::Instance, Table::Device] {
        for entry in entries(table) {
            if !(table == Table::Device && entry == Entrypoint::GetDeviceProcAddr) {
                names.push(entry.name());
            }
        }
    }
    assert_eq!(names.len(), 35);
    let mut sorted = names.clone();
    sorted.sort();
    sorted.dedup();
    assert_eq!(sorted.len(), 35);
}

#[test]
fn functions_without_code_say_so() {
    use_stub(Entrypoint::QueueSubmit);
    use_stub(Entrypoint::QueueWaitIdle);
    use_stub(Entrypoint::AllocateMemory);
    use_stub(Entrypoint::FreeMemory);
    use_stub(Entrypoint::MapMemory);
    use_stub(Entrypoint::UnmapMemory);
    use_stub(Entrypoint::FlushMappedMemoryRanges);
    use_stub(Entrypoint::InvalidateMappedMemoryRanges);
    use_stub(Entrypoint::EnumerateInstanceLayerProperties);
    use_stub(Entrypoint::GetPhysicalDeviceFormatProperties);
    use_stub(Entrypoint::GetPhysicalDeviceImageFormatProperties);
    use_stub(Entrypoint::GetPhysicalDeviceSparseImageFormatProperties);
    use_stub(Entrypoint::GetSwapchainImagesKhr);
}

fn use_stub(entry: Entrypoint) {
    assert!(!entry.is_implemented());
    assert_eq!(entry.early_outcome(), Some(rusterizer::result::VkResult::NotImplemented));
}

#[test]
fn functions_with_code_have_no_early_outcome() {
    let mut with_code = 0;
    for table in [Table::Global, Table::Instance, Table::Device] {
        for entry in entries(table) {
            if entry.is_implemented() {
                assert_eq!(entry.early_outcome(), None);
                with_code += 1;
            }
        }
    }
    // vkGetDeviceProcAddr stands in two tables.
    assert_eq!(with_code, 36 - 13);
    assert!(Entrypoint::CreateInstance.is_implemented());
    assert!(Entrypoint::DeviceWaitIdle.is_implemented());
    assert!(Entrypoint::CreateSwapchainKhr.is_implemented());
}
