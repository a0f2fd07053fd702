//! Which function a name stands for.
//!
//! The loader asks the driver for its functions by name. What a name
//! resolves to depends on what the caller holds: without an instance only
//! the global functions can be had; with an instance, the functions of an
//! instance and of its physical device; with a device, the functions of a
//! device. A name that the table at hand does not hold resolves to nothing,
//! which is an answer and no error.

use crate::dispatch::{Device, Instance};
use crate::result::VkResult;
use crate::text::str_eq;
use vstd::prelude::*;

verus! {

/// A function of the driver that the loader can ask for.
#[derive(Clone, Copy, Debug, PartialEq, Eq, Structural)]
pub enum Entrypoint {
    GetInstanceProcAddr,
    CreateInstance,
    EnumerateInstanceExtensionProperties,
    EnumerateInstanceLayerProperties,
    GetDeviceProcAddr,
    DestroyInstance,
    EnumeratePhysicalDevices,
    GetPhysicalDeviceFeatures,
    GetPhysicalDeviceFormatProperties,
    GetPhysicalDeviceImageFormatProperties,
    CreateDevice,
    GetPhysicalDeviceProperties,
    GetPhysicalDeviceMemoryProperties,
    GetPhysicalDeviceQueueFamilyProperties,
    EnumerateDeviceExtensionProperties,
    GetPhysicalDeviceSparseImageFormatProperties,
    GetPhysicalDeviceSurfaceSupportKhr,
    GetPhysicalDeviceSurfaceFormatsKhr,
    GetPhysicalDeviceSurfaceCapabilitiesKhr,
    GetPhysicalDeviceSurfacePresentModesKhr,
    DestroyDevice,
    GetDeviceQueue,
    QueueSubmit,
    QueueWaitIdle,
    DeviceWaitIdle,
    AllocateMemory,
    FreeMemory,
    MapMemory,
    UnmapMemory,
    FlushMappedMemoryRanges,
    InvalidateMappedMemoryRanges,
    CreateCommandPool,
    AllocateCommandBuffers,
    CreateSwapchainKhr,
    GetSwapchainImagesKhr,
}

/// The three tables of names.
#[derive(Clone, Copy, Debug, PartialEq, Eq, Structural)]
pub enum Table {
    /// What can be had without an instance.
    Global,
    /// What can be had with an instance.
    Instance,
    /// What can be had with a device.
    Device,
}

/// The entries of a table, in the order in which they are tried.
pub open spec fn table_entries(table: Table) -> Seq<Entrypoint> {
    match table {
        Table::Global => seq![
            Entrypoint::GetInstanceProcAddr,
            Entrypoint::CreateInstance,
            Entrypoint::EnumerateInstanceExtensionProperties,
            Entrypoint::EnumerateInstanceLayerProperties,
        ],
        Table::Instance => seq![
            Entrypoint::GetDeviceProcAddr,
            Entrypoint::DestroyInstance,
            Entrypoint::EnumeratePhysicalDevices,
            Entrypoint::GetPhysicalDeviceFeatures,
            Entrypoint::GetPhysicalDeviceFormatProperties,
            Entrypoint::GetPhysicalDeviceImageFormatProperties,
            Entrypoint::CreateDevice,
            Entrypoint::GetPhysicalDeviceProperties,
            Entrypoint::GetPhysicalDeviceMemoryProperties,
            Entrypoint::GetPhysicalDeviceQueueFamilyProperties,
            Entrypoint::EnumerateDeviceExtensionProperties,
            Entrypoint::GetPhysicalDeviceSparseImageFormatProperties,
            Entrypoint::GetPhysicalDeviceSurfaceSupportKhr,
            Entrypoint::GetPhysicalDeviceSurfaceFormatsKhr,
            Entrypoint::GetPhysicalDeviceSurfaceCapabilitiesKhr,
            Entrypoint::GetPhysicalDeviceSurfacePresentModesKhr,
        ],
        Table::Device => seq![
            Entrypoint::GetDeviceProcAddr,
            Entrypoint::DestroyDevice,
            Entrypoint::GetDeviceQueue,
            Entrypoint::QueueSubmit,
            Entrypoint::QueueWaitIdle,
            Entrypoint::DeviceWaitIdle,
            Entrypoint::AllocateMemory,
            Entrypoint::FreeMemory,
            Entrypoint::MapMemory,
            Entrypoint::UnmapMemory,
            Entrypoint::FlushMappedMemoryRanges,
            Entrypoint::InvalidateMappedMemoryRanges,
            Entrypoint::CreateCommandPool,
            Entrypoint::AllocateCommandBuffers,
            Entrypoint::CreateSwapchainKhr,
            Entrypoint::GetSwapchainImagesKhr,
        ],
    }
}

/// Whether `found` is what `name` resolves to in `table`: the entry of the
/// table that goes by that name, or nothing where the table has no such
/// entry.
pub open spec fn resolved(table: Table, name: Seq<char>, found: Option<Entrypoint>) -> bool {
    match found {
        Some(entry) => table_entries(table).contains(entry) && entry.spec_name() == name,
        None => forall|entry: Entrypoint|
            table_entries(table).contains(entry) ==> #[trigger] entry.spec_name() != name,
    }
}

impl Entrypoint {
    /// The name by which the loader asks for the function.
    pub open spec fn spec_name(self) -> Seq<char> {
        match self {
            Entrypoint::GetInstanceProcAddr => "vkGetInstanceProcAddr"@,
            Entrypoint::CreateInstance => "vkCreateInstance"@,
            Entrypoint::EnumerateInstanceExtensionProperties => "vkEnumerateInstanceExtensionProperties"@,
            Entrypoint::EnumerateInstanceLayerProperties => "vkEnumerateInstanceLayerProperties"@,
            Entrypoint::GetDeviceProcAddr => "vkGetDeviceProcAddr"@,
            Entrypoint::DestroyInstance => "vkDestroyInstance"@,
            Entrypoint::EnumeratePhysicalDevices => "vkEnumeratePhysicalDevices"@,
            Entrypoint::GetPhysicalDeviceFeatures => "vkGetPhysicalDeviceFeatures"@,
            Entrypoint::GetPhysicalDeviceFormatProperties => "vkGetPhysicalDeviceFormatProperties"@,
            Entrypoint::GetPhysicalDeviceImageFormatProperties => "vkGetPhysicalDeviceImageFormatProperties"@,
            Entrypoint::CreateDevice => "vkCreateDevice"@,
            Entrypoint::GetPhysicalDeviceProperties => "vkGetPhysicalDeviceProperties"@,
            Entrypoint::GetPhysicalDeviceMemoryProperties => "vkGetPhysicalDeviceMemoryProperties"@,
            Entrypoint::GetPhysicalDeviceQueueFamilyProperties => "vkGetPhysicalDeviceQueueFamilyProperties"@,
            Entrypoint::EnumerateDeviceExtensionProperties => "vkEnumerateDeviceExtensionProperties"@,
            Entrypoint::GetPhysicalDeviceSparseImageFormatProperties => "vkGetPhysicalDeviceSparseImageFormatProperties"@,
            Entrypoint::GetPhysicalDeviceSurfaceSupportKhr => "vkGetPhysicalDeviceSurfaceSupportKHR"@,
            Entrypoint::GetPhysicalDeviceSurfaceFormatsKhr => "vkGetPhysicalDeviceSurfaceFormatsKHR"@,
            Entrypoint::GetPhysicalDeviceSurfaceCapabilitiesKhr => "vkGetPhysicalDeviceSurfaceCapabilitiesKHR"@,
            Entrypoint::GetPhysicalDeviceSurfacePresentModesKhr => "vkGetPhysicalDeviceSurfacePresentModesKHR"@,
            Entrypoint::DestroyDevice => "vkDestroyDevice"@,
            Entrypoint::GetDeviceQueue => "vkGetDeviceQueue"@,
            Entrypoint::QueueSubmit => "vkQueueSubmit"@,
            Entrypoint::QueueWaitIdle => "vkQueueWaitIdle"@,
            Entrypoint::DeviceWaitIdle => "vkDeviceWaitIdle"@,
            Entrypoint::AllocateMemory => "vkAllocateMemory"@,
            Entrypoint::FreeMemory => "vkFreeMemory"@,
            Entrypoint::MapMemory => "vkMapMemory"@,
            Entrypoint::UnmapMemory => "vkUnmapMemory"@,
            Entrypoint::FlushMappedMemoryRanges => "vkFlushMappedMemoryRanges"@,
            Entrypoint::InvalidateMappedMemoryRanges => "vkInvalidateMappedMemoryRanges"@,
            Entrypoint::CreateCommandPool => "vkCreateCommandPool"@,
            Entrypoint::AllocateCommandBuffers => "vkAllocateCommandBuffers"@,
            Entrypoint::CreateSwapchainKhr => "vkCreateSwapchainKHR"@,
            Entrypoint::GetSwapchainImagesKhr => "vkGetSwapchainImagesKHR"@,
        }
    }

    /// Whether the driver has code behind the function. Where it has none,
    /// the function can be resolved and asked for all the same: what it
    /// then answers is `NotImplemented`.
    pub open spec fn spec_is_implemented(&self) -> bool {
        match self {
            Entrypoint::EnumerateInstanceLayerProperties => false,
            Entrypoint::GetPhysicalDeviceFormatProperties => false,
            Entrypoint::GetPhysicalDeviceImageFormatProperties => false,
            Entrypoint::GetPhysicalDeviceSparseImageFormatProperties => false,
            Entrypoint::QueueSubmit => false,
            Entrypoint::QueueWaitIdle => false,
            Entrypoint::AllocateMemory => false,
            Entrypoint::FreeMemory => false,
            Entrypoint::MapMemory => false,
            Entrypoint::UnmapMemory => false,
            Entrypoint::FlushMappedMemoryRanges => false,
            Entrypoint::InvalidateMappedMemoryRanges => false,
            Entrypoint::GetSwapchainImagesKhr => false,
            _ => true,
        }
    }

    /// Whether the driver has code behind the function.
    #[verifier::when_used_as_spec(spec_is_implemented)]
    pub fn is_implemented(&self) -> (r: bool)
        ensures
            r == self.spec_is_implemented(),
    {
        match self {
            Entrypoint::EnumerateInstanceLayerProperties
            | Entrypoint::GetPhysicalDeviceFormatProperties
            | Entrypoint::GetPhysicalDeviceImageFormatProperties
            | Entrypoint::GetPhysicalDeviceSparseImageFormatProperties
            | Entrypoint::QueueSubmit
            | Entrypoint::QueueWaitIdle
            | Entrypoint::AllocateMemory
            | Entrypoint::FreeMemory
            | Entrypoint::MapMemory
            | Entrypoint::UnmapMemory
            | Entrypoint::FlushMappedMemoryRanges
            | Entrypoint::InvalidateMappedMemoryRanges
            | Entrypoint::GetSwapchainImagesKhr => false,
            _ => true,
        }
    }

    /// What a call of the function comes to before the function has looked
    /// at its arguments: `NotImplemented` where the driver has no code
    /// behind it, nothing yet where it has.
    pub fn early_outcome(&self) -> (r: Option<VkResult>)
        ensures
            r == if self.spec_is_implemented() {
                None::<VkResult>
            } else {
                Some(VkResult::NotImplemented)
            },
    {
        if self.is_implemented() {
            None
        } else {
            Some(VkResult::NotImplemented)
        }
    }

    /// The name by which the loader asks for the function.
    pub fn name(&self) -> (r: &'static str)
        ensures
            r@ == self.spec_name(),
    {
        match self {
            Entrypoint::GetInstanceProcAddr => "vkGetInstanceProcAddr",
            Entrypoint::CreateInstance => "vkCreateInstance",
            Entrypoint::EnumerateInstanceExtensionProperties => "vkEnumerateInstanceExtensionProperties",
            Entrypoint::EnumerateInstanceLayerProperties => "vkEnumerateInstanceLayerProperties",
            Entrypoint::GetDeviceProcAddr => "vkGetDeviceProcAddr",
            Entrypoint::DestroyInstance => "vkDestroyInstance",
            Entrypoint::EnumeratePhysicalDevices => "vkEnumeratePhysicalDevices",
            Entrypoint::GetPhysicalDeviceFeatures => "vkGetPhysicalDeviceFeatures",
            Entrypoint::GetPhysicalDeviceFormatProperties => "vkGetPhysicalDeviceFormatProperties",
            Entrypoint::GetPhysicalDeviceImageFormatProperties => "vkGetPhysicalDeviceImageFormatProperties",
            Entrypoint::CreateDevice => "vkCreateDevice",
            Entrypoint::GetPhysicalDeviceProperties => "vkGetPhysicalDeviceProperties",
            Entrypoint::GetPhysicalDeviceMemoryProperties => "vkGetPhysicalDeviceMemoryProperties",
            Entrypoint::GetPhysicalDeviceQueueFamilyProperties => "vkGetPhysicalDeviceQueueFamilyProperties",
            Entrypoint::EnumerateDeviceExtensionProperties => "vkEnumerateDeviceExtensionProperties",
            Entrypoint::GetPhysicalDeviceSparseImageFormatProperties => "vkGetPhysicalDeviceSparseImageFormatProperties",
            Entrypoint::GetPhysicalDeviceSurfaceSupportKhr => "vkGetPhysicalDeviceSurfaceSupportKHR",
            Entrypoint::GetPhysicalDeviceSurfaceFormatsKhr => "vkGetPhysicalDeviceSurfaceFormatsKHR",
            Entrypoint::GetPhysicalDeviceSurfaceCapabilitiesKhr => "vkGetPhysicalDeviceSurfaceCapabilitiesKHR",
            Entrypoint::GetPhysicalDeviceSurfacePresentModesKhr => "vkGetPhysicalDeviceSurfacePresentModesKHR",
            Entrypoint::DestroyDevice => "vkDestroyDevice",
            Entrypoint::GetDeviceQueue => "vkGetDeviceQueue",
            Entrypoint::QueueSubmit => "vkQueueSubmit",
            Entrypoint::QueueWaitIdle => "vkQueueWaitIdle",
            Entrypoint::DeviceWaitIdle => "vkDeviceWaitIdle",
            Entrypoint::AllocateMemory => "vkAllocateMemory",
            Entrypoint::FreeMemory => "vkFreeMemory",
            Entrypoint::MapMemory => "vkMapMemory",
            Entrypoint::UnmapMemory => "vkUnmapMemory",
            Entrypoint::FlushMappedMemoryRanges => "vkFlushMappedMemoryRanges",
            Entrypoint::InvalidateMappedMemoryRanges => "vkInvalidateMappedMemoryRanges",
            Entrypoint::CreateCommandPool => "vkCreateCommandPool",
            Entrypoint::AllocateCommandBuffers => "vkAllocateCommandBuffers",
            Entrypoint::CreateSwapchainKhr => "vkCreateSwapchainKHR",
            Entrypoint::GetSwapchainImagesKhr => "vkGetSwapchainImagesKHR",
        }
    }
}

/// The entries of a table, in the order in which they are tried.
pub fn entries(table: Table) -> (r: Vec<Entrypoint>)
    ensures
        r@ == table_entries(table),
{
    let mut list: Vec<Entrypoint> = Vec::new();
    match table {
        Table::Global => {
            list.push(Entrypoint::GetInstanceProcAddr);
            list.push(Entrypoint::CreateInstance);
            list.push(Entrypoint::EnumerateInstanceExtensionProperties);
            list.push(Entrypoint::EnumerateInstanceLayerProperties);
        },
        Table::Instance => {
            list.push(Entrypoint::GetDeviceProcAddr);
            list.push(Entrypoint::DestroyInstance);
            list.push(Entrypoint::EnumeratePhysicalDevices);
            list.push(Entrypoint::GetPhysicalDeviceFeatures);
            list.push(Entrypoint::GetPhysicalDeviceFormatProperties);
            list.push(Entrypoint::GetPhysicalDeviceImageFormatProperties);
            list.push(Entrypoint::CreateDevice);
            list.push(Entrypoint::GetPhysicalDeviceProperties);
            list.push(Entrypoint::GetPhysicalDeviceMemoryProperties);
            list.push(Entrypoint::GetPhysicalDeviceQueueFamilyProperties);
            list.push(Entrypoint::EnumerateDeviceExtensionProperties);
            list.push(Entrypoint::GetPhysicalDeviceSparseImageFormatProperties);
            list.push(Entrypoint::GetPhysicalDeviceSurfaceSupportKhr);
            list.push(Entrypoint::GetPhysicalDeviceSurfaceFormatsKhr);
            list.push(Entrypoint::GetPhysicalDeviceSurfaceCapabilitiesKhr);
            list.push(Entrypoint::GetPhysicalDeviceSurfacePresentModesKhr);
        },
        Table::Device => {
            list.push(Entrypoint::GetDeviceProcAddr);
            list.push(Entrypoint::DestroyDevice);
            list.push(Entrypoint::GetDeviceQueue);
            list.push(Entrypoint::QueueSubmit);
            list.push(Entrypoint::QueueWaitIdle);
            list.push(Entrypoint::DeviceWaitIdle);
            list.push(Entrypoint::AllocateMemory);
            list.push(Entrypoint::FreeMemory);
            list.push(Entrypoint::MapMemory);
            list.push(Entrypoint::UnmapMemory);
            list.push(Entrypoint::FlushMappedMemoryRanges);
            list.push(Entrypoint::InvalidateMappedMemoryRanges);
            list.push(Entrypoint::CreateCommandPool);
            list.push(Entrypoint::AllocateCommandBuffers);
            list.push(Entrypoint::CreateSwapchainKhr);
            list.push(Entrypoint::GetSwapchainImagesKhr);
        },
    }
    list
}

/// Looks a name up in a table.
pub fn lookup(table: Table, name: &str) -> (r: Option<Entrypoint>)
    ensures
        resolved(table, name@, r),
{
    let list = entries(table);
    let n = list.len();
    let mut i: usize = 0;
    while i < n
        invariant
            i <= n,
            n == list@.len(),
            list@ == table_entries(table),
            forall|j: int| 0 <= j < i ==> (#[trigger] list@[j]).spec_name() != name@,
        decreases n - i,
    {
        let entry = list[i];
        if str_eq(entry.name(), name) {
            return Some(entry);
        }
        i += 1;
    }
    None
}

/// The function that `name` stands for: one of the global functions where
/// the caller holds no instance, one of the functions of an instance where
/// it holds one.
pub fn lookup_entrypoint_instance(instance: Option<&Instance>, name: &str) -> (r: Option<
    Entrypoint,
>)
    ensures
        instance is None ==> resolved(Table::Global, name@, r),
        instance is Some ==> resolved(Table::Instance, name@, r),
{
    if instance.is_none() {
        lookup(Table::Global, name)
    } else {
        lookup(Table::Instance, name)
    }
}

/// The function of a device that `name` stands for.
pub fn lookup_entrypoint_device(device: &Device, name: &str) -> (r: Option<Entrypoint>)
    ensures
        resolved(Table::Device, name@, r),
{
    lookup(Table::Device, name)
}

/// What tells the names apart: the length of each, and for each two of one
/// length a place where they differ.
proof fn lemma_name_facts()
    ensures
        "vkGetInstanceProcAddr"@.len() == 21,
        "vkCreateInstance"@.len() == 16,
        "vkEnumerateInstanceExtensionProperties"@.len() == 38,
        "vkEnumerateInstanceLayerProperties"@.len() == 34,
        "vkGetDeviceProcAddr"@.len() == 19,
        "vkDestroyInstance"@.len() == 17,
        "vkEnumeratePhysicalDevices"@.len() == 26,
        "vkGetPhysicalDeviceFeatures"@.len() == 27,
        "vkGetPhysicalDeviceFormatProperties"@.len() == 35,
        "vkGetPhysicalDeviceImageFormatProperties"@.len() == 40,
        "vkCreateDevice"@.len() == 14,
        "vkGetPhysicalDeviceProperties"@.len() == 29,
        "vkGetPhysicalDeviceMemoryProperties"@.len() == 35,
        "vkGetPhysicalDeviceQueueFamilyProperties"@.len() == 40,
        "vkEnumerateDeviceExtensionProperties"@.len() == 36,
        "vkGetPhysicalDeviceSparseImageFormatProperties"@.len() == 46,
        "vkGetPhysicalDeviceSurfaceSupportKHR"@.len() == 36,
        "vkGetPhysicalDeviceSurfaceFormatsKHR"@.len() == 36,
        "vkGetPhysicalDeviceSurfaceCapabilitiesKHR"@.len() == 41,
        "vkGetPhysicalDeviceSurfacePresentModesKHR"@.len() == 41,
        "vkDestroyDevice"@.len() == 15,
        "vkGetDeviceQueue"@.len() == 16,
        "vkQueueSubmit"@.len() == 13,
        "vkQueueWaitIdle"@.len() == 15,
        "vkDeviceWaitIdle"@.len() == 16,
        "vkAllocateMemory"@.len() == 16,
        "vkFreeMemory"@.len() == 12,
        "vkMapMemory"@.len() == 11,
        "vkUnmapMemory"@.len() == 13,
        "vkFlushMappedMemoryRanges"@.len() == 25,
        "vkInvalidateMappedMemoryRanges"@.len() == 30,
        "vkCreateCommandPool"@.len() == 19,
        "vkAllocateCommandBuffers"@.len() == 24,
        "vkCreateSwapchainKHR"@.len() == 20,
        "vkGetSwapchainImagesKHR"@.len() == 23,
        "vkCreateInstance"@[2] != "vkGetDeviceQueue"@[2],
        "vkCreateInstance"@[2] != "vkDeviceWaitIdle"@[2],
        "vkCreateInstance"@[2] != "vkAllocateMemory"@[2],
        "vkGetDeviceProcAddr"@[2] != "vkCreateCommandPool"@[2],
        "vkGetPhysicalDeviceFormatProperties"@[19] != "vkGetPhysicalDeviceMemoryProperties"@[19],
        "vkGetPhysicalDeviceImageFormatProperties"@[19] != "vkGetPhysicalDeviceQueueFamilyProperties"@[19],
        "vkEnumerateDeviceExtensionProperties"@[2] != "vkGetPhysicalDeviceSurfaceSupportKHR"@[2],
        "vkEnumerateDeviceExtensionProperties"@[2] != "vkGetPhysicalDeviceSurfaceFormatsKHR"@[2],
        "vkGetPhysicalDeviceSurfaceSupportKHR"@[26] != "vkGetPhysicalDeviceSurfaceFormatsKHR"@[26],
        "vkGetPhysicalDeviceSurfaceCapabilitiesKHR"@[26] != "vkGetPhysicalDeviceSurfacePresentModesKHR"@[26],
        "vkDestroyDevice"@[2] != "vkQueueWaitIdle"@[2],
        "vkGetDeviceQueue"@[2] != "vkDeviceWaitIdle"@[2],
        "vkGetDeviceQueue"@[2] != "vkAllocateMemory"@[2],
        "vkQueueSubmit"@[2] != "vkUnmapMemory"@[2],
        "vkDeviceWaitIdle"@[2] != "vkAllocateMemory"@[2],
{
    reveal_strlit("vkGetInstanceProcAddr");
    reveal_strlit("vkCreateInstance");
    reveal_strlit("vkEnumerateInstanceExtensionProperties");
    reveal_strlit("vkEnumerateInstanceLayerProperties");
    reveal_strlit("vkGetDeviceProcAddr");
    reveal_strlit("vkDestroyInstance");
    reveal_strlit("vkEnumeratePhysicalDevices");
    reveal_strlit("vkGetPhysicalDeviceFeatures");
    reveal_strlit("vkGetPhysicalDeviceFormatProperties");
    reveal_strlit("vkGetPhysicalDeviceImageFormatProperties");
    reveal_strlit("vkCreateDevice");
    reveal_strlit("vkGetPhysicalDeviceProperties");
    reveal_strlit("vkGetPhysicalDeviceMemoryProperties");
    reveal_strlit("vkGetPhysicalDeviceQueueFamilyProperties");
    reveal_strlit("vkEnumerateDeviceExtensionProperties");
    reveal_strlit("vkGetPhysicalDeviceSparseImageFormatProperties");
    reveal_strlit("vkGetPhysicalDeviceSurfaceSupportKHR");
    reveal_strlit("vkGetPhysicalDeviceSurfaceFormatsKHR");
    reveal_strlit("vkGetPhysicalDeviceSurfaceCapabilitiesKHR");
    reveal_strlit("vkGetPhysicalDeviceSurfacePresentModesKHR");
    reveal_strlit("vkDestroyDevice");
    reveal_strlit("vkGetDeviceQueue");
    reveal_strlit("vkQueueSubmit");
    reveal_strlit("vkQueueWaitIdle");
    reveal_strlit("vkDeviceWaitIdle");
    reveal_strlit("vkAllocateMemory");
    reveal_strlit("vkFreeMemory");
    reveal_strlit("vkMapMemory");
    reveal_strlit("vkUnmapMemory");
    reveal_strlit("vkFlushMappedMemoryRanges");
    reveal_strlit("vkInvalidateMappedMemoryRanges");
    reveal_strlit("vkCreateCommandPool");
    reveal_strlit("vkAllocateCommandBuffers");
    reveal_strlit("vkCreateSwapchainKHR");
    reveal_strlit("vkGetSwapchainImagesKHR");
}

/// No two functions go by one name.
pub proof fn lemma_names_distinct(a: Entrypoint, b: Entrypoint)
    ensures
        a.spec_name() == b.spec_name() <==> a == b,
{
    lemma_name_facts();
}

/// A name resolves to one thing only: what a lookup returns is fixed by the
/// table and the name.
pub proof fn lemma_resolution_is_unique(
    table: Table,
    name: Seq<char>,
    first: Option<Entrypoint>,
    second: Option<Entrypoint>,
)
    requires
        resolved(table, name, first),
        resolved(table, name, second),
    ensures
        first == second,
{
    if let (Some(a), Some(b)) = (first, second) {
        lemma_names_distinct(a, b);
    }
}

/// Every entry of a table is found under its own name.
pub proof fn lemma_entries_resolve(table: Table, entry: Entrypoint)
    requires
        table_entries(table).contains(entry),
    ensures
        resolved(table, entry.spec_name(), Some(entry)),
{
}

/// The global functions cannot be had through an instance, nor the
/// functions of an instance without one.
pub proof fn lemma_global_and_instance_tables_disjoint(entry: Entrypoint)
    ensures
        !(table_entries(Table::Global).contains(entry) && table_entries(Table::Instance).contains(
            entry,
        )),
        table_entries(Table::Global).contains(entry) ==> resolved(
            Table::Instance,
            entry.spec_name(),
            None,
        ),
        table_entries(Table::Instance).contains(entry) ==> resolved(
            Table::Global,
            entry.spec_name(),
            None,
        ),
{
    assert forall|other: Entrypoint|
        entry.spec_name() == #[trigger] other.spec_name() implies other == entry by {
        lemma_names_distinct(entry, other);
    }
}

} // verus!
