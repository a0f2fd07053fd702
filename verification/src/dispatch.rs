//! The objects that the driver hands out, and how they come and go.
//!
//! The loader that stands between an application and the driver tells the
//! driver's objects from other data by a tag in their first word. Every
//! object here that the loader dispatches on (instance, physical device,
//! device, queue, command buffer) carries that tag from the moment it is made
//! and offers no way to change it.

use crate::extension::{available_extensions, find_extension, instance_catalogue, lists};
use crate::result::VkResult;
use crate::version::{pack, supported, Version};
use crate::vk;
use vstd::prelude::*;

verus! {

/// The tag by which the loader knows an object of the driver.
pub const ICD_LOADER_MAGIC: usize = 0x01CD_C0DE;

/// The first word of an object that the loader dispatches on. The loader
/// reads it as the tag and later keeps a pointer of its own there.
#[derive(Clone, Copy, Debug)]
pub struct VkLoaderDataUnion {
    data: usize,
}

impl View for VkLoaderDataUnion {
    type V = usize;

    /// The word, read as a tag.
    closed spec fn view(&self) -> usize {
        self.data
    }
}

impl VkLoaderDataUnion {
    /// The word, read as a tag.
    pub fn as_loader_magic(&self) -> (r: usize)
        ensures
            r == self@,
    {
        self.data
    }

    /// Overwrites the word.
    pub fn set_loader_magic(&mut self, val: usize)
        ensures
            final(self)@ == val,
    {
        self.data = val;
    }
}

impl Default for VkLoaderDataUnion {
    /// A word that holds the tag.
    fn default() -> (r: VkLoaderDataUnion)
        ensures
            r@ == ICD_LOADER_MAGIC,
    {
        VkLoaderDataUnion { data: ICD_LOADER_MAGIC }
    }
}

/// The one physical device: the host processor.
#[derive(Debug)]
pub struct PhysicalDevice {
    _loader_data: VkLoaderDataUnion,
}

impl PhysicalDevice {
    #[verifier::type_invariant]
    closed spec fn tagged(&self) -> bool {
        self._loader_data@ == ICD_LOADER_MAGIC
    }

    /// The tag in the first word.
    pub closed spec fn spec_loader_magic(&self) -> usize {
        self._loader_data@
    }

    /// The physical device as it is when first made.
    pub closed spec fn fresh() -> PhysicalDevice {
        PhysicalDevice { _loader_data: VkLoaderDataUnion { data: ICD_LOADER_MAGIC } }
    }

    /// The tag in the first word: always the loader's.
    #[verifier::when_used_as_spec(spec_loader_magic)]
    pub fn loader_magic(&self) -> (r: usize)
        ensures
            r == self.spec_loader_magic(),
            r == ICD_LOADER_MAGIC,
    {
        proof {
            use_type_invariant(self);
        }
        self._loader_data.as_loader_magic()
    }
}

impl Default for PhysicalDevice {
    fn default() -> (r: PhysicalDevice)
        ensures
            r == PhysicalDevice::fresh(),
            r.spec_loader_magic() == ICD_LOADER_MAGIC,
    {
        PhysicalDevice { _loader_data: VkLoaderDataUnion::default() }
    }
}

/// The one queue of a device.
#[derive(Debug)]
pub struct Queue {
    _loader_data: VkLoaderDataUnion,
}

impl Queue {
    #[verifier::type_invariant]
    closed spec fn tagged(&self) -> bool {
        self._loader_data@ == ICD_LOADER_MAGIC
    }

    /// The tag in the first word.
    pub closed spec fn spec_loader_magic(&self) -> usize {
        self._loader_data@
    }

    /// A queue as it is when first made.
    pub closed spec fn fresh() -> Queue {
        Queue { _loader_data: VkLoaderDataUnion { data: ICD_LOADER_MAGIC } }
    }

    /// The tag in the first word: always the loader's.
    #[verifier::when_used_as_spec(spec_loader_magic)]
    pub fn loader_magic(&self) -> (r: usize)
        ensures
            r == self.spec_loader_magic(),
            r == ICD_LOADER_MAGIC,
    {
        proof {
            use_type_invariant(self);
        }
        self._loader_data.as_loader_magic()
    }
}

impl Default for Queue {
    fn default() -> (r: Queue)
        ensures
            r == Queue::fresh(),
            r.spec_loader_magic() == ICD_LOADER_MAGIC,
    {
        Queue { _loader_data: VkLoaderDataUnion::default() }
    }
}

/// What an instance holds, the tag aside.
pub struct InstanceView {
    /// The packed version that the client asked for.
    pub client_version: int,
    /// The layers that were switched on: none, since the driver has none.
    pub enabled_layers: Seq<Seq<char>>,
    /// The extensions that were switched on, in the order asked for.
    pub enabled_extensions: Seq<Seq<char>>,
    /// The physical device, once a caller has asked for it.
    pub phys_device: Option<PhysicalDevice>,
}

/// A client's connection to the driver.
#[derive(Debug)]
pub struct Instance {
    _loader_data: VkLoaderDataUnion,
    client_version: Version,
    enabled_layers: Vec<String>,
    enabled_extensions: Vec<String>,
    phys_device: Option<PhysicalDevice>,
}

/// The version that a request asks for: the one its application block
/// names, or 1.0.0 where there is no block or the block names version zero.
pub open spec fn requested_version(info: vk::InstanceCreateInfo) -> int {
    match info.application_info {
        Some(app) => if app.api_version != 0 {
            app.api_version as int
        } else {
            pack(1, 0, 0)
        },
        None => pack(1, 0, 0),
    }
}

/// Whether the instance catalogue lists every one of the names.
pub open spec fn all_listed(names: Seq<Seq<char>>) -> bool {
    forall|i: int| 0 <= i < names.len() ==> lists(instance_catalogue(), #[trigger] names[i])
}

/// What becomes of a request for an instance.
///
/// A request that brings a host allocator is turned down first; then one
/// that asks for a version outside the supported window; then one that names
/// an extension which the driver does not list. Any other request is granted.
pub open spec fn instance_creation(
    info: vk::InstanceCreateInfo,
    custom_allocator: bool,
) -> Result<InstanceView, VkResult> {
    if custom_allocator {
        Err(VkResult::ErrorInitializationFailed)
    } else if !supported(requested_version(info)) {
        Err(VkResult::ErrorIncompatibleDriver)
    } else if !all_listed(info.enabled_extension_names.deep_view()) {
        Err(VkResult::ErrorExtensionNotPresent)
    } else {
        Ok(
            InstanceView {
                client_version: requested_version(info),
                enabled_layers: Seq::empty(),
                enabled_extensions: info.enabled_extension_names.deep_view(),
                phys_device: None,
            },
        )
    }
}

/// What an instance holds after a caller has enumerated its physical
/// devices. Asking for the count changes nothing. Asking for the device
/// makes it, unless it is there already.
pub open spec fn after_enumeration(before: InstanceView, update_count: bool) -> InstanceView {
    if update_count || before.phys_device is Some {
        before
    } else {
        InstanceView { phys_device: Some(PhysicalDevice::fresh()), ..before }
    }
}

/// A copy of a list of names.
fn clone_names(names: &Vec<String>) -> (r: Vec<String>)
    ensures
        r.deep_view() == names.deep_view(),
{
    let n = names.len();
    let mut copy: Vec<String> = Vec::new();
    let mut i: usize = 0;
    while i < n
        invariant
            i <= n,
            n == names@.len(),
            copy@.len() == i,
            forall|j: int| 0 <= j < i ==> copy@[j]@ == names@[j]@,
        decreases n - i,
    {
        copy.push(names[i].clone());
        i += 1;
    }
    copy
}

impl View for Instance {
    type V = InstanceView;

    closed spec fn view(&self) -> InstanceView {
        InstanceView {
            client_version: self.client_version@,
            enabled_layers: self.enabled_layers.deep_view(),
            enabled_extensions: self.enabled_extensions.deep_view(),
            phys_device: self.phys_device,
        }
    }
}

impl Instance {
    #[verifier::type_invariant]
    closed spec fn valid(&self) -> bool {
        &&& self._loader_data@ == ICD_LOADER_MAGIC
        &&& supported(self.client_version@)
        &&& all_listed(self.enabled_extensions.deep_view())
        &&& self.enabled_layers.deep_view() == Seq::<Seq<char>>::empty()
    }

    /// The tag in the first word.
    pub closed spec fn spec_loader_magic(&self) -> usize {
        self._loader_data@
    }

    /// Makes an instance for a request, or turns the request down.
    ///
    /// The request has to carry the tag of an instance creation request.
    pub fn from_create_info(
        create_info: &vk::InstanceCreateInfo,
        allocator: Option<&vk::AllocationCallbacks>,
    ) -> (r: Result<Instance, VkResult>)
        requires
            create_info.s_type == vk::STRUCTURE_TYPE_INSTANCE_CREATE_INFO,
        ensures
            match r {
                Ok(instance) => instance_creation(*create_info, allocator is Some) == Ok::<
                    InstanceView,
                    VkResult,
                >(instance@) && instance.spec_loader_magic() == ICD_LOADER_MAGIC,
                Err(e) => instance_creation(*create_info, allocator is Some) == Err::<
                    InstanceView,
                    VkResult,
                >(e),
            },
    {
        if allocator.is_some() {
            return Err(VkResult::ErrorInitializationFailed);
        }
        let client_version = match create_info.application_info {
            Some(info) => if info.api_version != 0 {
                Version::from_repr(info.api_version)
            } else {
                Version::new(1, 0, 0)
            },
            None => Version::new(1, 0, 0),
        };
        if !client_version.is_supported() {
            return Err(VkResult::ErrorIncompatibleDriver);
        }
        let requested_extensions = clone_names(&create_info.enabled_extension_names);
        let available = available_extensions();
        let n = requested_extensions.len();
        let mut i: usize = 0;
        while i < n
            invariant
                i <= n,
                n == requested_extensions@.len(),
                crate::extension::views(available@) == instance_catalogue(),
                allocator is None,
                supported(requested_version(*create_info)),
                requested_extensions.deep_view() == create_info.enabled_extension_names.deep_view(),
                forall|j: int|
                    0 <= j < i ==> lists(
                        instance_catalogue(),
                        #[trigger] requested_extensions.deep_view()[j],
                    ),
            decreases n - i,
        {
            if !find_extension(available.as_slice(), requested_extensions[i].as_str()) {
                assert(!lists(instance_catalogue(), requested_extensions.deep_view()[i as int]));
                return Err(VkResult::ErrorExtensionNotPresent);
            }
            i += 1;
        }
        let enabled_layers: Vec<String> = Vec::new();
        assert(enabled_layers.deep_view() =~= Seq::<Seq<char>>::empty());
        Ok(
            Instance {
                _loader_data: VkLoaderDataUnion::default(),
                client_version,
                enabled_layers,
                enabled_extensions: requested_extensions,
                phys_device: None,
            },
        )
    }

    /// The tag in the first word: always the loader's.
    #[verifier::when_used_as_spec(spec_loader_magic)]
    pub fn loader_magic(&self) -> (r: usize)
        ensures
            r == self.spec_loader_magic(),
            r == ICD_LOADER_MAGIC,
    {
        proof {
            use_type_invariant(self);
        }
        self._loader_data.as_loader_magic()
    }

    /// The version that the client asked for: always a supported one.
    pub fn client_version(&self) -> (r: Version)
        ensures
            r@ == self@.client_version,
            supported(r@),
    {
        proof {
            use_type_invariant(self);
        }
        self.client_version
    }

    /// The extensions that were switched on: each is one that the driver
    /// lists.
    pub fn enabled_extensions(&self) -> (r: &Vec<String>)
        ensures
            r.deep_view() == self@.enabled_extensions,
            all_listed(r.deep_view()),
    {
        proof {
            use_type_invariant(self);
        }
        &self.enabled_extensions
    }

    /// The layers that were switched on: none.
    pub fn enabled_layers(&self) -> (r: &Vec<String>)
        ensures
            r.deep_view() == self@.enabled_layers,
            r@.len() == 0,
    {
        proof {
            use_type_invariant(self);
            assert(self.enabled_layers.deep_view().len() == 0);
        }
        &self.enabled_layers
    }

    /// The physical device, if a caller has asked for it before.
    pub fn phys_device(&self) -> (r: Option<&PhysicalDevice>)
        ensures
            r is Some == self@.phys_device is Some,
            r matches Some(device) ==> self@.phys_device == Some(*device),
    {
        self.phys_device.as_ref()
    }

    /// Makes the physical device.
    fn init_phys_device(&mut self)
        ensures
            final(self)@ == (InstanceView {
                phys_device: Some(PhysicalDevice::fresh()),
                ..old(self)@
            }),
            final(self).spec_loader_magic() == old(self).spec_loader_magic(),
    {
        proof {
            use_type_invariant(&*self);
        }
        self.phys_device = Some(PhysicalDevice::default());
    }
}

/// Makes an instance for a request, or turns the request down.
///
/// The request has to carry the tag of an instance creation request.
pub fn create_instance(
    create_info: &vk::InstanceCreateInfo,
    allocator: Option<&vk::AllocationCallbacks>,
) -> (r: Result<Box<Instance>, VkResult>)
    requires
        create_info.s_type == vk::STRUCTURE_TYPE_INSTANCE_CREATE_INFO,
    ensures
        match r {
            Ok(instance) => instance_creation(*create_info, allocator is Some) == Ok::<
                InstanceView,
                VkResult,
            >(instance@) && instance.spec_loader_magic() == ICD_LOADER_MAGIC,
            Err(e) => instance_creation(*create_info, allocator is Some) == Err::<
                InstanceView,
                VkResult,
            >(e),
        },
{
    match Instance::from_create_info(create_info, allocator) {
        Ok(instance) => Ok(Box::new(instance)),
        Err(e) => Err(e),
    }
}

/// Ends an instance, and with it all that the instance owns. The caller may
/// bring no host allocator.
pub fn destroy_instance(instance: Box<Instance>, allocator: Option<&vk::AllocationCallbacks>)
    requires
        allocator is None,
{
    let _ = instance;
}

/// Answers one call of the two-call protocol over the physical devices, of
/// which there is one.
///
/// With `update_count` set the caller asks how many there are: the count
/// becomes one and no device is handed out. Otherwise the caller gets the
/// physical device of the instance, which is made on the first such call and
/// stays the same from then on; the count is left as it is.
pub fn enumerate_physical_devices<'a>(
    instance: &'a mut Instance,
    phys_device_count: &mut u32,
    update_count: bool,
) -> (r: Option<&'a PhysicalDevice>)
    ensures
        final(instance)@ == after_enumeration(old(instance)@, update_count),
        final(instance).spec_loader_magic() == old(instance).spec_loader_magic(),
        *final(phys_device_count) == if update_count {
            1
        } else {
            *old(phys_device_count)
        },
        update_count ==> r is None,
        !update_count ==> (r matches Some(device) && final(instance)@.phys_device == Some(*device)),
{
    if update_count {
        *phys_device_count = 1;
        None
    } else {
        if instance.phys_device().is_none() {
            instance.init_phys_device();
        }
        instance.phys_device()
    }
}

/// A logical device on the physical device.
#[derive(Debug)]
pub struct Device {
    _loader_data: VkLoaderDataUnion,
    queue: Queue,
}

/// What becomes of a request for a device: it is turned down where it
/// brings a host allocator, and granted with a device as first made else.
pub open spec fn device_creation(custom_allocator: bool) -> Result<Device, VkResult> {
    if custom_allocator {
        Err(VkResult::ErrorInitializationFailed)
    } else {
        Ok(Device::fresh())
    }
}

impl Device {
    #[verifier::type_invariant]
    closed spec fn tagged(&self) -> bool {
        self._loader_data@ == ICD_LOADER_MAGIC
    }

    /// The tag in the first word.
    pub closed spec fn spec_loader_magic(&self) -> usize {
        self._loader_data@
    }

    /// The queue of the device.
    pub closed spec fn spec_queue(&self) -> Queue {
        self.queue
    }

    /// A device as it is when first made: tagged, with a queue as first made.
    pub closed spec fn fresh() -> Device {
        Device {
            _loader_data: VkLoaderDataUnion { data: ICD_LOADER_MAGIC },
            queue: Queue::fresh(),
        }
    }

    /// Makes a device for a request, or turns the request down.
    ///
    /// The request has to carry the tag of a device creation request.
    pub fn from_create_info(
        create_info: &vk::DeviceCreateInfo,
        allocator: Option<&vk::AllocationCallbacks>,
    ) -> (r: Result<Device, VkResult>)
        requires
            create_info.s_type == vk::STRUCTURE_TYPE_DEVICE_CREATE_INFO,
        ensures
            r == device_creation(allocator is Some),
            r matches Ok(device) ==> device.spec_loader_magic() == ICD_LOADER_MAGIC
                && device.spec_queue() == Queue::fresh(),
    {
        if allocator.is_some() {
            return Err(VkResult::ErrorInitializationFailed);
        }
        Ok(Device { _loader_data: VkLoaderDataUnion::default(), queue: Queue::default() })
    }

    /// The queue of the device.
    pub fn queue(&self) -> (r: &Queue)
        ensures
            *r == self.spec_queue(),
    {
        &self.queue
    }

    /// The tag in the first word: always the loader's.
    #[verifier::when_used_as_spec(spec_loader_magic)]
    pub fn loader_magic(&self) -> (r: usize)
        ensures
            r == self.spec_loader_magic(),
            r == ICD_LOADER_MAGIC,
    {
        proof {
            use_type_invariant(self);
        }
        self._loader_data.as_loader_magic()
    }
}

/// A container of recorded commands.
#[derive(Debug)]
pub struct CommandBuffer {
    _loader_data: VkLoaderDataUnion,
    level: vk::CommandBufferLevel,
}

impl CommandBuffer {
    #[verifier::type_invariant]
    closed spec fn tagged(&self) -> bool {
        self._loader_data@ == ICD_LOADER_MAGIC
    }

    /// The tag in the first word.
    pub closed spec fn spec_loader_magic(&self) -> usize {
        self._loader_data@
    }

    /// The level that the buffer was made for.
    pub closed spec fn spec_level(&self) -> vk::CommandBufferLevel {
        self.level
    }

    /// A command buffer of the given level.
    pub fn new(level: vk::CommandBufferLevel) -> (r: CommandBuffer)
        ensures
            r.spec_level() == level,
            r.spec_loader_magic() == ICD_LOADER_MAGIC,
    {
        CommandBuffer { _loader_data: VkLoaderDataUnion::default(), level }
    }

    /// The level that the buffer was made for.
    #[verifier::when_used_as_spec(spec_level)]
    pub fn level(&self) -> (r: vk::CommandBufferLevel)
        ensures
            r == self.spec_level(),
    {
        self.level
    }

    /// The tag in the first word: always the loader's.
    #[verifier::when_used_as_spec(spec_loader_magic)]
    pub fn loader_magic(&self) -> (r: usize)
        ensures
            r == self.spec_loader_magic(),
            r == ICD_LOADER_MAGIC,
    {
        proof {
            use_type_invariant(self);
        }
        self._loader_data.as_loader_magic()
    }
}

/// The command buffers that were allocated together, oldest first.
#[derive(Debug)]
pub struct CommandPool {
    pub buffers: Vec<Box<CommandBuffer>>,
}

/// What becomes of a request for a command pool: it is turned down where it
/// brings a host allocator, and granted with a pool that holds no buffer
/// else. Where it is granted, the result is what the pool holds.
pub open spec fn command_pool_creation(custom_allocator: bool) -> Result<
    Seq<Box<CommandBuffer>>,
    VkResult,
> {
    if custom_allocator {
        Err(VkResult::ErrorInitializationFailed)
    } else {
        Ok(Seq::empty())
    }
}

impl CommandPool {
    /// The levels of the buffers in the pool, oldest first.
    pub open spec fn levels(&self) -> Seq<vk::CommandBufferLevel> {
        Seq::new(self.buffers@.len(), |i: int| self.buffers@[i].spec_level())
    }

    /// Makes a command pool for a request, or turns the request down.
    ///
    /// The request has to carry the tag of a command pool creation request
    /// and may have nothing chained to it.
    pub fn from_create_info(
        create_info: &vk::CommandPoolCreateInfo,
        allocator: Option<&vk::AllocationCallbacks>,
    ) -> (r: Result<CommandPool, VkResult>)
        requires
            create_info.s_type == vk::STRUCTURE_TYPE_COMMAND_POOL_CREATE_INFO,
            !create_info.chained,
        ensures
            match r {
                Ok(pool) => command_pool_creation(allocator is Some) == Ok::<
                    Seq<Box<CommandBuffer>>,
                    VkResult,
                >(pool.buffers@),
                Err(e) => command_pool_creation(allocator is Some) == Err::<
                    Seq<Box<CommandBuffer>>,
                    VkResult,
                >(e),
            },
    {
        if allocator.is_some() {
            return Err(VkResult::ErrorInitializationFailed);
        }
        Ok(CommandPool::default())
    }

    /// The buffers of the pool, to add to or to change.
    pub fn buffers_mut(&mut self) -> (r: &mut Vec<Box<CommandBuffer>>)
        ensures
            *r == old(self).buffers,
            final(self).buffers == *final(r),
    {
        &mut self.buffers
    }
}

impl Default for CommandPool {
    /// A pool that holds no buffer.
    fn default() -> (r: CommandPool)
        ensures
            r.buffers@ == Seq::<Box<CommandBuffer>>::empty(),
    {
        CommandPool { buffers: Vec::new() }
    }
}

/// A fresh object carries the loader's tag, and a fresh device has a fresh
/// queue.
pub proof fn lemma_fresh_objects_are_tagged()
    ensures
        PhysicalDevice::fresh().spec_loader_magic() == ICD_LOADER_MAGIC,
        Queue::fresh().spec_loader_magic() == ICD_LOADER_MAGIC,
        Device::fresh().spec_loader_magic() == ICD_LOADER_MAGIC,
        Device::fresh().spec_queue() == Queue::fresh(),
{
}

/// With no host allocator and every requested extension listed, a request
/// for an instance is granted exactly when the version it asks for lies
/// between 1.0.0 and 1.0.4095, both included.
pub proof fn lemma_version_acceptance(info: vk::InstanceCreateInfo)
    requires
        all_listed(info.enabled_extension_names.deep_view()),
    ensures
        instance_creation(info, false) is Ok <==> pack(1, 0, 0) <= requested_version(info) <= pack(
            1,
            0,
            0xfff,
        ),
{
}

/// A request without a host allocator that asks for a version outside the
/// window is answered `ErrorIncompatibleDriver`, whatever else it holds; and
/// no request is granted with a version outside the window.
pub proof fn lemma_version_outside_window(info: vk::InstanceCreateInfo, custom_allocator: bool)
    ensures
        !custom_allocator && !supported(requested_version(info)) ==> instance_creation(info, false)
            == Err::<InstanceView, VkResult>(VkResult::ErrorIncompatibleDriver),
        instance_creation(info, custom_allocator) matches Ok(instance) ==> supported(
            instance.client_version,
        ),
{
}

/// A request without a host allocator and with a supported version that
/// names one extension which the driver does not list is answered
/// `ErrorExtensionNotPresent`, whatever the other names are.
pub proof fn lemma_unlisted_extension_rejected(info: vk::InstanceCreateInfo, i: int)
    requires
        supported(requested_version(info)),
        0 <= i < info.enabled_extension_names.deep_view().len(),
        !lists(instance_catalogue(), info.enabled_extension_names.deep_view()[i]),
    ensures
        instance_creation(info, false) == Err::<InstanceView, VkResult>(
            VkResult::ErrorExtensionNotPresent,
        ),
{
}

/// Every extension of a granted request is one that the driver lists.
pub proof fn lemma_granted_extensions_are_listed(
    info: vk::InstanceCreateInfo,
    custom_allocator: bool,
)
    ensures
        instance_creation(info, custom_allocator) matches Ok(instance) ==> all_listed(
            instance.enabled_extensions,
        ) && instance.enabled_extensions == info.enabled_extension_names.deep_view()
            && instance.phys_device is None,
{
}

/// A request that brings a host allocator is answered
/// `ErrorInitializationFailed`, be it for an instance, a device or a command
/// pool, and whatever else it holds: no object comes of it.
pub proof fn lemma_custom_allocator_rejected(info: vk::InstanceCreateInfo)
    ensures
        instance_creation(info, true) == Err::<InstanceView, VkResult>(
            VkResult::ErrorInitializationFailed,
        ),
        device_creation(true) == Err::<Device, VkResult>(VkResult::ErrorInitializationFailed),
        command_pool_creation(true) == Err::<Seq<Box<CommandBuffer>>, VkResult>(
            VkResult::ErrorInitializationFailed,
        ),
{
}

/// Once the physical device of an instance is made, it stays: a further
/// enumeration, of either kind, leaves the instance as it is. And after one
/// enumeration that asks for the device, the device is there.
pub proof fn lemma_enumeration_idempotent(before: InstanceView, update_count: bool)
    ensures
        after_enumeration(before, false).phys_device is Some,
        after_enumeration(after_enumeration(before, false), update_count) == after_enumeration(
            before,
            false,
        ),
        before.phys_device is Some ==> after_enumeration(before, update_count) == before,
        after_enumeration(before, true) == before,
{
}

} // verus!
