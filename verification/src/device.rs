//! What a caller does with a logical device.

use crate::dispatch::{
    command_pool_creation, CommandBuffer, CommandPool, Device, Queue, ICD_LOADER_MAGIC,
};
use crate::result::VkResult;
use crate::vk;
use vstd::prelude::*;

verus! {

/// The levels of a pool after `count` buffers of one level have joined it:
/// the levels it had, then `count` times the new level.
pub open spec fn allocated(
    levels: Seq<vk::CommandBufferLevel>,
    count: nat,
    level: vk::CommandBufferLevel,
) -> Seq<vk::CommandBufferLevel> {
    levels + Seq::new(count, |i: int| level)
}

/// Ends a device, and with it the queue of the device. The caller may bring
/// no host allocator.
pub fn destroy_device(device: Box<Device>, allocator: Option<&vk::AllocationCallbacks>)
    requires
        allocator is None,
{
    let _ = device;
}

/// The queue of a device. A device has one queue family with one queue in
/// it, so the only index of a queue is zero; the index of the family is not
/// looked at. No queue is made here: each call hands out the queue that the
/// device has had since it was made.
pub fn get_device_queue(device: &Device, queue_family_index: u32, queue_index: u32) -> (r: &Queue)
    requires
        queue_index == 0,
    ensures
        *r == device.spec_queue(),
{
    device.queue()
}

/// Makes a command pool for a request, or turns the request down.
///
/// The request has to carry the tag of a command pool creation request and
/// may have nothing chained to it.
pub fn create_command_pool(
    device: &Device,
    create_info: &vk::CommandPoolCreateInfo,
    allocator: Option<&vk::AllocationCallbacks>,
) -> (r: Result<Box<CommandPool>, VkResult>)
    requires
        create_info.s_type == vk::STRUCTURE_TYPE_COMMAND_POOL_CREATE_INFO,
        !create_info.chained,
    ensures
        match r {
            Ok(pool) => command_pool_creation(allocator is Some) == Ok::<
                Seq<Box<CommandBuffer>>,
                VkResult,
            >(pool.buffers@),
            Err(e) => command_pool_creation(allocator is Some) == Err::<
                Seq<Box<CommandBuffer>>,
                VkResult,
            >(e),
        },
{
    match CommandPool::from_create_info(create_info, allocator) {
        Ok(pool) => Ok(Box::new(pool)),
        Err(e) => Err(e),
    }
}

/// Makes as many command buffers as the request counts, each of the level
/// that the request names, and adds them to the end of the request's pool,
/// one after the other. The buffers that the pool held stay where they were.
///
/// The request has to carry the tag of a command buffer allocation request
/// and may have nothing chained to it.
pub fn allocate_command_buffers(
    device: &Device,
    allocate_info: &mut vk::CommandBufferAllocateInfo,
) -> (r: VkResult)
    requires
        old(allocate_info).s_type == vk::STRUCTURE_TYPE_COMMAND_BUFFER_ALLOCATE_INFO,
        !old(allocate_info).chained,
    ensures
        r == VkResult::Success,
        ({
            let before = old(allocate_info).command_pool;
            let after = final(allocate_info).command_pool;
            let count = old(allocate_info).command_buffer_count;
            &&& after.levels() == allocated(before.levels(), count as nat, old(allocate_info).level)
            &&& after.buffers@.len() == before.buffers@.len() + count
            &&& forall|i: int|
                0 <= i < before.buffers@.len() ==> after.buffers@[i] == before.buffers@[i]
            &&& forall|i: int|
                before.buffers@.len() <= i < after.buffers@.len() ==> (
                #[trigger] after.buffers@[i]).spec_loader_magic() == ICD_LOADER_MAGIC
        }),
        *final(final(allocate_info).command_pool) == *final(old(allocate_info).command_pool),
        final(allocate_info).s_type == old(allocate_info).s_type,
        final(allocate_info).chained == old(allocate_info).chained,
        final(allocate_info).level == old(allocate_info).level,
        final(allocate_info).command_buffer_count == old(allocate_info).command_buffer_count,
{
    let count = allocate_info.command_buffer_count;
    let level = allocate_info.level;
    let ghost before = allocate_info.command_pool.buffers@;
    let mut i: u32 = 0;
    while i < count
        invariant
            i <= count,
            allocate_info.s_type == old(allocate_info).s_type,
            allocate_info.chained == old(allocate_info).chained,
            allocate_info.level == level,
            level == old(allocate_info).level,
            allocate_info.command_buffer_count == count,
            count == old(allocate_info).command_buffer_count,
            before == old(allocate_info).command_pool.buffers@,
            *final(allocate_info.command_pool) == *final(old(allocate_info).command_pool),
            allocate_info.command_pool.buffers@.len() == before.len() + i,
            forall|j: int|
                0 <= j < before.len() ==> allocate_info.command_pool.buffers@[j] == before[j],
            forall|j: int|
                before.len() <= j < before.len() + i ==> (
                #[trigger] allocate_info.command_pool.buffers@[j]).spec_level() == level
                    && allocate_info.command_pool.buffers@[j].spec_loader_magic()
                    == ICD_LOADER_MAGIC,
        decreases count - i,
    {
        let buffer = Box::new(CommandBuffer::new(level));
        let buffers = allocate_info.command_pool.buffers_mut();
        buffers.push(buffer);
        i += 1;
    }
    assert(allocate_info.command_pool.levels() =~= allocated(
        old(allocate_info).command_pool.levels(),
        count as nat,
        level,
    ));
    VkResult::Success
}

/// Two allocations in a row: `n` buffers into an empty pool, then `m` more.
/// The pool then holds `n + m` buffers; the first `n` have the level of the
/// first request, the next `m` that of the second; and what the first
/// allocation put there, the second left in place.
pub proof fn lemma_allocations_append(
    n: nat,
    first: vk::CommandBufferLevel,
    m: nat,
    second: vk::CommandBufferLevel,
)
    ensures
        allocated(Seq::empty(), n, first).len() == n,
        forall|i: int| 0 <= i < n ==> allocated(Seq::empty(), n, first)[i] == first,
        allocated(allocated(Seq::empty(), n, first), m, second).len() == n + m,
        forall|i: int|
            0 <= i < n ==> allocated(allocated(Seq::empty(), n, first), m, second)[i] == first,
        forall|i: int|
            n <= i < n + m ==> allocated(allocated(Seq::empty(), n, first), m, second)[i]
                == second,
{
}

/// An allocation into any pool keeps what the pool held, in place, and adds
/// exactly the buffers asked for behind it.
pub proof fn lemma_allocation_keeps_prefix(
    levels: Seq<vk::CommandBufferLevel>,
    count: nat,
    level: vk::CommandBufferLevel,
)
    ensures
        allocated(levels, count, level).len() == levels.len() + count,
        allocated(levels, count, level).subrange(0, levels.len() as int) == levels,
        forall|i: int|
            levels.len() <= i < levels.len() + count ==> allocated(levels, count, level)[i]
                == level,
{
}

} // verus!
