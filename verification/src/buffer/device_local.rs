//! Buffer whose content is read-written by the GPU only.
//!
//! Each access of the device locks the bytes of the buffer for reading or
//! for writing. The host cannot reach the content: data is brought in and out
//! through other buffers.

use crate::buffer::cpu_access::{
    lemma_raw_accepted, raw_askable, raw_refused, sharing_of, CpuAccessibleBuffer,
};
use crate::buffer::sys::{
    buffer_refusal, normalized, BufferCreationError, UnsafeBuffer, UnsafeBufferCreateInfo,
};
use crate::buffer::{BufferAccess, BufferInner, BufferUsage};
use crate::command_buffer::CommandBufferBeginError;
use crate::device::{Device, MemoryType};
use crate::memory::pool::{
    alloc_dedicated_with_exportable_fd, fd_exportable, opaque_fd_only, type_usable,
    AllocFromRequirementsFilter, AllocLayout, MappingRequirement, MemoryAllocateInfo,
    MemoryPoolAlloc, PotentialDedicatedAllocation, StandardMemoryPoolAlloc,
};
use crate::memory::{
    DedicatedAllocation, DeviceMemoryError, ExternalMemoryHandleTypes, MemoryRequirements,
};
use crate::DeviceSize;
use vstd::pervasive::unreached;
use vstd::prelude::*;

verus! {

/// Which memory a resource that the device alone accesses is put in: memory
/// of the device is preferred. No memory is forbidden.
pub open spec fn device_local_filter_spec(memory_type: MemoryType) -> AllocFromRequirementsFilter {
    if memory_type.property_flags.device_local {
        AllocFromRequirementsFilter::Preferred
    } else {
        AllocFromRequirementsFilter::Allowed
    }
}

/// Which memory a resource that the device alone accesses is put in.
pub fn device_local_filter(memory_type: &MemoryType) -> (answer: AllocFromRequirementsFilter)
    ensures
        answer == device_local_filter_spec(*memory_type),
{
    if memory_type.property_flags.device_local {
        AllocFromRequirementsFilter::Preferred
    } else {
        AllocFromRequirementsFilter::Allowed
    }
}

/// What memory to ask the driver for, for a resource that the device alone
/// accesses and whose memory can be handed out as a file descriptor: a
/// block of its own for the resource, of the first type of memory that is
/// local to the device and will do, or else of the first type that will do.
/// `None` where no type will do.
pub fn device_local_exportable(
    device: &Device,
    requirements: &MemoryRequirements,
    layout: AllocLayout,
    dedicated_allocation: DedicatedAllocation,
) -> (info: Option<MemoryAllocateInfo>)
    requires
        fd_exportable(device),
        device.physical_device.memory_types.len() <= 32,
    ensures
        match info {
            Some(info) => {
                &&& info.allocation_size == requirements.size
                &&& info.dedicated_allocation == Some(dedicated_allocation)
                &&& info.export_handle_types == opaque_fd_only()
                &&& type_usable(
                    device.physical_device.memory_types@,
                    requirements.memory_type_bits,
                    MappingRequirement::DoNotMap,
                    info.memory_type_index as int,
                )
            },
            None => forall|i: int|
                !type_usable(
                    device.physical_device.memory_types@,
                    requirements.memory_type_bits,
                    MappingRequirement::DoNotMap,
                    i,
                ),
        },
{
    let filter = |memory_type: &MemoryType| -> (answer: AllocFromRequirementsFilter)
        ensures
            answer == device_local_filter_spec(*memory_type),
        { device_local_filter(memory_type) };
    let info = alloc_dedicated_with_exportable_fd(
        device,
        requirements,
        layout,
        MappingRequirement::DoNotMap,
        dedicated_allocation,
        filter,
    );
    proof {
        if info is None {
            let types = device.physical_device.memory_types@;
            let bits = requirements.memory_type_bits;
            assert forall|i: int| !type_usable(types, bits, MappingRequirement::DoNotMap, i) by {
                if type_usable(types, bits, MappingRequirement::DoNotMap, i) {
                    let preferred = choose|answer: AllocFromRequirementsFilter|
                        answer != AllocFromRequirementsFilter::Preferred && call_ensures(
                            filter,
                            (&types[i],),
                            answer,
                        );
                    let allowed = choose|answer: AllocFromRequirementsFilter|
                        answer != AllocFromRequirementsFilter::Allowed && call_ensures(
                            filter,
                            (&types[i],),
                            answer,
                        );
                    assert(preferred == device_local_filter_spec(types[i]));
                    assert(allowed == device_local_filter_spec(types[i]));
                }
            }
        }
    }
    info
}

/// Buffer whose content is in device-local memory.
///
/// This buffer type is useful in order to store intermediary data. For example you execute a
/// compute shader that writes to this buffer, then read the content of the buffer in a following
/// compute or graphics pipeline.
#[derive(Debug)]
pub struct DeviceLocalBuffer<A = PotentialDedicatedAllocation<StandardMemoryPoolAlloc>> {
    inner: UnsafeBuffer,
    memory: A,
    queue_family_indices: Vec<u32>,
}

/// The usage with the mark of a destination of transfers.
pub open spec fn with_transfer_dst(usage: BufferUsage) -> BufferUsage {
    BufferUsage {
        transfer_src: usage.transfer_src,
        transfer_dst: true,
        uniform_texel_buffer: usage.uniform_texel_buffer,
        storage_texel_buffer: usage.storage_texel_buffer,
        uniform_buffer: usage.uniform_buffer,
        storage_buffer: usage.storage_buffer,
        index_buffer: usage.index_buffer,
        vertex_buffer: usage.vertex_buffer,
        indirect_buffer: usage.indirect_buffer,
        shader_device_address: usage.shader_device_address,
    }
}

/// The usage of a buffer of the host that data is brought to a buffer of
/// the device from: it is the source of a transfer.
pub open spec fn source_usage() -> BufferUsage {
    BufferUsage {
        transfer_src: true,
        transfer_dst: false,
        uniform_texel_buffer: false,
        storage_texel_buffer: false,
        uniform_buffer: false,
        storage_buffer: false,
        index_buffer: false,
        vertex_buffer: false,
        indirect_buffer: false,
        shader_device_address: false,
    }
}

impl<A: MemoryPoolAlloc> DeviceLocalBuffer<A> {
    /// Prepares a new buffer for `len` elements of `element_size` bytes
    /// each.
    pub fn array(
        device: &Device,
        len: DeviceSize,
        element_size: DeviceSize,
        usage: BufferUsage,
        queue_family_indices: &Vec<u32>,
    ) -> (result: Result<UnsafeBufferCreateInfo, DeviceMemoryError>)
        requires
            len * element_size <= u64::MAX,
            raw_askable((len * element_size) as u64, usage, queue_family_indices@),
            !raw_refused(device, (len * element_size) as u64, usage, queue_family_indices@),
        ensures
            result matches Ok(info) && info.size == len * element_size && info.usage == usage
                && buffer_refusal(device, &info) is None && (info.sharing is Concurrent
                <==> queue_family_indices@.len() >= 2),
    {
        DeviceLocalBuffer::<A>::raw(device, len * element_size, usage, queue_family_indices)
    }

    /// Prepares a new buffer of `size` bytes.
    pub fn new(device: &Device, size: DeviceSize, usage: BufferUsage, queue_family_indices: &Vec<u32>) -> (result:
        Result<UnsafeBufferCreateInfo, DeviceMemoryError>)
        requires
            raw_askable(size, usage, queue_family_indices@),
            !raw_refused(device, size, usage, queue_family_indices@),
        ensures
            result matches Ok(info) && info.size == size && info.usage == usage
                && buffer_refusal(device, &info) is None && (info.sharing is Concurrent
                <==> queue_family_indices@.len() >= 2),
    {
        DeviceLocalBuffer::<A>::raw(device, size, usage, queue_family_indices)
    }

    /// Prepares a `DeviceLocalBuffer` that is filled with one value of
    /// `size` bytes: a buffer for the host that the value is written to and
    /// that is the source of a transfer, and the buffer itself, which can
    /// also be the destination of one.
    pub fn from_data(device: &Device, size: DeviceSize, usage: BufferUsage, queue_family_indices: &Vec<u32>) -> (result:
        Result<(UnsafeBufferCreateInfo, UnsafeBufferCreateInfo), DeviceLocalBufferCreationError>)
        requires
            raw_askable(size, source_usage(), Seq::empty()),
            !raw_refused(device, size, source_usage(), Seq::empty()),
            raw_askable(size, with_transfer_dst(usage), queue_family_indices@),
            !raw_refused(device, size, with_transfer_dst(usage), queue_family_indices@),
        ensures
            result matches Ok(pair) && pair.0.size == size && pair.0.usage == source_usage()
                && pair.0.sharing is Exclusive && buffer_refusal(device, &pair.0) is None
                && pair.1.size == size && pair.1.usage == with_transfer_dst(usage)
                && buffer_refusal(device, &pair.1) is None,
    {
        let mut staging = BufferUsage::empty();
        staging.transfer_src = true;
        let source = match CpuAccessibleBuffer::<A>::from_data(device, size, staging, false) {
            Ok(source) => source,
            Err(err) => {
                return Err(DeviceLocalBufferCreationError::from_memory_error(err));
            },
        };
        match DeviceLocalBuffer::<A>::from_size(device, size, usage, queue_family_indices) {
            Ok(buffer) => Ok((source, buffer)),
            Err(err) => Err(err),
        }
    }

    /// Prepares a `DeviceLocalBuffer` that is filled with `len` elements of
    /// `element_size` bytes each: a buffer for the host that the elements
    /// are written to, and the buffer itself.
    pub fn from_iter(
        device: &Device,
        len: DeviceSize,
        element_size: DeviceSize,
        usage: BufferUsage,
        queue_family_indices: &Vec<u32>,
    ) -> (result: Result<
        (UnsafeBufferCreateInfo, UnsafeBufferCreateInfo),
        DeviceLocalBufferCreationError,
    >)
        requires
            len * element_size <= u64::MAX,
            raw_askable((len * element_size) as u64, source_usage(), Seq::empty()),
            !raw_refused(device, (len * element_size) as u64, source_usage(), Seq::empty()),
            raw_askable(
                (len * element_size) as u64,
                with_transfer_dst(usage),
                queue_family_indices@,
            ),
            !raw_refused(
                device,
                (len * element_size) as u64,
                with_transfer_dst(usage),
                queue_family_indices@,
            ),
        ensures
            result matches Ok(pair) && pair.0.size == len * element_size && pair.0.usage
                == source_usage() && pair.0.sharing is Exclusive && buffer_refusal(
                device,
                &pair.0,
            ) is None && pair.1.size == len * element_size && pair.1.usage == with_transfer_dst(
                usage,
            ) && buffer_refusal(device, &pair.1) is None,
    {
        let mut staging = BufferUsage::empty();
        staging.transfer_src = true;
        let source = match CpuAccessibleBuffer::<A>::from_iter(
            device,
            len,
            element_size,
            staging,
            false,
        ) {
            Ok(source) => source,
            Err(err) => {
                return Err(DeviceLocalBufferCreationError::from_memory_error(err));
            },
        };
        match DeviceLocalBuffer::<A>::from_size(
            device,
            len * element_size,
            usage,
            queue_family_indices,
        ) {
            Ok(buffer) => Ok((source, buffer)),
            Err(err) => Err(err),
        }
    }

    /// Prepares a buffer of `size` bytes that a transfer fills.
    fn from_size(device: &Device, size: DeviceSize, usage: BufferUsage, queue_family_indices: &Vec<u32>) -> (result:
        Result<UnsafeBufferCreateInfo, DeviceLocalBufferCreationError>)
        requires
            raw_askable(size, with_transfer_dst(usage), queue_family_indices@),
            !raw_refused(device, size, with_transfer_dst(usage), queue_family_indices@),
        ensures
            result matches Ok(info) && info.size == size && info.usage == with_transfer_dst(usage)
                && buffer_refusal(device, &info) is None,
    {
        // We automatically set `transfer_dst` to true in order to avoid annoying errors.
        let mut actual_usage = usage;
        actual_usage.transfer_dst = true;
        match DeviceLocalBuffer::<A>::raw(device, size, actual_usage, queue_family_indices) {
            Ok(info) => Ok(info),
            Err(err) => Err(DeviceLocalBufferCreationError::from_memory_error(err)),
        }
    }

    /// Prepares a `DeviceLocalBuffer` that copies its data from another buffer: a buffer of the
    /// size of the source, which can also be the destination of a transfer.
    pub fn from_buffer<B: BufferAccess>(
        device: &Device,
        source: &B,
        usage: BufferUsage,
        queue_family_indices: &Vec<u32>,
    ) -> (result: Result<UnsafeBufferCreateInfo, DeviceLocalBufferCreationError>)
        requires
            raw_askable(source.size_spec(), with_transfer_dst(usage), queue_family_indices@),
            !raw_refused(
                device,
                source.size_spec(),
                with_transfer_dst(usage),
                queue_family_indices@,
            ),
        ensures
            result matches Ok(info) && info.size == source.size_spec() && info.usage
                == with_transfer_dst(usage) && buffer_refusal(device, &info) is None,
    {
        DeviceLocalBuffer::<A>::from_size(device, source.size(), usage, queue_family_indices)
    }

    /// Prepares a new buffer without checking the size: says what to ask of
    /// the driver.
    pub fn raw(
        device: &Device,
        size: DeviceSize,
        usage: BufferUsage,
        queue_family_indices: &Vec<u32>,
    ) -> (result: Result<UnsafeBufferCreateInfo, DeviceMemoryError>)
        requires
            raw_askable(size, usage, queue_family_indices@),
            !raw_refused(device, size, usage, queue_family_indices@),
        ensures
            result matches Ok(info) && info.size == size && info.usage == usage && info.sparse is None
                && info.external_memory_handle_types == ExternalMemoryHandleTypes::empty_spec()
                && buffer_refusal(device, &info) is None && (info.sharing is Concurrent
                <==> queue_family_indices@.len() >= 2),
    {
        DeviceLocalBuffer::<A>::build_buffer(device, size, usage, queue_family_indices)
    }

    /// Same as `raw`, for a buffer whose memory can be handed out as a file
    /// descriptor.
    pub fn raw_with_exportable_fd(
        device: &Device,
        size: DeviceSize,
        usage: BufferUsage,
        queue_family_indices: &Vec<u32>,
    ) -> (result: Result<UnsafeBufferCreateInfo, DeviceMemoryError>)
        requires
            fd_exportable(device),
            raw_askable(size, usage, queue_family_indices@),
            !raw_refused(device, size, usage, queue_family_indices@),
        ensures
            result matches Ok(info) && info.size == size && info.usage == usage && info.sparse is None
                && info.external_memory_handle_types == ExternalMemoryHandleTypes::empty_spec()
                && buffer_refusal(device, &info) is None && (info.sharing is Concurrent
                <==> queue_family_indices@.len() >= 2),
    {
        DeviceLocalBuffer::<A>::build_buffer(device, size, usage, queue_family_indices)
    }

    /// What memory to ask the driver for, for the buffer that
    /// `raw_with_exportable_fd` has prepared, once the driver has made it
    /// and told what memory it needs.
    pub fn exportable_memory(device: &Device, buffer: &UnsafeBuffer, requirements: &MemoryRequirements) -> (info:
        Option<MemoryAllocateInfo>)
        requires
            fd_exportable(device),
            device.physical_device.memory_types.len() <= 32,
        ensures
            match info {
                Some(info) => {
                    &&& info.allocation_size == requirements.size
                    &&& info.dedicated_allocation == Some(
                        DedicatedAllocation::Buffer(buffer.key_spec()),
                    )
                    &&& info.export_handle_types == opaque_fd_only()
                    &&& type_usable(
                        device.physical_device.memory_types@,
                        requirements.memory_type_bits,
                        MappingRequirement::DoNotMap,
                        info.memory_type_index as int,
                    )
                },
                None => forall|i: int|
                    !type_usable(
                        device.physical_device.memory_types@,
                        requirements.memory_type_bits,
                        MappingRequirement::DoNotMap,
                        i,
                    ),
            },
    {
        device_local_exportable(
            device,
            requirements,
            AllocLayout::Linear,
            DedicatedAllocation::Buffer(buffer.key()),
        )
    }

    fn build_buffer(
        device: &Device,
        size: DeviceSize,
        usage: BufferUsage,
        queue_family_indices: &Vec<u32>,
    ) -> (result: Result<UnsafeBufferCreateInfo, DeviceMemoryError>)
        requires
            raw_askable(size, usage, queue_family_indices@),
            !raw_refused(device, size, usage, queue_family_indices@),
        ensures
            result matches Ok(info) && info.size == size && info.usage == usage && info.sparse is None
                && info.external_memory_handle_types == ExternalMemoryHandleTypes::empty_spec()
                && buffer_refusal(device, &info) is None && (info.sharing is Concurrent
                <==> queue_family_indices@.len() >= 2),
    {
        let create_info = UnsafeBufferCreateInfo {
            sharing: sharing_of(queue_family_indices),
            size,
            sparse: None,
            usage,
            external_memory_handle_types: ExternalMemoryHandleTypes::empty(),
        };
        let result = UnsafeBuffer::new(device, create_info);
        proof {
            let info = choose|info: UnsafeBufferCreateInfo| #[trigger]
                normalized(create_info, info) && match buffer_refusal(device, &info) {
                    None => result matches Ok(out) && out == info,
                    Some(refusal) => result matches Err(err) && refusal.reported_by(err),
                };
            lemma_raw_accepted(device, size, usage, queue_family_indices@, create_info, info);
        }
        match result {
            Ok(info) => Ok(info),
            Err(BufferCreationError::AllocError(err)) => Err(err),
            Err(_) => unreached(),
        }
    }

    /// The buffer, once the driver has made it and memory is bound to it.
    pub fn from_parts(inner: UnsafeBuffer, memory: A, queue_family_indices: Vec<u32>) -> (buffer:
        DeviceLocalBuffer<A>)
        ensures
            buffer.inner_spec() == (BufferInner { buffer: inner, offset: 0 }),
            buffer.size_spec() == inner.size_spec(),
            buffer.queue_family_indices_spec() == queue_family_indices@,
    {
        DeviceLocalBuffer { inner, memory, queue_family_indices }
    }

    /// The queue families allowed to access this buffer.
    pub closed spec fn queue_family_indices_spec(&self) -> Seq<u32> {
        self.queue_family_indices@
    }

    /// Returns the queue families this buffer can be used on.
    pub fn queue_family_indices(&self) -> (indices: &Vec<u32>)
        ensures
            indices@ == self.queue_family_indices_spec(),
    {
        &self.queue_family_indices
    }
}

impl<A: MemoryPoolAlloc> BufferAccess for DeviceLocalBuffer<A> {
    closed spec fn inner_spec(&self) -> BufferInner {
        BufferInner { buffer: self.inner, offset: 0 }
    }

    closed spec fn size_spec(&self) -> DeviceSize {
        self.inner.size_spec()
    }

    fn inner(&self) -> (inner: BufferInner) {
        BufferInner { buffer: self.inner, offset: 0 }
    }

    fn size(&self) -> (size: DeviceSize) {
        self.inner.size()
    }
}

/// Error that can happen when creating a `DeviceLocalBuffer`.
#[derive(Clone, Copy, Debug, PartialEq, Eq)]
pub enum DeviceLocalBufferCreationError {
    DeviceMemoryAllocationError(DeviceMemoryError),
    CommandBufferBeginError(CommandBufferBeginError),
}

impl DeviceLocalBufferCreationError {
    /// The error of an allocation that failed.
    pub fn from_memory_error(err: DeviceMemoryError) -> (r: DeviceLocalBufferCreationError)
        ensures
            r == DeviceLocalBufferCreationError::DeviceMemoryAllocationError(err),
    {
        DeviceLocalBufferCreationError::DeviceMemoryAllocationError(err)
    }

    /// The error of a command buffer that could not be begun.
    pub fn from_begin_error(err: CommandBufferBeginError) -> (r: DeviceLocalBufferCreationError)
        ensures
            r == DeviceLocalBufferCreationError::CommandBufferBeginError(err),
    {
        DeviceLocalBufferCreationError::CommandBufferBeginError(err)
    }
}

} // verus!
