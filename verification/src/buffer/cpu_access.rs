//! Buffer whose content is accessible to the CPU.
//!
//! Each access of the host or of the device locks the bytes of the buffer for
//! reading or for writing. The buffer can be read several times at once. A
//! read and a write at once, or two writes at once, are refused.

use crate::buffer::sys::{
    buffer_refusal, check_cpu_read_spec, check_cpu_write_spec, normalized, BufferCreationError,
    UnsafeBuffer, UnsafeBufferCreateInfo,
};
use crate::buffer::{BufferAccess, BufferInner, BufferUsage};
use crate::device::{Device, MemoryType};
use crate::memory::pool::{
    AllocFromRequirementsFilter, MemoryPoolAlloc, PotentialDedicatedAllocation,
    StandardMemoryPoolAlloc,
};
use crate::memory::{DeviceMemoryError, ExternalMemoryHandleTypes};
use crate::sync::tracker::{cpu_kind, AccessTracker};
use crate::sync::{
    lockable_range, locked_range, unlockable_range, unlocked_range, LockKind, QueueFamilyIndices,
    Sharing,
};
use crate::DeviceSize;
use vstd::pervasive::unreached;
use vstd::prelude::*;

verus! {

/// Error when attempting to CPU-read a buffer.
#[derive(Clone, Copy, Debug, PartialEq, Eq, Structural)]
pub enum ReadLockError {
    /// The buffer is already locked for write mode by the CPU.
    CpuWriteLocked,
    /// The buffer is already locked for write mode by the GPU.
    GpuWriteLocked,
}

impl ReadLockError {
    /// What the error says, in words.
    pub fn to_string(&self) -> (s: String)
        ensures
            s@ == match *self {
                ReadLockError::CpuWriteLocked => "the buffer is already locked for write mode by the CPU"@,
                ReadLockError::GpuWriteLocked => "the buffer is already locked for write mode by the GPU"@,
            },
    {
        match self {
            ReadLockError::CpuWriteLocked => "the buffer is already locked for write mode by the CPU".to_owned(),
            ReadLockError::GpuWriteLocked => "the buffer is already locked for write mode by the GPU".to_owned(),
        }
    }
}

/// Error when attempting to CPU-write a buffer.
#[derive(Clone, Copy, Debug, PartialEq, Eq, Structural)]
pub enum WriteLockError {
    /// The buffer is already locked by the CPU.
    CpuLocked,
    /// The buffer is already locked by the GPU.
    GpuLocked,
}

impl WriteLockError {
    /// What the error says, in words.
    pub fn to_string(&self) -> (s: String)
        ensures
            s@ == match *self {
                WriteLockError::CpuLocked => "the buffer is already locked by the CPU"@,
                WriteLockError::GpuLocked => "the buffer is already locked by the GPU"@,
            },
    {
        match self {
            WriteLockError::CpuLocked => "the buffer is already locked by the CPU".to_owned(),
            WriteLockError::GpuLocked => "the buffer is already locked by the GPU".to_owned(),
        }
    }
}

/// How several queue families share a resource: at once where there are at
/// least two of them, else one at a time.
pub fn sharing_of(queue_family_indices: &Vec<u32>) -> (sharing: Sharing<QueueFamilyIndices>)
    ensures
        match sharing {
            Sharing::Concurrent(indices) => queue_family_indices@.len() >= 2 && indices@
                == queue_family_indices@,
            Sharing::Exclusive => queue_family_indices@.len() < 2,
        },
{
    if queue_family_indices.len() >= 2 {
        Sharing::Concurrent(QueueFamilyIndices::from_vec(queue_family_indices))
    } else {
        Sharing::Exclusive
    }
}

/// Which memory a buffer that the host accesses is put in: memory that the
/// host caches is preferred where `host_cached` asks for it, and other memory
/// where it does not. No memory is forbidden.
pub open spec fn host_cached_filter_spec(
    host_cached: bool,
    memory_type: MemoryType,
) -> AllocFromRequirementsFilter {
    if memory_type.property_flags.host_cached == host_cached {
        AllocFromRequirementsFilter::Preferred
    } else {
        AllocFromRequirementsFilter::Allowed
    }
}

/// Which memory a buffer that the host accesses is put in.
pub fn host_cached_filter(host_cached: bool, memory_type: &MemoryType) -> (answer:
    AllocFromRequirementsFilter)
    ensures
        answer == host_cached_filter_spec(host_cached, *memory_type),
{
    if memory_type.property_flags.host_cached {
        if host_cached {
            AllocFromRequirementsFilter::Preferred
        } else {
            AllocFromRequirementsFilter::Allowed
        }
    } else {
        if host_cached {
            AllocFromRequirementsFilter::Allowed
        } else {
            AllocFromRequirementsFilter::Preferred
        }
    }
}

/// Buffer whose content is accessible by the CPU.
///
/// Setting `host_cached` to `true` on the various initializers makes the buffer prefer memory
/// that the host caches. This can be more performant in cases where the cpu needs to read data
/// coming off the GPU.
#[derive(Debug)]
pub struct CpuAccessibleBuffer<A = PotentialDedicatedAllocation<StandardMemoryPoolAlloc>> {
    inner: UnsafeBuffer,
    memory: A,
    queue_family_indices: Vec<u32>,
}

/// Whether the parameters of a buffer for the host are ones that a buffer
/// can be made of.
pub open spec fn raw_askable(size: DeviceSize, usage: BufferUsage, queue_family_indices: Seq<u32>) -> bool {
    &&& size != 0
    &&& !usage.is_empty_spec()
    &&& (queue_family_indices.len() >= 2 ==> crate::sync::two_distinct(queue_family_indices))
}

/// Whether the device refuses a buffer of the given size and uses that the
/// given queue families share.
pub open spec fn raw_refused(
    device: &Device,
    size: DeviceSize,
    usage: BufferUsage,
    queue_family_indices: Seq<u32>,
) -> bool {
    ||| usage.device_refusal(device)
    ||| (queue_family_indices.len() >= 2 && exists|i: int|
        0 <= i < queue_family_indices.len() && (#[trigger] queue_family_indices[i])
            >= device.physical_device.queue_family_count)
    ||| (device.physical_device.properties.max_buffer_size matches Some(max) && size > max)
}

/// A buffer that the device does not refuse is not refused either once its
/// queue families are put in order.
pub proof fn lemma_raw_accepted(
    device: &Device,
    size: DeviceSize,
    usage: BufferUsage,
    queue_family_indices: Seq<u32>,
    before: UnsafeBufferCreateInfo,
    after: UnsafeBufferCreateInfo,
)
    requires
        !raw_refused(device, size, usage, queue_family_indices),
        before.size == size,
        before.usage == usage,
        before.sparse is None,
        before.external_memory_handle_types == ExternalMemoryHandleTypes::empty_spec(),
        match before.sharing {
            Sharing::Concurrent(indices) => queue_family_indices.len() >= 2 && indices@
                == queue_family_indices,
            Sharing::Exclusive => queue_family_indices.len() < 2,
        },
        normalized(before, after),
    ensures
        buffer_refusal(device, &after) is None,
{
    if after.sharing is Concurrent {
        let indices = after.sharing->Concurrent_0@;
        let count = device.physical_device.queue_family_count;
        let beyond = |index: u32| index >= count;
        assert forall|p: int| 0 <= p < indices.len() implies !beyond(#[trigger] indices[p]) by {
            assert(queue_family_indices.contains(indices[p]));
        }
        crate::sync::lemma_first_conflict_none(indices, 0, indices.len() as int, beyond);
    }
}

impl<A: MemoryPoolAlloc> CpuAccessibleBuffer<A> {
    /// Prepares a new buffer without checking the size: says what to ask of
    /// the driver. Only a lack of memory is reported; the parameters must be
    /// ones that the device takes.
    pub fn raw(
        device: &Device,
        size: DeviceSize,
        usage: BufferUsage,
        host_cached: bool,
        queue_family_indices: &Vec<u32>,
    ) -> (result: Result<UnsafeBufferCreateInfo, DeviceMemoryError>)
        requires
            raw_askable(size, usage, queue_family_indices@),
            !raw_refused(device, size, usage, queue_family_indices@),
        ensures
            result matches Ok(info) && info.size == size && info.usage == usage && info.sparse is None
                && info.external_memory_handle_types == ExternalMemoryHandleTypes::empty_spec()
                && buffer_refusal(device, &info) is None && (info.sharing is Concurrent
                <==> queue_family_indices@.len() >= 2),
    {
        let create_info = UnsafeBufferCreateInfo {
            sharing: sharing_of(queue_family_indices),
            size,
            sparse: None,
            usage,
            external_memory_handle_types: ExternalMemoryHandleTypes::empty(),
        };
        let result = UnsafeBuffer::new(device, create_info);
        proof {
            let info = choose|info: UnsafeBufferCreateInfo| #[trigger]
                normalized(create_info, info) && match buffer_refusal(device, &info) {
                    None => result matches Ok(out) && out == info,
                    Some(refusal) => result matches Err(err) && refusal.reported_by(err),
                };
            lemma_raw_accepted(device, size, usage, queue_family_indices@, create_info, info);
        }
        match result {
            Ok(info) => Ok(info),
            Err(BufferCreationError::AllocError(err)) => Err(err),
            Err(_) => unreached(),
        }
    }

    /// Prepares a new buffer of `size` bytes that is filled with one value
    /// of that size once memory is bound to it.
    pub fn from_data(device: &Device, size: DeviceSize, usage: BufferUsage, host_cached: bool) -> (result:
        Result<UnsafeBufferCreateInfo, DeviceMemoryError>)
        requires
            raw_askable(size, usage, Seq::empty()),
            !raw_refused(device, size, usage, Seq::empty()),
        ensures
            result matches Ok(info) && info.size == size && info.usage == usage
                && info.sharing is Exclusive && buffer_refusal(device, &info) is None,
    {
        let none: Vec<u32> = Vec::new();
        CpuAccessibleBuffer::<A>::raw(device, size, usage, host_cached, &none)
    }

    /// Prepares a new buffer of `size` bytes whose content is not set.
    pub fn uninitialized(device: &Device, size: DeviceSize, usage: BufferUsage, host_cached: bool) -> (result:
        Result<UnsafeBufferCreateInfo, DeviceMemoryError>)
        requires
            raw_askable(size, usage, Seq::empty()),
            !raw_refused(device, size, usage, Seq::empty()),
        ensures
            result matches Ok(info) && info.size == size && info.usage == usage
                && info.sharing is Exclusive && buffer_refusal(device, &info) is None,
    {
        let none: Vec<u32> = Vec::new();
        CpuAccessibleBuffer::<A>::raw(device, size, usage, host_cached, &none)
    }

    /// Prepares a new buffer that is filled with `len` elements of
    /// `element_size` bytes each once memory is bound to it.
    pub fn from_iter(
        device: &Device,
        len: DeviceSize,
        element_size: DeviceSize,
        usage: BufferUsage,
        host_cached: bool,
    ) -> (result: Result<UnsafeBufferCreateInfo, DeviceMemoryError>)
        requires
            len * element_size <= u64::MAX,
            raw_askable((len * element_size) as u64, usage, Seq::empty()),
            !raw_refused(device, (len * element_size) as u64, usage, Seq::empty()),
        ensures
            result matches Ok(info) && info.size == len * element_size && info.usage == usage
                && info.sharing is Exclusive && buffer_refusal(device, &info) is None,
    {
        CpuAccessibleBuffer::<A>::uninitialized_array(device, len, element_size, usage, host_cached)
    }

    /// Prepares a new buffer for `len` elements of `element_size` bytes
    /// each.
    pub fn uninitialized_array(
        device: &Device,
        len: DeviceSize,
        element_size: DeviceSize,
        usage: BufferUsage,
        host_cached: bool,
    ) -> (result: Result<UnsafeBufferCreateInfo, DeviceMemoryError>)
        requires
            len * element_size <= u64::MAX,
            raw_askable((len * element_size) as u64, usage, Seq::empty()),
            !raw_refused(device, (len * element_size) as u64, usage, Seq::empty()),
        ensures
            result matches Ok(info) && info.size == len * element_size && info.usage == usage
                && info.sharing is Exclusive && buffer_refusal(device, &info) is None,
    {
        let none: Vec<u32> = Vec::new();
        CpuAccessibleBuffer::<A>::raw(device, len * element_size, usage, host_cached, &none)
    }

    /// The buffer, once the driver has made it and memory is bound to it.
    pub fn from_parts(inner: UnsafeBuffer, memory: A, queue_family_indices: Vec<u32>) -> (buffer:
        CpuAccessibleBuffer<A>)
        ensures
            buffer.inner_spec() == (BufferInner { buffer: inner, offset: 0 }),
            buffer.size_spec() == inner.size_spec(),
            buffer.memory_spec() == memory,
            buffer.queue_family_indices_spec() == queue_family_indices@,
    {
        CpuAccessibleBuffer { inner, memory, queue_family_indices }
    }

    /// The memory held by the buffer.
    pub closed spec fn memory_spec(&self) -> A {
        self.memory
    }

    /// The queue families allowed to access this buffer.
    pub closed spec fn queue_family_indices_spec(&self) -> Seq<u32> {
        self.queue_family_indices@
    }

    /// Returns the queue families this buffer can be used on.
    pub fn queue_family_indices(&self) -> (indices: &Vec<u32>)
        ensures
            indices@ == self.queue_family_indices_spec(),
    {
        &self.queue_family_indices
    }

    /// The bytes of the underlying buffer that the buffer covers.
    pub open spec fn range_end(&self) -> int {
        self.inner_spec().offset + self.size_spec()
    }

    /// Locks the buffer in order to read its content from the CPU.
    ///
    /// If the buffer is currently used in exclusive mode by the GPU, this function will return
    /// an error. Similarly if you called `write()` on the buffer and haven't given the lock
    /// back, this function will return an error as well.
    ///
    /// After this function successfully locks the buffer, any attempt to submit a command buffer
    /// that uses it in exclusive mode will fail. You can still submit this buffer for
    /// non-exclusive accesses (ie. reads).
    pub fn read(&self, tracker: &mut AccessTracker) -> (result: Result<ReadLock, ReadLockError>)
        requires
            self.inner_spec().buffer.key_spec() < old(tracker)@.buffers.len(),
            self.range_end() <= u64::MAX,
            check_cpu_read_spec(
                old(tracker)@.buffers[self.inner_spec().buffer.key_spec() as int],
                self.inner_spec().offset as int,
                self.range_end(),
            ) is Ok ==> lockable_range(
                old(tracker)@.buffers[self.inner_spec().buffer.key_spec() as int],
                LockKind::CpuRead,
                self.inner_spec().offset as int,
                self.range_end(),
            ),
        ensures
            old(tracker).wf() ==> final(tracker).wf(),
            final(tracker)@.signaled == old(tracker)@.signaled,
            match result {
                Ok(lock) => {
                    &&& check_cpu_read_spec(
                        old(tracker)@.buffers[self.inner_spec().buffer.key_spec() as int],
                        self.inner_spec().offset as int,
                        self.range_end(),
                    ) is Ok
                    &&& lock.buffer == self.inner_spec().buffer.key_spec()
                    &&& lock.start == self.inner_spec().offset
                    &&& lock.end == self.range_end()
                    &&& final(tracker)@.buffers == old(tracker)@.buffers.update(
                        lock.buffer as int,
                        locked_range(
                            old(tracker)@.buffers[lock.buffer as int],
                            LockKind::CpuRead,
                            lock.start as int,
                            lock.end as int,
                        ),
                    )
                },
                Err(err) => {
                    &&& check_cpu_read_spec(
                        old(tracker)@.buffers[self.inner_spec().buffer.key_spec() as int],
                        self.inner_spec().offset as int,
                        self.range_end(),
                    ) == Err::<(), ReadLockError>(err)
                    &&& final(tracker)@.buffers == old(tracker)@.buffers
                },
            },
    {
        let key = self.inner.key();
        let start: DeviceSize = 0;
        let end = start + self.inner.size();
        match tracker.check_cpu_read(key, start, end) {
            Ok(_) => {},
            Err(err) => {
                return Err(err);
            },
        }
        tracker.cpu_lock(key, start, end, false);
        Ok(ReadLock { buffer: key, start, end })
    }

    /// Locks the buffer in order to write its content from the CPU.
    ///
    /// If the buffer is currently in use by the GPU, this function will return an error.
    /// Similarly if you called `read()` on the buffer and haven't given the lock back, this
    /// function will return an error as well.
    ///
    /// After this function successfully locks the buffer, any attempt to submit a command buffer
    /// that uses it and any attempt to call `read()` will return an error.
    pub fn write(&self, tracker: &mut AccessTracker) -> (result: Result<WriteLock, WriteLockError>)
        requires
            self.inner_spec().buffer.key_spec() < old(tracker)@.buffers.len(),
            self.range_end() <= u64::MAX,
        ensures
            old(tracker).wf() ==> final(tracker).wf(),
            final(tracker)@.signaled == old(tracker)@.signaled,
            match result {
                Ok(lock) => {
                    &&& check_cpu_write_spec(
                        old(tracker)@.buffers[self.inner_spec().buffer.key_spec() as int],
                        self.inner_spec().offset as int,
                        self.range_end(),
                    ) is Ok
                    &&& lock.buffer == self.inner_spec().buffer.key_spec()
                    &&& lock.start == self.inner_spec().offset
                    &&& lock.end == self.range_end()
                    &&& final(tracker)@.buffers == old(tracker)@.buffers.update(
                        lock.buffer as int,
                        locked_range(
                            old(tracker)@.buffers[lock.buffer as int],
                            LockKind::CpuWrite,
                            lock.start as int,
                            lock.end as int,
                        ),
                    )
                },
                Err(err) => {
                    &&& check_cpu_write_spec(
                        old(tracker)@.buffers[self.inner_spec().buffer.key_spec() as int],
                        self.inner_spec().offset as int,
                        self.range_end(),
                    ) == Err::<(), WriteLockError>(err)
                    &&& final(tracker)@.buffers == old(tracker)@.buffers
                },
            },
    {
        let key = self.inner.key();
        let start: DeviceSize = 0;
        let end = start + self.inner.size();
        match tracker.check_cpu_write(key, start, end) {
            Ok(_) => {},
            Err(err) => {
                return Err(err);
            },
        }
        proof {
            crate::buffer::cpu_access::lemma_write_check_lockable(
                tracker@.buffers[key as int],
                start as int,
                end as int,
            );
        }
        tracker.cpu_lock(key, start, end, true);
        Ok(WriteLock { buffer: key, start, end })
    }
}

/// A range that the host may write can be locked for writing.
pub proof fn lemma_write_check_lockable(s: Seq<crate::sync::CurrentAccess>, start: int, end: int)
    requires
        check_cpu_write_spec(s, start, end) is Ok,
    ensures
        lockable_range(s, LockKind::CpuWrite, start, end),
{
    let conflict = |a: crate::sync::CurrentAccess| a.cpu_write_conflict() is Some;
    assert forall|p: int| start <= p < end && 0 <= p < s.len() implies (#[trigger] s[p]).lockable(
        LockKind::CpuWrite,
    ) by {
        if conflict(s[p]) {
            crate::sync::lemma_first_conflict_exists(s, start, end, conflict, p);
        }
    }
}

impl<A: MemoryPoolAlloc> BufferAccess for CpuAccessibleBuffer<A> {
    closed spec fn inner_spec(&self) -> BufferInner {
        BufferInner { buffer: self.inner, offset: 0 }
    }

    closed spec fn size_spec(&self) -> DeviceSize {
        self.inner.size_spec()
    }

    fn inner(&self) -> (inner: BufferInner) {
        BufferInner { buffer: self.inner, offset: 0 }
    }

    fn size(&self) -> (size: DeviceSize) {
        self.inner.size()
    }
}

/// A lock of the host on the content of a buffer, for reading. The bytes
/// stay locked until the lock is given back.
#[derive(Debug)]
pub struct ReadLock {
    /// The key of the buffer.
    pub buffer: u64,
    /// The first byte that is locked.
    pub start: DeviceSize,
    /// The byte after the last one that is locked.
    pub end: DeviceSize,
}

impl ReadLock {
    /// Gives the lock back.
    pub fn unlock(self, tracker: &mut AccessTracker)
        requires
            self.buffer < old(tracker)@.buffers.len(),
            unlockable_range(
                old(tracker)@.buffers[self.buffer as int],
                LockKind::CpuRead,
                self.start as int,
                self.end as int,
            ),
        ensures
            old(tracker).wf() ==> final(tracker).wf(),
            final(tracker)@.signaled == old(tracker)@.signaled,
            final(tracker)@.buffers == old(tracker)@.buffers.update(
                self.buffer as int,
                unlocked_range(
                    old(tracker)@.buffers[self.buffer as int],
                    LockKind::CpuRead,
                    self.start as int,
                    self.end as int,
                ),
            ),
    {
        tracker.cpu_unlock(self.buffer, self.start, self.end, false);
    }
}

/// A lock of the host on the content of a buffer, for writing. The bytes
/// stay locked until the lock is given back.
#[derive(Debug)]
pub struct WriteLock {
    /// The key of the buffer.
    pub buffer: u64,
    /// The first byte that is locked.
    pub start: DeviceSize,
    /// The byte after the last one that is locked.
    pub end: DeviceSize,
}

impl WriteLock {
    /// Gives the lock back.
    pub fn unlock(self, tracker: &mut AccessTracker)
        requires
            self.buffer < old(tracker)@.buffers.len(),
            unlockable_range(
                old(tracker)@.buffers[self.buffer as int],
                LockKind::CpuWrite,
                self.start as int,
                self.end as int,
            ),
        ensures
            old(tracker).wf() ==> final(tracker).wf(),
            final(tracker)@.signaled == old(tracker)@.signaled,
            final(tracker)@.buffers == old(tracker)@.buffers.update(
                self.buffer as int,
                unlocked_range(
                    old(tracker)@.buffers[self.buffer as int],
                    LockKind::CpuWrite,
                    self.start as int,
                    self.end as int,
                ),
            ),
    {
        tracker.cpu_unlock(self.buffer, self.start, self.end, true);
    }
}

} // verus!
