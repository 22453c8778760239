//! Device memory: how much of it a resource needs, and of which kind.

use crate::device::Device;
use crate::{names, DeviceSize, OomError, RequirementNotMet, VulkanError};
use vstd::prelude::*;

pub mod pool;

verus! {

/// What a resource needs of the memory that it is bound to.
#[derive(Clone, Copy, Debug, PartialEq, Eq, Structural)]
pub struct MemoryRequirements {
    /// Number of bytes of memory required.
    pub size: DeviceSize,
    /// Alignment of the requirement buffer. The base memory address must be a multiple
    /// of this value.
    pub alignment: DeviceSize,
    /// Indicates which memory types can be used. Each bit that is set to 1 means that the memory
    /// type whose index is the same as the position of the bit can be used.
    pub memory_type_bits: u32,
    /// True if the implementation prefers to use dedicated allocations (in other words, allocate
    /// a whole block of memory dedicated to this resource alone).
    pub prefer_dedicated: bool,
}

/// Flags that memory was allocated with.
#[derive(Clone, Copy, Debug, PartialEq, Eq, Structural)]
pub struct MemoryAllocateFlags {
    /// Whether the addresses of buffers bound to the memory can be asked
    /// for.
    pub device_address: bool,
}

/// A block of memory of a device.
#[derive(Clone, Copy, Debug, PartialEq, Eq, Structural)]
pub struct DeviceMemory {
    /// The driver's handle of the memory.
    pub handle: u64,
    /// The size of the block in bytes.
    pub allocation_size: DeviceSize,
    /// The index of the type of the memory.
    pub memory_type_index: u32,
    /// The flags that the memory was allocated with.
    pub flags: MemoryAllocateFlags,
}

impl DeviceMemory {
    /// Returns the size in bytes of the allocation.
    pub fn allocation_size(&self) -> (size: DeviceSize)
        ensures
            size == self.allocation_size,
    {
        self.allocation_size
    }
}

/// Memory of a device that the host can reach through a mapping.
#[derive(Clone, Copy, Debug, PartialEq, Eq, Structural)]
pub struct MappedDeviceMemory {
    /// The memory.
    pub memory: DeviceMemory,
    /// The first byte of the memory that is mapped.
    pub start: DeviceSize,
    /// The byte after the last one that is mapped.
    pub end: DeviceSize,
}

/// The resource that a block of memory is allocated for alone.
#[derive(Clone, Copy, Debug, PartialEq, Eq, Structural)]
pub enum DedicatedAllocation {
    /// A buffer, by key.
    Buffer(u64),
    /// An image, by key.
    Image(u64),
}

/// Error type returned by functions related to device memory.
#[derive(Clone, Copy, Debug, PartialEq, Eq)]
pub enum DeviceMemoryError {
    /// Not enough memory available.
    OomError(OomError),
    /// The maximum number of allocations has been exceeded.
    TooManyObjects,
    /// Memory map failed.
    MemoryMapFailed,
    /// Something was asked for that the device does not allow.
    RequirementNotMet { required_for: &'static str, requires_one_of: crate::RequiresOneOf },
}

impl DeviceMemoryError {
    /// Whether the driver's error is one that an allocation or a mapping can
    /// end with.
    pub open spec fn convertible(err: VulkanError) -> bool {
        err is OutOfHostMemory || err is OutOfDeviceMemory || err is TooManyObjects
            || err is MemoryMapFailed
    }

    /// Whether `self` stands for the given error of the driver.
    pub open spec fn stands_for(self, err: VulkanError) -> bool {
        match err {
            VulkanError::OutOfHostMemory => self matches DeviceMemoryError::OomError(
                OomError::OutOfHostMemory,
            ),
            VulkanError::OutOfDeviceMemory => self matches DeviceMemoryError::OomError(
                OomError::OutOfDeviceMemory,
            ),
            VulkanError::TooManyObjects => self is TooManyObjects,
            _ => self is MemoryMapFailed,
        }
    }

    /// Turns an error of the driver into a memory error.
    pub fn from_vulkan_error(err: VulkanError) -> (r: DeviceMemoryError)
        requires
            DeviceMemoryError::convertible(err),
        ensures
            r.stands_for(err),
    {
        match err {
            VulkanError::OutOfHostMemory => DeviceMemoryError::OomError(OomError::OutOfHostMemory),
            VulkanError::OutOfDeviceMemory => DeviceMemoryError::OomError(
                OomError::OutOfDeviceMemory,
            ),
            VulkanError::TooManyObjects => DeviceMemoryError::TooManyObjects,
            _ => DeviceMemoryError::MemoryMapFailed,
        }
    }

    /// The memory error that stands for a lack of memory.
    pub fn from_oom(err: OomError) -> (r: DeviceMemoryError)
        ensures
            r matches DeviceMemoryError::OomError(inner) && inner == err,
    {
        DeviceMemoryError::OomError(err)
    }
}

/// The kinds of handle under which memory can be exported to, or imported from, outside the device.
#[derive(Clone, Copy, Debug, PartialEq, Eq, Hash, Structural)]
pub struct ExternalMemoryHandleTypes {
    pub opaque_fd: bool,
    pub opaque_win32: bool,
    pub opaque_win32_kmt: bool,
    pub d3d11_texture: bool,
    pub d3d11_texture_kmt: bool,
    pub d3d12_heap: bool,
    pub d3d12_resource: bool,
    pub dma_buf: bool,
    pub android_hardware_buffer: bool,
    pub host_allocation: bool,
    pub host_mapped_foreign_memory: bool,
}

impl ExternalMemoryHandleTypes {
    /// The extension that the device lacks for these kinds of handle, if it
    /// lacks one: handles of buffers shared through DMA and memory of the
    /// host each ask for their own extension.
    pub open spec fn missing_extension(self, device: &Device) -> Option<Seq<char>> {
        if self.dma_buf && !device.enabled_extensions.ext_external_memory_dma_buf {
            Some("ext_external_memory_dma_buf"@)
        } else if (self.host_allocation || self.host_mapped_foreign_memory)
            && !device.enabled_extensions.ext_external_memory_host {
            Some("ext_external_memory_host"@)
        } else {
            None
        }
    }

    /// The kind of handle that the missing extension is asked for.
    pub open spec fn missing_for(self, device: &Device) -> Seq<char> {
        if self.dma_buf && !device.enabled_extensions.ext_external_memory_dma_buf {
            "`ExternalMemoryHandleTypes::dma_buf`"@
        } else {
            "`ExternalMemoryHandleTypes::host_allocation`"@
        }
    }

    /// Checks that the device can use these kinds of handle.
    pub fn validate_device(&self, device: &Device) -> (result: Result<(), RequirementNotMet>)
        ensures
            match self.missing_extension(device) {
                None => result is Ok,
                Some(extension) => result matches Err(err) && err.says(
                    self.missing_for(device),
                    None,
                    Seq::empty(),
                    seq![extension],
                ),
            },
    {
        let none: &'static [&'static str] = &[];
        if self.dma_buf && !device.enabled_extensions.ext_external_memory_dma_buf {
            let extensions: &'static [&'static str] = &["ext_external_memory_dma_buf"];
            let err = RequirementNotMet::new(
                "`ExternalMemoryHandleTypes::dma_buf`",
                None,
                none,
                extensions,
            );
            assert(names(extensions) =~= seq!["ext_external_memory_dma_buf"@]);
            assert(names(none) =~= Seq::<Seq<char>>::empty());
            return Err(err);
        }
        if (self.host_allocation || self.host_mapped_foreign_memory)
            && !device.enabled_extensions.ext_external_memory_host {
            let extensions: &'static [&'static str] = &["ext_external_memory_host"];
            let err = RequirementNotMet::new(
                "`ExternalMemoryHandleTypes::host_allocation`",
                None,
                none,
                extensions,
            );
            assert(names(extensions) =~= seq!["ext_external_memory_host"@]);
            assert(names(none) =~= Seq::<Seq<char>>::empty());
            return Err(err);
        }
        Ok(())
    }

    /// The set without any flag.
    pub open spec fn empty_spec() -> ExternalMemoryHandleTypes {
        ExternalMemoryHandleTypes {
            opaque_fd: false,
            opaque_win32: false,
            opaque_win32_kmt: false,
            d3d11_texture: false,
            d3d11_texture_kmt: false,
            d3d12_heap: false,
            d3d12_resource: false,
            dma_buf: false,
            android_hardware_buffer: false,
            host_allocation: false,
            host_mapped_foreign_memory: false,
        }
    }

    /// The set without any flag.
    pub fn empty() -> (flags: ExternalMemoryHandleTypes)
        ensures
            flags == ExternalMemoryHandleTypes::empty_spec(),
    {
        ExternalMemoryHandleTypes {
            opaque_fd: false,
            opaque_win32: false,
            opaque_win32_kmt: false,
            d3d11_texture: false,
            d3d11_texture_kmt: false,
            d3d12_heap: false,
            d3d12_resource: false,
            dma_buf: false,
            android_hardware_buffer: false,
            host_allocation: false,
            host_mapped_foreign_memory: false,
        }
    }

    /// Whether no flag is set.
    pub open spec fn is_empty_spec(self) -> bool {
        self == ExternalMemoryHandleTypes::empty_spec()
    }

    /// Whether no flag is set.
    pub fn is_empty(&self) -> (r: bool)
        ensures
            r == self.is_empty_spec(),
    {
        !(self.opaque_fd || self.opaque_win32 || self.opaque_win32_kmt || self.d3d11_texture || self.d3d11_texture_kmt || self.d3d12_heap || self.d3d12_resource || self.dma_buf || self.android_hardware_buffer || self.host_allocation || self.host_mapped_foreign_memory)
    }

    /// The flags that are set in `self` or in `other`.
    pub open spec fn union_spec(self, other: ExternalMemoryHandleTypes) -> ExternalMemoryHandleTypes {
        ExternalMemoryHandleTypes {
            opaque_fd: self.opaque_fd || other.opaque_fd,
            opaque_win32: self.opaque_win32 || other.opaque_win32,
            opaque_win32_kmt: self.opaque_win32_kmt || other.opaque_win32_kmt,
            d3d11_texture: self.d3d11_texture || other.d3d11_texture,
            d3d11_texture_kmt: self.d3d11_texture_kmt || other.d3d11_texture_kmt,
            d3d12_heap: self.d3d12_heap || other.d3d12_heap,
            d3d12_resource: self.d3d12_resource || other.d3d12_resource,
            dma_buf: self.dma_buf || other.dma_buf,
            android_hardware_buffer: self.android_hardware_buffer || other.android_hardware_buffer,
            host_allocation: self.host_allocation || other.host_allocation,
            host_mapped_foreign_memory: self.host_mapped_foreign_memory || other.host_mapped_foreign_memory,
        }
    }

    /// The flags that are set in `self` or in `other`.
    pub fn union(&self, other: &ExternalMemoryHandleTypes) -> (flags: ExternalMemoryHandleTypes)
        ensures
            flags == self.union_spec(*other),
    {
        ExternalMemoryHandleTypes {
            opaque_fd: self.opaque_fd || other.opaque_fd,
            opaque_win32: self.opaque_win32 || other.opaque_win32,
            opaque_win32_kmt: self.opaque_win32_kmt || other.opaque_win32_kmt,
            d3d11_texture: self.d3d11_texture || other.d3d11_texture,
            d3d11_texture_kmt: self.d3d11_texture_kmt || other.d3d11_texture_kmt,
            d3d12_heap: self.d3d12_heap || other.d3d12_heap,
            d3d12_resource: self.d3d12_resource || other.d3d12_resource,
            dma_buf: self.dma_buf || other.dma_buf,
            android_hardware_buffer: self.android_hardware_buffer || other.android_hardware_buffer,
            host_allocation: self.host_allocation || other.host_allocation,
            host_mapped_foreign_memory: self.host_mapped_foreign_memory || other.host_mapped_foreign_memory,
        }
    }

    /// The flags that are set in `self` and in `other`.
    pub open spec fn intersection_spec(self, other: ExternalMemoryHandleTypes) -> ExternalMemoryHandleTypes {
        ExternalMemoryHandleTypes {
            opaque_fd: self.opaque_fd && other.opaque_fd,
            opaque_win32: self.opaque_win32 && other.opaque_win32,
            opaque_win32_kmt: self.opaque_win32_kmt && other.opaque_win32_kmt,
            d3d11_texture: self.d3d11_texture && other.d3d11_texture,
            d3d11_texture_kmt: self.d3d11_texture_kmt && other.d3d11_texture_kmt,
            d3d12_heap: self.d3d12_heap && other.d3d12_heap,
            d3d12_resource: self.d3d12_resource && other.d3d12_resource,
            dma_buf: self.dma_buf && other.dma_buf,
            android_hardware_buffer: self.android_hardware_buffer && other.android_hardware_buffer,
            host_allocation: self.host_allocation && other.host_allocation,
            host_mapped_foreign_memory: self.host_mapped_foreign_memory && other.host_mapped_foreign_memory,
        }
    }

    /// The flags that are set in `self` and in `other`.
    pub fn intersection(&self, other: &ExternalMemoryHandleTypes) -> (flags: ExternalMemoryHandleTypes)
        ensures
            flags == self.intersection_spec(*other),
    {
        ExternalMemoryHandleTypes {
            opaque_fd: self.opaque_fd && other.opaque_fd,
            opaque_win32: self.opaque_win32 && other.opaque_win32,
            opaque_win32_kmt: self.opaque_win32_kmt && other.opaque_win32_kmt,
            d3d11_texture: self.d3d11_texture && other.d3d11_texture,
            d3d11_texture_kmt: self.d3d11_texture_kmt && other.d3d11_texture_kmt,
            d3d12_heap: self.d3d12_heap && other.d3d12_heap,
            d3d12_resource: self.d3d12_resource && other.d3d12_resource,
            dma_buf: self.dma_buf && other.dma_buf,
            android_hardware_buffer: self.android_hardware_buffer && other.android_hardware_buffer,
            host_allocation: self.host_allocation && other.host_allocation,
            host_mapped_foreign_memory: self.host_mapped_foreign_memory && other.host_mapped_foreign_memory,
        }
    }

    /// Whether every flag of `other` is set in `self`.
    pub open spec fn contains_spec(self, other: ExternalMemoryHandleTypes) -> bool {
        (other.opaque_fd ==> self.opaque_fd)
            && (other.opaque_win32 ==> self.opaque_win32)
            && (other.opaque_win32_kmt ==> self.opaque_win32_kmt)
            && (other.d3d11_texture ==> self.d3d11_texture)
            && (other.d3d11_texture_kmt ==> self.d3d11_texture_kmt)
            && (other.d3d12_heap ==> self.d3d12_heap)
            && (other.d3d12_resource ==> self.d3d12_resource)
            && (other.dma_buf ==> self.dma_buf)
            && (other.android_hardware_buffer ==> self.android_hardware_buffer)
            && (other.host_allocation ==> self.host_allocation)
            && (other.host_mapped_foreign_memory ==> self.host_mapped_foreign_memory)
    }

    /// Whether every flag of `other` is set in `self`.
    pub fn contains(&self, other: &ExternalMemoryHandleTypes) -> (r: bool)
        ensures
            r == self.contains_spec(*other),
    {
        (!other.opaque_fd || self.opaque_fd)
            && (!other.opaque_win32 || self.opaque_win32)
            && (!other.opaque_win32_kmt || self.opaque_win32_kmt)
            && (!other.d3d11_texture || self.d3d11_texture)
            && (!other.d3d11_texture_kmt || self.d3d11_texture_kmt)
            && (!other.d3d12_heap || self.d3d12_heap)
            && (!other.d3d12_resource || self.d3d12_resource)
            && (!other.dma_buf || self.dma_buf)
            && (!other.android_hardware_buffer || self.android_hardware_buffer)
            && (!other.host_allocation || self.host_allocation)
            && (!other.host_mapped_foreign_memory || self.host_mapped_foreign_memory)
    }
}
/// One binding of a range of a sparse resource to memory.
#[derive(Clone, Copy, Debug, PartialEq, Eq, Structural)]
pub struct BindSparseInfo {
    /// The key of the resource.
    pub resource: u64,
    /// The first byte of the resource that is bound.
    pub offset: DeviceSize,
    /// The number of bytes that are bound.
    pub size: DeviceSize,
    /// The memory to bind, by the driver's handle, or `None` to unbind.
    pub memory: Option<u64>,
    /// The first byte of the memory that is bound.
    pub memory_offset: DeviceSize,
}

} // verus!
