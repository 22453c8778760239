//! The device, as far as the rules of this library read it.

use crate::format::{Format, FormatProperties};
use crate::{DeviceSize, Version};
use vstd::prelude::*;

verus! {

/// The features that a device was created with.
#[derive(Clone, Copy, Debug, PartialEq, Eq, Hash, Structural)]
pub struct Features {
    pub sparse_binding: bool,
    pub sparse_residency_buffer: bool,
    pub sparse_residency_aliased: bool,
    pub image_cube_array: bool,
    pub multiview: bool,
    pub geometry_shader: bool,
    pub tessellation_shader: bool,
    pub synchronization2: bool,
    pub texel_buffer_alignment: bool,
    pub shader_storage_image_read_without_format: bool,
    pub shader_storage_image_write_without_format: bool,
}

impl Features {
    /// The set without any flag.
    pub open spec fn empty_spec() -> Features {
        Features {
            sparse_binding: false,
            sparse_residency_buffer: false,
            sparse_residency_aliased: false,
            image_cube_array: false,
            multiview: false,
            geometry_shader: false,
            tessellation_shader: false,
            synchronization2: false,
            texel_buffer_alignment: false,
            shader_storage_image_read_without_format: false,
            shader_storage_image_write_without_format: false,
        }
    }

    /// The set without any flag.
    pub fn empty() -> (flags: Features)
        ensures
            flags == Features::empty_spec(),
    {
        Features {
            sparse_binding: false,
            sparse_residency_buffer: false,
            sparse_residency_aliased: false,
            image_cube_array: false,
            multiview: false,
            geometry_shader: false,
            tessellation_shader: false,
            synchronization2: false,
            texel_buffer_alignment: false,
            shader_storage_image_read_without_format: false,
            shader_storage_image_write_without_format: false,
        }
    }

    /// Whether no flag is set.
    pub open spec fn is_empty_spec(self) -> bool {
        self == Features::empty_spec()
    }

    /// Whether no flag is set.
    pub fn is_empty(&self) -> (r: bool)
        ensures
            r == self.is_empty_spec(),
    {
        !(self.sparse_binding || self.sparse_residency_buffer || self.sparse_residency_aliased || self.image_cube_array || self.multiview || self.geometry_shader || self.tessellation_shader || self.synchronization2 || self.texel_buffer_alignment || self.shader_storage_image_read_without_format || self.shader_storage_image_write_without_format)
    }

    /// The flags that are set in `self` or in `other`.
    pub open spec fn union_spec(self, other: Features) -> Features {
        Features {
            sparse_binding: self.sparse_binding || other.sparse_binding,
            sparse_residency_buffer: self.sparse_residency_buffer || other.sparse_residency_buffer,
            sparse_residency_aliased: self.sparse_residency_aliased || other.sparse_residency_aliased,
            image_cube_array: self.image_cube_array || other.image_cube_array,
            multiview: self.multiview || other.multiview,
            geometry_shader: self.geometry_shader || other.geometry_shader,
            tessellation_shader: self.tessellation_shader || other.tessellation_shader,
            synchronization2: self.synchronization2 || other.synchronization2,
            texel_buffer_alignment: self.texel_buffer_alignment || other.texel_buffer_alignment,
            shader_storage_image_read_without_format: self.shader_storage_image_read_without_format || other.shader_storage_image_read_without_format,
            shader_storage_image_write_without_format: self.shader_storage_image_write_without_format || other.shader_storage_image_write_without_format,
        }
    }

    /// The flags that are set in `self` or in `other`.
    pub fn union(&self, other: &Features) -> (flags: Features)
        ensures
            flags == self.union_spec(*other),
    {
        Features {
            sparse_binding: self.sparse_binding || other.sparse_binding,
            sparse_residency_buffer: self.sparse_residency_buffer || other.sparse_residency_buffer,
            sparse_residency_aliased: self.sparse_residency_aliased || other.sparse_residency_aliased,
            image_cube_array: self.image_cube_array || other.image_cube_array,
            multiview: self.multiview || other.multiview,
            geometry_shader: self.geometry_shader || other.geometry_shader,
            tessellation_shader: self.tessellation_shader || other.tessellation_shader,
            synchronization2: self.synchronization2 || other.synchronization2,
            texel_buffer_alignment: self.texel_buffer_alignment || other.texel_buffer_alignment,
            shader_storage_image_read_without_format: self.shader_storage_image_read_without_format || other.shader_storage_image_read_without_format,
            shader_storage_image_write_without_format: self.shader_storage_image_write_without_format || other.shader_storage_image_write_without_format,
        }
    }

    /// The flags that are set in `self` and in `other`.
    pub open spec fn intersection_spec(self, other: Features) -> Features {
        Features {
            sparse_binding: self.sparse_binding && other.sparse_binding,
            sparse_residency_buffer: self.sparse_residency_buffer && other.sparse_residency_buffer,
            sparse_residency_aliased: self.sparse_residency_aliased && other.sparse_residency_aliased,
            image_cube_array: self.image_cube_array && other.image_cube_array,
            multiview: self.multiview && other.multiview,
            geometry_shader: self.geometry_shader && other.geometry_shader,
            tessellation_shader: self.tessellation_shader && other.tessellation_shader,
            synchronization2: self.synchronization2 && other.synchronization2,
            texel_buffer_alignment: self.texel_buffer_alignment && other.texel_buffer_alignment,
            shader_storage_image_read_without_format: self.shader_storage_image_read_without_format && other.shader_storage_image_read_without_format,
            shader_storage_image_write_without_format: self.shader_storage_image_write_without_format && other.shader_storage_image_write_without_format,
        }
    }

    /// The flags that are set in `self` and in `other`.
    pub fn intersection(&self, other: &Features) -> (flags: Features)
        ensures
            flags == self.intersection_spec(*other),
    {
        Features {
            sparse_binding: self.sparse_binding && other.sparse_binding,
            sparse_residency_buffer: self.sparse_residency_buffer && other.sparse_residency_buffer,
            sparse_residency_aliased: self.sparse_residency_aliased && other.sparse_residency_aliased,
            image_cube_array: self.image_cube_array && other.image_cube_array,
            multiview: self.multiview && other.multiview,
            geometry_shader: self.geometry_shader && other.geometry_shader,
            tessellation_shader: self.tessellation_shader && other.tessellation_shader,
            synchronization2: self.synchronization2 && other.synchronization2,
            texel_buffer_alignment: self.texel_buffer_alignment && other.texel_buffer_alignment,
            shader_storage_image_read_without_format: self.shader_storage_image_read_without_format && other.shader_storage_image_read_without_format,
            shader_storage_image_write_without_format: self.shader_storage_image_write_without_format && other.shader_storage_image_write_without_format,
        }
    }

    /// Whether every flag of `other` is set in `self`.
    pub open spec fn contains_spec(self, other: Features) -> bool {
        (other.sparse_binding ==> self.sparse_binding)
            && (other.sparse_residency_buffer ==> self.sparse_residency_buffer)
            && (other.sparse_residency_aliased ==> self.sparse_residency_aliased)
            && (other.image_cube_array ==> self.image_cube_array)
            && (other.multiview ==> self.multiview)
            && (other.geometry_shader ==> self.geometry_shader)
            && (other.tessellation_shader ==> self.tessellation_shader)
            && (other.synchronization2 ==> self.synchronization2)
            && (other.texel_buffer_alignment ==> self.texel_buffer_alignment)
            && (other.shader_storage_image_read_without_format ==> self.shader_storage_image_read_without_format)
            && (other.shader_storage_image_write_without_format ==> self.shader_storage_image_write_without_format)
    }

    /// Whether every flag of `other` is set in `self`.
    pub fn contains(&self, other: &Features) -> (r: bool)
        ensures
            r == self.contains_spec(*other),
    {
        (!other.sparse_binding || self.sparse_binding)
            && (!other.sparse_residency_buffer || self.sparse_residency_buffer)
            && (!other.sparse_residency_aliased || self.sparse_residency_aliased)
            && (!other.image_cube_array || self.image_cube_array)
            && (!other.multiview || self.multiview)
            && (!other.geometry_shader || self.geometry_shader)
            && (!other.tessellation_shader || self.tessellation_shader)
            && (!other.synchronization2 || self.synchronization2)
            && (!other.texel_buffer_alignment || self.texel_buffer_alignment)
            && (!other.shader_storage_image_read_without_format || self.shader_storage_image_read_without_format)
            && (!other.shader_storage_image_write_without_format || self.shader_storage_image_write_without_format)
    }
}
/// The extensions that a device was created with.
#[derive(Clone, Copy, Debug, PartialEq, Eq, Hash, Structural)]
pub struct DeviceExtensions {
    pub khr_external_memory: bool,
    pub khr_external_memory_fd: bool,
    pub khr_dedicated_allocation: bool,
    pub khr_get_memory_requirements2: bool,
    pub khr_maintenance2: bool,
    pub khr_create_renderpass2: bool,
    pub khr_format_feature_flags2: bool,
    pub khr_sampler_ycbcr_conversion: bool,
    pub khr_buffer_device_address: bool,
    pub ext_buffer_device_address: bool,
    pub ext_external_memory_dma_buf: bool,
    pub ext_external_memory_host: bool,
    pub ext_filter_cubic: bool,
}

impl DeviceExtensions {
    /// The set without any flag.
    pub open spec fn empty_spec() -> DeviceExtensions {
        DeviceExtensions {
            khr_external_memory: false,
            khr_external_memory_fd: false,
            khr_dedicated_allocation: false,
            khr_get_memory_requirements2: false,
            khr_maintenance2: false,
            khr_create_renderpass2: false,
            khr_format_feature_flags2: false,
            khr_sampler_ycbcr_conversion: false,
            khr_buffer_device_address: false,
            ext_buffer_device_address: false,
            ext_external_memory_dma_buf: false,
            ext_external_memory_host: false,
            ext_filter_cubic: false,
        }
    }

    /// The set without any flag.
    pub fn empty() -> (flags: DeviceExtensions)
        ensures
            flags == DeviceExtensions::empty_spec(),
    {
        DeviceExtensions {
            khr_external_memory: false,
            khr_external_memory_fd: false,
            khr_dedicated_allocation: false,
            khr_get_memory_requirements2: false,
            khr_maintenance2: false,
            khr_create_renderpass2: false,
            khr_format_feature_flags2: false,
            khr_sampler_ycbcr_conversion: false,
            khr_buffer_device_address: false,
            ext_buffer_device_address: false,
            ext_external_memory_dma_buf: false,
            ext_external_memory_host: false,
            ext_filter_cubic: false,
        }
    }

    /// Whether no flag is set.
    pub open spec fn is_empty_spec(self) -> bool {
        self == DeviceExtensions::empty_spec()
    }

    /// Whether no flag is set.
    pub fn is_empty(&self) -> (r: bool)
        ensures
            r == self.is_empty_spec(),
    {
        !(self.khr_external_memory || self.khr_external_memory_fd || self.khr_dedicated_allocation || self.khr_get_memory_requirements2 || self.khr_maintenance2 || self.khr_create_renderpass2 || self.khr_format_feature_flags2 || self.khr_sampler_ycbcr_conversion || self.khr_buffer_device_address || self.ext_buffer_device_address || self.ext_external_memory_dma_buf || self.ext_external_memory_host || self.ext_filter_cubic)
    }

    /// The flags that are set in `self` or in `other`.
    pub open spec fn union_spec(self, other: DeviceExtensions) -> DeviceExtensions {
        DeviceExtensions {
            khr_external_memory: self.khr_external_memory || other.khr_external_memory,
            khr_external_memory_fd: self.khr_external_memory_fd || other.khr_external_memory_fd,
            khr_dedicated_allocation: self.khr_dedicated_allocation || other.khr_dedicated_allocation,
            khr_get_memory_requirements2: self.khr_get_memory_requirements2 || other.khr_get_memory_requirements2,
            khr_maintenance2: self.khr_maintenance2 || other.khr_maintenance2,
            khr_create_renderpass2: self.khr_create_renderpass2 || other.khr_create_renderpass2,
            khr_format_feature_flags2: self.khr_format_feature_flags2 || other.khr_format_feature_flags2,
            khr_sampler_ycbcr_conversion: self.khr_sampler_ycbcr_conversion || other.khr_sampler_ycbcr_conversion,
            khr_buffer_device_address: self.khr_buffer_device_address || other.khr_buffer_device_address,
            ext_buffer_device_address: self.ext_buffer_device_address || other.ext_buffer_device_address,
            ext_external_memory_dma_buf: self.ext_external_memory_dma_buf || other.ext_external_memory_dma_buf,
            ext_external_memory_host: self.ext_external_memory_host || other.ext_external_memory_host,
            ext_filter_cubic: self.ext_filter_cubic || other.ext_filter_cubic,
        }
    }

    /// The flags that are set in `self` or in `other`.
    pub fn union(&self, other: &DeviceExtensions) -> (flags: DeviceExtensions)
        ensures
            flags == self.union_spec(*other),
    {
        DeviceExtensions {
            khr_external_memory: self.khr_external_memory || other.khr_external_memory,
            khr_external_memory_fd: self.khr_external_memory_fd || other.khr_external_memory_fd,
            khr_dedicated_allocation: self.khr_dedicated_allocation || other.khr_dedicated_allocation,
            khr_get_memory_requirements2: self.khr_get_memory_requirements2 || other.khr_get_memory_requirements2,
            khr_maintenance2: self.khr_maintenance2 || other.khr_maintenance2,
            khr_create_renderpass2: self.khr_create_renderpass2 || other.khr_create_renderpass2,
            khr_format_feature_flags2: self.khr_format_feature_flags2 || other.khr_format_feature_flags2,
            khr_sampler_ycbcr_conversion: self.khr_sampler_ycbcr_conversion || other.khr_sampler_ycbcr_conversion,
            khr_buffer_device_address: self.khr_buffer_device_address || other.khr_buffer_device_address,
            ext_buffer_device_address: self.ext_buffer_device_address || other.ext_buffer_device_address,
            ext_external_memory_dma_buf: self.ext_external_memory_dma_buf || other.ext_external_memory_dma_buf,
            ext_external_memory_host: self.ext_external_memory_host || other.ext_external_memory_host,
            ext_filter_cubic: self.ext_filter_cubic || other.ext_filter_cubic,
        }
    }

    /// The flags that are set in `self` and in `other`.
    pub open spec fn intersection_spec(self, other: DeviceExtensions) -> DeviceExtensions {
        DeviceExtensions {
            khr_external_memory: self.khr_external_memory && other.khr_external_memory,
            khr_external_memory_fd: self.khr_external_memory_fd && other.khr_external_memory_fd,
            khr_dedicated_allocation: self.khr_dedicated_allocation && other.khr_dedicated_allocation,
            khr_get_memory_requirements2: self.khr_get_memory_requirements2 && other.khr_get_memory_requirements2,
            khr_maintenance2: self.khr_maintenance2 && other.khr_maintenance2,
            khr_create_renderpass2: self.khr_create_renderpass2 && other.khr_create_renderpass2,
            khr_format_feature_flags2: self.khr_format_feature_flags2 && other.khr_format_feature_flags2,
            khr_sampler_ycbcr_conversion: self.khr_sampler_ycbcr_conversion && other.khr_sampler_ycbcr_conversion,
            khr_buffer_device_address: self.khr_buffer_device_address && other.khr_buffer_device_address,
            ext_buffer_device_address: self.ext_buffer_device_address && other.ext_buffer_device_address,
            ext_external_memory_dma_buf: self.ext_external_memory_dma_buf && other.ext_external_memory_dma_buf,
            ext_external_memory_host: self.ext_external_memory_host && other.ext_external_memory_host,
            ext_filter_cubic: self.ext_filter_cubic && other.ext_filter_cubic,
        }
    }

    /// The flags that are set in `self` and in `other`.
    pub fn intersection(&self, other: &DeviceExtensions) -> (flags: DeviceExtensions)
        ensures
            flags == self.intersection_spec(*other),
    {
        DeviceExtensions {
            khr_external_memory: self.khr_external_memory && other.khr_external_memory,
            khr_external_memory_fd: self.khr_external_memory_fd && other.khr_external_memory_fd,
            khr_dedicated_allocation: self.khr_dedicated_allocation && other.khr_dedicated_allocation,
            khr_get_memory_requirements2: self.khr_get_memory_requirements2 && other.khr_get_memory_requirements2,
            khr_maintenance2: self.khr_maintenance2 && other.khr_maintenance2,
            khr_create_renderpass2: self.khr_create_renderpass2 && other.khr_create_renderpass2,
            khr_format_feature_flags2: self.khr_format_feature_flags2 && other.khr_format_feature_flags2,
            khr_sampler_ycbcr_conversion: self.khr_sampler_ycbcr_conversion && other.khr_sampler_ycbcr_conversion,
            khr_buffer_device_address: self.khr_buffer_device_address && other.khr_buffer_device_address,
            ext_buffer_device_address: self.ext_buffer_device_address && other.ext_buffer_device_address,
            ext_external_memory_dma_buf: self.ext_external_memory_dma_buf && other.ext_external_memory_dma_buf,
            ext_external_memory_host: self.ext_external_memory_host && other.ext_external_memory_host,
            ext_filter_cubic: self.ext_filter_cubic && other.ext_filter_cubic,
        }
    }

    /// Whether every flag of `other` is set in `self`.
    pub open spec fn contains_spec(self, other: DeviceExtensions) -> bool {
        (other.khr_external_memory ==> self.khr_external_memory)
            && (other.khr_external_memory_fd ==> self.khr_external_memory_fd)
            && (other.khr_dedicated_allocation ==> self.khr_dedicated_allocation)
            && (other.khr_get_memory_requirements2 ==> self.khr_get_memory_requirements2)
            && (other.khr_maintenance2 ==> self.khr_maintenance2)
            && (other.khr_create_renderpass2 ==> self.khr_create_renderpass2)
            && (other.khr_format_feature_flags2 ==> self.khr_format_feature_flags2)
            && (other.khr_sampler_ycbcr_conversion ==> self.khr_sampler_ycbcr_conversion)
            && (other.khr_buffer_device_address ==> self.khr_buffer_device_address)
            && (other.ext_buffer_device_address ==> self.ext_buffer_device_address)
            && (other.ext_external_memory_dma_buf ==> self.ext_external_memory_dma_buf)
            && (other.ext_external_memory_host ==> self.ext_external_memory_host)
            && (other.ext_filter_cubic ==> self.ext_filter_cubic)
    }

    /// Whether every flag of `other` is set in `self`.
    pub fn contains(&self, other: &DeviceExtensions) -> (r: bool)
        ensures
            r == self.contains_spec(*other),
    {
        (!other.khr_external_memory || self.khr_external_memory)
            && (!other.khr_external_memory_fd || self.khr_external_memory_fd)
            && (!other.khr_dedicated_allocation || self.khr_dedicated_allocation)
            && (!other.khr_get_memory_requirements2 || self.khr_get_memory_requirements2)
            && (!other.khr_maintenance2 || self.khr_maintenance2)
            && (!other.khr_create_renderpass2 || self.khr_create_renderpass2)
            && (!other.khr_format_feature_flags2 || self.khr_format_feature_flags2)
            && (!other.khr_sampler_ycbcr_conversion || self.khr_sampler_ycbcr_conversion)
            && (!other.khr_buffer_device_address || self.khr_buffer_device_address)
            && (!other.ext_buffer_device_address || self.ext_buffer_device_address)
            && (!other.ext_external_memory_dma_buf || self.ext_external_memory_dma_buf)
            && (!other.ext_external_memory_host || self.ext_external_memory_host)
            && (!other.ext_filter_cubic || self.ext_filter_cubic)
    }
}
/// The properties of a type of memory.
#[derive(Clone, Copy, Debug, PartialEq, Eq, Hash, Structural)]
pub struct MemoryPropertyFlags {
    pub device_local: bool,
    pub host_visible: bool,
    pub host_coherent: bool,
    pub host_cached: bool,
    pub lazily_allocated: bool,
    pub protected: bool,
}

impl MemoryPropertyFlags {
    /// The set without any flag.
    pub open spec fn empty_spec() -> MemoryPropertyFlags {
        MemoryPropertyFlags {
            device_local: false,
            host_visible: false,
            host_coherent: false,
            host_cached: false,
            lazily_allocated: false,
            protected: false,
        }
    }

    /// The set without any flag.
    pub fn empty() -> (flags: MemoryPropertyFlags)
        ensures
            flags == MemoryPropertyFlags::empty_spec(),
    {
        MemoryPropertyFlags {
            device_local: false,
            host_visible: false,
            host_coherent: false,
            host_cached: false,
            lazily_allocated: false,
            protected: false,
        }
    }

    /// Whether no flag is set.
    pub open spec fn is_empty_spec(self) -> bool {
        self == MemoryPropertyFlags::empty_spec()
    }

    /// Whether no flag is set.
    pub fn is_empty(&self) -> (r: bool)
        ensures
            r == self.is_empty_spec(),
    {
        !(self.device_local || self.host_visible || self.host_coherent || self.host_cached || self.lazily_allocated || self.protected)
    }

    /// The flags that are set in `self` or in `other`.
    pub open spec fn union_spec(self, other: MemoryPropertyFlags) -> MemoryPropertyFlags {
        MemoryPropertyFlags {
            device_local: self.device_local || other.device_local,
            host_visible: self.host_visible || other.host_visible,
            host_coherent: self.host_coherent || other.host_coherent,
            host_cached: self.host_cached || other.host_cached,
            lazily_allocated: self.lazily_allocated || other.lazily_allocated,
            protected: self.protected || other.protected,
        }
    }

    /// The flags that are set in `self` or in `other`.
    pub fn union(&self, other: &MemoryPropertyFlags) -> (flags: MemoryPropertyFlags)
        ensures
            flags == self.union_spec(*other),
    {
        MemoryPropertyFlags {
            device_local: self.device_local || other.device_local,
            host_visible: self.host_visible || other.host_visible,
            host_coherent: self.host_coherent || other.host_coherent,
            host_cached: self.host_cached || other.host_cached,
            lazily_allocated: self.lazily_allocated || other.lazily_allocated,
            protected: self.protected || other.protected,
        }
    }

    /// The flags that are set in `self` and in `other`.
    pub open spec fn intersection_spec(self, other: MemoryPropertyFlags) -> MemoryPropertyFlags {
        MemoryPropertyFlags {
            device_local: self.device_local && other.device_local,
            host_visible: self.host_visible && other.host_visible,
            host_coherent: self.host_coherent && other.host_coherent,
            host_cached: self.host_cached && other.host_cached,
            lazily_allocated: self.lazily_allocated && other.lazily_allocated,
            protected: self.protected && other.protected,
        }
    }

    /// The flags that are set in `self` and in `other`.
    pub fn intersection(&self, other: &MemoryPropertyFlags) -> (flags: MemoryPropertyFlags)
        ensures
            flags == self.intersection_spec(*other),
    {
        MemoryPropertyFlags {
            device_local: self.device_local && other.device_local,
            host_visible: self.host_visible && other.host_visible,
            host_coherent: self.host_coherent && other.host_coherent,
            host_cached: self.host_cached && other.host_cached,
            lazily_allocated: self.lazily_allocated && other.lazily_allocated,
            protected: self.protected && other.protected,
        }
    }

    /// Whether every flag of `other` is set in `self`.
    pub open spec fn contains_spec(self, other: MemoryPropertyFlags) -> bool {
        (other.device_local ==> self.device_local)
            && (other.host_visible ==> self.host_visible)
            && (other.host_coherent ==> self.host_coherent)
            && (other.host_cached ==> self.host_cached)
            && (other.lazily_allocated ==> self.lazily_allocated)
            && (other.protected ==> self.protected)
    }

    /// Whether every flag of `other` is set in `self`.
    pub fn contains(&self, other: &MemoryPropertyFlags) -> (r: bool)
        ensures
            r == self.contains_spec(*other),
    {
        (!other.device_local || self.device_local)
            && (!other.host_visible || self.host_visible)
            && (!other.host_coherent || self.host_coherent)
            && (!other.host_cached || self.host_cached)
            && (!other.lazily_allocated || self.lazily_allocated)
            && (!other.protected || self.protected)
    }
}
/// A type of memory that a device offers.
#[derive(Clone, Copy, Debug, PartialEq, Eq, Structural)]
pub struct MemoryType {
    /// The properties of the memory.
    pub property_flags: MemoryPropertyFlags,
    /// The heap that the memory is taken from.
    pub heap_index: u32,
}

/// The limits and other properties of a physical device.
#[derive(Clone, Copy, Debug, PartialEq, Eq)]
pub struct Properties {
    /// The largest size of a buffer, where the device names one.
    pub max_buffer_size: Option<DeviceSize>,
    /// The alignment of the offset of a texel buffer within its memory.
    pub min_texel_buffer_offset_alignment: DeviceSize,
    /// The alignment of the offset of a storage buffer within its memory.
    pub min_storage_buffer_offset_alignment: DeviceSize,
    /// The alignment of the offset of a uniform buffer within its memory.
    pub min_uniform_buffer_offset_alignment: DeviceSize,
    /// The largest number of elements of a texel buffer.
    pub max_texel_buffer_elements: u32,
    /// The alignment of the offset of a storage texel buffer.
    pub storage_texel_buffer_offset_alignment_bytes: Option<DeviceSize>,
    /// Whether the alignment of one texel is enough for a storage texel
    /// buffer.
    pub storage_texel_buffer_offset_single_texel_alignment: Option<bool>,
    /// The alignment of the offset of a uniform texel buffer.
    pub uniform_texel_buffer_offset_alignment_bytes: Option<DeviceSize>,
    /// Whether the alignment of one texel is enough for a uniform texel
    /// buffer.
    pub uniform_texel_buffer_offset_single_texel_alignment: Option<bool>,
    /// The largest number of views of a render pass.
    pub max_multiview_view_count: Option<u32>,
    /// The largest number of color attachments of a subpass.
    pub max_color_attachments: u32,
}

/// What a device can do with one format.
#[derive(Clone, Copy, Debug, PartialEq, Eq)]
pub struct FormatSupport {
    /// The format.
    pub format: Format,
    /// What the device can do with it.
    pub properties: FormatProperties,
}

/// A physical device: what the driver reports of the hardware.
#[derive(Clone, Debug, PartialEq, Eq)]
pub struct PhysicalDevice {
    /// The limits of the device.
    pub properties: Properties,
    /// The types of memory that the device offers.
    pub memory_types: Vec<MemoryType>,
    /// The number of families of queues.
    pub queue_family_count: u32,
    /// The extensions that the device could be created with.
    pub supported_extensions: DeviceExtensions,
    /// What the device can do with each format that it can use at all.
    pub format_support: Vec<FormatSupport>,
}

/// What `list` says of `format`: the properties of the first entry for it,
/// or those of a format that cannot be used for anything.
pub open spec fn format_properties_in(list: Seq<FormatSupport>, format: Format) -> FormatProperties
    decreases list.len(),
{
    if list.len() == 0 {
        FormatProperties::none_spec()
    } else if list[0].format == format {
        list[0].properties
    } else {
        format_properties_in(list.drop_first(), format)
    }
}

impl PhysicalDevice {
    /// What the device can do with a format.
    pub open spec fn format_properties_spec(&self, format: Format) -> FormatProperties {
        format_properties_in(self.format_support@, format)
    }

    /// Retrieves the properties of a format when used by this physical device.
    pub fn format_properties(&self, format: Format) -> (properties: FormatProperties)
        ensures
            properties == self.format_properties_spec(format),
    {
        let ghost list = self.format_support@;
        let mut i: usize = 0;
        assert(list.skip(0) =~= list);
        while i < self.format_support.len()
            invariant
                list == self.format_support@,
                i <= list.len(),
                format_properties_in(list, format) == format_properties_in(
                    list.skip(i as int),
                    format,
                ),
            decreases list.len() - i,
        {
            proof {
                assert(list.skip(i as int)[0] == list[i as int]);
                assert(list.skip(i as int).drop_first() =~= list.skip(i + 1));
            }
            if self.format_support[i].format == format {
                return self.format_support[i].properties;
            }
            i += 1;
        }
        FormatProperties::none()
    }
}

/// A device: what was asked of the driver when it was created.
#[derive(Clone, Debug, PartialEq, Eq)]
pub struct Device {
    /// The driver's handle of the device.
    pub handle: u64,
    /// The version of the device interface that the device speaks.
    pub api_version: Version,
    /// The extensions that the device was created with.
    pub enabled_extensions: DeviceExtensions,
    /// The features that the device was created with.
    pub enabled_features: Features,
    /// The hardware behind the device.
    pub physical_device: PhysicalDevice,
}

/// A queue of a device: work is handed to the device through one.
#[derive(Clone, Copy, Debug, PartialEq, Eq, Structural)]
pub struct Queue {
    /// The device that the queue belongs to.
    pub device: u64,
    /// The family of queues that the queue belongs to.
    pub queue_family_index: u32,
    /// The number of the queue within its family.
    pub id_within_family: u32,
}

} // verus!
