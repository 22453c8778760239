//! Buffers: linear regions of device memory.

use crate::device::Device;
use crate::{names, RequirementNotMet, Version};
use vstd::prelude::*;

pub mod cpu_access;
pub mod device_local;
pub mod sys;
pub mod view;

verus! {

/// The buffer as the driver has it, and where a buffer of the library
/// starts within it.
#[derive(Clone, Copy, Debug, PartialEq, Eq, Structural)]
pub struct BufferInner {
    /// The underlying buffer.
    pub buffer: sys::UnsafeBuffer,
    /// The offset in bytes from the start of the underlying buffer object to the start of the
    /// buffer we're describing.
    pub offset: crate::DeviceSize,
}

/// Trait for objects that represent a way for the GPU to have access to a buffer or a slice of a
/// buffer.
pub trait BufferAccess {
    /// The underlying buffer and the offset within it.
    spec fn inner_spec(&self) -> BufferInner;

    /// The size of the buffer in bytes.
    spec fn size_spec(&self) -> crate::DeviceSize;

    /// Returns the inner information about this buffer.
    fn inner(&self) -> (inner: BufferInner)
        ensures
            inner == self.inner_spec(),
    ;

    /// Returns the size of the buffer in bytes.
    fn size(&self) -> (size: crate::DeviceSize)
        ensures
            size == self.size_spec(),
    ;
}

/// What a buffer is going to be used for.
#[derive(Clone, Copy, Debug, PartialEq, Eq, Hash, Structural)]
pub struct BufferUsage {
    pub transfer_src: bool,
    pub transfer_dst: bool,
    pub uniform_texel_buffer: bool,
    pub storage_texel_buffer: bool,
    pub uniform_buffer: bool,
    pub storage_buffer: bool,
    pub index_buffer: bool,
    pub vertex_buffer: bool,
    pub indirect_buffer: bool,
    pub shader_device_address: bool,
}

impl BufferUsage {
    /// Whether the device lacks what the usage asks for: the address of a
    /// buffer can be asked for on a device that speaks version 1.2 or has one
    /// of the two extensions for it.
    pub open spec fn device_refusal(self, device: &Device) -> bool {
        self.shader_device_address && !device.api_version.at_least_spec(
            Version::major_minor_spec(1, 2),
        ) && !device.enabled_extensions.khr_buffer_device_address
            && !device.enabled_extensions.ext_buffer_device_address
    }

    /// Checks that the device can use a buffer in these ways.
    pub fn validate_device(&self, device: &Device) -> (result: Result<(), RequirementNotMet>)
        ensures
            result is Err <==> self.device_refusal(device),
            result matches Err(err) ==> err.says(
                "`BufferUsage::shader_device_address`"@,
                Some(Version::major_minor_spec(1, 2)),
                Seq::empty(),
                seq!["khr_buffer_device_address"@, "ext_buffer_device_address"@],
            ),
    {
        if self.shader_device_address && !device.api_version.at_least(Version::v1_2())
            && !device.enabled_extensions.khr_buffer_device_address
            && !device.enabled_extensions.ext_buffer_device_address {
            let none: &'static [&'static str] = &[];
            let extensions: &'static [&'static str] = &[
                "khr_buffer_device_address",
                "ext_buffer_device_address",
            ];
            let err = RequirementNotMet::new(
                "`BufferUsage::shader_device_address`",
                Some(Version::v1_2()),
                none,
                extensions,
            );
            assert(names(extensions) =~= seq![
                "khr_buffer_device_address"@,
                "ext_buffer_device_address"@,
            ]);
            assert(names(none) =~= Seq::<Seq<char>>::empty());
            Err(err)
        } else {
            Ok(())
        }
    }

    /// The set without any flag.
    pub open spec fn empty_spec() -> BufferUsage {
        BufferUsage {
            transfer_src: false,
            transfer_dst: false,
            uniform_texel_buffer: false,
            storage_texel_buffer: false,
            uniform_buffer: false,
            storage_buffer: false,
            index_buffer: false,
            vertex_buffer: false,
            indirect_buffer: false,
            shader_device_address: false,
        }
    }

    /// The set without any flag.
    pub fn empty() -> (flags: BufferUsage)
        ensures
            flags == BufferUsage::empty_spec(),
    {
        BufferUsage {
            transfer_src: false,
            transfer_dst: false,
            uniform_texel_buffer: false,
            storage_texel_buffer: false,
            uniform_buffer: false,
            storage_buffer: false,
            index_buffer: false,
            vertex_buffer: false,
            indirect_buffer: false,
            shader_device_address: false,
        }
    }

    /// Whether no flag is set.
    pub open spec fn is_empty_spec(self) -> bool {
        self == BufferUsage::empty_spec()
    }

    /// Whether no flag is set.
    pub fn is_empty(&self) -> (r: bool)
        ensures
            r == self.is_empty_spec(),
    {
        !(self.transfer_src || self.transfer_dst || self.uniform_texel_buffer || self.storage_texel_buffer || self.uniform_buffer || self.storage_buffer || self.index_buffer || self.vertex_buffer || self.indirect_buffer || self.shader_device_address)
    }

    /// The flags that are set in `self` or in `other`.
    pub open spec fn union_spec(self, other: BufferUsage) -> BufferUsage {
        BufferUsage {
            transfer_src: self.transfer_src || other.transfer_src,
            transfer_dst: self.transfer_dst || other.transfer_dst,
            uniform_texel_buffer: self.uniform_texel_buffer || other.uniform_texel_buffer,
            storage_texel_buffer: self.storage_texel_buffer || other.storage_texel_buffer,
            uniform_buffer: self.uniform_buffer || other.uniform_buffer,
            storage_buffer: self.storage_buffer || other.storage_buffer,
            index_buffer: self.index_buffer || other.index_buffer,
            vertex_buffer: self.vertex_buffer || other.vertex_buffer,
            indirect_buffer: self.indirect_buffer || other.indirect_buffer,
            shader_device_address: self.shader_device_address || other.shader_device_address,
        }
    }

    /// The flags that are set in `self` or in `other`.
    pub fn union(&self, other: &BufferUsage) -> (flags: BufferUsage)
        ensures
            flags == self.union_spec(*other),
    {
        BufferUsage {
            transfer_src: self.transfer_src || other.transfer_src,
            transfer_dst: self.transfer_dst || other.transfer_dst,
            uniform_texel_buffer: self.uniform_texel_buffer || other.uniform_texel_buffer,
            storage_texel_buffer: self.storage_texel_buffer || other.storage_texel_buffer,
            uniform_buffer: self.uniform_buffer || other.uniform_buffer,
            storage_buffer: self.storage_buffer || other.storage_buffer,
            index_buffer: self.index_buffer || other.index_buffer,
            vertex_buffer: self.vertex_buffer || other.vertex_buffer,
            indirect_buffer: self.indirect_buffer || other.indirect_buffer,
            shader_device_address: self.shader_device_address || other.shader_device_address,
        }
    }

    /// The flags that are set in `self` and in `other`.
    pub open spec fn intersection_spec(self, other: BufferUsage) -> BufferUsage {
        BufferUsage {
            transfer_src: self.transfer_src && other.transfer_src,
            transfer_dst: self.transfer_dst && other.transfer_dst,
            uniform_texel_buffer: self.uniform_texel_buffer && other.uniform_texel_buffer,
            storage_texel_buffer: self.storage_texel_buffer && other.storage_texel_buffer,
            uniform_buffer: self.uniform_buffer && other.uniform_buffer,
            storage_buffer: self.storage_buffer && other.storage_buffer,
            index_buffer: self.index_buffer && other.index_buffer,
            vertex_buffer: self.vertex_buffer && other.vertex_buffer,
            indirect_buffer: self.indirect_buffer && other.indirect_buffer,
            shader_device_address: self.shader_device_address && other.shader_device_address,
        }
    }

    /// The flags that are set in `self` and in `other`.
    pub fn intersection(&self, other: &BufferUsage) -> (flags: BufferUsage)
        ensures
            flags == self.intersection_spec(*other),
    {
        BufferUsage {
            transfer_src: self.transfer_src && other.transfer_src,
            transfer_dst: self.transfer_dst && other.transfer_dst,
            uniform_texel_buffer: self.uniform_texel_buffer && other.uniform_texel_buffer,
            storage_texel_buffer: self.storage_texel_buffer && other.storage_texel_buffer,
            uniform_buffer: self.uniform_buffer && other.uniform_buffer,
            storage_buffer: self.storage_buffer && other.storage_buffer,
            index_buffer: self.index_buffer && other.index_buffer,
            vertex_buffer: self.vertex_buffer && other.vertex_buffer,
            indirect_buffer: self.indirect_buffer && other.indirect_buffer,
            shader_device_address: self.shader_device_address && other.shader_device_address,
        }
    }

    /// Whether every flag of `other` is set in `self`.
    pub open spec fn contains_spec(self, other: BufferUsage) -> bool {
        (other.transfer_src ==> self.transfer_src)
            && (other.transfer_dst ==> self.transfer_dst)
            && (other.uniform_texel_buffer ==> self.uniform_texel_buffer)
            && (other.storage_texel_buffer ==> self.storage_texel_buffer)
            && (other.uniform_buffer ==> self.uniform_buffer)
            && (other.storage_buffer ==> self.storage_buffer)
            && (other.index_buffer ==> self.index_buffer)
            && (other.vertex_buffer ==> self.vertex_buffer)
            && (other.indirect_buffer ==> self.indirect_buffer)
            && (other.shader_device_address ==> self.shader_device_address)
    }

    /// Whether every flag of `other` is set in `self`.
    pub fn contains(&self, other: &BufferUsage) -> (r: bool)
        ensures
            r == self.contains_spec(*other),
    {
        (!other.transfer_src || self.transfer_src)
            && (!other.transfer_dst || self.transfer_dst)
            && (!other.uniform_texel_buffer || self.uniform_texel_buffer)
            && (!other.storage_texel_buffer || self.storage_texel_buffer)
            && (!other.uniform_buffer || self.uniform_buffer)
            && (!other.storage_buffer || self.storage_buffer)
            && (!other.index_buffer || self.index_buffer)
            && (!other.vertex_buffer || self.vertex_buffer)
            && (!other.indirect_buffer || self.indirect_buffer)
            && (!other.shader_device_address || self.shader_device_address)
    }
}
} // verus!
